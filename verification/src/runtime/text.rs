//! Text that messages are made of.
use vstd::prelude::*;
use vstd::string::*;
use vstd::utf8::*;

verus! {

/// Whether two strings hold the same characters.
pub fn same_text(a: &str, b: &str) -> (same: bool)
    ensures
        same == (a@ == b@),
{
    let left = a.as_bytes();
    let right = b.as_bytes();
    let n: usize = left.len();
    if n != right.len() {
        return false;
    }
    let mut i: usize = 0;
    while i < n
        invariant
            i <= n,
            n == left@.len(),
            n == right@.len(),
            left@ == encode_utf8(a@),
            right@ == encode_utf8(b@),
            forall|j: int| 0 <= j < i ==> left@[j] == right@[j],
        decreases n - i,
    {
        if left[i] != right[i] {
            return false;
        }
        i = i + 1;
    }
    proof {
        assert(left@ =~= right@);
        encode_utf8_decode_utf8(a@);
        encode_utf8_decode_utf8(b@);
    }
    true
}

/// The decimal digit `d`.
pub open spec fn digit(d: int) -> char
    recommends
        0 <= d < 10,
{
    if d == 0 {
        '0'
    } else if d == 1 {
        '1'
    } else if d == 2 {
        '2'
    } else if d == 3 {
        '3'
    } else if d == 4 {
        '4'
    } else if d == 5 {
        '5'
    } else if d == 6 {
        '6'
    } else if d == 7 {
        '7'
    } else if d == 8 {
        '8'
    } else {
        '9'
    }
}

/// `n` in decimal, without leading zeros.
pub open spec fn natural_text(n: nat) -> Seq<char>
    decreases n,
{
    if n < 10 {
        seq![digit(n as int)]
    } else {
        natural_text(n / 10).push(digit((n % 10) as int))
    }
}

/// `n` in decimal, with a leading minus when it is negative.
pub open spec fn integer_text(n: int) -> Seq<char> {
    if n < 0 {
        seq!['-'] + natural_text((-n) as nat)
    } else {
        natural_text(n as nat)
    }
}

fn digit_text(d: u64) -> (text: &'static str)
    requires
        d < 10,
    ensures
        text@ == seq![digit(d as int)],
{
    proof {
        reveal_strlit("0");
        reveal_strlit("1");
        reveal_strlit("2");
        reveal_strlit("3");
        reveal_strlit("4");
        reveal_strlit("5");
        reveal_strlit("6");
        reveal_strlit("7");
        reveal_strlit("8");
        reveal_strlit("9");
    }
    let text = if d == 0 {
        "0"
    } else if d == 1 {
        "1"
    } else if d == 2 {
        "2"
    } else if d == 3 {
        "3"
    } else if d == 4 {
        "4"
    } else if d == 5 {
        "5"
    } else if d == 6 {
        "6"
    } else if d == 7 {
        "7"
    } else if d == 8 {
        "8"
    } else {
        "9"
    };
    assert(text@ =~= seq![digit(d as int)]);
    text
}

/// `n` in decimal.
pub fn natural(n: u64) -> (text: String)
    ensures
        text@ == natural_text(n as nat),
    decreases n,
{
    if n < 10 {
        digit_text(n).to_owned()
    } else {
        let mut text = natural(n / 10);
        text.append(digit_text(n % 10));
        assert(text@ =~= natural_text(n as nat));
        text
    }
}

/// `n` in decimal, with its sign when it is negative.
pub fn integer(n: i32) -> (text: String)
    ensures
        text@ == integer_text(n as int),
{
    if n < 0 {
        proof {
            reveal_strlit("-");
        }
        let mut text = String::from_str("-");
        let magnitude: u64 = (-(n as i64)) as u64;
        text.append(natural(magnitude).as_str());
        assert(text@ =~= seq!['-'] + natural_text((-n) as nat));
        text
    } else {
        natural(n as u64)
    }
}

/// The text that `Debug` gives a string: quoted and escaped.
pub uninterp spec fn debug_text(text: Seq<char>) -> Seq<char>;

/// Calls `format!` with `Debug` on a string. The contract only names the result:
/// it depends on the characters alone.
#[verifier::external_body]
pub(crate) fn quoted(text: &str) -> (quoted: String)
    ensures
        quoted@ == debug_text(text@),
{
    format!("{:?}", text)
}

/// Whether a character has the Unicode property White_Space.
pub open spec fn white_space(c: char) -> bool {
    ||| '\u{9}' <= c <= '\u{d}'
    ||| c == ' '
    ||| c == '\u{85}'
    ||| c == '\u{a0}'
    ||| c == '\u{1680}'
    ||| '\u{2000}' <= c <= '\u{200a}'
    ||| c == '\u{2028}'
    ||| c == '\u{2029}'
    ||| c == '\u{202f}'
    ||| c == '\u{205f}'
    ||| c == '\u{3000}'
}

/// Calls `char::is_whitespace`, which holds of the characters with the Unicode
/// property White_Space.
#[verifier::external_body]
pub(crate) fn is_white_space(c: char) -> (white: bool)
    ensures
        white == white_space(c),
{
    c.is_whitespace()
}

/// Whether nothing is left of `text` once white space is trimmed.
pub open spec fn blank(text: Seq<char>) -> bool {
    forall|i: int| 0 <= i < text.len() ==> white_space(#[trigger] text[i])
}

/// Whether nothing is left of `text` once white space is trimmed.
pub fn is_blank(text: &str) -> (is: bool)
    ensures
        is == blank(text@),
{
    let n: usize = text.unicode_len();
    let mut i: usize = 0;
    while i < n
        invariant
            i <= n,
            n == text@.len(),
            forall|j: int| 0 <= j < i ==> white_space(#[trigger] text@[j]),
        decreases n - i,
    {
        if !is_white_space(text.get_char(i)) {
            return false;
        }
        i = i + 1;
    }
    true
}

/// `text` without the copies of `c` at its end.
pub open spec fn without_trailing(text: Seq<char>, c: char) -> Seq<char>
    decreases text.len(),
{
    if text.len() > 0 && text.last() == c {
        without_trailing(text.drop_last(), c)
    } else {
        text
    }
}

/// `text` without the copies of `c` at its end.
pub fn trim_trailing(text: &str, c: char) -> (trimmed: String)
    ensures
        trimmed@ == without_trailing(text@, c),
{
    let mut n: usize = text.unicode_len();
    let ghost whole = text@;
    assert(whole.subrange(0, whole.len() as int) =~= whole);
    while n > 0 && text.get_char(n - 1) == c
        invariant
            whole == text@,
            n <= whole.len(),
            without_trailing(whole, c) == without_trailing(whole.subrange(0, n as int), c),
        decreases n,
    {
        proof {
            let kept = whole.subrange(0, n as int);
            assert(kept.drop_last() =~= whole.subrange(0, n - 1));
            assert(kept.last() == c);
        }
        n = n - 1;
    }
    text.substring_char(0, n).to_owned()
}

/// The text without trailing copies of a character is the front of the text up to the
/// last other character: nothing but copies is cut off, and none is left.
pub proof fn law_trailing_characters_go(text: Seq<char>, c: char)
    ensures
        ({
            let kept = without_trailing(text, c);
            &&& kept.is_prefix_of(text)
            &&& kept.len() > 0 ==> kept.last() != c
            &&& forall|i: int| kept.len() <= i < text.len() ==> text[i] == c
        }),
    decreases text.len(),
{
    if text.len() > 0 && text.last() == c {
        let front = text.drop_last();
        law_trailing_characters_go(front, c);
        let kept = without_trailing(text, c);
        assert(kept.is_prefix_of(front));
        assert(kept =~= text.subrange(0, kept.len() as int));
        assert forall|i: int| kept.len() <= i < text.len() implies text[i] == c by {
            if i < front.len() {
                assert(front[i] == c);
            }
        }
    } else {
        assert(text =~= text.subrange(0, text.len() as int));
    }
}

/// The number that a decimal digit stands for.
pub open spec fn digit_value(c: char) -> int {
    c as int - '0' as int
}

/// The number that decimal digits stand for, the last one for the ones.
pub open spec fn digits_value(text: Seq<char>) -> int
    decreases text.len(),
{
    if text.len() == 0 {
        0
    } else {
        digits_value(text.drop_last()) * 10 + digit_value(text.last())
    }
}

/// A number in decimal reads back as itself: it is made of digits, does not begin with a
/// zero unless it is zero, and its digits stand for it. Different numbers have different
/// texts.
pub proof fn law_decimal_reads_back(n: nat, other: nat)
    ensures
        digits_value(natural_text(n)) == n,
        natural_text(n).len() > 0,
        forall|i: int|
            0 <= i < natural_text(n).len() ==> '0' <= #[trigger] natural_text(n)[i] <= '9',
        n > 0 ==> natural_text(n)[0] != '0',
        natural_text(n) == natural_text(other) ==> n == other,
{
    lemma_decimal_reads_back(n);
    lemma_decimal_reads_back(other);
}

proof fn lemma_decimal_reads_back(n: nat)
    ensures
        digits_value(natural_text(n)) == n,
        natural_text(n).len() > 0,
        forall|i: int|
            0 <= i < natural_text(n).len() ==> '0' <= #[trigger] natural_text(n)[i] <= '9',
        n > 0 ==> natural_text(n)[0] != '0',
    decreases n,
{
    if n < 10 {
        let text = natural_text(n);
        assert(text.drop_last() =~= Seq::<char>::empty());
        assert(text.last() == digit(n as int));
        assert(digits_value(Seq::<char>::empty()) == 0);
    } else {
        lemma_decimal_reads_back(n / 10);
        let front = natural_text(n / 10);
        let text = natural_text(n);
        assert(text.drop_last() =~= front);
        assert(text.last() == digit((n % 10) as int));
        assert(text[0] == front[0]);
        assert(n == (n / 10) * 10 + n % 10);
    }
}

/// A signed number in decimal is its magnitude, behind a minus if and only if it is
/// negative. Different numbers have different texts.
pub proof fn law_signed_decimal_reads_back(n: int, other: int)
    ensures
        n < 0 <==> integer_text(n)[0] == '-',
        n < 0 ==> digits_value(integer_text(n).drop_first()) == -n,
        n >= 0 ==> digits_value(integer_text(n)) == n,
        integer_text(n) == integer_text(other) ==> n == other,
{
    let size = |k: int| (if k < 0 { -k } else { k }) as nat;
    law_decimal_reads_back(size(n), size(other));
    law_decimal_reads_back(size(other), size(n));
    if n < 0 {
        assert(integer_text(n).drop_first() =~= natural_text((-n) as nat));
    }
    if other < 0 {
        assert(integer_text(other).drop_first() =~= natural_text((-other) as nat));
    }
    assert(natural_text(size(n))[0] != '-');
    assert(natural_text(size(other))[0] != '-');
}

} // verus!
