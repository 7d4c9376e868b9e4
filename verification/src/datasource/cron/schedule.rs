//! When a cron schedule falls due.
use std::str::FromStr;

use chrono::{DateTime, LocalResult, TimeZone, Utc};
use chrono_tz::Tz;
use croner::Cron;
use vstd::prelude::*;

use crate::runtime::error::{RuntimeError, RuntimeErrorView, RuntimeResult};

verus! {

/// The seconds since the epoch within which instants are calculated: some quarter of
/// a million years either way.
pub open spec fn in_calendar(instant: int) -> bool {
    -8_000_000_000_000 <= instant <= 8_000_000_000_000
}

/// What is wrong with the text of a schedule, if anything is.
pub uninterp spec fn schedule_error(schedule: Seq<char>) -> Option<Seq<char>>;

/// Calls `croner::Cron::from_str`. The contract names the text of the error, which
/// depends on the schedule alone.
#[verifier::external_body]
fn check_schedule(schedule: &str) -> (result: Result<(), String>)
    ensures
        match result {
            Ok(_) => schedule_error(schedule@) is None,
            Err(text) => schedule_error(schedule@) == Some(text@),
        },
{
    Cron::from_str(schedule).map(|_| ()).map_err(|error| error.to_string())
}

/// Whether a time zone is known by a name.
pub uninterp spec fn known_zone(name: Seq<char>) -> bool;

/// Calls `chrono_tz::Tz::from_str`, which knows a name or does not. A refusal always
/// reads "failed to parse timezone".
#[verifier::external_body]
fn check_zone(name: &str) -> (result: Result<(), String>)
    ensures
        match result {
            Ok(_) => known_zone(name@),
            Err(text) => !known_zone(name@) && text@ == "failed to parse timezone"@,
        },
{
    Tz::from_str(name).map(|_| ()).map_err(|error| error.to_string())
}

/// The occurrence of a schedule that comes next after an instant, on the clocks of a
/// time zone, or the text of the error that the search for it ends with.
pub uninterp spec fn occurrence_after(
    schedule: Seq<char>,
    zone: Seq<char>,
    after: i64,
) -> Result<i64, Seq<char>>;

/// The last instant at which anything is scheduled: no schedule reaches beyond the
/// year 5000.
pub open spec fn last_instant() -> int {
    100_000_000_000
}

/// Calls `croner::Cron::find_next_occurrence`, not counting the instant itself. The
/// contract names the result, which depends on the arguments alone, and says that the
/// search goes forward and does not go beyond the year 5000.
#[verifier::external_body]
fn find_next_occurrence(schedule: &str, zone: &str, after: i64) -> (result: Result<i64, String>)
    requires
        schedule_error(schedule@) is None,
        known_zone(zone@),
        in_calendar(after as int),
    ensures
        match result {
            Ok(next) => occurrence_after(schedule@, zone@, after) == Ok::<i64, Seq<char>>(next)
                && after < next <= last_instant(),
            Err(text) => occurrence_after(schedule@, zone@, after) == Err::<i64, Seq<char>>(
                text@,
            ),
        },
{
    let cron = Cron::from_str(schedule).expect("schedule is valid");
    let zone = Tz::from_str(zone).expect("time zone is known");
    let start = DateTime::<Utc>::from_timestamp(after, 0).expect("instant is in the calendar");
    match cron.find_next_occurrence(&start.with_timezone(&zone), false) {
        Ok(next) => Ok(next.timestamp()),
        Err(error) => Err(error.to_string()),
    }
}

/// Whether the clocks of a time zone show a time that a schedule names at an instant,
/// or the text of the error that the comparison ends with.
pub uninterp spec fn shows_scheduled_time(
    schedule: Seq<char>,
    zone: Seq<char>,
    instant: i64,
) -> Result<bool, Seq<char>>;

/// Calls `croner::Cron::is_time_matching`. The contract names the result, which
/// depends on the arguments alone.
#[verifier::external_body]
fn is_time_matching(schedule: &str, zone: &str, instant: i64) -> (result: Result<bool, String>)
    requires
        schedule_error(schedule@) is None,
        known_zone(zone@),
        in_calendar(instant as int),
    ensures
        match result {
            Ok(matches) => shows_scheduled_time(schedule@, zone@, instant) == Ok::<
                bool,
                Seq<char>,
            >(matches),
            Err(text) => shows_scheduled_time(schedule@, zone@, instant) == Err::<bool, Seq<char>>(
                text@,
            ),
        },
{
    let cron = Cron::from_str(schedule).expect("schedule is valid");
    let zone = Tz::from_str(zone).expect("time zone is known");
    let time = DateTime::<Utc>::from_timestamp(instant, 0).expect("instant is in the calendar");
    match cron.is_time_matching(&time.with_timezone(&zone)) {
        Ok(matches) => Ok(matches),
        Err(error) => Err(error.to_string()),
    }
}

/// The instants at which the clocks of a time zone show one time.
#[derive(Clone, Copy, Debug, PartialEq, Eq, Structural)]
pub enum Showings {
    /// Never: the clocks skip it.
    Never,
    /// Once.
    Once,
    /// Twice, because the clocks go back. The first instant is kept.
    Twice { first: i64 },
}

/// The instants at which the clocks of a time zone show the time that they show at
/// `instant`.
pub uninterp spec fn showings_of(zone: Seq<char>, instant: i64) -> Showings;

/// Calls `chrono::TimeZone::from_local_datetime` of a `chrono_tz::Tz`. The contract
/// names the result, which depends on the arguments alone.
#[verifier::external_body]
fn find_showings(zone: &str, instant: i64) -> (showings: Showings)
    requires
        known_zone(zone@),
        in_calendar(instant as int),
    ensures
        showings == showings_of(zone@, instant),
{
    let zone = Tz::from_str(zone).expect("time zone is known");
    let time = DateTime::<Utc>::from_timestamp(instant, 0).expect("instant is in the calendar");
    match zone.from_local_datetime(&time.with_timezone(&zone).naive_local()) {
        LocalResult::Ambiguous(first, _) => Showings::Twice { first: first.timestamp() },
        LocalResult::Single(_) => Showings::Once,
        LocalResult::None => Showings::Never,
    }
}

/// Whether an instant is the first at which the clocks show what they show then.
pub open spec fn first_showing(showings: Showings, instant: i64) -> bool {
    match showings {
        Showings::Never => false,
        Showings::Once => true,
        Showings::Twice { first } => first == instant,
    }
}

/// Whether a schedule runs at an instant that a search came to.
pub open spec fn runs_at(schedule: Seq<char>, zone: Seq<char>, instant: i64) -> Result<
    bool,
    Seq<char>,
> {
    match shows_scheduled_time(schedule, zone, instant) {
        Ok(matches) => Ok(matches && first_showing(showings_of(zone, instant), instant)),
        Err(text) => Err(text),
    }
}

/// The run of a schedule that comes next after an instant: the search goes from one
/// occurrence to the next until the clocks show it, and show it for the first time.
pub open spec fn next_run(schedule: Seq<char>, zone: Seq<char>, after: i64) -> Result<
    i64,
    Seq<char>,
>
    decreases last_instant() - after,
{
    match occurrence_after(schedule, zone, after) {
        Err(text) => Err(text),
        Ok(candidate) => if after < candidate <= last_instant() {
            match runs_at(schedule, zone, candidate) {
                Err(text) => Err(text),
                Ok(true) => Ok(candidate),
                Ok(false) => next_run(schedule, zone, candidate),
            }
        } else {
            Err(Seq::empty())
        },
    }
}

/// A schedule in a time zone.
pub struct Schedule {
    pattern: String,
    zone: String,
}

impl Schedule {
    #[verifier::type_invariant]
    closed spec fn valid(self) -> bool {
        schedule_error(self.pattern@) is None && known_zone(self.zone@)
    }

    pub closed spec fn spec_pattern(&self) -> Seq<char> {
        self.pattern@
    }

    pub closed spec fn spec_zone(&self) -> Seq<char> {
        self.zone@
    }

    /// Reads a schedule and the name of a time zone.
    pub fn parse(pattern: String, zone: String) -> (result: RuntimeResult<Schedule>)
        ensures
            match result {
                Ok(schedule) => {
                    &&& schedule_error(pattern@) is None
                    &&& known_zone(zone@)
                    &&& schedule.spec_pattern() == pattern@
                    &&& schedule.spec_zone() == zone@
                },
                Err(error) => match schedule_error(pattern@) {
                    Some(text) => error@ == RuntimeErrorView::InvalidConfiguration(text),
                    None => {
                        &&& !known_zone(zone@)
                        &&& error@ == RuntimeErrorView::InvalidConfiguration(
                            "failed to parse timezone"@,
                        )
                    },
                },
            },
    {
        match check_schedule(pattern.as_str()) {
            Ok(_) => {},
            Err(text) => return Err(RuntimeError::InvalidConfiguration(text)),
        }
        match check_zone(zone.as_str()) {
            Ok(_) => {},
            Err(text) => return Err(RuntimeError::InvalidConfiguration(text)),
        }
        Ok(Schedule { pattern, zone })
    }

    /// Whether the schedule runs at an instant that a search came to.
    pub fn decide(matches: bool, showings: Showings, instant: i64) -> (runs: bool)
        ensures
            runs == (matches && first_showing(showings, instant)),
    {
        let first: bool = match showings {
            Showings::Never => false,
            Showings::Once => true,
            Showings::Twice { first } => first == instant,
        };
        matches && first
    }

    /// The run that comes next after an instant, in seconds since the epoch.
    pub fn next(&self, after: i64) -> (result: RuntimeResult<i64>)
        requires
            in_calendar(after as int),
        ensures
            match result {
                Ok(run) => {
                    &&& next_run(self.spec_pattern(), self.spec_zone(), after) == Ok::<
                        i64,
                        Seq<char>,
                    >(run)
                    &&& after < run <= last_instant()
                    &&& runs_at(self.spec_pattern(), self.spec_zone(), run) == Ok::<
                        bool,
                        Seq<char>,
                    >(true)
                },
                Err(error) => {
                    let failed = next_run(self.spec_pattern(), self.spec_zone(), after);
                    &&& failed is Err
                    &&& error@ == RuntimeErrorView::InvalidConfiguration(failed->Err_0)
                },
            },
    {
        proof {
            use_type_invariant(self);
        }
        let mut cursor: i64 = after;
        loop
            invariant
                schedule_error(self.pattern@) is None,
                known_zone(self.zone@),
                in_calendar(cursor as int),
                cursor >= after,
                next_run(self.pattern@, self.zone@, after) == next_run(
                    self.pattern@,
                    self.zone@,
                    cursor,
                ),
            decreases 8_000_000_000_000 - cursor,
        {
            let candidate: i64 = match find_next_occurrence(
                self.pattern.as_str(),
                self.zone.as_str(),
                cursor,
            ) {
                Ok(candidate) => candidate,
                Err(text) => return Err(RuntimeError::InvalidConfiguration(text)),
            };
            let matches: bool = match is_time_matching(
                self.pattern.as_str(),
                self.zone.as_str(),
                candidate,
            ) {
                Ok(matches) => matches,
                Err(text) => return Err(RuntimeError::InvalidConfiguration(text)),
            };
            let showings = find_showings(self.zone.as_str(), candidate);
            if Self::decide(matches, showings, candidate) {
                return Ok(candidate);
            }
            cursor = candidate;
        }
    }
}

/// No run is passed over but those that the clocks skip or show a second time: every
/// occurrence between an instant and the next run is one at which the schedule does
/// not run.
pub proof fn law_next_run_skips_only_idle_occurrences(
    schedule: Seq<char>,
    zone: Seq<char>,
    after: i64,
)
    requires
        next_run(schedule, zone, after) is Ok,
    ensures
        ({
            let candidate = occurrence_after(schedule, zone, after)->Ok_0;
            let run = next_run(schedule, zone, after)->Ok_0;
            &&& occurrence_after(schedule, zone, after) is Ok
            &&& after < candidate <= run
            &&& runs_at(schedule, zone, run) == Ok::<bool, Seq<char>>(true)
            &&& run != candidate ==> {
                &&& runs_at(schedule, zone, candidate) == Ok::<bool, Seq<char>>(false)
                &&& next_run(schedule, zone, candidate) == next_run(schedule, zone, after)
            }
        }),
    decreases last_instant() - after,
{
    let candidate = occurrence_after(schedule, zone, after)->Ok_0;
    if runs_at(schedule, zone, candidate) == Ok::<bool, Seq<char>>(false) {
        law_next_run_skips_only_idle_occurrences(schedule, zone, candidate);
    }
}

/// A schedule runs at an instant if and only if the clocks show a time that it names and
/// show it for the first time then: a time that they skip is never run at, one that they
/// show twice only at the first of the two instants.
pub proof fn law_runs_at_first_showings(schedule: Seq<char>, zone: Seq<char>, instant: i64)
    ensures
        ({
            let named = shows_scheduled_time(schedule, zone, instant);
            let showings = showings_of(zone, instant);
            let runs = runs_at(schedule, zone, instant);
            &&& runs is Err <==> named is Err
            &&& runs is Err ==> runs->Err_0 == named->Err_0
            &&& runs == Ok::<bool, Seq<char>>(true) <==> named == Ok::<bool, Seq<char>>(true) && (
            showings == Showings::Once || showings == Showings::Twice { first: instant })
            &&& showings == Showings::Never ==> runs != Ok::<bool, Seq<char>>(true)
        }),
{
}

/// The search for the next run goes from occurrence to occurrence: it comes to the next
/// occurrence if the schedule runs there, goes on from it if it does not, and fails just
/// where the search or the comparison fails, with the text of that failure. Searches from
/// different instants that pass the same occurrence come to the same run.
pub proof fn law_search_goes_on_until_a_run(schedule: Seq<char>, zone: Seq<char>, after: i64)
    ensures
        match occurrence_after(schedule, zone, after) {
            Err(text) => next_run(schedule, zone, after) == Err::<i64, Seq<char>>(text),
            Ok(candidate) => after < candidate <= last_instant() ==> {
                let named = shows_scheduled_time(schedule, zone, candidate);
                let showings = showings_of(zone, candidate);
                let first = showings == Showings::Once || showings == Showings::Twice {
                    first: candidate,
                };
                &&& named matches Err(text) ==> next_run(schedule, zone, after) == Err::<
                    i64,
                    Seq<char>,
                >(text)
                &&& named == Ok::<bool, Seq<char>>(true) && first ==> next_run(
                    schedule,
                    zone,
                    after,
                ) == Ok::<i64, Seq<char>>(candidate)
                &&& named is Ok && !(named->Ok_0 && first) ==> next_run(schedule, zone, after)
                    == next_run(schedule, zone, candidate)
            },
        },
{
}

} // verus!
