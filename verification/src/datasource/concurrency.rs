//! How many requests of an endpoint run at once.
use vstd::prelude::*;

verus! {

/// Counts the requests of an endpoint that are running.
pub struct Concurrency {
    active: usize,
    stopped: bool,
}

/// What a request is told that asks to run.
#[derive(Clone, Copy, Debug, PartialEq, Eq, Structural)]
pub enum Admission {
    /// It runs.
    Admitted,
    /// It asks again once something changed.
    Wait,
    /// The endpoint has stopped.
    Stopped,
}

/// What a request is told under a limit; zero is no limit.
pub open spec fn admission_of(stopped: bool, active: nat, limit: nat) -> Admission {
    if stopped {
        Admission::Stopped
    } else if limit == 0 || active < limit {
        Admission::Admitted
    } else {
        Admission::Wait
    }
}

impl Concurrency {
    pub closed spec fn spec_active(&self) -> usize {
        self.active
    }

    pub closed spec fn spec_stopped(&self) -> bool {
        self.stopped
    }

    /// Nothing runs and the endpoint takes requests.
    pub fn new() -> (concurrency: Concurrency)
        ensures
            concurrency.spec_active() == 0,
            !concurrency.spec_stopped(),
    {
        Concurrency { active: 0, stopped: false }
    }

    /// Asks to run under a limit that the handler sets anew every time; zero is no
    /// limit.
    pub fn acquire(&mut self, limit: usize) -> (admission: Admission)
        requires
            old(self).spec_active() < usize::MAX,
        ensures
            final(self).spec_stopped() == old(self).spec_stopped(),
            admission == admission_of(
                old(self).spec_stopped(),
                old(self).spec_active() as nat,
                limit as nat,
            ),
            final(self).spec_active() == old(self).spec_active() + (if admission
                == Admission::Admitted {
                1int
            } else {
                0
            }),
    {
        if self.stopped {
            return Admission::Stopped;
        }
        if limit == 0 || self.active < limit {
            self.active = self.active + 1;
            return Admission::Admitted;
        }
        Admission::Wait
    }

    /// Ends a request that was admitted. Those that wait may ask again.
    pub fn release(&mut self)
        requires
            old(self).spec_active() > 0,
        ensures
            final(self).spec_active() == old(self).spec_active() - 1,
            final(self).spec_stopped() == old(self).spec_stopped(),
    {
        self.active = self.active - 1;
    }

    /// Takes requests again.
    pub fn start(&mut self)
        ensures
            !final(self).spec_stopped(),
            final(self).spec_active() == old(self).spec_active(),
    {
        self.stopped = false;
    }

    /// Takes no more requests. Those that run go on.
    pub fn stop(&mut self)
        ensures
            final(self).spec_stopped(),
            final(self).spec_active() == old(self).spec_active(),
    {
        self.stopped = true;
    }
}

/// What happens to an endpoint over time.
pub ghost enum Turn {
    /// A request asks to run.
    Acquire,
    /// A request that was admitted ends.
    Release,
    Start,
    Stop,
}

/// How many requests run after some turns under one limit, and whether the endpoint has
/// stopped.
pub open spec fn after_turns(limit: nat, turns: Seq<Turn>) -> (int, bool)
    decreases turns.len(),
{
    if turns.len() == 0 {
        (0, false)
    } else {
        let (active, stopped) = after_turns(limit, turns.drop_last());
        match turns.last() {
            Turn::Acquire => if active >= 0 && admission_of(stopped, active as nat, limit)
                == Admission::Admitted {
                (active + 1, stopped)
            } else {
                (active, stopped)
            },
            Turn::Release => (active - 1, stopped),
            Turn::Start => (active, false),
            Turn::Stop => (active, true),
        }
    }
}

/// However requests ask and end, and whether or not the endpoint stops and starts in
/// between, never more of them run at once than the limit admits.
pub proof fn law_limit_holds(limit: nat, turns: Seq<Turn>)
    requires
        limit > 0,
    ensures
        after_turns(limit, turns).0 <= limit,
    decreases turns.len(),
{
    if turns.len() > 0 {
        law_limit_holds(limit, turns.drop_last());
    }
}

/// A request is admitted if and only if the endpoint takes requests and fewer run than the
/// limit admits, or there is no limit; it waits only while others run.
pub proof fn law_requests_are_admitted_below_the_limit(stopped: bool, active: nat, limit: nat)
    ensures
        admission_of(stopped, active, limit) == Admission::Stopped <==> stopped,
        admission_of(stopped, active, limit) == Admission::Admitted <==> !stopped && (limit == 0
            || active < limit),
        admission_of(stopped, active, limit) == Admission::Wait ==> active > 0,
{
}

} // verus!
