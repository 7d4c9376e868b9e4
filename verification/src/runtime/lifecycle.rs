//! Resources that start once and stop for good.
use vstd::prelude::*;

use crate::runtime::error::{RuntimeError, RuntimeErrorView, RuntimeResult};

verus! {

/// Where a resource stands.
#[derive(Clone, Copy, Debug, PartialEq, Eq, Structural)]
pub enum LifecycleState {
    Idle,
    Running,
    Stopped,
}

/// Why a resource cannot start, if it cannot.
pub open spec fn start_error(state: LifecycleState, name: Seq<char>) -> Option<RuntimeErrorView> {
    match state {
        LifecycleState::Idle => None,
        LifecycleState::Running => Some(RuntimeErrorView::ResourceAlreadyStarted(name)),
        LifecycleState::Stopped => Some(RuntimeErrorView::ResourceStopped(name)),
    }
}

impl LifecycleState {
    /// Whether a resource in this state may start.
    pub fn check_start(self, name: &String) -> (result: RuntimeResult<()>)
        ensures
            match result {
                Ok(_) => start_error(self, name@) is None,
                Err(error) => start_error(self, name@) == Some(error@),
            },
    {
        match self {
            LifecycleState::Idle => Ok(()),
            LifecycleState::Running => Err(RuntimeError::ResourceAlreadyStarted(name.clone())),
            LifecycleState::Stopped => Err(RuntimeError::ResourceStopped(name.clone())),
        }
    }
}

/// A resource starts once: it may start as long as it has not, is told that it runs while it
/// does, and stays stopped once it was stopped.
pub proof fn law_resources_start_once(state: LifecycleState, name: Seq<char>)
    ensures
        start_error(state, name) is None <==> state == LifecycleState::Idle,
        state == LifecycleState::Running ==> start_error(state, name) == Some(
            RuntimeErrorView::ResourceAlreadyStarted(name),
        ),
        state == LifecycleState::Stopped ==> start_error(state, name) == Some(
            RuntimeErrorView::ResourceStopped(name),
        ),
{
}

} // verus!
