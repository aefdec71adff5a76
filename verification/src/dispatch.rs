//! The dispatch entry point: resolve a wire-level gesture code, read the
//! focused-window snapshot, and select at most one action under the fixed
//! policy.
//!
//! An unrecognized code is an input error and ends the call with no action
//! selected; a gesture with no mapped action is a deliberate no-op and the
//! call succeeds having selected nothing.

use vstd::prelude::*;
use crate::action::{Action, ActionView, policy, select_action, selected_view};
use crate::context::GesturesHelper;
use crate::gesture::{Gesture, gesture_of_code};

verus! {

/// Why a dispatch, or the sink invocation it selected, failed: the gesture
/// code lies outside the defined set (an input-source bug); the target
/// service is not running or unreachable; the target service answered with
/// an error; or the key-injection utility could not be launched. No failure
/// is retried and none is fatal to the service.
#[derive(Clone, Copy, Debug, PartialEq, Eq, Structural)]
pub enum DispatchError {
    UnknownGesture { code: u8 },
    RemoteUnavailable,
    RemoteCall,
    SubprocessSpawn,
}

/// What a dispatch of the given code decides under the given application
/// class: the action to perform (`None` for a deliberate no-op), or the
/// input error for a code outside the defined set.
pub open spec fn dispatch_plan(code: u8, res_class: Seq<char>) -> Result<
    Option<ActionView>,
    DispatchError,
> {
    match gesture_of_code(code) {
        Some(g) => Ok(policy(g, res_class)),
        None => Err(DispatchError::UnknownGesture { code }),
    }
}

/// The planned action, if any, as a mathematical value.
pub open spec fn plan_view(r: Result<Option<Action>, DispatchError>) -> Result<
    Option<ActionView>,
    DispatchError,
> {
    match r {
        Ok(a) => Ok(selected_view(a)),
        Err(e) => Err(e),
    }
}

impl GesturesHelper {
    /// Resolves a gesture code against the current focused-window snapshot
    /// and returns the one action the policy selects, `Ok(None)` for a
    /// gesture that deliberately maps to nothing, or the input error for an
    /// unrecognized code — in which case nothing is to be performed.
    pub fn plan_gesture(&self, gesture_id: u8) -> (r: Result<Option<Action>, DispatchError>)
        ensures
            plan_view(r) == dispatch_plan(gesture_id, self@.res_class),
    {
        match Gesture::from_code(gesture_id) {
            Some(g) => Ok(select_action(g, self.active_window.res_class.as_str())),
            None => Err(DispatchError::UnknownGesture { code: gesture_id }),
        }
    }
}

} // verus!
