//! The resolved outcome of a dispatch — at most one outbound action — and the
//! fixed policy that maps a gesture plus the focused window's application
//! class to it.
//!
//! The policy is fixed, not configuration: the per-application overrides name
//! their application classes literally, and the shortcut, action and key
//! names are exactly what the receiving services expect.

use vstd::prelude::*;
use crate::gesture::Gesture;
use crate::text::str_eq;

verus! {

/// One outbound action, to be performed by exactly one of the four sinks:
/// invoke a named global shortcut, switch to the previous or next virtual
/// desktop, invoke a named action on the focused file-manager instance, or
/// inject a named key event (press and release).
#[derive(Debug, PartialEq, Eq)]
pub enum Action {
    InvokeShortcut { name: String },
    PreviousDesktop,
    NextDesktop,
    FileManagerAction { action: String },
    InjectKey { key: String },
}

/// The mathematical value of an [`Action`], with every name as a character
/// sequence.
pub ghost enum ActionView {
    InvokeShortcut { name: Seq<char> },
    PreviousDesktop,
    NextDesktop,
    FileManagerAction { action: Seq<char> },
    InjectKey { key: Seq<char> },
}

impl View for Action {
    type V = ActionView;

    open spec fn view(&self) -> ActionView {
        match self {
            Action::InvokeShortcut { name } => ActionView::InvokeShortcut { name: name@ },
            Action::PreviousDesktop => ActionView::PreviousDesktop,
            Action::NextDesktop => ActionView::NextDesktop,
            Action::FileManagerAction { action } => (ActionView::FileManagerAction {
                action: action@,
            }),
            Action::InjectKey { key } => ActionView::InjectKey { key: key@ },
        }
    }
}

/// The selected action, if any, as a mathematical value.
pub open spec fn selected_view(r: Option<Action>) -> Option<ActionView> {
    match r {
        Some(a) => Some(a@),
        None => None,
    }
}

/// The dispatch policy: the action a gesture selects given the focused
/// window's application class, first match winning.
///
/// Three-finger swipes up and down cycle the overview; a three-finger swipe
/// right injects an Escape key in the messaging app, goes back in the file
/// manager, and otherwise switches to the previous desktop; a three-finger
/// swipe left goes forward in the file manager and otherwise to the next
/// desktop; four-finger swipes left and right switch desktops regardless of
/// context; three-finger pinches zoom; every remaining gesture (two- and
/// four-finger pinches, four-finger swipes up and down) selects nothing.
pub open spec fn policy(g: Gesture, res_class: Seq<char>) -> Option<ActionView> {
    match g {
        Gesture::ThreeSwipeUp => Some(
            ActionView::InvokeShortcut { name: "Cycle Overview Opposite"@ },
        ),
        Gesture::ThreeSwipeDown => Some(ActionView::InvokeShortcut { name: "Cycle Overview"@ }),
        Gesture::ThreeSwipeRight => if res_class == "org.telegram.desktop"@ {
            Some(ActionView::InjectKey { key: "Escape"@ })
        } else if res_class == "org.kde.dolphin"@ {
            Some(ActionView::FileManagerAction { action: "go back"@ })
        } else {
            Some(ActionView::PreviousDesktop)
        },
        Gesture::FourSwipeRight => Some(ActionView::PreviousDesktop),
        Gesture::ThreeSwipeLeft => if res_class == "org.kde.dolphin"@ {
            Some(ActionView::FileManagerAction { action: "go forward"@ })
        } else {
            Some(ActionView::NextDesktop)
        },
        Gesture::FourSwipeLeft => Some(ActionView::NextDesktop),
        Gesture::ThreePinchIn => Some(ActionView::InvokeShortcut { name: "zoom out"@ }),
        Gesture::ThreePinchOut => Some(ActionView::InvokeShortcut { name: "zoom in"@ }),
        _ => None,
    }
}

/// Applies the dispatch policy to a resolved gesture and the focused
/// window's application class, returning the action to perform, or `None`
/// for the gestures that deliberately select nothing.
pub fn select_action(g: Gesture, res_class: &str) -> (r: Option<Action>)
    ensures
        selected_view(r) == policy(g, res_class@),
{
    match g {
        Gesture::ThreeSwipeUp => Some(
            Action::InvokeShortcut { name: "Cycle Overview Opposite".to_owned() },
        ),
        Gesture::ThreeSwipeDown => Some(
            Action::InvokeShortcut { name: "Cycle Overview".to_owned() },
        ),
        Gesture::ThreeSwipeRight => if str_eq(res_class, "org.telegram.desktop") {
            Some(Action::InjectKey { key: "Escape".to_owned() })
        } else if str_eq(res_class, "org.kde.dolphin") {
            Some(Action::FileManagerAction { action: "go back".to_owned() })
        } else {
            Some(Action::PreviousDesktop)
        },
        Gesture::FourSwipeRight => Some(Action::PreviousDesktop),
        Gesture::ThreeSwipeLeft => if str_eq(res_class, "org.kde.dolphin") {
            Some(Action::FileManagerAction { action: "go forward".to_owned() })
        } else {
            Some(Action::NextDesktop)
        },
        Gesture::FourSwipeLeft => Some(Action::NextDesktop),
        Gesture::ThreePinchIn => Some(Action::InvokeShortcut { name: "zoom out".to_owned() }),
        Gesture::ThreePinchOut => Some(Action::InvokeShortcut { name: "zoom in".to_owned() }),
        Gesture::FourSwipeUp
        | Gesture::FourSwipeDown
        | Gesture::TwoPinchIn
        | Gesture::TwoPinchOut
        | Gesture::FourPinchIn
        | Gesture::FourPinchOut => None,
    }
}

} // verus!
