//! The dispatch policy's guarantees, stated and proved over the whole input
//! space: every defined gesture code selects exactly the tabulated action
//! under a matching context and the context-independent action otherwise,
//! and every code outside the defined set is rejected with the input error
//! and selects nothing.

use vstd::prelude::*;
use crate::action::ActionView;
use crate::dispatch::{DispatchError, dispatch_plan};
use crate::gesture::{GESTURE_CODE_COUNT, gesture_of_code};

verus! {

/// For every defined gesture code and every application class, the dispatch
/// plan is the policy table's row: the three-finger swipes up and down and
/// the three-finger pinches select their global shortcuts regardless of
/// context; the three-finger swipes right and left obey their
/// per-application overrides and fall back to a desktop switch; the
/// four-finger swipes left and right switch desktops regardless of context;
/// and the remaining gestures select nothing.
pub proof fn lemma_dispatch_table(res_class: Seq<char>)
    ensures
        dispatch_plan(0, res_class) == Ok::<_, DispatchError>(
            Some(ActionView::InvokeShortcut { name: "Cycle Overview Opposite"@ }),
        ),
        dispatch_plan(1, res_class) == Ok::<_, DispatchError>(
            Some(ActionView::InvokeShortcut { name: "Cycle Overview"@ }),
        ),
        res_class == "org.telegram.desktop"@ ==> dispatch_plan(3, res_class) == Ok::<
            _,
            DispatchError,
        >(Some(ActionView::InjectKey { key: "Escape"@ })),
        res_class == "org.kde.dolphin"@ ==> dispatch_plan(3, res_class) == Ok::<
            _,
            DispatchError,
        >(Some(ActionView::FileManagerAction { action: "go back"@ })),
        res_class != "org.telegram.desktop"@ && res_class != "org.kde.dolphin"@
            ==> dispatch_plan(3, res_class) == Ok::<_, DispatchError>(
            Some(ActionView::PreviousDesktop),
        ),
        dispatch_plan(7, res_class) == Ok::<_, DispatchError>(Some(ActionView::PreviousDesktop)),
        res_class == "org.kde.dolphin"@ ==> dispatch_plan(2, res_class) == Ok::<
            _,
            DispatchError,
        >(Some(ActionView::FileManagerAction { action: "go forward"@ })),
        res_class != "org.kde.dolphin"@ ==> dispatch_plan(2, res_class) == Ok::<
            _,
            DispatchError,
        >(Some(ActionView::NextDesktop)),
        dispatch_plan(6, res_class) == Ok::<_, DispatchError>(Some(ActionView::NextDesktop)),
        dispatch_plan(10, res_class) == Ok::<_, DispatchError>(
            Some(ActionView::InvokeShortcut { name: "zoom out"@ }),
        ),
        dispatch_plan(11, res_class) == Ok::<_, DispatchError>(
            Some(ActionView::InvokeShortcut { name: "zoom in"@ }),
        ),
        dispatch_plan(4, res_class) == Ok::<_, DispatchError>(None::<ActionView>),
        dispatch_plan(5, res_class) == Ok::<_, DispatchError>(None::<ActionView>),
        dispatch_plan(8, res_class) == Ok::<_, DispatchError>(None::<ActionView>),
        dispatch_plan(9, res_class) == Ok::<_, DispatchError>(None::<ActionView>),
        dispatch_plan(12, res_class) == Ok::<_, DispatchError>(None::<ActionView>),
        dispatch_plan(13, res_class) == Ok::<_, DispatchError>(None::<ActionView>),
{
    assert("org.telegram.desktop"@ != "org.kde.dolphin"@) by {
        reveal_strlit("org.telegram.desktop");
        reveal_strlit("org.kde.dolphin");
        assert("org.telegram.desktop"@.len() == 20);
        assert("org.kde.dolphin"@.len() == 15);
    }
}

/// Every gesture code outside the defined set is rejected with the
/// unknown-gesture error naming that code, whatever the context; the
/// rejection carries no action, so nothing is performed.
pub proof fn lemma_unknown_code_rejected(code: u8, res_class: Seq<char>)
    requires
        GESTURE_CODE_COUNT <= code,
    ensures
        gesture_of_code(code) is None,
        dispatch_plan(code, res_class) == Err::<Option<ActionView>, _>(
            DispatchError::UnknownGesture { code },
        ),
{
}

} // verus!
