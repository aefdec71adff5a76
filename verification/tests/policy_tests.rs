use gestures_helper::action::Action;
use gestures_helper::context::GesturesHelper;
use gestures_helper::dispatch::DispatchError;
use gestures_helper::gesture::{Gesture, GESTURE_CODE_COUNT};

fn helper_with_class(class: &str) -> GesturesHelper {
    let mut helper = GesturesHelper::new();
    helper.notify_active_window(
        String::from("a window title"),
        String::from(class),
        String::from("an app name"),
    );
    helper
}

fn shortcut(name: &str) -> Option<Action> {
    Some(Action::InvokeShortcut { name: String::from(name) })
}

#[test]
fn all_defined_codes_follow_the_table_without_overrides() {
    let plain = helper_with_class("some-unrelated-app");
    assert_eq!(plain.plan_gesture(0), Ok(shortcut("Cycle Overview Opposite")));
    assert_eq!(plain.plan_gesture(1), Ok(shortcut("Cycle Overview")));
    assert_eq!(plain.plan_gesture(2), Ok(Some(Action::NextDesktop)));
    assert_eq!(plain.plan_gesture(3), Ok(Some(Action::PreviousDesktop)));
    assert_eq!(plain.plan_gesture(4), Ok(None));
    assert_eq!(plain.plan_gesture(5), Ok(None));
    assert_eq!(plain.plan_gesture(6), Ok(Some(Action::NextDesktop)));
    assert_eq!(plain.plan_gesture(7), Ok(Some(Action::PreviousDesktop)));
    assert_eq!(plain.plan_gesture(8), Ok(None));
    assert_eq!(plain.plan_gesture(9), Ok(None));
    assert_eq!(plain.plan_gesture(10), Ok(shortcut("zoom out")));
    assert_eq!(plain.plan_gesture(11), Ok(shortcut("zoom in")));
    assert_eq!(plain.plan_gesture(12), Ok(None));
    assert_eq!(plain.plan_gesture(13), Ok(None));
}

#[test]
fn per_application_overrides_follow_the_table() {
    let messaging = helper_with_class("org.telegram.desktop");
    assert_eq!(
        messaging.plan_gesture(3),
        Ok(Some(Action::InjectKey { key: String::from("Escape") }))
    );
    assert_eq!(messaging.plan_gesture(2), Ok(Some(Action::NextDesktop)));

    let file_manager = helper_with_class("org.kde.dolphin");
    assert_eq!(
        file_manager.plan_gesture(3),
        Ok(Some(Action::FileManagerAction { action: String::from("go back") }))
    );
    assert_eq!(
        file_manager.plan_gesture(2),
        Ok(Some(Action::FileManagerAction { action: String::from("go forward") }))
    );
}

#[test]
fn unknown_codes_are_rejected_with_the_code() {
    let helper = helper_with_class("org.kde.dolphin");
    assert_eq!(GESTURE_CODE_COUNT, 14);
    for code in [14u8, 15, 42, 200, 255] {
        assert_eq!(
            helper.plan_gesture(code),
            Err(DispatchError::UnknownGesture { code })
        );
    }
}

#[test]
fn gesture_codes_resolve_exactly_below_fourteen() {
    assert_eq!(Gesture::from_code(0), Some(Gesture::ThreeSwipeUp));
    assert_eq!(Gesture::from_code(3), Some(Gesture::ThreeSwipeRight));
    assert_eq!(Gesture::from_code(13), Some(Gesture::FourPinchOut));
    assert_eq!(Gesture::from_code(14), None);
    assert_eq!(Gesture::from_code(255), None);
}

#[test]
fn messaging_swipe_right_injects_escape_only() {
    let helper = helper_with_class("org.telegram.desktop");
    let planned = helper.plan_gesture(3).unwrap().unwrap();
    assert_eq!(planned, Action::InjectKey { key: String::from("Escape") });
    assert!(!matches!(planned, Action::PreviousDesktop | Action::NextDesktop));
    assert!(!matches!(planned, Action::InvokeShortcut { .. }));
}

#[test]
fn four_swipe_up_is_a_no_op_for_any_context() {
    let helper = helper_with_class("unrelated-app");
    assert_eq!(helper.plan_gesture(4), Ok(None));
}

#[test]
fn three_pinch_out_invokes_zoom_in_regardless_of_context() {
    for class in ["", "org.telegram.desktop", "org.kde.dolphin", "whatever"] {
        let helper = helper_with_class(class);
        assert_eq!(helper.plan_gesture(11), Ok(shortcut("zoom in")));
    }
}
