use gestures_helper::action::Action;
use gestures_helper::context::GesturesHelper;
use gestures_helper::filemanager::{file_manager_candidates, first_active};
use gestures_helper::text::{str_eq, str_starts_with};

#[test]
fn candidates_keep_exactly_the_file_manager_names_in_order() {
    let names = vec![
        String::from("org.freedesktop.DBus"),
        String::from("org.kde.dolphin-1423"),
        String::from("org.kde.kwin"),
        String::from("org.kde.dolphin-77"),
        String::from("ork.kde.dolphin-impostor"),
    ];
    let candidates = file_manager_candidates(&names);
    assert_eq!(
        candidates,
        vec![
            String::from("org.kde.dolphin-1423"),
            String::from("org.kde.dolphin-77"),
        ]
    );
}

#[test]
fn candidates_of_no_matching_names_are_empty() {
    let names = vec![String::from("org.freedesktop.DBus"), String::from("")];
    assert_eq!(file_manager_candidates(&names), Vec::<String>::new());
}

#[test]
fn first_active_picks_the_first_instance_answering_true() {
    assert_eq!(first_active(&vec![false, true, true]), Some(1));
    assert_eq!(first_active(&vec![true]), Some(0));
}

#[test]
fn first_active_of_no_active_instance_is_none() {
    assert_eq!(first_active(&vec![]), None);
    assert_eq!(first_active(&vec![false, false, false]), None);
}

#[test]
fn focused_file_manager_receives_go_forward() {
    // A three-finger swipe left over the file manager, with one registered
    // instance whose window is active: the action goes to that instance.
    let mut helper = GesturesHelper::new();
    helper.notify_active_window(
        String::from("home"),
        String::from("org.kde.dolphin"),
        String::from("dolphin"),
    );
    let planned = helper.plan_gesture(2).unwrap();
    assert_eq!(
        planned,
        Some(Action::FileManagerAction { action: String::from("go forward") })
    );

    let names = vec![String::from("org.kde.dolphin-1423")];
    let candidates = file_manager_candidates(&names);
    assert_eq!(candidates.len(), 1);
    let answers = vec![true];
    assert_eq!(first_active(&answers), Some(0));
}

#[test]
fn no_active_instance_means_nothing_to_do() {
    // Same gesture and context, but the only registered instance does not
    // report its window active: no call is to be made and nothing fails.
    let mut helper = GesturesHelper::new();
    helper.notify_active_window(
        String::from("home"),
        String::from("org.kde.dolphin"),
        String::from("dolphin"),
    );
    assert!(helper.plan_gesture(2).is_ok());

    let names = vec![String::from("org.kde.dolphin-1423")];
    let candidates = file_manager_candidates(&names);
    assert_eq!(candidates.len(), 1);
    let answers = vec![false];
    assert_eq!(first_active(&answers), None);
}

#[test]
fn str_eq_compares_characters() {
    assert!(str_eq("org.kde.dolphin", "org.kde.dolphin"));
    assert!(!str_eq("org.kde.dolphin", "org.kde.dolphin "));
    assert!(!str_eq("", "a"));
    assert!(str_eq("", ""));
}

#[test]
fn str_starts_with_checks_the_prefix() {
    assert!(str_starts_with("org.kde.dolphin-1423", "org.kde.dolphin"));
    assert!(str_starts_with("org.kde.dolphin", "org.kde.dolphin"));
    assert!(!str_starts_with("org.kde.dolphi", "org.kde.dolphin"));
    assert!(!str_starts_with("xorg.kde.dolphin", "org.kde.dolphin"));
    assert!(str_starts_with("anything", ""));
}
