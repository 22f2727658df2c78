use easy_dictate::commands::{
    frontend_log_level, menu_action, overlay_position, started_by_system, transcript_log_line,
    LogLevel, MenuAction, OVERLAY_BOTTOM_MARGIN, OVERLAY_HEIGHT, OVERLAY_WIDTH,
};

#[test]
fn frontend_log_levels() {
    assert_eq!(frontend_log_level(Some("error")), LogLevel::Error);
    assert_eq!(frontend_log_level(Some("warn")), LogLevel::Warn);
    assert_eq!(frontend_log_level(Some("debug")), LogLevel::Debug);
    assert_eq!(frontend_log_level(Some("trace")), LogLevel::Trace);
    assert_eq!(frontend_log_level(Some("info")), LogLevel::Info);
    assert_eq!(frontend_log_level(Some("ERROR")), LogLevel::Info);
    assert_eq!(frontend_log_level(Some("")), LogLevel::Info);
    assert_eq!(frontend_log_level(None), LogLevel::Info);
}

#[test]
fn autostart_flags() {
    let args = |list: &[&str]| list.iter().map(|s| s.to_string()).collect::<Vec<String>>();
    assert!(!started_by_system(&args(&[])));
    assert!(!started_by_system(&args(&["app"])));
    assert!(started_by_system(&args(&["app", "--autostart"])));
    assert!(started_by_system(&args(&["app", "-v", "--minimized"])));
    assert!(!started_by_system(&args(&["app", "--auto-start", "autostart"])));
    assert!(!started_by_system(&args(&["app", "--autostart=1"])));
}

#[test]
fn menu_entries() {
    assert_eq!(menu_action("open"), MenuAction::ShowSettings);
    assert_eq!(menu_action("quit"), MenuAction::Quit);
    assert_eq!(menu_action("status"), MenuAction::Nothing);
    assert_eq!(menu_action(""), MenuAction::Nothing);
}

#[test]
fn overlay_sits_centred_above_the_bottom() {
    assert_eq!((OVERLAY_WIDTH, OVERLAY_HEIGHT, OVERLAY_BOTTOM_MARGIN), (600, 150, 60));
    assert_eq!(overlay_position(0, 1920, 1040), (660, 830));
    assert_eq!(overlay_position(1920, 3840, 1080), (2580, 870));
    assert_eq!(overlay_position(-1280, 0, 720), (-940, 510));
    // a work area narrower than the overlay: the division truncates toward zero
    assert_eq!(overlay_position(0, 599, 300), (0, 90));
    assert_eq!(overlay_position(0, 597, 300), (-1, 90));
    assert_eq!(overlay_position(10, 13, 0), (-288, -210));
    // coordinates at the edge of the range stay within it
    assert_eq!(overlay_position(i32::MAX, i32::MAX, i32::MIN), (i32::MAX - 300, i32::MIN));
    assert_eq!(
        overlay_position(i32::MIN, i32::MAX, i32::MAX),
        (-301, i32::MAX - 210)
    );
}

#[test]
fn transcript_log_lines() {
    assert_eq!(transcript_log_line("partial", "hel"), "[partial] hel");
    assert_eq!(transcript_log_line("committed", ""), "[committed] ");
}
