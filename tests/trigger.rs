use prompt_os::focus::{
    get_cursor_position, get_focused_text_field_bounds, is_text_field_focused, ApiLookup,
    CursorProbe, FocusProbe, InspectError,
};
use prompt_os::geometry::{to_top_left, PointerLocation, ScreenFrame, TextFieldBounds};
use prompt_os::monitor::{
    start_monitoring, stop_monitoring, KeyEvent, Monitor, MonitorError, TapAction,
    KEY_DOWN_EVENT, TRIGGER_KEYCODE,
};

fn focused_text_input() -> FocusProbe {
    FocusProbe { root_created: true, focused_status: 0, focused_present: true, value_status: 0 }
}

fn cursor_at(x: i32, y: i32, height: i32) -> CursorProbe {
    CursorProbe {
        pointer: Some(PointerLocation { x, y }),
        screen: Some(ScreenFrame { width: 1280, height }),
    }
}

fn key(keycode: i64) -> KeyEvent {
    KeyEvent { event_type: KEY_DOWN_EVENT, keycode }
}

fn monitoring() -> Monitor<u32> {
    let mut m: Monitor<u32> = Monitor::new();
    assert_eq!(start_monitoring(&mut m, 7, Some(0x1000)), Ok(()));
    m
}

/// Runs one event through the callback's two steps, with the given answer
/// of the platform to the focus and pointer queries.
fn run_event(m: &Monitor<u32>, e: KeyEvent, focus: &FocusProbe, cursor: &CursorProbe) -> TapAction {
    let lookup = if m.wants_focus_query(e) {
        Some(get_focused_text_field_bounds(focus, cursor))
    } else {
        None
    };
    m.react(e, lookup)
}

#[test]
fn conversion_flips_vertical_axis() {
    let b = to_top_left(PointerLocation { x: 100, y: 200 }, ScreenFrame { width: 1280, height: 800 });
    assert_eq!(b, TextFieldBounds { x: 100, y: 600, width: 0, height: 0 });
    let edge = to_top_left(PointerLocation { x: i32::MIN, y: i32::MIN }, ScreenFrame { width: 0, height: i32::MAX });
    assert_eq!(edge.x, i32::MIN as i64);
    assert_eq!(edge.y, i32::MAX as i64 - i32::MIN as i64);
}

#[test]
fn focus_requires_every_query_to_succeed() {
    assert!(is_text_field_focused(&focused_text_input()));
    let no_root = FocusProbe { root_created: false, ..focused_text_input() };
    assert!(!is_text_field_focused(&no_root));
    let failed = FocusProbe { focused_status: -25204, ..focused_text_input() };
    assert!(!is_text_field_focused(&failed));
    let nothing = FocusProbe { focused_present: false, ..focused_text_input() };
    assert!(!is_text_field_focused(&nothing));
    let no_value = FocusProbe { value_status: -25205, ..focused_text_input() };
    assert!(!is_text_field_focused(&no_value));
}

#[test]
fn cursor_position_reports_lookup_failures() {
    assert_eq!(
        get_cursor_position(&cursor_at(10, 20, 1000)),
        Ok(TextFieldBounds { x: 10, y: 980, width: 0, height: 0 })
    );
    let no_pointer = CursorProbe { pointer: None, ..cursor_at(0, 0, 800) };
    assert_eq!(get_cursor_position(&no_pointer), Err(InspectError::ApiFailure(ApiLookup::PointerSource)));
    let no_screen = CursorProbe { screen: None, ..cursor_at(0, 0, 800) };
    assert_eq!(get_cursor_position(&no_screen), Err(InspectError::ApiFailure(ApiLookup::ScreenSource)));
    assert_eq!(
        InspectError::ApiFailure(ApiLookup::PointerSource).message(),
        "Failed to get NSEvent class"
    );
    assert_eq!(
        InspectError::ApiFailure(ApiLookup::ScreenSource).message(),
        "Failed to get NSScreen class"
    );
}

#[test]
fn focused_bounds_distinguish_no_focus_from_api_failure() {
    let unfocused = FocusProbe { focused_present: false, ..focused_text_input() };
    assert_eq!(
        get_focused_text_field_bounds(&unfocused, &cursor_at(1, 2, 3)),
        Err(InspectError::NoFocusedField)
    );
    assert_eq!(InspectError::NoFocusedField.message(), "No focused text field");
    let broken = CursorProbe { pointer: None, ..cursor_at(0, 0, 800) };
    assert_eq!(
        get_focused_text_field_bounds(&focused_text_input(), &broken),
        Err(InspectError::ApiFailure(ApiLookup::PointerSource))
    );
    assert_eq!(
        get_focused_text_field_bounds(&focused_text_input(), &cursor_at(5, 5, 10)),
        Ok(TextFieldBounds { x: 5, y: 5, width: 0, height: 0 })
    );
}

#[test]
fn other_keys_pass_through_in_every_state() {
    let idle: Monitor<u32> = Monitor::new();
    let active = monitoring();
    for m in [&idle, &active] {
        for code in [0i64, 1, 0x2B, 0x2D, 0x09, -1, i64::MAX] {
            let e = key(code);
            assert!(!m.wants_focus_query(e));
            assert_eq!(run_event(m, e, &focused_text_input(), &cursor_at(1, 1, 2)), TapAction::PassThrough);
        }
        let release = KeyEvent { event_type: 11, keycode: TRIGGER_KEYCODE };
        assert!(!m.wants_focus_query(release));
        assert_eq!(m.react(release, Some(Ok(TextFieldBounds { x: 1, y: 1, width: 0, height: 0 }))), TapAction::PassThrough);
    }
}

#[test]
fn trigger_without_text_field_passes_through() {
    let m = monitoring();
    let e = key(TRIGGER_KEYCODE);
    assert!(m.wants_focus_query(e));
    let unfocused = FocusProbe { value_status: -25205, ..focused_text_input() };
    let a = run_event(&m, e, &unfocused, &cursor_at(100, 200, 800));
    assert_eq!(a, TapAction::PassThrough);
    assert!(!a.suppresses());
    assert_eq!(a.notification(), None);
    assert_eq!(a.overlay_position(), None);
    let broken = CursorProbe { screen: None, ..cursor_at(0, 0, 800) };
    assert_eq!(run_event(&m, e, &focused_text_input(), &broken), TapAction::PassThrough);
}

#[test]
fn trigger_in_text_field_notifies_once_and_suppresses() {
    let m = monitoring();
    let a = run_event(&m, key(TRIGGER_KEYCODE), &focused_text_input(), &cursor_at(100, 200, 800));
    assert!(a.suppresses());
    assert_eq!(a.notification(), Some(TextFieldBounds { x: 100, y: 600, width: 0, height: 0 }));
    assert_eq!(a.overlay_position(), Some((100, 600)));
    assert_eq!(m.sink(), Some(&7));
}

#[test]
fn nothing_is_notified_after_stop() {
    let mut m = monitoring();
    assert_eq!(stop_monitoring(&mut m), Some(0x1000));
    assert!(!m.is_monitoring());
    assert_eq!(m.sink(), None);
    for code in [TRIGGER_KEYCODE, 0, 0x09] {
        let e = key(code);
        assert!(!m.wants_focus_query(e));
        let a = m.react(e, Some(Ok(TextFieldBounds { x: 1, y: 2, width: 0, height: 0 })));
        assert_eq!(a, TapAction::PassThrough);
        assert_eq!(a.notification(), None);
    }
}

#[test]
fn stop_twice_is_harmless() {
    let mut m = monitoring();
    assert_eq!(stop_monitoring(&mut m), Some(0x1000));
    assert_eq!(stop_monitoring(&mut m), None);
    assert!(!m.is_monitoring());
    let mut idle: Monitor<u32> = Monitor::new();
    assert_eq!(stop_monitoring(&mut idle), None);
    assert_eq!(stop_monitoring(&mut idle), None);
}

#[test]
fn start_refused_without_permission_or_when_running() {
    let mut m: Monitor<u32> = Monitor::new();
    assert_eq!(start_monitoring(&mut m, 1, None), Err(MonitorError::PermissionDenied));
    assert!(!m.is_monitoring());
    assert_eq!(m.sink(), None);
    assert_eq!(start_monitoring(&mut m, 1, Some(0x20)), Ok(()));
    assert_eq!(start_monitoring(&mut m, 2, Some(0x30)), Err(MonitorError::AlreadyMonitoring));
    assert_eq!(m.sink(), Some(&1));
    assert_eq!(stop_monitoring(&mut m), Some(0x20));
    assert!(MonitorError::PermissionDenied.message().contains("permission"));
    assert!(!MonitorError::AlreadyMonitoring.message().is_empty());
}

#[test]
fn pointer_scenario_on_800_tall_display() {
    let m = monitoring();
    let a = run_event(&m, key(0x2C), &focused_text_input(), &cursor_at(100, 200, 800));
    assert_eq!(a, TapAction::NotifyAndSuppress(TextFieldBounds { x: 100, y: 600, width: 0, height: 0 }));
}
