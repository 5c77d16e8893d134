use cad_3e_engine::{
    Capability, EngineAction, EngineState, ExitReason, GlCommand, InputEvent, KeyName, PolygonMode, KEY_COUNT,
};

const SHIFT: usize = 55;

fn key(code: usize, name: KeyName, pressed: bool) -> InputEvent {
    InputEvent::Key { code, name, pressed }
}

#[test]
fn new_engine_has_default_switches() {
    let s = EngineState::new(60, SHIFT);
    let f = s.flags();
    assert_eq!(s.target_fps(), 60);
    assert!(!f.initialized);
    assert!(!f.is_dragging);
    assert!(f.enable_depth_test);
    assert!(f.enable_v_sync);
    assert!(!f.enable_capture_cursor);
    assert!(!f.enable_wireframe_mode);
    assert!(!f.enable_backface_culling);
    assert!(f.enable_msaa);
    for code in 0..KEY_COUNT {
        assert!(!s.is_key_down(code));
    }
    assert!(!s.is_key_down(KEY_COUNT));
}

#[test]
fn close_and_escape_exit() {
    let mut s = EngineState::new(60, SHIFT);
    let before = s.flags();
    assert_eq!(s.handle_event(InputEvent::CloseRequested), EngineAction::Exit(ExitReason::CloseRequested));
    assert_eq!(s.handle_event(key(110, KeyName::Escape, true)), EngineAction::Exit(ExitReason::EscapePressed));
    assert_eq!(s.flags(), before);
    assert!(!s.is_key_down(110));
}

#[test]
fn escape_release_is_recorded_as_key_state() {
    let mut s = EngineState::new(60, SHIFT);
    assert_eq!(s.handle_event(key(110, KeyName::Other, true)), EngineAction::Nothing);
    assert!(s.is_key_down(110));
    assert_eq!(s.handle_event(key(110, KeyName::Escape, false)), EngineAction::Nothing);
    assert!(!s.is_key_down(110));
}

#[test]
fn digit1_toggles_depth_test_and_twice_restores() {
    let mut s = EngineState::new(60, SHIFT);
    let before = s.flags();
    assert_eq!(s.handle_event(key(31, KeyName::Digit1, true)), EngineAction::SetDepthTest(false));
    assert!(!s.flags().enable_depth_test);
    assert!(!s.is_key_down(31));
    assert_eq!(s.handle_event(key(31, KeyName::Digit1, true)), EngineAction::SetDepthTest(true));
    assert_eq!(s.flags(), before);
}

#[test]
fn digit2_toggles_cursor_capture_and_twice_restores() {
    let mut s = EngineState::new(60, SHIFT);
    let before = s.flags();
    assert_eq!(s.handle_event(key(32, KeyName::Digit2, true)), EngineAction::SetCursorCapture(true));
    assert!(s.flags().enable_capture_cursor);
    assert_eq!(s.handle_event(key(32, KeyName::Digit2, true)), EngineAction::SetCursorCapture(false));
    assert_eq!(s.flags(), before);
}

#[test]
fn digit_release_records_key_state() {
    let mut s = EngineState::new(60, SHIFT);
    assert_eq!(s.handle_event(key(31, KeyName::Other, true)), EngineAction::Nothing);
    assert!(s.is_key_down(31));
    assert_eq!(s.handle_event(key(31, KeyName::Digit1, false)), EngineAction::Nothing);
    assert!(!s.is_key_down(31));
    assert!(s.flags().enable_depth_test);
}

#[test]
fn other_keys_record_state_only_in_range() {
    let mut s = EngineState::new(60, SHIFT);
    assert_eq!(s.handle_event(key(7, KeyName::Other, true)), EngineAction::Nothing);
    assert!(s.is_key_down(7));
    assert!(!s.is_key_down(8));
    assert_eq!(s.handle_event(key(KEY_COUNT - 1, KeyName::Other, true)), EngineAction::Nothing);
    assert!(s.is_key_down(KEY_COUNT - 1));
    assert_eq!(s.handle_event(key(KEY_COUNT, KeyName::Other, true)), EngineAction::Nothing);
    assert!(!s.is_key_down(KEY_COUNT));
    assert_eq!(s.handle_event(key(7, KeyName::Other, false)), EngineAction::Nothing);
    assert!(!s.is_key_down(7));
    assert_eq!(s.handle_event(InputEvent::UnidentifiedKey), EngineAction::Nothing);
}

#[test]
fn cursor_moves_camera_only_while_dragging() {
    let mut s = EngineState::new(60, SHIFT);
    assert_eq!(s.handle_event(InputEvent::CursorMoved), EngineAction::Nothing);
    assert_eq!(s.handle_event(InputEvent::MouseButton { left: true, pressed: true }), EngineAction::Nothing);
    assert!(s.flags().is_dragging);
    assert_eq!(s.handle_event(InputEvent::CursorMoved), EngineAction::Orbit);
    s.handle_event(key(SHIFT, KeyName::Other, true));
    assert_eq!(s.handle_event(InputEvent::CursorMoved), EngineAction::Pan);
    s.handle_event(key(SHIFT, KeyName::Other, false));
    assert_eq!(s.handle_event(InputEvent::CursorMoved), EngineAction::Orbit);
    // other buttons do not end the drag
    s.handle_event(InputEvent::MouseButton { left: false, pressed: false });
    assert!(s.flags().is_dragging);
    s.handle_event(InputEvent::MouseButton { left: true, pressed: false });
    assert!(!s.flags().is_dragging);
    s.handle_event(key(SHIFT, KeyName::Other, true));
    assert_eq!(s.handle_event(InputEvent::CursorMoved), EngineAction::Nothing);
}

#[test]
fn wheel_resize_redraw_and_unhandled() {
    let mut s = EngineState::new(60, SHIFT);
    let before = s.flags();
    assert_eq!(s.handle_event(InputEvent::MouseWheelLines), EngineAction::Zoom);
    assert_eq!(s.handle_event(InputEvent::MouseWheelPixels), EngineAction::Nothing);
    assert_eq!(
        s.handle_event(InputEvent::Resized { width: 1024, height: 768 }),
        EngineAction::Resize { width: 1024, height: 768 }
    );
    assert_eq!(s.handle_event(InputEvent::RedrawRequested), EngineAction::Redraw);
    assert_eq!(s.handle_event(InputEvent::Other), EngineAction::LogUnhandled);
    assert_eq!(s.flags(), before);
}

#[test]
fn resume_sets_up_once_and_then_redraws() {
    let mut s = EngineState::new(60, SHIFT);
    assert!(!s.on_about_to_wait());
    assert!(s.on_resumed());
    assert!(s.flags().initialized);
    assert!(s.on_about_to_wait());
    assert!(!s.on_resumed());
    assert!(s.flags().initialized);
}

#[test]
fn setup_commands_for_default_switches() {
    let s = EngineState::new(60, SHIFT);
    let cmds = s.setup_commands(800, 600);
    assert_eq!(
        cmds,
        vec![
            GlCommand::Enable(Capability::DepthTest),
            GlCommand::DepthFuncLess,
            GlCommand::Enable(Capability::Multisample),
            GlCommand::PolygonMode(PolygonMode::Fill),
            GlCommand::Viewport { x: 0, y: 0, width: 800, height: 600 },
        ]
    );
}

#[test]
fn setup_commands_without_depth_test() {
    let mut s = EngineState::new(60, SHIFT);
    s.handle_event(key(31, KeyName::Digit1, true));
    let cmds = s.setup_commands(1280, 720);
    assert_eq!(
        cmds,
        vec![
            GlCommand::Enable(Capability::Multisample),
            GlCommand::PolygonMode(PolygonMode::Fill),
            GlCommand::Viewport { x: 0, y: 0, width: 1280, height: 720 },
        ]
    );
}

#[test]
fn setup_viewport_truncates_like_a_cast() {
    let s = EngineState::new(60, SHIFT);
    let cmds = s.setup_commands(u32::MAX, 1);
    assert_eq!(cmds[cmds.len() - 1], GlCommand::Viewport { x: 0, y: 0, width: -1, height: 1 });
}

#[test]
fn key_state_follows_latest_event_over_a_sequence() {
    let mut s = EngineState::new(60, SHIFT);
    let events = vec![
        key(7, KeyName::Other, true),
        key(110, KeyName::Escape, false),
        key(8, KeyName::Other, true),
        InputEvent::CursorMoved,
        key(7, KeyName::Other, false),
        key(31, KeyName::Digit1, true),
        InputEvent::MouseButton { left: true, pressed: true },
        key(8, KeyName::Other, true),
    ];
    for e in events {
        s.handle_event(e);
    }
    assert!(!s.is_key_down(7));
    assert!(s.is_key_down(8));
    assert!(!s.is_key_down(110));
    assert!(!s.is_key_down(31));
}

#[test]
fn second_resume_changes_nothing() {
    let mut s = EngineState::new(60, SHIFT);
    assert!(s.on_resumed());
    let after_first = s.flags();
    assert!(!s.on_resumed());
    assert_eq!(s.flags(), after_first);
}
