use framehost::input::handle_keyboard;
use framehost::input::KeyInput;
use framehost::input::WindowCommand;

#[test]
fn exit_key_exits() {
    let r = handle_keyboard(KeyInput::F12, true, false);
    assert_eq!(r.command, WindowCommand::Exit);
    assert!(r.flush_uniform);
}

#[test]
fn fullscreen_key_toggles_against_current_state() {
    let enter = handle_keyboard(KeyInput::F11, true, false);
    assert_eq!(enter.command, WindowCommand::SetFullscreen { enabled: true });
    let leave = handle_keyboard(KeyInput::F11, true, true);
    assert_eq!(leave.command, WindowCommand::SetFullscreen { enabled: false });
}

#[test]
fn other_press_only_flushes() {
    let r = handle_keyboard(KeyInput::Other, true, false);
    assert_eq!(r.command, WindowCommand::NoChange);
    assert!(r.flush_uniform);
}

#[test]
fn releases_are_ignored() {
    for key in [KeyInput::F11, KeyInput::F12, KeyInput::Other] {
        let r = handle_keyboard(key, false, true);
        assert_eq!(r.command, WindowCommand::NoChange);
        assert!(!r.flush_uniform);
    }
}
