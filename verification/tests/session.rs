use gridpad::Action;
use gridpad::Editor;
use gridpad::InputMode;
use gridpad::KeyCode;
use gridpad::KeyInput;

fn key(code: KeyCode) -> KeyInput {
    KeyInput { code, ctrl: false }
}

fn ctrl(code: KeyCode) -> KeyInput {
    KeyInput { code, ctrl: true }
}

#[test]
fn movement_scenario_sixteen_by_eight() {
    let mut e = Editor::new(16, 8);
    assert_eq!((e.grid.col, e.grid.row), (8, 4));
    for _ in 0..3 {
        assert_eq!(e.handle_key(key(KeyCode::Char('h'))), Action::RedrawPlane);
    }
    assert_eq!((e.grid.col, e.grid.row), (5, 4));
    assert_eq!(e.handle_key(key(KeyCode::Char('j'))), Action::RedrawPlane);
    assert_eq!((e.grid.col, e.grid.row), (5, 5));
    for _ in 0..6 {
        assert_eq!(e.handle_key(key(KeyCode::Char('l'))), Action::RedrawPlane);
    }
    assert_eq!(e.grid.col, 11);
}

#[test]
fn command_scenario_abc_backspace_enter() {
    let mut e = Editor::new(16, 8);
    assert_eq!(e.handle_key(key(KeyCode::Esc)), Action::Stay);
    assert_eq!(e.mode, InputMode::Cmd);
    for c in ['a', 'b', 'c'] {
        assert_eq!(e.handle_key(key(KeyCode::Char(c))), Action::Stay);
    }
    assert_eq!(e.buffer.contents(), "abc");
    assert_eq!(e.handle_key(key(KeyCode::Backspace)), Action::Stay);
    assert_eq!(e.buffer.contents(), "ab");
    assert_eq!(e.handle_key(key(KeyCode::Enter)), Action::Submit("ab".to_string()));
    assert_eq!(e.buffer.contents(), "");
}

#[test]
fn submit_with_nothing_typed_echoes_empty() {
    let mut e = Editor::new(16, 8);
    e.handle_key(key(KeyCode::Esc));
    e.handle_key(key(KeyCode::Char('h')));
    e.handle_key(key(KeyCode::Char('i')));
    assert_eq!(e.handle_key(key(KeyCode::Enter)), Action::Submit("hi".to_string()));
    assert_eq!(e.handle_key(key(KeyCode::Enter)), Action::Submit(String::new()));
    assert_eq!(e.buffer.contents(), "");
}

#[test]
fn toggle_twice_restores_mode_and_clears_buffer() {
    let mut e = Editor::new(16, 8);
    e.handle_key(key(KeyCode::Esc));
    for c in ['x', 'y', 'z'] {
        e.handle_key(key(KeyCode::Char(c)));
    }
    assert_eq!(e.mode, InputMode::Cmd);
    assert_eq!(e.handle_key(key(KeyCode::Esc)), Action::ClearRow);
    assert_eq!(e.mode, InputMode::Key);
    assert_eq!(e.handle_key(key(KeyCode::Esc)), Action::Stay);
    assert_eq!(e.mode, InputMode::Cmd);
    assert_eq!(e.buffer.contents(), "");
    let (col, row) = (e.grid.col, e.grid.row);
    assert_eq!((col, row), (8, 4));
}

#[test]
fn control_q_quits_from_either_mode() {
    let mut e = Editor::new(16, 8);
    assert_eq!(e.handle_key(ctrl(KeyCode::Char('q'))), Action::Quit);
    e.handle_key(key(KeyCode::Esc));
    assert_eq!(e.handle_key(ctrl(KeyCode::Char('q'))), Action::Quit);
    assert_eq!(e.mode, InputMode::Cmd);
}

#[test]
fn plain_q_quits_only_in_key_mode() {
    let mut e = Editor::new(16, 8);
    assert_eq!(e.handle_key(key(KeyCode::Char('q'))), Action::Quit);
    e.handle_key(key(KeyCode::Esc));
    assert_eq!(e.handle_key(key(KeyCode::Char('q'))), Action::Stay);
    assert_eq!(e.buffer.contents(), "q");
}

#[test]
fn write_key_acknowledges_without_moving() {
    let mut e = Editor::new(16, 8);
    assert_eq!(e.handle_key(key(KeyCode::Char('w'))), Action::WriteAck);
    assert_eq!((e.grid.col, e.grid.row), (8, 4));
    assert_eq!(e.mode, InputMode::Key);
}

#[test]
fn idle_key_redraws_without_moving() {
    let mut e = Editor::new(16, 8);
    assert_eq!(e.handle_key(key(KeyCode::Char('i'))), Action::RedrawPlane);
    assert_eq!((e.grid.col, e.grid.row), (8, 4));
}

#[test]
fn null_key_is_ignored_in_both_modes() {
    let mut e = Editor::new(16, 8);
    assert_eq!(e.handle_key(key(KeyCode::Null)), Action::Stay);
    e.handle_key(key(KeyCode::Esc));
    e.handle_key(key(KeyCode::Char('a')));
    assert_eq!(e.handle_key(key(KeyCode::Null)), Action::Stay);
    assert_eq!(e.buffer.contents(), "a");
    assert_eq!(e.mode, InputMode::Cmd);
}

#[test]
fn other_printable_keys_are_no_ops_in_key_mode() {
    let mut e = Editor::new(16, 8);
    assert_eq!(e.handle_key(key(KeyCode::Char('z'))), Action::Stay);
    assert_eq!(e.handle_key(key(KeyCode::Backspace)), Action::Stay);
    assert_eq!(e.handle_key(key(KeyCode::Enter)), Action::Stay);
    assert_eq!(e.handle_key(key(KeyCode::Other)), Action::Stay);
    assert_eq!((e.grid.col, e.grid.row), (8, 4));
    assert_eq!(e.mode, InputMode::Key);
}

#[test]
fn control_modifier_does_not_block_movement() {
    let mut e = Editor::new(16, 8);
    assert_eq!(e.handle_key(ctrl(KeyCode::Char('h'))), Action::RedrawPlane);
    assert_eq!((e.grid.col, e.grid.row), (7, 4));
}
