use tdraw::editor::{Command, Direction, Editor, Effect, Mode};
use tdraw::geometry::Point;
use tdraw::input::{decode, on_key, Key, KeyEvent};

fn press(key: Key) -> KeyEvent {
    KeyEvent { key, shift: false, pressed: true }
}

fn shifted(key: Key) -> KeyEvent {
    KeyEvent { key, shift: true, pressed: true }
}

#[test]
fn letters_move_the_cursor() {
    assert_eq!(decode(press(Key::Char('w'))), Some(Command::Move(Direction::Up)));
    assert_eq!(decode(press(Key::Char('s'))), Some(Command::Move(Direction::Down)));
    assert_eq!(decode(press(Key::Char('a'))), Some(Command::Move(Direction::Left)));
    assert_eq!(decode(press(Key::Char('d'))), Some(Command::Move(Direction::Right)));
}

#[test]
fn shifted_letters_move_too_except_d() {
    assert_eq!(decode(shifted(Key::Char('W'))), Some(Command::Move(Direction::Up)));
    assert_eq!(decode(shifted(Key::Char('S'))), Some(Command::Move(Direction::Down)));
    assert_eq!(decode(shifted(Key::Char('A'))), Some(Command::Move(Direction::Left)));
    assert_eq!(decode(shifted(Key::Char('D'))), Some(Command::BeginDraw(None)));
    assert_eq!(decode(shifted(Key::Char('d'))), Some(Command::BeginDraw(None)));
    assert_eq!(decode(press(Key::Char('D'))), Some(Command::Move(Direction::Right)));
}

#[test]
fn shifted_arrows_draw() {
    assert_eq!(decode(shifted(Key::Up)), Some(Command::BeginDraw(Some(Direction::Up))));
    assert_eq!(decode(shifted(Key::Down)), Some(Command::BeginDraw(Some(Direction::Down))));
    assert_eq!(decode(shifted(Key::Left)), Some(Command::BeginDraw(Some(Direction::Left))));
    assert_eq!(decode(shifted(Key::Right)), Some(Command::BeginDraw(Some(Direction::Right))));
}

#[test]
fn plain_arrows_do_nothing() {
    assert_eq!(decode(press(Key::Up)), None);
    assert_eq!(decode(press(Key::Down)), None);
    assert_eq!(decode(press(Key::Left)), None);
    assert_eq!(decode(press(Key::Right)), None);
}

#[test]
fn quit_undo_clear_confirm() {
    assert_eq!(decode(press(Key::Char('q'))), Some(Command::Quit));
    assert_eq!(decode(shifted(Key::Char('q'))), Some(Command::Quit));
    assert_eq!(decode(press(Key::Char('Q'))), None);
    assert_eq!(decode(press(Key::Char('z'))), Some(Command::UndoLast));
    assert_eq!(decode(shifted(Key::Char('Z'))), Some(Command::UndoLast));
    assert_eq!(decode(press(Key::Char('c'))), Some(Command::ClearAll));
    assert_eq!(decode(shifted(Key::Char('C'))), Some(Command::ClearAll));
    assert_eq!(decode(press(Key::Enter)), Some(Command::Confirm));
    assert_eq!(decode(shifted(Key::Enter)), Some(Command::Confirm));
}

#[test]
fn unbound_keys_do_nothing() {
    assert_eq!(decode(press(Key::Other)), None);
    assert_eq!(decode(shifted(Key::Other)), None);
    assert_eq!(decode(press(Key::Char('x'))), None);
    assert_eq!(decode(press(Key::Char(' '))), None);
}

#[test]
fn only_a_press_counts() {
    for key in [Key::Char('q'), Key::Char('w'), Key::Enter, Key::Up, Key::Char('z')] {
        assert_eq!(decode(KeyEvent { key, shift: false, pressed: false }), None);
        assert_eq!(decode(KeyEvent { key, shift: true, pressed: false }), None);
    }
}

#[test]
fn keys_drive_the_editor() {
    let mut e = Editor::new();
    for _ in 0..5 {
        assert_eq!(on_key(&mut e, shifted(Key::Right)), Effect::Continue);
    }
    assert_eq!(e.cursor, Point { x: 30, y: 10 });
    assert_eq!(on_key(&mut e, press(Key::Enter)), Effect::Continue);
    assert_eq!(e.rects.len(), 1);
    assert_eq!((e.rects[0].x, e.rects[0].y, e.rects[0].z), (20, 10, 0));
    assert_eq!((e.rects[0].width, e.rects[0].height), (10, 0));
    assert_eq!(on_key(&mut e, press(Key::Enter)), Effect::Continue);
    assert_eq!(e.mode, Mode::Idle { selection: Some(0) });
    assert_eq!(on_key(&mut e, press(Key::Char('w'))), Effect::Continue);
    assert_eq!(e.rects[0].y, 11);
    assert_eq!(on_key(&mut e, press(Key::Char('q'))), Effect::PersistAndQuit);
}

#[test]
fn unbound_and_released_keys_leave_the_editor_alone() {
    let mut e = Editor::new();
    on_key(&mut e, shifted(Key::Up));
    let before = e.clone();
    assert_eq!(on_key(&mut e, press(Key::Other)), Effect::Continue);
    assert_eq!(on_key(&mut e, press(Key::Left)), Effect::Continue);
    assert_eq!(on_key(&mut e, KeyEvent { key: Key::Char('q'), shift: false, pressed: false }), Effect::Continue);
    assert_eq!(e, before);
}
