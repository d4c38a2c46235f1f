use tdraw::editor::{Command, Direction, Editor};
use tdraw::geometry::Rect;
use tdraw::render::{project, Primitive, Tag, BORDER, SUBUNITS};

fn rect(x: i64, y: i64, z: u64, width: i64, height: i64) -> Rect {
    Rect { x, y, z, width, height }
}

fn strip(x: i64, y: i64, width: i64, height: i64, tag: Tag) -> Primitive {
    Primitive::Strip { x, y, width, height, tag }
}

fn tags(frame: &[Primitive]) -> Vec<Tag> {
    let mut out = Vec::new();
    for p in frame {
        if let Primitive::Strip { tag, .. } = p {
            out.push(*tag);
        }
    }
    out
}

#[test]
fn units() {
    assert_eq!(SUBUNITS, 10);
    assert_eq!(BORDER, 1);
}

#[test]
fn empty_editor_projects_to_the_cursor_alone() {
    let frame = project(&Editor::new());
    assert_eq!(frame, vec![Primitive::Glyph { x: 200, y: 100 }]);
}

#[test]
fn one_rectangle_gives_four_strips_and_the_cursor() {
    let e = Editor::with_rects(vec![rect(30, 20, 0, 10, 4)]);
    let frame = project(&e);
    assert_eq!(
        frame,
        vec![
            strip(300, 200, 100, 1, Tag::Normal),
            strip(300, 239, 100, 1, Tag::Normal),
            strip(300, 200, 1, 40, Tag::Normal),
            strip(399, 200, 1, 40, Tag::Normal),
            Primitive::Glyph { x: 200, y: 100 },
        ]
    );
}

#[test]
fn rectangle_under_the_cursor_is_hovered() {
    let e = Editor::with_rects(vec![rect(15, 5, 0, 10, 10)]);
    let frame = project(&e);
    assert_eq!(
        frame,
        vec![
            strip(150, 50, 100, 1, Tag::Hovered),
            strip(150, 149, 100, 1, Tag::Hovered),
            strip(150, 50, 1, 100, Tag::Hovered),
            strip(249, 50, 1, 100, Tag::Hovered),
            Primitive::Glyph { x: 200, y: 100 },
        ]
    );
}

#[test]
fn only_the_topmost_under_the_cursor_is_hovered() {
    let e = Editor::with_rects(vec![
        rect(15, 5, 0, 10, 10),
        rect(18, 8, 1, 10, 10),
        rect(40, 40, 2, 1, 1),
    ]);
    let frame = project(&e);
    assert_eq!(frame.len(), 13);
    assert_eq!(
        tags(&frame),
        vec![
            Tag::Normal, Tag::Normal, Tag::Normal, Tag::Normal,
            Tag::Hovered, Tag::Hovered, Tag::Hovered, Tag::Hovered,
            Tag::Normal, Tag::Normal, Tag::Normal, Tag::Normal,
        ]
    );
}

#[test]
fn selected_wins_over_hovered() {
    let mut e = Editor::with_rects(vec![rect(15, 5, 0, 10, 10), rect(18, 8, 1, 10, 10)]);
    e.apply(Command::Confirm);
    let frame = project(&e);
    assert_eq!(
        tags(&frame),
        vec![
            Tag::Normal, Tag::Normal, Tag::Normal, Tag::Normal,
            Tag::Selected, Tag::Selected, Tag::Selected, Tag::Selected,
        ]
    );
    e.cursor.x = 16;
    e.cursor.y = 6;
    let moved = project(&e);
    assert_eq!(
        tags(&moved),
        vec![
            Tag::Hovered, Tag::Hovered, Tag::Hovered, Tag::Hovered,
            Tag::Selected, Tag::Selected, Tag::Selected, Tag::Selected,
        ]
    );
}

#[test]
fn drawing_adds_a_preview_outline_before_the_cursor() {
    let mut e = Editor::with_rects(vec![rect(100, 100, 0, 2, 2)]);
    e.apply(Command::BeginDraw(Some(Direction::Left)));
    e.apply(Command::BeginDraw(Some(Direction::Up)));
    let frame = project(&e);
    assert_eq!(
        frame,
        vec![
            strip(1000, 1000, 20, 1, Tag::Normal),
            strip(1000, 1019, 20, 1, Tag::Normal),
            strip(1000, 1000, 1, 20, Tag::Normal),
            strip(1019, 1000, 1, 20, Tag::Normal),
            strip(180, 100, 20, 1, Tag::Preview),
            strip(180, 109, 20, 1, Tag::Preview),
            strip(180, 100, 1, 10, Tag::Preview),
            strip(199, 100, 1, 10, Tag::Preview),
            Primitive::Glyph { x: 180, y: 110 },
        ]
    );
}

#[test]
fn degenerate_rectangle_still_projects() {
    let e = Editor::with_rects(vec![rect(50, 50, 0, 0, 0)]);
    let frame = project(&e);
    assert_eq!(
        frame,
        vec![
            strip(500, 500, 0, 1, Tag::Normal),
            strip(500, 499, 0, 1, Tag::Normal),
            strip(500, 500, 1, 0, Tag::Normal),
            strip(499, 500, 1, 0, Tag::Normal),
            Primitive::Glyph { x: 200, y: 100 },
        ]
    );
}

#[test]
fn the_cursor_glyph_is_always_last() {
    let mut e = Editor::with_rects(vec![rect(15, 5, 0, 10, 10), rect(0, 0, 1, 3, 3)]);
    let script = [
        Command::Confirm,
        Command::Move(Direction::Up),
        Command::Confirm,
        Command::BeginDraw(Some(Direction::Right)),
        Command::Move(Direction::Down),
        Command::Confirm,
        Command::UndoLast,
        Command::ClearAll,
    ];
    for &cmd in &script {
        e.apply(cmd);
        let frame = project(&e);
        let drawing = if e.is_drawing() { 4 } else { 0 };
        assert_eq!(frame.len(), 4 * e.rects.len() + drawing + 1);
        assert_eq!(
            frame[frame.len() - 1],
            Primitive::Glyph { x: 10 * e.cursor.x, y: 10 * e.cursor.y }
        );
    }
}

#[test]
fn projecting_does_not_change_the_editor() {
    let mut e = Editor::with_rects(vec![rect(15, 5, 0, 10, 10)]);
    e.apply(Command::Confirm);
    let before = e.clone();
    let first = project(&e);
    let second = project(&e);
    assert_eq!(e, before);
    assert_eq!(first, second);
}
