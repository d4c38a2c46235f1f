//! What holds of the editor over whole runs of commands.

use vstd::prelude::*;
use crate::editor::{Command, Direction, EditorModel, Mode};
use crate::geometry::Point;
use crate::hit::{is_topmost, lemma_topmost_characterized, lemma_topmost_in_bounds, topmost};

verus! {

/// One command keeps a well-formed state well-formed.
pub proof fn lemma_step_keeps_wf(s: EditorModel, cmd: Command)
    requires
        s.wf(),
    ensures
        s.step(cmd).wf(),
{
    lemma_topmost_in_bounds(s.rects, s.cursor.x as int, s.cursor.y as int);
}

/// Any sequence of commands keeps a well-formed state well-formed; so no
/// rectangle ever has a negative width or height, and a selection always
/// names a rectangle of the list.
pub proof fn lemma_run_keeps_wf(s: EditorModel, cmds: Seq<Command>)
    requires
        s.wf(),
    ensures
        s.run(cmds).wf(),
        forall|i: int|
            0 <= i < s.run(cmds).rects.len() ==> (#[trigger] s.run(cmds).rects[i]).width >= 0
                && s.run(cmds).rects[i].height >= 0,
    decreases cmds.len(),
{
    if cmds.len() > 0 {
        lemma_run_keeps_wf(s, cmds.drop_last());
        lemma_step_keeps_wf(s.run(cmds.drop_last()), cmds.last());
    }
}

/// Starting from a fresh editor, any sequence of commands leaves every
/// rectangle with a non-negative extent.
pub proof fn lemma_extents_never_negative(cmds: Seq<Command>, i: int)
    requires
        0 <= i < EditorModel::initial(Seq::empty()).run(cmds).rects.len(),
    ensures
        EditorModel::initial(Seq::empty()).run(cmds).rects[i].width >= 0,
        EditorModel::initial(Seq::empty()).run(cmds).rects[i].height >= 0,
{
    lemma_run_keeps_wf(EditorModel::initial(Seq::empty()), cmds);
}

/// Clearing a second time changes nothing; and outside a drawing gesture
/// the list is empty, and nothing is selected, after the first time and
/// after the second.
pub proof fn lemma_clear_twice(s: EditorModel)
    ensures
        s.step(Command::ClearAll).step(Command::ClearAll) == s.step(Command::ClearAll),
        s.mode is Idle ==> s.step(Command::ClearAll).rects.len() == 0 && s.step(
            Command::ClearAll,
        ).mode == (Mode::Idle { selection: None }),
        s.mode is Idle ==> s.step(Command::ClearAll).step(Command::ClearAll).rects.len() == 0,
        s.mode is Drawing ==> s.step(Command::ClearAll) == s,
{
}

/// Undoing on an empty list changes nothing.
pub proof fn lemma_undo_on_empty(s: EditorModel)
    requires
        s.rects.len() == 0,
    ensures
        s.step(Command::UndoLast) == s,
{
}

/// Undoing outside a gesture removes exactly the last rectangle, and keeps
/// a selection unless it named that rectangle.
pub proof fn lemma_undo_removes_last(s: EditorModel)
    requires
        s.wf(),
        s.mode is Idle,
        0 < s.rects.len() <= usize::MAX,
    ensures
        s.step(Command::UndoLast).rects == s.rects.drop_last(),
        s.step(Command::UndoLast).cursor == s.cursor,
        s.mode matches Mode::Idle { selection: Some(i) } ==> s.step(Command::UndoLast).mode == (
        Mode::Idle { selection: if i == s.rects.len() - 1 { None } else { Some(i) } }),
{
}

/// With nothing selected and a rectangle under the cursor, confirming
/// selects the topmost rectangle under the cursor and changes nothing else.
pub proof fn lemma_confirm_selects(s: EditorModel, under: int)
    requires
        s.mode == (Mode::Idle { selection: None }),
        s.rects.len() <= usize::MAX,
        0 <= under < s.rects.len(),
        s.rects[under].spec_contains(s.cursor.x as int, s.cursor.y as int),
    ensures
        s.step(Command::Confirm).mode matches Mode::Idle { selection: Some(i) } && is_topmost(
            s.rects,
            i as int,
            s.cursor.x as int,
            s.cursor.y as int,
        ),
        s.step(Command::Confirm).rects == s.rects,
        s.step(Command::Confirm).cursor == s.cursor,
{
    lemma_topmost_characterized(s.rects, s.cursor.x as int, s.cursor.y as int);
}

/// With nothing selected and no rectangle under the cursor, confirming
/// changes nothing.
pub proof fn lemma_confirm_on_nothing(s: EditorModel)
    requires
        s.mode == (Mode::Idle { selection: None }),
        s.rects.len() <= usize::MAX,
        forall|j: int|
            0 <= j < s.rects.len() ==> !(#[trigger] s.rects[j]).spec_contains(
                s.cursor.x as int,
                s.cursor.y as int,
            ),
    ensures
        s.step(Command::Confirm) == s,
{
    lemma_topmost_characterized(s.rects, s.cursor.x as int, s.cursor.y as int);
}

/// With a rectangle selected, confirming clears the selection and changes
/// nothing else, wherever the cursor stands.
pub proof fn lemma_confirm_deselects(s: EditorModel)
    requires
        s.mode matches Mode::Idle { selection: Some(_) },
    ensures
        s.step(Command::Confirm) == (EditorModel { mode: Mode::Idle { selection: None }, ..s }),
{
}

/// With nothing selected and a rectangle under the cursor, a first
/// confirmation selects; the selection survives any cursor moves; and a
/// second confirmation clears it, wherever the cursor then stands.
pub proof fn lemma_confirm_toggle(s: EditorModel, under: int, moves: Seq<Direction>)
    requires
        s.wf(),
        s.mode == (Mode::Idle { selection: None }),
        s.rects.len() <= usize::MAX,
        0 <= under < s.rects.len(),
        s.rects[under].spec_contains(s.cursor.x as int, s.cursor.y as int),
    ensures
        s.step(Command::Confirm).mode matches Mode::Idle { selection: Some(_) },
        s.step(Command::Confirm).run(as_moves(moves)).mode == s.step(Command::Confirm).mode,
        s.step(Command::Confirm).run(as_moves(moves)).step(Command::Confirm).mode == (Mode::Idle {
            selection: None,
        }),
{
    lemma_confirm_selects(s, under);
    lemma_step_keeps_wf(s, Command::Confirm);
    lemma_moves_keep_mode(s.step(Command::Confirm), moves);
}

/// The `Move` commands of a sequence of directions.
pub open spec fn as_moves(moves: Seq<Direction>) -> Seq<Command> {
    Seq::new(moves.len(), |i: int| Command::Move(moves[i]))
}

/// Moving never changes the mode, the selection, or the number of
/// rectangles.
pub proof fn lemma_moves_keep_mode(s: EditorModel, moves: Seq<Direction>)
    requires
        s.wf(),
    ensures
        s.run(as_moves(moves)).mode == s.mode,
        s.run(as_moves(moves)).rects.len() == s.rects.len(),
    decreases moves.len(),
{
    if moves.len() > 0 {
        assert(as_moves(moves).drop_last() =~= as_moves(moves.drop_last()));
        lemma_moves_keep_mode(s, moves.drop_last());
        lemma_run_keeps_wf(s, as_moves(moves.drop_last()));
    }
}

/// Committing a gesture appends the box between anchor and cursor with the
/// next `z`, and leaves the editor idle with nothing selected.
pub proof fn lemma_commit_appends(s: EditorModel, anchor: Point)
    requires
        s.wf(),
        s.mode == (Mode::Drawing { anchor }),
        s.rects.len() <= u64::MAX,
    ensures
        s.step(Command::Confirm).rects.len() == s.rects.len() + 1,
        s.step(Command::Confirm).rects.drop_last() == s.rects,
        s.step(Command::Confirm).rects.last().z == s.rects.len(),
        s.step(Command::Confirm).rects.last().x == (if anchor.x <= s.cursor.x {
            anchor.x
        } else {
            s.cursor.x
        }),
        s.step(Command::Confirm).rects.last().width == (if anchor.x <= s.cursor.x {
            s.cursor.x - anchor.x
        } else {
            anchor.x - s.cursor.x
        }),
        s.step(Command::Confirm).rects.last().y == (if anchor.y <= s.cursor.y {
            anchor.y
        } else {
            s.cursor.y
        }),
        s.step(Command::Confirm).rects.last().height == (if anchor.y <= s.cursor.y {
            s.cursor.y - anchor.y
        } else {
            anchor.y - s.cursor.y
        }),
        s.step(Command::Confirm).mode == (Mode::Idle { selection: None }),
{
}

/// While a gesture is active the anchor stays where the gesture began,
/// whatever moves follow.
pub proof fn lemma_anchor_fixed(s: EditorModel, d: Direction)
    requires
        s.mode is Drawing,
    ensures
        s.step(Command::Move(d)).mode == s.mode,
        s.step(Command::BeginDraw(Some(d))).mode == s.mode,
        s.step(Command::BeginDraw(None)) == s,
        s.step(Command::Move(d)).rects == s.rects,
        s.step(Command::UndoLast) == s,
{
}

} // verus!
