//! The editor state machine: one command in, the next state out.

use vstd::prelude::*;
use crate::geometry::{in_range, Point, Rect, COORD_MAX};
use crate::hit::{resolve_hit, topmost};

verus! {

/// Canvas units covered by one horizontal step. Terminal cells are about
/// twice as tall as wide, so two columns match one row.
pub const HORIZONTAL_STEP: i64 = 2;

/// Canvas units covered by one vertical step.
pub const VERTICAL_STEP: i64 = 1;

/// The column the cursor starts in.
pub const START_X: i64 = 20;

/// The row the cursor starts in.
pub const START_Y: i64 = 10;

/// One of the four directions of a step. `Up` raises `y`.
#[derive(Clone, Copy, Debug, PartialEq, Eq, Structural)]
pub enum Direction {
    Up,
    Down,
    Left,
    Right,
}

impl Direction {
    /// Signed horizontal extent of one step in this direction.
    pub open spec fn spec_dx(self) -> int {
        match self {
            Direction::Left => -HORIZONTAL_STEP,
            Direction::Right => HORIZONTAL_STEP as int,
            _ => 0,
        }
    }

    /// Signed vertical extent of one step in this direction.
    pub open spec fn spec_dy(self) -> int {
        match self {
            Direction::Up => VERTICAL_STEP as int,
            Direction::Down => -VERTICAL_STEP,
            _ => 0,
        }
    }

    pub fn dx(self) -> (d: i64)
        ensures
            d == self.spec_dx(),
    {
        match self {
            Direction::Left => -HORIZONTAL_STEP,
            Direction::Right => HORIZONTAL_STEP,
            _ => 0,
        }
    }

    pub fn dy(self) -> (d: i64)
        ensures
            d == self.spec_dy(),
    {
        match self {
            Direction::Up => VERTICAL_STEP,
            Direction::Down => -VERTICAL_STEP,
            _ => 0,
        }
    }
}

/// What the editor is doing between two commands.
#[derive(Clone, Copy, Debug, PartialEq, Eq)]
pub enum Mode {
    /// No gesture is active; a rectangle may be selected, by its index.
    Idle { selection: Option<usize> },
    /// A rectangle is being drawn from `anchor` to the cursor.
    Drawing { anchor: Point },
}

/// An abstract input command.
#[derive(Clone, Copy, Debug, PartialEq, Eq)]
pub enum Command {
    /// Step the cursor, dragging the selected rectangle along.
    Move(Direction),
    /// Begin a drawing gesture at the cursor unless one is active, then
    /// step the cursor if a direction is given.
    BeginDraw(Option<Direction>),
    /// Commit the gesture, or clear the selection, or select under the
    /// cursor, whichever applies first.
    Confirm,
    /// Remove the most recent rectangle.
    UndoLast,
    /// Remove every rectangle.
    ClearAll,
    /// Leave the editor.
    Quit,
}

/// What the caller has to do after a command was applied.
#[derive(Clone, Copy, Debug, PartialEq, Eq, Structural)]
pub enum Effect {
    /// Nothing: go on with the next command.
    Continue,
    /// Write the rectangle list to storage, then terminate.
    PersistAndQuit,
}

/// The mathematical value of an editor state.
pub struct EditorModel {
    pub cursor: Point,
    pub mode: Mode,
    pub rects: Seq<Rect>,
}

/// Whether a step from `p` in direction `d` stays in the canvas space.
pub open spec fn can_step(p: Point, d: Direction) -> bool {
    in_range(p.x + d.spec_dx()) && in_range(p.y + d.spec_dy())
}

/// The point one step from `p` in direction `d`.
pub open spec fn stepped(p: Point, d: Direction) -> Point {
    Point { x: (p.x + d.spec_dx()) as i64, y: (p.y + d.spec_dy()) as i64 }
}

/// Whether `r`, moved one step in direction `d`, is still well-formed.
pub open spec fn can_shift(r: Rect, d: Direction) -> bool {
    &&& -COORD_MAX <= r.x + d.spec_dx()
    &&& r.x + d.spec_dx() + r.width <= COORD_MAX
    &&& -COORD_MAX <= r.y + d.spec_dy()
    &&& r.y + d.spec_dy() + r.height <= COORD_MAX
}

impl EditorModel {
    /// The state of a fresh editor that holds `rects`.
    pub open spec fn initial(rects: Seq<Rect>) -> EditorModel {
        EditorModel {
            cursor: Point { x: START_X, y: START_Y },
            mode: Mode::Idle { selection: None },
            rects,
        }
    }

    /// The state's invariant: every point lies in the canvas space, every
    /// rectangle has a non-negative extent, and a selection names a
    /// rectangle that exists.
    pub open spec fn wf(self) -> bool {
        &&& self.cursor.wf()
        &&& forall|i: int| 0 <= i < self.rects.len() ==> (#[trigger] self.rects[i]).wf()
        &&& match self.mode {
            Mode::Idle { selection: Some(i) } => i < self.rects.len(),
            Mode::Idle { selection: None } => true,
            Mode::Drawing { anchor } => anchor.wf(),
        }
    }

    /// The index of the selected rectangle; `None` while drawing.
    pub open spec fn selection(self) -> Option<usize> {
        match self.mode {
            Mode::Idle { selection } => selection,
            Mode::Drawing { .. } => None,
        }
    }

    /// The cursor taken one step, where that stays in the canvas space;
    /// nothing else changes.
    pub open spec fn advanced(self, d: Direction) -> EditorModel {
        if can_step(self.cursor, d) {
            EditorModel { cursor: stepped(self.cursor, d), ..self }
        } else {
            self
        }
    }

    /// `Move`: the cursor steps, and a selected rectangle steps with it.
    /// The step is taken only if the cursor and the dragged rectangle both
    /// stay in the canvas space.
    pub open spec fn moved(self, d: Direction) -> EditorModel {
        match self.mode {
            Mode::Idle { selection: Some(i) } => {
                if can_step(self.cursor, d) && can_shift(self.rects[i as int], d) {
                    EditorModel {
                        cursor: stepped(self.cursor, d),
                        rects: self.rects.update(
                            i as int,
                            self.rects[i as int].spec_shifted(d.spec_dx(), d.spec_dy()),
                        ),
                        ..self
                    }
                } else {
                    self
                }
            },
            _ => self.advanced(d),
        }
    }

    /// `BeginDraw`: without a selection, the gesture starts at the cursor
    /// unless one is active already, then the cursor steps. With a
    /// selection the command is ignored.
    pub open spec fn drawing_begun(self, d: Option<Direction>) -> EditorModel {
        let anchored = match self.mode {
            Mode::Idle { selection: None } => EditorModel {
                mode: Mode::Drawing { anchor: self.cursor },
                ..self
            },
            _ => self,
        };
        match (self.mode, d) {
            (Mode::Idle { selection: Some(_) }, _) => self,
            (_, Some(dir)) => anchored.advanced(dir),
            (_, None) => anchored,
        }
    }

    /// `Confirm`: first, a gesture is committed as a new rectangle whose
    /// `z` is the number of rectangles before it; else a selection is
    /// cleared; else the topmost rectangle under the cursor is selected.
    pub open spec fn confirmed(self) -> EditorModel {
        match self.mode {
            Mode::Drawing { anchor } => EditorModel {
                mode: Mode::Idle { selection: None },
                rects: self.rects.push(
                    Rect::spec_spanning(anchor, self.cursor, self.rects.len() as u64),
                ),
                ..self
            },
            Mode::Idle { selection: Some(_) } => EditorModel {
                mode: Mode::Idle { selection: None },
                ..self
            },
            Mode::Idle { selection: None } => EditorModel {
                mode: Mode::Idle {
                    selection: topmost(self.rects, self.cursor.x as int, self.cursor.y as int),
                },
                ..self
            },
        }
    }

    /// `UndoLast`: outside a gesture the last rectangle leaves, and the
    /// selection with it if it named that rectangle. Ignored while drawing
    /// and on an empty list.
    pub open spec fn undone(self) -> EditorModel {
        match self.mode {
            Mode::Idle { selection } if self.rects.len() > 0 => EditorModel {
                mode: Mode::Idle {
                    selection: if selection == Some((self.rects.len() - 1) as usize) {
                        None
                    } else {
                        selection
                    },
                },
                rects: self.rects.drop_last(),
                ..self
            },
            _ => self,
        }
    }

    /// `ClearAll`: outside a gesture the list and the selection are
    /// emptied. Ignored while drawing.
    pub open spec fn cleared(self) -> EditorModel {
        match self.mode {
            Mode::Idle { .. } => EditorModel {
                mode: Mode::Idle { selection: None },
                rects: Seq::empty(),
                ..self
            },
            Mode::Drawing { .. } => self,
        }
    }

    /// The state after one command.
    pub open spec fn step(self, cmd: Command) -> EditorModel {
        match cmd {
            Command::Move(d) => self.moved(d),
            Command::BeginDraw(d) => self.drawing_begun(d),
            Command::Confirm => self.confirmed(),
            Command::UndoLast => self.undone(),
            Command::ClearAll => self.cleared(),
            Command::Quit => self,
        }
    }

    /// The state after a sequence of commands, applied first to last.
    pub open spec fn run(self, cmds: Seq<Command>) -> EditorModel
        decreases cmds.len(),
    {
        if cmds.len() == 0 {
            self
        } else {
            self.run(cmds.drop_last()).step(cmds.last())
        }
    }
}

/// What the caller owes after `cmd`.
pub open spec fn effect_of(cmd: Command) -> Effect {
    match cmd {
        Command::Quit => Effect::PersistAndQuit,
        _ => Effect::Continue,
    }
}

/// The editor: cursor, mode and the rectangle list, in creation order.
#[derive(Debug, PartialEq, Eq)]
pub struct Editor {
    pub cursor: Point,
    pub mode: Mode,
    pub rects: Vec<Rect>,
}

impl View for Editor {
    type V = EditorModel;

    open spec fn view(&self) -> EditorModel {
        EditorModel { cursor: self.cursor, mode: self.mode, rects: self.rects@ }
    }
}

impl Clone for Editor {
    /// A copy with the same cursor, mode and rectangle list.
    fn clone(&self) -> (copy: Editor)
        ensures
            copy@ == self@,
    {
        let mut rects: Vec<Rect> = Vec::new();
        let mut i: usize = 0;
        while i < self.rects.len()
            invariant
                0 <= i <= self.rects.len(),
                rects@ == self.rects@.take(i as int),
            decreases self.rects.len() - i,
        {
            rects.push(self.rects[i]);
            assert(rects@ =~= self.rects@.take(i + 1));
            i += 1;
        }
        assert(self.rects@.take(self.rects.len() as int) =~= self.rects@);
        Editor { cursor: self.cursor, mode: self.mode, rects }
    }
}

impl Editor {
    /// An editor with no rectangles, idle, with the cursor at its start.
    pub fn new() -> (e: Editor)
        ensures
            e@ == EditorModel::initial(Seq::empty()),
            e@.wf(),
    {
        Editor {
            cursor: Point { x: START_X, y: START_Y },
            mode: Mode::Idle { selection: None },
            rects: Vec::new(),
        }
    }

    /// An editor seeded with `rects`, idle, with the cursor at its start.
    pub fn with_rects(rects: Vec<Rect>) -> (e: Editor)
        requires
            forall|i: int| 0 <= i < rects@.len() ==> (#[trigger] rects@[i]).wf(),
        ensures
            e@ == EditorModel::initial(rects@),
            e@.wf(),
    {
        Editor {
            cursor: Point { x: START_X, y: START_Y },
            mode: Mode::Idle { selection: None },
            rects,
        }
    }

    /// Decides the state's invariant.
    pub fn is_wf(&self) -> (ok: bool)
        ensures
            ok == self@.wf(),
    {
        let mode_ok: bool = match self.mode {
            Mode::Idle { selection: Some(i) } => i < self.rects.len(),
            Mode::Idle { selection: None } => true,
            Mode::Drawing { anchor } => anchor.is_wf(),
        };
        if !self.cursor.is_wf() || !mode_ok {
            return false;
        }
        let mut i: usize = 0;
        while i < self.rects.len()
            invariant
                0 <= i <= self.rects.len(),
                forall|j: int| 0 <= j < i ==> (#[trigger] self.rects@[j]).wf(),
            decreases self.rects.len() - i,
        {
            if !self.rects[i].is_wf() {
                return false;
            }
            i += 1;
        }
        true
    }

    /// Whether a drawing gesture is active.
    pub fn is_drawing(&self) -> (b: bool)
        ensures
            b == (self.mode is Drawing),
    {
        match self.mode {
            Mode::Drawing { .. } => true,
            Mode::Idle { .. } => false,
        }
    }

    /// The index of the selected rectangle, if any.
    pub fn selection(&self) -> (s: Option<usize>)
        ensures
            s == self@.selection(),
    {
        match self.mode {
            Mode::Idle { selection } => selection,
            Mode::Drawing { .. } => None,
        }
    }

    fn advance(&mut self, d: Direction)
        requires
            old(self)@.wf(),
        ensures
            final(self)@ == old(self)@.advanced(d),
            final(self)@.wf(),
    {
        let nx: i64 = self.cursor.x + d.dx();
        let ny: i64 = self.cursor.y + d.dy();
        if -COORD_MAX <= nx && nx <= COORD_MAX && -COORD_MAX <= ny && ny <= COORD_MAX {
            self.cursor = Point { x: nx, y: ny };
        }
    }

    /// Applies `Move`.
    pub fn move_cursor(&mut self, d: Direction)
        requires
            old(self)@.wf(),
        ensures
            final(self)@ == old(self)@.moved(d),
            final(self)@.wf(),
    {
        match self.mode {
            Mode::Idle { selection: Some(i) } => {
                let r: Rect = self.rects[i];
                let nx: i64 = self.cursor.x + d.dx();
                let ny: i64 = self.cursor.y + d.dy();
                let rx: i64 = r.x + d.dx();
                let ry: i64 = r.y + d.dy();
                if -COORD_MAX <= nx && nx <= COORD_MAX && -COORD_MAX <= ny && ny <= COORD_MAX
                    && -COORD_MAX <= rx && rx + r.width <= COORD_MAX && -COORD_MAX <= ry && ry
                    + r.height <= COORD_MAX {
                    self.cursor = Point { x: nx, y: ny };
                    self.rects.set(i, Rect { x: rx, y: ry, ..r });
                }
            },
            _ => {
                self.advance(d);
            },
        }
    }

    /// Applies `BeginDraw`.
    pub fn begin_draw(&mut self, d: Option<Direction>)
        requires
            old(self)@.wf(),
        ensures
            final(self)@ == old(self)@.drawing_begun(d),
            final(self)@.wf(),
    {
        match self.mode {
            Mode::Idle { selection: Some(_) } => {
                return ;
            },
            Mode::Idle { selection: None } => {
                self.mode = Mode::Drawing { anchor: self.cursor };
            },
            Mode::Drawing { .. } => {},
        }
        match d {
            Some(dir) => {
                self.advance(dir);
            },
            None => {},
        }
    }

    /// Applies `Confirm`.
    pub fn confirm(&mut self)
        requires
            old(self)@.wf(),
        ensures
            final(self)@ == old(self)@.confirmed(),
            final(self)@.wf(),
    {
        match self.mode {
            Mode::Drawing { anchor } => {
                let z: u64 = self.rects.len() as u64;
                let r: Rect = Rect::spanning(anchor, self.cursor, z);
                self.rects.push(r);
                self.mode = Mode::Idle { selection: None };
            },
            Mode::Idle { selection: Some(_) } => {
                self.mode = Mode::Idle { selection: None };
            },
            Mode::Idle { selection: None } => {
                let hit: Option<usize> = resolve_hit(&self.rects, self.cursor.x, self.cursor.y);
                self.mode = Mode::Idle { selection: hit };
            },
        }
    }

    /// Applies `UndoLast`.
    pub fn undo_last(&mut self)
        requires
            old(self)@.wf(),
        ensures
            final(self)@ == old(self)@.undone(),
            final(self)@.wf(),
    {
        match self.mode {
            Mode::Idle { selection } => {
                let n: usize = self.rects.len();
                if n > 0 {
                    self.rects.pop();
                    let kept: Option<usize> = match selection {
                        Some(i) => if i == n - 1 {
                            None
                        } else {
                            Some(i)
                        },
                        None => None,
                    };
                    self.mode = Mode::Idle { selection: kept };
                }
            },
            Mode::Drawing { .. } => {},
        }
    }

    /// Applies `ClearAll`.
    pub fn clear_all(&mut self)
        requires
            old(self)@.wf(),
        ensures
            final(self)@ == old(self)@.cleared(),
            final(self)@.wf(),
    {
        match self.mode {
            Mode::Idle { .. } => {
                self.rects.clear();
                self.mode = Mode::Idle { selection: None };
            },
            Mode::Drawing { .. } => {},
        }
    }

    /// Applies one command and says what the caller has to do next. Every
    /// command is accepted in every well-formed state, and the state stays
    /// well-formed.
    pub fn apply(&mut self, cmd: Command) -> (effect: Effect)
        requires
            old(self)@.wf(),
        ensures
            final(self)@ == old(self)@.step(cmd),
            final(self)@.wf(),
            effect == effect_of(cmd),
    {
        match cmd {
            Command::Move(d) => {
                self.move_cursor(d);
                Effect::Continue
            },
            Command::BeginDraw(d) => {
                self.begin_draw(d);
                Effect::Continue
            },
            Command::Confirm => {
                self.confirm();
                Effect::Continue
            },
            Command::UndoLast => {
                self.undo_last();
                Effect::Continue
            },
            Command::ClearAll => {
                self.clear_all();
                Effect::Continue
            },
            Command::Quit => Effect::PersistAndQuit,
        }
    }
}

} // verus!
