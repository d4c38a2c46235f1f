//! The projection of an editor state into draw primitives.
//!
//! Primitives are measured in sub-units, `SUBUNITS` to one canvas unit, so
//! that a border strip thinner than a unit has a whole-number thickness.

use vstd::prelude::*;
use crate::editor::{Editor, EditorModel, Mode};
use crate::geometry::{Point, Rect};
use crate::hit::{resolve_hit, topmost};

verus! {

/// Sub-units per canvas unit.
pub const SUBUNITS: i64 = 10;

/// Thickness of a border strip, in sub-units.
pub const BORDER: i64 = 1;

/// How a strip is to be coloured.
#[derive(Clone, Copy, Debug, PartialEq, Eq, Structural)]
pub enum Tag {
    Normal,
    Hovered,
    Selected,
    Preview,
}

/// One thing for the renderer to paint, in sub-units.
#[derive(Clone, Copy, Debug, PartialEq, Eq, Structural)]
pub enum Primitive {
    /// A filled strip with its corner at `(x, y)`: one border of an outline.
    Strip { x: i64, y: i64, width: i64, height: i64, tag: Tag },
    /// The cursor glyph at `(x, y)`.
    Glyph { x: i64, y: i64 },
}

/// A length or coordinate in canvas units, as sub-units.
pub open spec fn scaled(v: int) -> i64 {
    (SUBUNITS * v) as i64
}

/// The tag of rectangle `i`: selected before hovered before normal.
pub open spec fn tag_at(selection: Option<usize>, hover: Option<usize>, i: usize) -> Tag {
    if selection == Some(i) {
        Tag::Selected
    } else if hover == Some(i) {
        Tag::Hovered
    } else {
        Tag::Normal
    }
}

/// The four border strips of `r`: along the edge at `y`, along the edge at
/// `y + height`, along the edge at `x`, along the edge at `x + width`. Each
/// lies inside the box of `r`, on its edge.
pub open spec fn outline(r: Rect, tag: Tag) -> Seq<Primitive> {
    seq![
        Primitive::Strip {
            x: scaled(r.x as int),
            y: scaled(r.y as int),
            width: scaled(r.width as int),
            height: BORDER,
            tag,
        },
        Primitive::Strip {
            x: scaled(r.x as int),
            y: (scaled(r.y + r.height) - BORDER) as i64,
            width: scaled(r.width as int),
            height: BORDER,
            tag,
        },
        Primitive::Strip {
            x: scaled(r.x as int),
            y: scaled(r.y as int),
            width: BORDER,
            height: scaled(r.height as int),
            tag,
        },
        Primitive::Strip {
            x: (scaled(r.x + r.width) - BORDER) as i64,
            y: scaled(r.y as int),
            width: BORDER,
            height: scaled(r.height as int),
            tag,
        },
    ]
}

/// The outlines of the first `n` rectangles, in list order.
pub open spec fn outlines(
    rects: Seq<Rect>,
    selection: Option<usize>,
    hover: Option<usize>,
    n: nat,
) -> Seq<Primitive>
    decreases n,
{
    if n == 0 {
        Seq::empty()
    } else {
        outlines(rects, selection, hover, (n - 1) as nat) + outline(
            rects[n - 1],
            tag_at(selection, hover, (n - 1) as usize),
        )
    }
}

/// The outline of the box between anchor and cursor while a gesture is
/// active, nothing otherwise.
pub open spec fn preview(s: EditorModel) -> Seq<Primitive> {
    match s.mode {
        Mode::Drawing { anchor } => outline(Rect::spec_spanning(anchor, s.cursor, 0), Tag::Preview),
        Mode::Idle { .. } => Seq::empty(),
    }
}

/// The cursor glyph of a state.
pub open spec fn glyph(cursor: Point) -> Primitive {
    Primitive::Glyph { x: scaled(cursor.x as int), y: scaled(cursor.y as int) }
}

/// Everything to paint for a state: the outline of every rectangle in list
/// order, then the preview, then the cursor glyph.
pub open spec fn projection(s: EditorModel) -> Seq<Primitive> {
    outlines(
        s.rects,
        s.selection(),
        topmost(s.rects, s.cursor.x as int, s.cursor.y as int),
        s.rects.len(),
    ) + preview(s) + seq![glyph(s.cursor)]
}

/// Number of primitives that the first `n` rectangles give.
pub proof fn lemma_outlines_len(
    rects: Seq<Rect>,
    selection: Option<usize>,
    hover: Option<usize>,
    n: nat,
)
    ensures
        outlines(rects, selection, hover, n).len() == 4 * n,
    decreases n,
{
    if n > 0 {
        lemma_outlines_len(rects, selection, hover, (n - 1) as nat);
    }
}

/// The strips of rectangle `i` stand at positions `4 * i` to `4 * i + 3` of
/// the outlines, with the tag of that rectangle.
pub proof fn lemma_outlines_index(
    rects: Seq<Rect>,
    selection: Option<usize>,
    hover: Option<usize>,
    n: nat,
    i: int,
    k: int,
)
    requires
        0 <= i < n,
        0 <= k < 4,
    ensures
        outlines(rects, selection, hover, n)[4 * i + k] == outline(
            rects[i],
            tag_at(selection, hover, i as usize),
        )[k],
    decreases n,
{
    lemma_outlines_len(rects, selection, hover, (n - 1) as nat);
    if i < n - 1 {
        lemma_outlines_index(rects, selection, hover, (n - 1) as nat, i, k);
    }
}

/// In a projection, the strips of rectangle `i` stand at positions `4 * i`
/// to `4 * i + 3`: selected if `i` is the selection, else hovered if `i` is
/// the topmost rectangle under the cursor, else normal.
pub proof fn lemma_projection_of_rect(s: EditorModel, i: int, k: int)
    requires
        0 <= i < s.rects.len(),
        0 <= k < 4,
    ensures
        projection(s)[4 * i + k] == outline(
            s.rects[i],
            tag_at(
                s.selection(),
                topmost(s.rects, s.cursor.x as int, s.cursor.y as int),
                i as usize,
            ),
        )[k],
{
    let hover = topmost(s.rects, s.cursor.x as int, s.cursor.y as int);
    lemma_outlines_len(s.rects, s.selection(), hover, s.rects.len());
    lemma_outlines_index(s.rects, s.selection(), hover, s.rects.len(), i, k);
}

/// A projection ends in the cursor glyph, and holds four strips for each
/// rectangle and four more while a gesture is active.
pub proof fn lemma_projection_shape(s: EditorModel)
    ensures
        projection(s).last() == glyph(s.cursor),
        projection(s).len() == 4 * s.rects.len() + (if s.mode is Drawing {
            4int
        } else {
            0int
        }) + 1,
{
    lemma_outlines_len(
        s.rects,
        s.selection(),
        topmost(s.rects, s.cursor.x as int, s.cursor.y as int),
        s.rects.len(),
    );
}

fn push_outline(out: &mut Vec<Primitive>, r: Rect, tag: Tag)
    requires
        r.wf(),
    ensures
        final(out)@ == old(out)@ + outline(r, tag),
{
    let x: i64 = SUBUNITS * r.x;
    let y: i64 = SUBUNITS * r.y;
    let width: i64 = SUBUNITS * r.width;
    let height: i64 = SUBUNITS * r.height;
    let far_x: i64 = SUBUNITS * (r.x + r.width) - BORDER;
    let far_y: i64 = SUBUNITS * (r.y + r.height) - BORDER;
    out.push(Primitive::Strip { x, y, width, height: BORDER, tag });
    out.push(Primitive::Strip { x, y: far_y, width, height: BORDER, tag });
    out.push(Primitive::Strip { x, y, width: BORDER, height, tag });
    out.push(Primitive::Strip { x: far_x, y, width: BORDER, height, tag });
    assert(out@ =~= old(out)@ + outline(r, tag));
}

/// Projects the editor's state into the primitives of one frame. The state
/// is not changed; the cursor glyph comes last, so nothing covers it.
pub fn project(editor: &Editor) -> (out: Vec<Primitive>)
    requires
        editor@.wf(),
    ensures
        out@ == projection(editor@),
        out@.last() == glyph(editor.cursor),
        out@.len() == 4 * editor.rects.len() + (if editor.mode is Drawing {
            4int
        } else {
            0int
        }) + 1,
{
    let selection: Option<usize> = editor.selection();
    let hover: Option<usize> = resolve_hit(&editor.rects, editor.cursor.x, editor.cursor.y);
    let mut out: Vec<Primitive> = Vec::new();
    let mut i: usize = 0;
    while i < editor.rects.len()
        invariant
            0 <= i <= editor.rects.len(),
            editor@.wf(),
            out@ == outlines(editor.rects@, selection, hover, i as nat),
        decreases editor.rects.len() - i,
    {
        let tag: Tag = if selection == Some(i) {
            Tag::Selected
        } else if hover == Some(i) {
            Tag::Hovered
        } else {
            Tag::Normal
        };
        let r: Rect = editor.rects[i];
        push_outline(&mut out, r, tag);
        i += 1;
    }
    match editor.mode {
        Mode::Drawing { anchor } => {
            let r: Rect = Rect::spanning(anchor, editor.cursor, 0);
            push_outline(&mut out, r, Tag::Preview);
        },
        Mode::Idle { .. } => {},
    }
    out.push(Primitive::Glyph { x: SUBUNITS * editor.cursor.x, y: SUBUNITS * editor.cursor.y });
    proof {
        lemma_projection_shape(editor@);
        assert(out@ =~= projection(editor@));
    }
    out
}

} // verus!
