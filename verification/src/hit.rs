//! Topmost-wins hit testing.

use vstd::prelude::*;
use crate::geometry::Rect;

verus! {

/// Whether `i` is the rectangle that a hit at `(cx, cy)` resolves to: it
/// contains the point, and every other rectangle that contains it either
/// has a smaller `z`, or has the same `z` and stands earlier in the list.
pub open spec fn is_topmost(rects: Seq<Rect>, i: int, cx: int, cy: int) -> bool {
    &&& 0 <= i < rects.len()
    &&& rects[i].spec_contains(cx, cy)
    &&& forall|j: int|
        0 <= j < rects.len() && #[trigger] rects[j].spec_contains(cx, cy) ==> rects[j].z
            < rects[i].z || (rects[j].z == rects[i].z && j <= i)
}

/// The index that a hit at `(cx, cy)` resolves to, or `None` where no
/// rectangle contains the point. Defined from the front of the list: a
/// later rectangle takes over unless an earlier hit has a strictly greater
/// `z`.
pub open spec fn topmost(rects: Seq<Rect>, cx: int, cy: int) -> Option<usize>
    decreases rects.len(),
{
    if rects.len() == 0 {
        None
    } else {
        let last = rects.len() - 1;
        let before = topmost(rects.drop_last(), cx, cy);
        if rects[last].spec_contains(cx, cy) {
            match before {
                Some(p) if rects[p as int].z > rects[last].z => before,
                _ => Some(last as usize),
            }
        } else {
            before
        }
    }
}

/// `topmost` answers `None` exactly when no rectangle contains the point,
/// and otherwise the one index that `is_topmost` describes.
pub proof fn lemma_topmost_characterized(rects: Seq<Rect>, cx: int, cy: int)
    requires
        rects.len() <= usize::MAX,
    ensures
        topmost(rects, cx, cy) is None <==> forall|j: int|
            0 <= j < rects.len() ==> !#[trigger] rects[j].spec_contains(cx, cy),
        topmost(rects, cx, cy) matches Some(i) ==> is_topmost(rects, i as int, cx, cy),
    decreases rects.len(),
{
    if rects.len() > 0 {
        let front = rects.drop_last();
        let last = rects.len() - 1;
        lemma_topmost_characterized(front, cx, cy);
        assert forall|j: int| 0 <= j < last implies front[j] == rects[j] by {}
    }
}

/// Whatever `topmost` answers is an index into the list, however long the
/// list is.
pub proof fn lemma_topmost_in_bounds(rects: Seq<Rect>, cx: int, cy: int)
    ensures
        topmost(rects, cx, cy) matches Some(i) ==> i < rects.len(),
    decreases rects.len(),
{
    if rects.len() > 0 {
        lemma_topmost_in_bounds(rects.drop_last(), cx, cy);
    }
}

/// At most one index is topmost.
pub proof fn lemma_topmost_unique(rects: Seq<Rect>, i: int, k: int, cx: int, cy: int)
    requires
        is_topmost(rects, i, cx, cy),
        is_topmost(rects, k, cx, cy),
    ensures
        i == k,
{
}

/// Of two rectangles that both contain the point, the one with the greater
/// `z` is never passed over for the other.
pub proof fn lemma_greater_z_wins(rects: Seq<Rect>, low: int, high: int, cx: int, cy: int)
    requires
        rects.len() <= usize::MAX,
        0 <= low < rects.len(),
        0 <= high < rects.len(),
        rects[low].spec_contains(cx, cy),
        rects[high].spec_contains(cx, cy),
        rects[low].z < rects[high].z,
    ensures
        topmost(rects, cx, cy) is Some,
        topmost(rects, cx, cy) != Some(low as usize),
        rects.len() == 2 ==> topmost(rects, cx, cy) == Some(high as usize),
{
    lemma_topmost_characterized(rects, cx, cy);
}

/// Finds the topmost rectangle under `(cx, cy)` in one pass over the list.
pub fn resolve_hit(rects: &Vec<Rect>, cx: i64, cy: i64) -> (hit: Option<usize>)
    ensures
        hit == topmost(rects@, cx as int, cy as int),
        hit is None <==> forall|j: int|
            0 <= j < rects@.len() ==> !#[trigger] rects@[j].spec_contains(cx as int, cy as int),
        hit matches Some(i) ==> is_topmost(rects@, i as int, cx as int, cy as int),
{
    let mut best: Option<usize> = None;
    let mut i: usize = 0;
    while i < rects.len()
        invariant
            0 <= i <= rects.len(),
            best == topmost(rects@.take(i as int), cx as int, cy as int),
            best matches Some(b) ==> b < i,
        decreases rects.len() - i,
    {
        proof {
            assert(rects@.take(i + 1).drop_last() =~= rects@.take(i as int));
        }
        if rects[i].contains(cx, cy) {
            let keep: bool = match best {
                Some(b) => rects[b].z > rects[i].z,
                None => false,
            };
            if !keep {
                best = Some(i);
            }
        }
        i += 1;
    }
    proof {
        assert(rects@.take(rects.len() as int) =~= rects@);
        lemma_topmost_characterized(rects@, cx as int, cy as int);
    }
    best
}

} // verus!
