//! The rules by which a rectangle list is written out and taken back in.
//!
//! A stored list is a sequence of records with whole-number fields. Reading
//! the storage and turning its text into records is the caller's part; what
//! is accepted, and what a rejected or missing list becomes, is decided here.

use vstd::prelude::*;
use crate::geometry::Rect;

verus! {

/// One stored rectangle. `z` may be missing from older storage.
#[derive(Clone, Copy, Debug, PartialEq, Eq)]
pub struct RectRecord {
    pub x: i64,
    pub y: i64,
    pub z: Option<u64>,
    pub width: i64,
    pub height: i64,
}

impl RectRecord {
    /// The record describes a well-formed rectangle: a non-negative extent,
    /// all corners in the canvas space.
    pub open spec fn acceptable(self) -> bool {
        self.spec_rect(0).wf()
    }

    /// The rectangle of a record at position `index` of its list: a missing
    /// `z` becomes the position.
    pub open spec fn spec_rect(self, index: int) -> Rect {
        Rect {
            x: self.x,
            y: self.y,
            z: match self.z {
                Some(z) => z,
                None => index as u64,
            },
            width: self.width,
            height: self.height,
        }
    }

    /// The record of a rectangle, `z` included.
    pub open spec fn spec_of(r: Rect) -> RectRecord {
        RectRecord { x: r.x, y: r.y, z: Some(r.z), width: r.width, height: r.height }
    }

    /// Whether the record is acceptable, decided without overflow.
    pub fn is_acceptable(&self) -> (ok: bool)
        ensures
            ok == self.acceptable(),
    {
        let r: Rect = Rect { x: self.x, y: self.y, z: 0, width: self.width, height: self.height };
        r.is_wf()
    }
}

/// Every record of the list is acceptable.
pub open spec fn all_acceptable(records: Seq<RectRecord>) -> bool {
    forall|i: int| 0 <= i < records.len() ==> (#[trigger] records[i]).acceptable()
}

/// The records of a rectangle list, one for one and in order.
pub open spec fn recorded(rects: Seq<Rect>) -> Seq<RectRecord> {
    Seq::new(rects.len(), |i: int| RectRecord::spec_of(rects[i]))
}

/// The rectangle list that stored records stand for: the records one for
/// one and in order where all are acceptable, the empty list where one is
/// not.
pub open spec fn accepted(records: Seq<RectRecord>) -> Seq<Rect> {
    if all_acceptable(records) {
        Seq::new(records.len(), |i: int| records[i].spec_rect(i))
    } else {
        Seq::empty()
    }
}

/// The rectangle list that the editor starts with: empty where nothing
/// could be read, else what the records stand for.
pub open spec fn restored(parsed: Option<Seq<RectRecord>>) -> Seq<Rect> {
    match parsed {
        Some(records) => accepted(records),
        None => Seq::empty(),
    }
}

/// Writes a rectangle list as records.
pub fn snapshot(rects: &Vec<Rect>) -> (records: Vec<RectRecord>)
    ensures
        records@ == recorded(rects@),
{
    let mut records: Vec<RectRecord> = Vec::new();
    let mut i: usize = 0;
    while i < rects.len()
        invariant
            0 <= i <= rects.len(),
            records@ == recorded(rects@.take(i as int)),
        decreases rects.len() - i,
    {
        let r: Rect = rects[i];
        records.push(RectRecord { x: r.x, y: r.y, z: Some(r.z), width: r.width, height: r.height });
        assert(records@ =~= recorded(rects@.take(i + 1)));
        i += 1;
    }
    assert(rects@.take(rects.len() as int) =~= rects@);
    records
}

/// Takes a rectangle list back in. `parsed` is `None` where the storage was
/// missing or unreadable. The result is always a list of well-formed
/// rectangles: a list with an unacceptable record is dropped whole, as
/// unreadable storage is.
pub fn restore(parsed: Option<Vec<RectRecord>>) -> (rects: Vec<Rect>)
    ensures
        rects@ == restored(
            match parsed {
                Some(records) => Some(records@),
                None => None,
            },
        ),
        forall|i: int| 0 <= i < rects@.len() ==> (#[trigger] rects@[i]).wf(),
{
    let records: Vec<RectRecord> = match parsed {
        Some(records) => records,
        None => {
            return Vec::new();
        },
    };
    let mut rects: Vec<Rect> = Vec::new();
    let mut i: usize = 0;
    while i < records.len()
        invariant
            0 <= i <= records.len(),
            parsed == Some(records),
            all_acceptable(records@.take(i as int)),
            rects@ == accepted(records@.take(i as int)),
        decreases records.len() - i,
    {
        let rec: RectRecord = records[i];
        if !rec.is_acceptable() {
            assert(!records@[i as int].acceptable());
            return Vec::new();
        }
        let z: u64 = match rec.z {
            Some(z) => z,
            None => i as u64,
        };
        rects.push(Rect { x: rec.x, y: rec.y, z, width: rec.width, height: rec.height });
        proof {
            let next = records@.take(i + 1);
            assert(rects@ =~= accepted(next));
        }
        i += 1;
    }
    assert(records@.take(records.len() as int) =~= records@);
    rects
}

/// Writing a list of well-formed rectangles out and taking it back in gives
/// the same list: every field of every rectangle, in the same order.
pub proof fn lemma_round_trip(rects: Seq<Rect>)
    requires
        forall|i: int| 0 <= i < rects.len() ==> (#[trigger] rects[i]).wf(),
    ensures
        restored(Some(recorded(rects))) == rects,
{
    assert(accepted(recorded(rects)) =~= rects);
}

/// Missing or unreadable storage gives the empty list.
pub proof fn lemma_unreadable_is_empty()
    ensures
        restored(None).len() == 0,
{
}

} // verus!
