//! Curve points: the ordered control points of one envelope, and the edits
//! that the editor may make to them.

use vstd::prelude::*;
use crate::UNIT;
use crate::shape::curve_valid;

verus! {

/// A control point: where it lies in time, the envelope value there, and the
/// curve bias of the segment that leaves it.
#[derive(Clone, Copy, Debug, PartialEq, Eq, Structural)]
pub struct CurvePoint {
    /// Microseconds after the note starts.
    pub x: u32,
    /// Envelope value, `0..=UNIT`.
    pub y: u32,
    /// Curve bias toward the next point, `-UNIT..=UNIT`.
    pub curve: i32,
}

impl CurvePoint {
    pub open spec fn valid(self) -> bool {
        self.y <= UNIT && curve_valid(self.curve as int)
    }
}

impl From<(u32, u32)> for CurvePoint {
    /// A point with a linear segment after it.
    fn from(p: (u32, u32)) -> (r: CurvePoint)
        ensures
            r == (CurvePoint { x: p.0, y: p.1, curve: 0 }),
    {
        CurvePoint { x: p.0, y: p.1, curve: 0 }
    }
}

impl vstd::std_specs::convert::FromSpecImpl<(u32, u32)> for CurvePoint {
    open spec fn obeys_from_spec() -> bool {
        true
    }

    open spec fn from_spec(p: (u32, u32)) -> CurvePoint {
        CurvePoint { x: p.0, y: p.1, curve: 0 }
    }
}

impl From<(u32, u32, i32)> for CurvePoint {
    fn from(p: (u32, u32, i32)) -> (r: CurvePoint)
        ensures
            r == (CurvePoint { x: p.0, y: p.1, curve: p.2 }),
    {
        CurvePoint { x: p.0, y: p.1, curve: p.2 }
    }
}

impl vstd::std_specs::convert::FromSpecImpl<(u32, u32, i32)> for CurvePoint {
    open spec fn obeys_from_spec() -> bool {
        true
    }

    open spec fn from_spec(p: (u32, u32, i32)) -> CurvePoint {
        CurvePoint { x: p.0, y: p.1, curve: p.2 }
    }
}

/// The persisted shape of a point: `(time, value, curve)`.
pub open spec fn tuple_of(p: CurvePoint) -> (u32, u32, i32) {
    (p.x, p.y, p.curve)
}

pub open spec fn point_of(t: (u32, u32, i32)) -> CurvePoint {
    CurvePoint { x: t.0, y: t.1, curve: t.2 }
}

/// A well-formed envelope: at least a start and an end point, starting at
/// time zero, times never decreasing, every point in range.
pub open spec fn points_valid(s: Seq<CurvePoint>) -> bool {
    &&& s.len() >= 2
    &&& s[0].x == 0
    &&& forall|i: int, j: int| 0 <= i <= j < s.len() ==> s[i].x <= s[j].x
    &&& forall|i: int| 0 <= i < s.len() ==> (#[trigger] s[i]).valid()
}

/// The closest a dragged point may come to its neighbours: ten milliseconds.
pub const MIN_GAP: u32 = 10_000;

/// Where a drag of the point at `index` toward `(x, y)` puts it, on an axis
/// that ends at `max_x`: the first point stays at the origin, the last point
/// stays silent, and every point keeps `MIN_GAP` from its neighbours' times
/// (and from `max_x` for the last one). `None` when the neighbours leave no
/// room.
pub open spec fn drag_target(s: Seq<CurvePoint>, index: int, x: int, y: int, max_x: int) -> Option<CurvePoint> {
    let lo = if index == 0 { 0 } else { s[index - 1].x + MIN_GAP };
    let hi = if index + 1 < s.len() { s[index + 1].x - MIN_GAP } else { max_x - MIN_GAP };
    let tx = if index == 0 { 0 } else if x < lo { lo } else if x > hi { hi } else { x };
    let ty = if index == 0 || index + 1 == s.len() { 0 } else if y > UNIT { UNIT as int } else { y };
    if index > 0 && lo > hi {
        None
    } else {
        Some(CurvePoint { x: tx as u32, y: ty as u32, curve: s[index].curve })
    }
}

/// Why an edit was refused; the points are then left as they were.
#[derive(Clone, Copy, Debug, PartialEq, Eq, Structural)]
pub enum EditError {
    /// The index names no point (or, for an insertion, no gap between points).
    OutOfRange,
    /// The first and the last point cannot be removed.
    EndPoint,
    /// The point would break the time order, or the first point would leave
    /// time zero.
    Misordered,
    /// A value or curve bias outside its range.
    InvalidPoint,
}

/// The ordered points of one envelope.
#[derive(Clone, Debug)]
pub struct CurvePoints {
    points: Vec<CurvePoint>,
}

impl View for CurvePoints {
    type V = Seq<CurvePoint>;

    closed spec fn view(&self) -> Seq<CurvePoint> {
        self.points@
    }
}

/// Whether `p` may stand at `index` of `s` (replacing what is there when
/// `replacing`, else inserted before it) without breaking the time order.
pub open spec fn fits_at(s: Seq<CurvePoint>, index: int, p: CurvePoint, replacing: bool) -> bool {
    &&& (index == 0 ==> p.x == 0)
    &&& (index > 0 ==> s[index - 1].x <= p.x)
    &&& (replacing && index + 1 < s.len() ==> p.x <= s[index + 1].x)
    &&& (!replacing ==> p.x <= s[index].x)
}

impl CurvePoints {
    /// Takes the points as given; see `is_valid`.
    pub fn new(points: Vec<CurvePoint>) -> (r: CurvePoints)
        ensures
            r@ == points@,
    {
        CurvePoints { points }
    }

    pub fn len(&self) -> (r: usize)
        ensures
            r == self@.len(),
    {
        self.points.len()
    }

    pub fn get(&self, index: usize) -> (r: Option<CurvePoint>)
        ensures
            index < self@.len() ==> r == Some(self@[index as int]),
            index >= self@.len() ==> r is None,
    {
        if index < self.points.len() {
            Some(self.points[index])
        } else {
            None
        }
    }

    pub fn at(&self, index: usize) -> (r: CurvePoint)
        requires
            index < self@.len(),
        ensures
            r == self@[index as int],
    {
        self.points[index]
    }

    /// Checks `points_valid`.
    pub fn is_valid(&self) -> (r: bool)
        ensures
            r == points_valid(self@),
    {
        let n = self.points.len();
        if n < 2 || self.points[0].x != 0 {
            return false;
        }
        let mut i: usize = 0;
        while i < n
            invariant
                n == self@.len(),
                n >= 2,
                self@[0].x == 0,
                i <= n,
                forall|k: int| 0 <= k < i ==> (#[trigger] self@[k]).valid(),
                forall|k: int| 0 < k < i ==> self@[k - 1].x <= #[trigger] self@[k].x,
            decreases n - i,
        {
            let p = self.points[i];
            if p.y > UNIT || p.curve < -(UNIT as i32) || p.curve > UNIT as i32 {
                return false;
            }
            if i > 0 && self.points[i - 1].x > p.x {
                return false;
            }
            i += 1;
        }
        proof {
            let s = self@;
            assert forall|a: int, b: int| 0 <= a <= b < s.len() implies s[a].x <= s[b].x by {
                lemma_steps_ordered(s, a, b);
            }
        }
        true
    }

    /// Replaces every point at once, if the new points are well formed.
    pub fn replace(&mut self, points: Vec<CurvePoint>) -> (r: Result<(), EditError>)
        ensures
            r is Ok <==> points_valid(points@),
            r is Ok ==> final(self)@ == points@,
            r is Err ==> final(self)@ == old(self)@,
            r is Err ==> r == Err::<(), EditError>(EditError::InvalidPoint),
    {
        let candidate = CurvePoints { points };
        if candidate.is_valid() {
            *self = candidate;
            Ok(())
        } else {
            Err(EditError::InvalidPoint)
        }
    }

    /// Removes the point at `index`. The first and the last point stay, so a
    /// well-formed envelope never drops below two points.
    pub fn remove_point(&mut self, index: usize) -> (r: Result<CurvePoint, EditError>)
        ensures
            index >= old(self)@.len() ==> r == Err::<CurvePoint, EditError>(EditError::OutOfRange),
            index < old(self)@.len() && (index == 0 || index + 1 == old(self)@.len())
                ==> r == Err::<CurvePoint, EditError>(EditError::EndPoint),
            0 < index && index + 1 < old(self)@.len() ==> r == Ok::<CurvePoint, EditError>(
                old(self)@[index as int],
            ) && final(self)@ == old(self)@.remove(index as int),
            r is Err ==> final(self)@ == old(self)@,
            old(self)@.len() >= 2 ==> final(self)@.len() >= 2,
            r is Ok && points_valid(old(self)@) ==> points_valid(final(self)@),
    {
        let n = self.points.len();
        if index >= n {
            return Err(EditError::OutOfRange);
        }
        if index == 0 || index + 1 == n {
            return Err(EditError::EndPoint);
        }
        let removed = self.points.remove(index);
        proof {
            let s = old(self)@;
            let t = self@;
            if points_valid(s) {
                assert(t[0] == s[0]);
                assert forall|a: int, b: int| 0 <= a <= b < t.len() implies t[a].x <= t[b].x by {
                    let a2 = if a < index { a } else { a + 1 };
                    let b2 = if b < index { b } else { b + 1 };
                    assert(t[a] == s[a2] && t[b] == s[b2]);
                }
                assert forall|k: int| 0 <= k < t.len() implies (#[trigger] t[k]).valid() by {
                    let k2 = if k < index { k } else { k + 1 };
                    assert(t[k] == s[k2]);
                }
            }
        }
        Ok(removed)
    }

    /// Inserts a point with a linear segment after it, between the points at
    /// `index - 1` and `index`.
    pub fn insert_point(&mut self, index: usize, x: u32, y: u32) -> (r: Result<(), EditError>)
        ensures
            ({
                let s = old(self)@;
                let p = CurvePoint { x, y, curve: 0 };
                &&& (index == 0 || index >= s.len()) ==> r == Err::<(), EditError>(EditError::OutOfRange)
                &&& 0 < index < s.len() && !fits_at(s, index as int, p, false)
                    ==> r == Err::<(), EditError>(EditError::Misordered)
                &&& 0 < index < s.len() && fits_at(s, index as int, p, false) && !p.valid()
                    ==> r == Err::<(), EditError>(EditError::InvalidPoint)
                &&& 0 < index < s.len() && fits_at(s, index as int, p, false) && p.valid()
                    ==> r is Ok && final(self)@ == s.insert(index as int, p)
                &&& r is Err ==> final(self)@ == s
                &&& r is Ok && points_valid(s) ==> points_valid(final(self)@)
            }),
    {
        let n = self.points.len();
        if index == 0 || index >= n {
            return Err(EditError::OutOfRange);
        }
        if self.points[index - 1].x > x || x > self.points[index].x {
            return Err(EditError::Misordered);
        }
        if y > UNIT {
            return Err(EditError::InvalidPoint);
        }
        let p = CurvePoint { x, y, curve: 0 };
        self.points.insert(index, p);
        proof {
            let s = old(self)@;
            let t = self@;
            if points_valid(s) {
                assert(t[0] == s[0]);
                assert forall|a: int, b: int| 0 <= a <= b < t.len() implies t[a].x <= t[b].x by {
                    if a < index && b > index {
                        assert(t[a] == s[a] && t[b] == s[b - 1]);
                    } else if a < index && b < index {
                        assert(t[a] == s[a] && t[b] == s[b]);
                    } else if a > index {
                        assert(t[a] == s[a - 1] && t[b] == s[b - 1]);
                    } else if a == index && b > index {
                        assert(t[b] == s[b - 1]);
                    } else if a < index && b == index {
                        assert(t[a] == s[a]);
                    }
                }
                assert forall|k: int| 0 <= k < t.len() implies (#[trigger] t[k]).valid() by {
                    if k < index {
                        assert(t[k] == s[k]);
                    } else if k > index {
                        assert(t[k] == s[k - 1]);
                    }
                }
            }
        }
        Ok(())
    }

    /// Moves the point at `index` and sets its value and curve bias.
    pub fn set_point(&mut self, index: usize, x: u32, y: u32, curve: i32) -> (r: Result<
        (),
        EditError,
    >)
        ensures
            ({
                let s = old(self)@;
                let p = CurvePoint { x, y, curve };
                &&& index >= s.len() ==> r == Err::<(), EditError>(EditError::OutOfRange)
                &&& index < s.len() && !fits_at(s, index as int, p, true)
                    ==> r == Err::<(), EditError>(EditError::Misordered)
                &&& index < s.len() && fits_at(s, index as int, p, true) && !p.valid()
                    ==> r == Err::<(), EditError>(EditError::InvalidPoint)
                &&& index < s.len() && fits_at(s, index as int, p, true) && p.valid()
                    ==> r is Ok && final(self)@ == s.update(index as int, p)
                &&& r is Err ==> final(self)@ == s
                &&& r is Ok && points_valid(s) ==> points_valid(final(self)@)
            }),
    {
        let n = self.points.len();
        if index >= n {
            return Err(EditError::OutOfRange);
        }
        if (index == 0 && x != 0) || (index > 0 && self.points[index - 1].x > x) || (index + 1 < n
            && x > self.points[index + 1].x) {
            return Err(EditError::Misordered);
        }
        if y > UNIT || curve < -(UNIT as i32) || curve > UNIT as i32 {
            return Err(EditError::InvalidPoint);
        }
        let p = CurvePoint { x, y, curve };
        self.points.set(index, p);
        proof {
            let s = old(self)@;
            let t = self@;
            if points_valid(s) {
                assert forall|a: int, b: int| 0 <= a <= b < t.len() implies t[a].x <= t[b].x by {
                    if a != index && b != index {
                        assert(t[a] == s[a] && t[b] == s[b]);
                    } else if a == index && b > index {
                        assert(t[b] == s[b] && s[index + 1].x <= s[b].x);
                    } else if b == index && a < index {
                        assert(t[a] == s[a] && s[a].x <= s[index - 1].x);
                    }
                }
                assert forall|k: int| 0 <= k < t.len() implies (#[trigger] t[k]).valid() by {
                    if k != index {
                        assert(t[k] == s[k]);
                    }
                }
            }
        }
        Ok(())
    }

    /// Drags the point at `index` toward `(x, y)`, held in place as
    /// `drag_target` says.
    pub fn drag_point(&mut self, index: usize, x: u32, y: u32, max_x: u32) -> (r: Result<(), EditError>)
        ensures
            index >= old(self)@.len() ==> r == Err::<(), EditError>(EditError::OutOfRange),
            index < old(self)@.len() ==> match drag_target(old(self)@, index as int, x as int, y as int, max_x as int) {
                Some(p) => r is Ok && final(self)@ == old(self)@.update(index as int, p),
                None => r == Err::<(), EditError>(EditError::Misordered),
            },
            r is Err ==> final(self)@ == old(self)@,
            r is Ok && points_valid(old(self)@) ==> points_valid(final(self)@),
    {
        let n = self.points.len();
        if index >= n {
            return Err(EditError::OutOfRange);
        }
        let old_point = self.points[index];
        let lo: i64 = if index == 0 { 0 } else { self.points[index - 1].x as i64 + MIN_GAP as i64 };
        let hi: i64 = if index + 1 < n {
            self.points[index + 1].x as i64 - MIN_GAP as i64
        } else {
            max_x as i64 - MIN_GAP as i64
        };
        if index > 0 && lo > hi {
            return Err(EditError::Misordered);
        }
        let tx: u32 = if index == 0 {
            0
        } else if (x as i64) < lo {
            lo as u32
        } else if (x as i64) > hi {
            hi as u32
        } else {
            x
        };
        let ty: u32 = if index == 0 || index + 1 == n {
            0
        } else if y > UNIT {
            UNIT
        } else {
            y
        };
        let p = CurvePoint { x: tx, y: ty, curve: old_point.curve };
        self.points.set(index, p);
        proof {
            let s = old(self)@;
            let t = self@;
            if points_valid(s) {
                assert(s[index as int].valid());
                assert forall|a: int, b: int| 0 <= a <= b < t.len() implies t[a].x <= t[b].x by {
                    if a != index && b != index {
                        assert(t[a] == s[a] && t[b] == s[b]);
                    } else if a == index && b > index {
                        assert(t[b] == s[b] && s[index + 1].x <= s[b].x);
                    } else if b == index && a < index {
                        assert(t[a] == s[a] && s[a].x <= s[index - 1].x);
                    }
                }
                assert forall|k: int| 0 <= k < t.len() implies (#[trigger] t[k]).valid() by {
                    if k != index {
                        assert(t[k] == s[k]);
                    }
                }
            }
        }
        Ok(())
    }

    /// The persisted form: one `(time, value, curve)` tuple per point, in order.
    pub fn to_tuples(&self) -> (r: Vec<(u32, u32, i32)>)
        ensures
            r@ == self@.map_values(|p: CurvePoint| tuple_of(p)),
    {
        let mut out: Vec<(u32, u32, i32)> = Vec::new();
        let mut i: usize = 0;
        while i < self.points.len()
            invariant
                i <= self@.len(),
                out@ == self@.subrange(0, i as int).map_values(|p: CurvePoint| tuple_of(p)),
            decreases self@.len() - i,
        {
            let p = self.points[i];
            out.push((p.x, p.y, p.curve));
            proof {
                assert(self@.subrange(0, i + 1) == self@.subrange(0, i as int).push(p));
            }
            i += 1;
        }
        proof {
            assert(self@.subrange(0, self@.len() as int) == self@);
        }
        out
    }

    /// Rebuilds the points from their persisted form.
    pub fn from_tuples(tuples: &Vec<(u32, u32, i32)>) -> (r: CurvePoints)
        ensures
            r@ == tuples@.map_values(|t: (u32, u32, i32)| point_of(t)),
    {
        let mut out: Vec<CurvePoint> = Vec::new();
        let mut i: usize = 0;
        while i < tuples.len()
            invariant
                i <= tuples@.len(),
                out@ == tuples@.subrange(0, i as int).map_values(
                    |t: (u32, u32, i32)| point_of(t),
                ),
            decreases tuples@.len() - i,
        {
            let t = tuples[i];
            out.push(CurvePoint { x: t.0, y: t.1, curve: t.2 });
            proof {
                assert(tuples@.subrange(0, i + 1) == tuples@.subrange(0, i as int).push(t));
            }
            i += 1;
        }
        proof {
            assert(tuples@.subrange(0, tuples@.len() as int) == tuples@);
        }
        CurvePoints { points: out }
    }
}

/// Order between neighbours carries over to any two points.
proof fn lemma_steps_ordered(s: Seq<CurvePoint>, a: int, b: int)
    requires
        0 <= a <= b < s.len(),
        forall|k: int| 0 < k < s.len() ==> s[k - 1].x <= #[trigger] s[k].x,
    ensures
        s[a].x <= s[b].x,
    decreases b - a,
{
    if a < b {
        lemma_steps_ordered(s, a, b - 1);
        assert(s[b - 1].x <= s[b].x);
    }
}

/// Writing points out and reading them back gives the same points, in order.
pub proof fn tuples_round_trip(s: Seq<CurvePoint>)
    ensures
        s.map_values(|p: CurvePoint| tuple_of(p)).map_values(|t: (u32, u32, i32)| point_of(t)) == s,
{
    assert(s.map_values(|p: CurvePoint| tuple_of(p)).map_values(|t: (u32, u32, i32)| point_of(t))
        =~= s);
}

/// Reading a persisted form and writing it out again gives the same tuples.
pub proof fn points_round_trip(t: Seq<(u32, u32, i32)>)
    ensures
        t.map_values(|u: (u32, u32, i32)| point_of(u)).map_values(|p: CurvePoint| tuple_of(p)) == t,
{
    assert(t.map_values(|u: (u32, u32, i32)| point_of(u)).map_values(|p: CurvePoint| tuple_of(p))
        =~= t);
}

} // verus!
