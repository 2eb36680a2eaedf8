//! The envelope generator: where a note is on one envelope, and the segment
//! that gives its value.

use vstd::prelude::*;
use crate::UNIT;
use crate::curve::{CurvePoint, CurvePoints, points_valid};
use crate::shape::{curve_valid, interpolate, interpolate_spec};

verus! {

/// One envelope's progress. `Active` holds the segment being played (from
/// point `stage` to point `stage + 1`) and the time the envelope started,
/// in microseconds of the transport clock; the release jump may move that
/// start before zero.
#[derive(Clone, Copy, Debug, PartialEq, Eq, Structural)]
pub enum EnvelopeGenerator {
    Inactive,
    Active { stage: usize, activation_time: i64 },
}

/// The stage reached from `stage` once `rel` microseconds have passed:
/// move on while the next point exists and its time has come.
pub open spec fn advanced(s: Seq<CurvePoint>, stage: nat, rel: int) -> nat
    decreases s.len() - stage,
{
    if stage + 1 < s.len() && s[(stage + 1) as int].x <= rel {
        advanced(s, stage + 1, rel)
    } else {
        stage
    }
}

/// Position (scaled by `UNIT`) of relative time `rel` in the segment from
/// time `left` to time `right`, clamped to the segment; a segment of no
/// length is a step straight to its end.
pub open spec fn position_in(left: int, right: int, rel: int) -> int {
    if right <= left {
        UNIT as int
    } else if rel <= left {
        0
    } else if rel >= right {
        UNIT as int
    } else {
        (rel - left) * (UNIT as int) / (right - left)
    }
}

/// The segment an active envelope is in, and how far along it is.
#[derive(Clone, Copy, Debug, PartialEq, Eq, Structural)]
pub struct Segment {
    pub stage: usize,
    /// Value at the segment's start.
    pub from: u32,
    /// Value at the segment's end.
    pub to: u32,
    /// Curve bias of the segment.
    pub curve: i32,
    /// Position inside the segment, `0..=UNIT`.
    pub t: u32,
}

/// A flat segment that stays at `value`.
pub open spec fn hold(value: u32) -> Segment {
    Segment { stage: 0, from: value, to: value, curve: 0, t: 0 }
}

impl Segment {
    pub open spec fn valid(self) -> bool {
        self.from <= UNIT && self.to <= UNIT && self.t <= UNIT && curve_valid(self.curve as int)
    }

    /// The envelope value; `powered` is `t ^ exp` for the segment's curve bias
    /// (see `shape::curve_exponent`), read only where that needs a
    /// fractional power.
    pub fn value(&self, powered: u32) -> (r: u32)
        requires
            self.valid(),
            powered <= UNIT,
        ensures
            r as int == interpolate_spec(
                self.from as int,
                self.to as int,
                self.t as int,
                self.curve as int,
                powered as int,
            ),
            r <= UNIT,
    {
        interpolate(self.from, self.to, self.t, self.curve, powered)
    }
}

impl EnvelopeGenerator {
    /// The state after a tick at time `now` against points `s`.
    pub open spec fn ticked(self, s: Seq<CurvePoint>, now: int) -> EnvelopeGenerator {
        match self {
            EnvelopeGenerator::Inactive => EnvelopeGenerator::Inactive,
            EnvelopeGenerator::Active { stage, activation_time } => {
                let k = advanced(s, stage as nat, now - activation_time);
                if k + 1 < s.len() {
                    EnvelopeGenerator::Active { stage: k as usize, activation_time }
                } else {
                    EnvelopeGenerator::Inactive
                }
            },
        }
    }

    /// The state after a note-off at time `now`: an envelope that has not yet
    /// reached the release segment (the last one) jumps to its start.
    pub open spec fn released(self, s: Seq<CurvePoint>, now: int) -> EnvelopeGenerator {
        match self {
            EnvelopeGenerator::Active { stage, activation_time } => {
                if s.len() >= 2 && stage < s.len() - 2 {
                    let release = (s.len() - 2) as int;
                    EnvelopeGenerator::Active {
                        stage: release as usize,
                        activation_time: (now - s[release].x) as i64,
                    }
                } else {
                    self
                }
            },
            EnvelopeGenerator::Inactive => self,
        }
    }

    /// The segment the envelope is in at time `now`, if it is active and the
    /// segment's two points exist. An envelope of a single point holds that
    /// point's value, whatever the generator's state; an empty one gives
    /// nothing.
    pub open spec fn segment_at(self, s: Seq<CurvePoint>, now: int) -> Option<Segment> {
        if s.len() == 1 {
            Some(hold(s[0].y))
        } else {
            self.segment_between(s, now)
        }
    }

    /// The segment between the current stage's point and the next one.
    pub open spec fn segment_between(self, s: Seq<CurvePoint>, now: int) -> Option<Segment> {
        match self {
            EnvelopeGenerator::Active { stage, activation_time } => {
                if stage + 1 < s.len() {
                    let left = s[stage as int];
                    let right = s[stage + 1];
                    Some(
                        Segment {
                            stage,
                            from: left.y,
                            to: right.y,
                            curve: left.curve,
                            t: position_in(left.x as int, right.x as int, now - activation_time)
                                as u32,
                        },
                    )
                } else {
                    None
                }
            },
            EnvelopeGenerator::Inactive => None,
        }
    }

    pub fn new() -> (r: EnvelopeGenerator)
        ensures
            r == EnvelopeGenerator::Inactive,
    {
        EnvelopeGenerator::Inactive
    }

    pub fn is_active(&self) -> (r: bool)
        ensures
            r == (*self is Active),
    {
        match self {
            EnvelopeGenerator::Active { .. } => true,
            EnvelopeGenerator::Inactive => false,
        }
    }

    /// The stage being played, for display.
    pub fn stage(&self) -> (r: Option<usize>)
        ensures
            match *self {
                EnvelopeGenerator::Active { stage, .. } => r == Some(stage),
                EnvelopeGenerator::Inactive => r is None,
            },
    {
        match self {
            EnvelopeGenerator::Active { stage, .. } => Some(*stage),
            EnvelopeGenerator::Inactive => None,
        }
    }

    /// Starts the envelope from its first point at time `now`.
    pub fn trigger(&mut self, now: i64)
        ensures
            *final(self) == (EnvelopeGenerator::Active { stage: 0, activation_time: now }),
    {
        *self = EnvelopeGenerator::Active { stage: 0, activation_time: now };
    }

    /// Advances the stage to the segment that time `now` falls in; an
    /// envelope that has passed its last point becomes inactive.
    pub fn tick(&mut self, points: &CurvePoints, now: i64)
        ensures
            *final(self) == old(self).ticked(points@, now as int),
    {
        match *self {
            EnvelopeGenerator::Inactive => {},
            EnvelopeGenerator::Active { stage, activation_time } => {
                let rel: i128 = now as i128 - activation_time as i128;
                let n = points.len();
                let mut k: usize = stage;
                while k < n && k + 1 < n && points.at(k + 1).x as i128 <= rel
                    invariant
                        n == points@.len(),
                        advanced(points@, k as nat, rel as int) == advanced(
                            points@,
                            stage as nat,
                            rel as int,
                        ),
                    decreases n - k,
                {
                    k += 1;
                }
                assert(advanced(points@, k as nat, rel as int) == k);
                if k < n && k + 1 < n {
                    *self = EnvelopeGenerator::Active { stage: k, activation_time };
                } else {
                    *self = EnvelopeGenerator::Inactive;
                }
            },
        }
    }

    /// Jumps to the release segment at time `now`, moving the start time so
    /// that the envelope stands at the start of that segment.
    pub fn release(&mut self, points: &CurvePoints, now: i64)
        requires
            now >= 0,
        ensures
            *final(self) == old(self).released(points@, now as int),
    {
        match *self {
            EnvelopeGenerator::Active { stage, activation_time } => {
                let n = points.len();
                if n >= 2 && stage < n - 2 {
                    let release = n - 2;
                    // Shifting the start back by the release point's time plus
                    // `activation_time - now` leaves it at `now` minus that time.
                    *self = EnvelopeGenerator::Active {
                        stage: release,
                        activation_time: now - points.at(release).x as i64,
                    };
                }
            },
            EnvelopeGenerator::Inactive => {},
        }
    }

    /// The segment being played at time `now`, with the position inside it.
    pub fn segment(&self, points: &CurvePoints, now: i64) -> (r: Option<Segment>)
        ensures
            r == self.segment_at(points@, now as int),
            r matches Some(g) ==> g.t <= UNIT,
            points_valid(points@) ==> (r matches Some(g) ==> g.valid()),
            points@.len() == 1 && points@[0].y <= UNIT ==> (r matches Some(g) && g.valid()),
    {
        if points.len() == 1 {
            let only = points.at(0);
            return Some(Segment { stage: 0, from: only.y, to: only.y, curve: 0, t: 0 });
        }
        match *self {
            EnvelopeGenerator::Active { stage, activation_time } => {
                if stage < points.len() && stage + 1 < points.len() {
                    let left = points.at(stage);
                    let right = points.at(stage + 1);
                    let rel: i128 = now as i128 - activation_time as i128;
                    let t = position(left.x, right.x, rel);
                    proof {
                        if points_valid(points@) {
                            assert(points@[stage as int].valid());
                        }
                    }
                    Some(Segment { stage, from: left.y, to: right.y, curve: left.curve, t })
                } else {
                    None
                }
            },
            EnvelopeGenerator::Inactive => None,
        }
    }
}

/// Computes `position_in`.
fn position(left: u32, right: u32, rel: i128) -> (r: u32)
    ensures
        r as int == position_in(left as int, right as int, rel as int),
        r <= UNIT,
{
    if right <= left {
        UNIT
    } else if rel <= left as i128 {
        0
    } else if rel >= right as i128 {
        UNIT
    } else {
        let num: i128 = rel - left as i128;
        let den: i128 = right as i128 - left as i128;
        proof {
            assert(0 < num < den);
            let (a, b, u) = (num as int, den as int, UNIT as int);
            assert(a * u < b * u) by (nonlinear_arith)
                requires 0 < a < b, u > 0;
            vstd::arithmetic::div_mod::lemma_div_is_ordered(a * u, b * u, b);
            vstd::arithmetic::div_mod::lemma_div_multiples_vanish(u, b);
            assert(b * u == u * b) by (nonlinear_arith);
            vstd::arithmetic::div_mod::lemma_div_pos_is_pos(a * u, b);
        }
        (num * UNIT as i128 / den) as u32
    }
}

/// A tick moves to the furthest stage whose start time has come: every point
/// passed over has been reached, and the next one (if any) has not.
pub proof fn advance_stops_at_first_unreached_point(s: Seq<CurvePoint>, stage: nat, rel: int)
    ensures
        stage <= advanced(s, stage, rel),
        forall|j: int| stage < j <= advanced(s, stage, rel) ==> #[trigger] s[j].x <= rel,
        advanced(s, stage, rel) + 1 >= s.len() || s[(advanced(s, stage, rel) + 1) as int].x > rel,
    decreases s.len() - stage,
{
    if stage + 1 < s.len() && s[(stage + 1) as int].x <= rel {
        advance_stops_at_first_unreached_point(s, stage + 1, rel);
    }
}

/// On a well-formed envelope, past the last point's time the envelope is over.
pub proof fn past_last_point_is_inactive(g: EnvelopeGenerator, s: Seq<CurvePoint>, now: int)
    requires
        points_valid(s),
        g matches EnvelopeGenerator::Active { activation_time, .. } && now - activation_time
            >= s.last().x,
    ensures
        g.ticked(s, now) == EnvelopeGenerator::Inactive,
{
    if let EnvelopeGenerator::Active { stage, activation_time } = g {
        let rel = now - activation_time;
        advance_stops_at_first_unreached_point(s, stage as nat, rel);
        let k = advanced(s, stage as nat, rel);
        if k + 1 < s.len() {
            assert(s[(k + 1) as int].x <= s[s.len() - 1].x);
        }
    }
}

/// The release jump lands at the very start of the release segment: the
/// envelope then reads the release point's value, at position zero of a
/// segment of some length.
pub proof fn release_lands_on_release_start(g: EnvelopeGenerator, s: Seq<CurvePoint>, now: int)
    requires
        points_valid(s),
        s.len() <= usize::MAX,
        0 <= now <= i64::MAX,
        g matches EnvelopeGenerator::Active { stage, .. } && stage < s.len() - 2,
    ensures
        g.released(s, now).segment_at(s, now) == Some(
            Segment {
                stage: (s.len() - 2) as usize,
                from: s[s.len() - 2].y,
                to: s.last().y,
                curve: s[s.len() - 2].curve,
                t: if s[s.len() - 2].x < s.last().x { 0 } else { UNIT },
            },
        ),
{
    let r = (s.len() - 2) as int;
    assert(s[r].valid() && s[r + 1].valid());
    assert(s[r].x <= s[r + 1].x);
    let h = g.released(s, now);
    assert(h == EnvelopeGenerator::Active { stage: r as usize, activation_time: (now - s[r].x) as i64 });
    assert(now - ((now - s[r].x) as i64) == s[r].x);
}

/// The release jump makes no jump in value: on a release segment of some
/// length, if the value just before the note-off lies within `eps` of the
/// release point's value, so does the value just after it.
pub proof fn release_is_continuous(
    g: EnvelopeGenerator,
    s: Seq<CurvePoint>,
    now: int,
    before: int,
    eps: int,
    powered: int,
)
    requires
        points_valid(s),
        s.len() <= usize::MAX,
        0 <= now <= i64::MAX,
        g matches EnvelopeGenerator::Active { stage, .. } && stage < s.len() - 2,
        s[s.len() - 2].x < s.last().x,
        -eps < before - s[s.len() - 2].y < eps,
    ensures
        g.released(s, now).segment_at(s, now) matches Some(after) && -eps < interpolate_spec(
            after.from as int,
            after.to as int,
            after.t as int,
            after.curve as int,
            powered,
        ) - before < eps,
{
    release_lands_on_release_start(g, s, now);
    let r = s.len() - 2;
    assert(s[r].valid());
    crate::shape::interpolate_hits_both_ends(
        s[r].y as int,
        s.last().y as int,
        s[r].curve as int,
        powered,
    );
}

} // verus!
