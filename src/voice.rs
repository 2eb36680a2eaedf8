//! The voice: the one sounding note, the four envelope generators it drives,
//! and the transport clock, advanced one block of samples at a time.

use vstd::prelude::*;
use crate::UNIT;
use crate::curve::{CurvePoint, CurvePoints, points_valid};
use crate::envelope::{EnvelopeGenerator, Segment};

verus! {

/// The clock stops here: over 288 days of audio at 44.1 kHz.
pub const MAX_SAMPLES: u64 = 1_099_511_627_776;

/// The sounding note.
#[derive(Clone, Copy, Debug, PartialEq, Eq, Structural)]
pub struct Note {
    pub pitch: u8,
    pub velocity: u8,
}

#[derive(Clone, Copy, Debug, PartialEq, Eq, Structural)]
pub enum NoteEvent {
    NoteOn { pitch: u8, velocity: u8 },
    NoteOff { pitch: u8, velocity: u8 },
}

/// Names one of the four envelopes of the voice.
#[derive(Clone, Copy, Debug, PartialEq, Eq, Structural)]
pub enum SynthyEnvParam {
    /// Modulation depth of operator A.
    AEnv,
    /// Modulation depth of operator B.
    BEnv,
    /// Master amplitude; its end ends the note.
    Env,
    /// Amplitude of the filtered noise.
    NoiseEnv,
}

/// The four envelopes' points.
#[derive(Clone, Debug)]
pub struct Envelopes {
    pub a_env: CurvePoints,
    pub b_env: CurvePoints,
    pub noise_env: CurvePoints,
    pub env: CurvePoints,
}

/// The shape every envelope starts with: a rise to full over half a
/// second, a fall to 0.7 and then 0.5, and a one-second release to silence.
pub open spec fn default_shape() -> Seq<CurvePoint> {
    seq![
        CurvePoint { x: 0, y: 0, curve: 0 },
        CurvePoint { x: 500_000, y: 1_000_000, curve: 0 },
        CurvePoint { x: 1_000_000, y: 700_000, curve: 0 },
        CurvePoint { x: 2_000_000, y: 500_000, curve: 0 },
        CurvePoint { x: 3_000_000, y: 0, curve: 0 },
    ]
}

/// Builds the default shape.
pub fn default_points() -> (r: CurvePoints)
    ensures
        r@ == default_shape(),
        points_valid(r@),
{
    let mut v: Vec<CurvePoint> = Vec::new();
    v.push(CurvePoint::from((0u32, 0u32)));
    v.push(CurvePoint::from((500_000u32, UNIT)));
    v.push(CurvePoint::from((1_000_000u32, 700_000u32)));
    v.push(CurvePoint::from((2_000_000u32, 500_000u32)));
    v.push(CurvePoint::from((3_000_000u32, 0u32)));
    assert(v@ =~= default_shape());
    let r = CurvePoints::new(v);
    proof {
        let s = r@;
        assert forall|i: int, j: int| 0 <= i <= j < s.len() implies s[i].x <= s[j].x by {}
        assert forall|i: int| 0 <= i < s.len() implies (#[trigger] s[i]).valid() by {}
    }
    r
}

impl Envelopes {
    /// Every envelope in the default shape.
    pub fn new() -> (r: Envelopes)
        ensures
            r.a_env@ == default_shape(),
            r.b_env@ == default_shape(),
            r.noise_env@ == default_shape(),
            r.env@ == default_shape(),
    {
        Envelopes {
            a_env: default_points(),
            b_env: default_points(),
            noise_env: default_points(),
            env: default_points(),
        }
    }

    pub open spec fn points_of(&self, param: SynthyEnvParam) -> Seq<CurvePoint> {
        match param {
            SynthyEnvParam::AEnv => self.a_env@,
            SynthyEnvParam::BEnv => self.b_env@,
            SynthyEnvParam::Env => self.env@,
            SynthyEnvParam::NoiseEnv => self.noise_env@,
        }
    }

    pub fn get(&self, param: SynthyEnvParam) -> (r: &CurvePoints)
        ensures
            r@ == self.points_of(param),
    {
        match param {
            SynthyEnvParam::AEnv => &self.a_env,
            SynthyEnvParam::BEnv => &self.b_env,
            SynthyEnvParam::Env => &self.env,
            SynthyEnvParam::NoiseEnv => &self.noise_env,
        }
    }
}

/// What the voice is, as the contracts speak of it.
pub struct VoiceView {
    pub note: Option<Note>,
    pub a_env: EnvelopeGenerator,
    pub b_env: EnvelopeGenerator,
    pub noise_env: EnvelopeGenerator,
    pub env: EnvelopeGenerator,
    /// Samples rendered so far.
    pub samples: nat,
    pub sample_rate: nat,
}

/// What one block needs from the voice: whether to render, at which pitch,
/// and each envelope's segment.
#[derive(Clone, Copy, Debug, PartialEq, Eq, Structural)]
pub struct BlockPlan {
    pub note: Option<Note>,
    pub a_env: Option<Segment>,
    pub b_env: Option<Segment>,
    pub noise_env: Option<Segment>,
    pub env: Option<Segment>,
}

#[derive(Clone, Copy, Debug, PartialEq, Eq, Structural)]
pub enum VoiceError {
    /// A sample rate of zero.
    InvalidSampleRate,
}

impl VoiceView {
    /// The transport clock in microseconds.
    pub open spec fn now(self) -> int {
        (self.samples * 1_000_000) as int / (self.sample_rate as int)
    }

    pub open spec fn note_on(self, pitch: u8, velocity: u8) -> VoiceView {
        let start = EnvelopeGenerator::Active { stage: 0, activation_time: self.now() as i64 };
        VoiceView {
            note: Some(Note { pitch, velocity }),
            a_env: start,
            b_env: start,
            noise_env: start,
            env: start,
            ..self
        }
    }

    /// A note-off acts only on the note it names: it keeps the release
    /// velocity and sends the master envelope to its release segment.
    pub open spec fn note_off(self, pitch: u8, velocity: u8, master: Seq<CurvePoint>) -> VoiceView {
        match self.note {
            Some(n) if n.pitch == pitch => VoiceView {
                note: Some(Note { pitch, velocity }),
                env: self.env.released(master, self.now()),
                ..self
            },
            _ => self,
        }
    }

    pub open spec fn apply(self, event: NoteEvent, master: Seq<CurvePoint>) -> VoiceView {
        match event {
            NoteEvent::NoteOn { pitch, velocity } => self.note_on(pitch, velocity),
            NoteEvent::NoteOff { pitch, velocity } => self.note_off(pitch, velocity, master),
        }
    }

    /// The events applied in order.
    pub open spec fn apply_all(self, events: Seq<NoteEvent>, master: Seq<CurvePoint>) -> VoiceView
        decreases events.len(),
    {
        if events.len() == 0 {
            self
        } else {
            self.apply_all(events.drop_last(), master).apply(events.last(), master)
        }
    }

    /// Every envelope ticked; the note ends when the master envelope does.
    pub open spec fn ticked(self, e: Envelopes) -> VoiceView {
        let env = self.env.ticked(e.env@, self.now());
        VoiceView {
            note: if env is Inactive {
                None
            } else {
                self.note
            },
            a_env: self.a_env.ticked(e.a_env@, self.now()),
            b_env: self.b_env.ticked(e.b_env@, self.now()),
            noise_env: self.noise_env.ticked(e.noise_env@, self.now()),
            env,
            ..self
        }
    }

    /// The clock moves on by a block only while a note sounds.
    pub open spec fn advanced(self, block: nat) -> VoiceView {
        if self.note is Some {
            VoiceView {
                samples: if self.samples + block > MAX_SAMPLES {
                    MAX_SAMPLES as nat
                } else {
                    self.samples + block
                },
                ..self
            }
        } else {
            self
        }
    }

    pub open spec fn plan(self, e: Envelopes) -> BlockPlan {
        BlockPlan {
            note: self.note,
            a_env: self.a_env.segment_at(e.a_env@, self.now()),
            b_env: self.b_env.segment_at(e.b_env@, self.now()),
            noise_env: self.noise_env.segment_at(e.noise_env@, self.now()),
            env: self.env.segment_at(e.env@, self.now()),
        }
    }
}

pub struct Voice {
    note: Option<Note>,
    a_env: EnvelopeGenerator,
    b_env: EnvelopeGenerator,
    noise_env: EnvelopeGenerator,
    env: EnvelopeGenerator,
    samples: u64,
    sample_rate: u32,
}

impl View for Voice {
    type V = VoiceView;

    closed spec fn view(&self) -> VoiceView {
        VoiceView {
            note: self.note,
            a_env: self.a_env,
            b_env: self.b_env,
            noise_env: self.noise_env,
            env: self.env,
            samples: self.samples as nat,
            sample_rate: self.sample_rate as nat,
        }
    }
}

/// A well-formed voice: a sample rate above zero, a clock within its bound.
pub open spec fn voice_valid(v: VoiceView) -> bool {
    v.sample_rate > 0 && v.sample_rate <= u32::MAX && v.samples <= MAX_SAMPLES
}

impl Voice {
    /// A silent voice at the start of the clock.
    pub fn new(sample_rate: u32) -> (r: Result<Voice, VoiceError>)
        ensures
            sample_rate == 0 <==> r is Err,
            r matches Ok(v) ==> voice_valid(v@) && v@ == (VoiceView {
                note: None,
                a_env: EnvelopeGenerator::Inactive,
                b_env: EnvelopeGenerator::Inactive,
                noise_env: EnvelopeGenerator::Inactive,
                env: EnvelopeGenerator::Inactive,
                samples: 0,
                sample_rate: sample_rate as nat,
            }),
    {
        if sample_rate == 0 {
            return Err(VoiceError::InvalidSampleRate);
        }
        Ok(
            Voice {
                note: None,
                a_env: EnvelopeGenerator::Inactive,
                b_env: EnvelopeGenerator::Inactive,
                noise_env: EnvelopeGenerator::Inactive,
                env: EnvelopeGenerator::Inactive,
                samples: 0,
                sample_rate,
            },
        )
    }

    /// The transport clock in microseconds.
    pub fn now(&self) -> (r: i64)
        requires
            voice_valid(self@),
        ensures
            r as int == self@.now(),
            r >= 0,
    {
        let s = self.samples as u128;
        let rate = self.sample_rate as u128;
        proof {
            assert(s * 1_000_000 <= (MAX_SAMPLES as int) * 1_000_000) by (nonlinear_arith)
                requires s <= MAX_SAMPLES;
            vstd::arithmetic::div_mod::lemma_div_is_ordered_by_denominator(
                s * 1_000_000,
                1,
                rate as int,
            );
            vstd::arithmetic::div_mod::lemma_div_pos_is_pos(s * 1_000_000, rate as int);
        }
        (s * 1_000_000 / rate) as i64
    }

    pub fn note(&self) -> (r: Option<Note>)
        ensures
            r == self@.note,
    {
        self.note
    }

    pub fn generator(&self, param: SynthyEnvParam) -> (r: EnvelopeGenerator)
        ensures
            r == match param {
                SynthyEnvParam::AEnv => self@.a_env,
                SynthyEnvParam::BEnv => self@.b_env,
                SynthyEnvParam::Env => self@.env,
                SynthyEnvParam::NoiseEnv => self@.noise_env,
            },
    {
        match param {
            SynthyEnvParam::AEnv => self.a_env,
            SynthyEnvParam::BEnv => self.b_env,
            SynthyEnvParam::Env => self.env,
            SynthyEnvParam::NoiseEnv => self.noise_env,
        }
    }

    /// Starts a note, replacing any sounding one, and restarts every envelope.
    pub fn note_on(&mut self, pitch: u8, velocity: u8)
        requires
            voice_valid(old(self)@),
        ensures
            final(self)@ == old(self)@.note_on(pitch, velocity),
            voice_valid(final(self)@),
    {
        let now = self.now();
        self.note = Some(Note { pitch, velocity });
        self.a_env.trigger(now);
        self.b_env.trigger(now);
        self.noise_env.trigger(now);
        self.env.trigger(now);
    }

    /// Releases the sounding note if it has this pitch; `master` holds the
    /// master envelope's points.
    pub fn note_off(&mut self, pitch: u8, velocity: u8, master: &CurvePoints)
        requires
            voice_valid(old(self)@),
        ensures
            final(self)@ == old(self)@.note_off(pitch, velocity, master@),
            voice_valid(final(self)@),
    {
        let now = self.now();
        match self.note {
            Some(n) => {
                if n.pitch == pitch {
                    self.note = Some(Note { pitch, velocity });
                    self.env.release(master, now);
                }
            },
            None => {},
        }
    }

    pub fn apply(&mut self, event: NoteEvent, master: &CurvePoints)
        requires
            voice_valid(old(self)@),
        ensures
            final(self)@ == old(self)@.apply(event, master@),
            voice_valid(final(self)@),
    {
        match event {
            NoteEvent::NoteOn { pitch, velocity } => self.note_on(pitch, velocity),
            NoteEvent::NoteOff { pitch, velocity } => self.note_off(pitch, velocity, master),
        }
    }

    /// Ticks every envelope at the current time; the note ends when the
    /// master envelope passes its last point.
    pub fn tick(&mut self, envelopes: &Envelopes)
        requires
            voice_valid(old(self)@),
        ensures
            final(self)@ == old(self)@.ticked(*envelopes),
            voice_valid(final(self)@),
    {
        let now = self.now();
        self.a_env.tick(&envelopes.a_env, now);
        self.b_env.tick(&envelopes.b_env, now);
        self.noise_env.tick(&envelopes.noise_env, now);
        self.env.tick(&envelopes.env, now);
        if !self.env.is_active() {
            self.note = None;
        }
    }

    /// Each envelope's segment at the current time.
    pub fn plan(&self, envelopes: &Envelopes) -> (r: BlockPlan)
        requires
            voice_valid(self@),
        ensures
            r == self@.plan(*envelopes),
    {
        let now = self.now();
        BlockPlan {
            note: self.note,
            a_env: self.a_env.segment(&envelopes.a_env, now),
            b_env: self.b_env.segment(&envelopes.b_env, now),
            noise_env: self.noise_env.segment(&envelopes.noise_env, now),
            env: self.env.segment(&envelopes.env, now),
        }
    }

    /// Moves the clock on by `block_size` samples if a note sounds.
    pub fn advance(&mut self, block_size: u32)
        requires
            voice_valid(old(self)@),
        ensures
            final(self)@ == old(self)@.advanced(block_size as nat),
            voice_valid(final(self)@),
    {
        if self.note.is_some() {
            let next = self.samples + block_size as u64;
            self.samples = if next > MAX_SAMPLES {
                MAX_SAMPLES
            } else {
                next
            };
        }
    }

    /// One block: applies the queued events in order, ticks the envelopes,
    /// reads their segments, and moves the clock on if a note sounds. The
    /// plan says what to render for the block.
    pub fn process_block(&mut self, events: &Vec<NoteEvent>, envelopes: &Envelopes, block_size: u32) -> (r: BlockPlan)
        requires
            voice_valid(old(self)@),
        ensures
            ({
                let ready = old(self)@.apply_all(events@, envelopes.env@).ticked(*envelopes);
                &&& r == ready.plan(*envelopes)
                &&& final(self)@ == ready.advanced(block_size as nat)
            }),
            voice_valid(final(self)@),
    {
        let mut i: usize = 0;
        while i < events.len()
            invariant
                i <= events@.len(),
                voice_valid(self@),
                self@ == old(self)@.apply_all(events@.subrange(0, i as int), envelopes.env@),
            decreases events@.len() - i,
        {
            proof {
                let next = events@.subrange(0, i + 1);
                assert(next.drop_last() == events@.subrange(0, i as int));
                assert(next.last() == events@[i as int]);
            }
            self.apply(events[i], &envelopes.env);
            i += 1;
        }
        proof {
            assert(events@.subrange(0, events@.len() as int) == events@);
        }
        self.tick(envelopes);
        let plan = self.plan(envelopes);
        self.advance(block_size);
        plan
    }
}

/// A note-off for any pitch but the sounding note's changes nothing.
pub proof fn stale_note_off_is_ignored(v: VoiceView, pitch: u8, velocity: u8, master: Seq<CurvePoint>)
    requires
        v.note matches Some(n) ==> n.pitch != pitch,
    ensures
        v.note_off(pitch, velocity, master) == v,
{
}

/// A note-on restarts every envelope from its first point at the current
/// time, whatever the earlier note had reached: two voices that differ only
/// in their note and envelopes are the same after it.
pub proof fn note_on_forgets_progress(v: VoiceView, w: VoiceView, pitch: u8, velocity: u8)
    requires
        v.samples == w.samples,
        v.sample_rate == w.sample_rate,
    ensures
        v.note_on(pitch, velocity) == w.note_on(pitch, velocity),
        ({
            let start = EnvelopeGenerator::Active { stage: 0, activation_time: v.now() as i64 };
            let after = v.note_on(pitch, velocity);
            &&& after.a_env == start
            &&& after.b_env == start
            &&& after.noise_env == start
            &&& after.env == start
            &&& after.note == Some(Note { pitch, velocity })
        }),
{
}

} // verus!
