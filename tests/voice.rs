use synthy::curve::{CurvePoint, CurvePoints};
use synthy::envelope::{EnvelopeGenerator, Segment};
use synthy::voice::{Envelopes, Note, NoteEvent, SynthyEnvParam, Voice, VoiceError};

const PARAMS: [SynthyEnvParam; 4] =
    [SynthyEnvParam::AEnv, SynthyEnvParam::BEnv, SynthyEnvParam::NoiseEnv, SynthyEnvParam::Env];

fn voice() -> Voice {
    // One block of 1000 samples is a tenth of a second.
    Voice::new(10_000).unwrap()
}

fn states(v: &Voice) -> Vec<EnvelopeGenerator> {
    PARAMS.iter().map(|p| v.generator(*p)).collect()
}

#[test]
fn zero_sample_rate_is_refused() {
    assert!(matches!(Voice::new(0), Err(VoiceError::InvalidSampleRate)));
}

#[test]
fn clock_stands_still_while_silent() {
    let e = Envelopes::new();
    let mut v = voice();
    let plan = v.process_block(&vec![], &e, 1000);
    assert_eq!(plan.note, None);
    assert_eq!(plan.env, None);
    assert_eq!(v.now(), 0);
}

#[test]
fn note_on_starts_all_envelopes() {
    let e = Envelopes::new();
    let mut v = voice();
    let plan = v.process_block(&vec![NoteEvent::NoteOn { pitch: 60, velocity: 100 }], &e, 1000);
    assert_eq!(plan.note, Some(Note { pitch: 60, velocity: 100 }));
    assert_eq!(plan.env.unwrap().t, 0);
    assert_eq!(v.now(), 100_000);
    let plan = v.process_block(&vec![], &e, 1000);
    assert_eq!(plan.a_env.unwrap().t, 200_000);
    assert_eq!(v.now(), 200_000);
}

#[test]
fn second_note_on_restarts_from_zero() {
    let e = Envelopes::new();
    let mut v = voice();
    v.process_block(&vec![NoteEvent::NoteOn { pitch: 60, velocity: 100 }], &e, 1000);
    for _ in 0..7 {
        v.process_block(&vec![], &e, 1000);
    }
    assert_eq!(v.generator(SynthyEnvParam::Env).stage(), Some(1));
    let now = v.now();
    v.note_on(64, 90);
    for s in states(&v) {
        assert_eq!(s, EnvelopeGenerator::Active { stage: 0, activation_time: now });
    }
    assert_eq!(v.note(), Some(Note { pitch: 64, velocity: 90 }));
}

#[test]
fn note_off_for_other_pitch_is_ignored() {
    let e = Envelopes::new();
    let mut v = voice();
    v.process_block(&vec![NoteEvent::NoteOn { pitch: 60, velocity: 100 }], &e, 1000);
    v.process_block(&vec![], &e, 1000);
    let before = states(&v);
    v.note_off(61, 0, &e.env);
    assert_eq!(states(&v), before);
    assert_eq!(v.note(), Some(Note { pitch: 60, velocity: 100 }));
}

#[test]
fn note_off_releases_master_only() {
    let e = Envelopes::new();
    let mut v = voice();
    v.process_block(&vec![NoteEvent::NoteOn { pitch: 60, velocity: 100 }], &e, 1000);
    for _ in 0..5 {
        v.process_block(&vec![], &e, 1000);
    }
    let now = v.now();
    assert_eq!(now, 600_000);
    v.note_off(60, 30, &e.env);
    assert_eq!(v.note(), Some(Note { pitch: 60, velocity: 30 }));
    assert_eq!(v.generator(SynthyEnvParam::Env), EnvelopeGenerator::Active { stage: 3, activation_time: -1_400_000 });
    assert_eq!(v.generator(SynthyEnvParam::AEnv).stage(), Some(1));
}

#[test]
fn note_ends_with_master_envelope() {
    let e = Envelopes::new();
    let mut v = voice();
    v.process_block(&vec![NoteEvent::NoteOn { pitch: 60, velocity: 100 }], &e, 1000);
    let mut blocks = 1;
    while v.note().is_some() {
        v.process_block(&vec![], &e, 1000);
        blocks += 1;
        assert!(blocks < 100);
    }
    // The last point lies at three seconds: the block that starts there ends the note.
    assert_eq!(v.now(), 3_000_000);
    assert_eq!(v.generator(SynthyEnvParam::Env), EnvelopeGenerator::Inactive);
    let plan = v.process_block(&vec![], &e, 1000);
    assert_eq!(plan.note, None);
    assert_eq!(v.now(), 3_000_000);
}

#[test]
fn events_of_a_block_apply_in_order() {
    let e = Envelopes::new();
    let mut v = voice();
    v.process_block(&vec![NoteEvent::NoteOn { pitch: 60, velocity: 100 }], &e, 1000);
    let plan = v.process_block(
        &vec![
            NoteEvent::NoteOff { pitch: 60, velocity: 1 },
            NoteEvent::NoteOn { pitch: 62, velocity: 2 },
            NoteEvent::NoteOff { pitch: 60, velocity: 3 },
        ],
        &e,
        1000,
    );
    assert_eq!(plan.note, Some(Note { pitch: 62, velocity: 2 }));
    assert_eq!(plan.env.unwrap().stage, 0);
}

#[test]
fn released_note_fades_out() {
    let e = Envelopes::new();
    let mut v = voice();
    v.process_block(&vec![NoteEvent::NoteOn { pitch: 60, velocity: 100 }], &e, 1000);
    let plan = v.process_block(&vec![NoteEvent::NoteOff { pitch: 60, velocity: 0 }], &e, 1000);
    let seg = plan.env.unwrap();
    assert_eq!((seg.stage, seg.from, seg.to, seg.t), (3, 500_000, 0, 0));
    for _ in 0..9 {
        v.process_block(&vec![], &e, 1000);
    }
    assert!(v.note().is_some());
    v.process_block(&vec![], &e, 1000);
    assert_eq!(v.note(), None);
}

#[test]
fn envelopes_by_name() {
    let mut e = Envelopes::new();
    e.noise_env.remove_point(1).unwrap();
    assert_eq!(e.get(SynthyEnvParam::NoiseEnv).len(), 4);
    assert_eq!(e.get(SynthyEnvParam::Env).len(), 5);
}

#[test]
fn single_point_master_holds_and_ends_note() {
    let mut e = Envelopes::new();
    e.env = CurvePoints::new(vec![CurvePoint::from((0u32, 250_000u32))]);
    e.a_env = CurvePoints::new(vec![]);
    let mut v = voice();
    let plan = v.process_block(
        &vec![NoteEvent::NoteOn { pitch: 60, velocity: 100 }, NoteEvent::NoteOff { pitch: 60, velocity: 0 }],
        &e,
        1000,
    );
    assert_eq!(plan.env, Some(Segment { stage: 0, from: 250_000, to: 250_000, curve: 0, t: 0 }));
    assert_eq!(plan.a_env, None);
    assert_eq!(plan.note, None);
    assert_eq!(v.generator(SynthyEnvParam::Env), EnvelopeGenerator::Inactive);
    assert_eq!(v.now(), 0);
}
