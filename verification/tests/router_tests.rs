use midi_fundsp::midi::MidiEvent;
use midi_fundsp::msg::{side_from_pitch, Speaker, SynthMsg};
use midi_fundsp::router::StereoRouter;

#[test]
fn speaker_index() {
    assert_eq!(Speaker::Left.i(), 0);
    assert_eq!(Speaker::Right.i(), 1);
    assert_eq!(Speaker::Both.i(), 2);
}

#[test]
fn message_constructors() {
    let m = SynthMsg::all_notes_off(Speaker::Left);
    assert_eq!(m.msg, MidiEvent::AllNotesOff);
    assert_eq!(m.speaker, Speaker::Left);
    let m = SynthMsg::all_sound_off(Speaker::Both);
    assert_eq!(m.msg, MidiEvent::AllSoundOff);
    assert_eq!(m.speaker, Speaker::Both);
    let m = SynthMsg::program_change(9, Speaker::Right);
    assert_eq!(m.msg, MidiEvent::ProgramChange { program: 9 });
    assert_eq!(m.speaker, Speaker::Right);
}

#[test]
fn note_velocity_reports_notes_only() {
    let on = SynthMsg { msg: MidiEvent::NoteOn { pitch: 60, velocity: 100 }, speaker: Speaker::Both };
    assert_eq!(on.note_velocity(), Some((60, 100)));
    let off = SynthMsg { msg: MidiEvent::NoteOff { pitch: 61, velocity: 5 }, speaker: Speaker::Left };
    assert_eq!(off.note_velocity(), Some((61, 5)));
    let bend = SynthMsg { msg: MidiEvent::PitchBend { bend: 8192 }, speaker: Speaker::Both };
    assert_eq!(bend.note_velocity(), None);
    let pc = SynthMsg::program_change(1, Speaker::Both);
    assert_eq!(pc.note_velocity(), None);
}

#[test]
fn synth_msg_validity() {
    assert!(SynthMsg { msg: MidiEvent::NoteOn { pitch: 60, velocity: 100 }, speaker: Speaker::Both }
        .is_valid());
    assert!(!SynthMsg { msg: MidiEvent::NoteOn { pitch: 200, velocity: 0 }, speaker: Speaker::Both }
        .is_valid());
}

#[test]
fn both_routing_mutates_both_pools_identically() {
    let mut router = StereoRouter::new(2);
    let changed = router.route(&SynthMsg {
        msg: MidiEvent::NoteOn { pitch: 60, velocity: 100 },
        speaker: Speaker::Both,
    });
    assert!(!changed);
    for pool in [&router.left, &router.right] {
        let v = pool.voice(0);
        assert_eq!(v.pitch, 60);
        assert_eq!(v.velocity, 100);
        assert!(v.gate_on);
        assert_eq!(pool.slot_for_pitch(60), Some(0));
        assert_eq!(pool.cursor(), 1);
    }
    assert_eq!(router.left.voice(0), router.right.voice(0));
}

#[test]
fn left_routing_leaves_right_pool_alone() {
    let mut router = StereoRouter::new(2);
    router.route(&SynthMsg {
        msg: MidiEvent::NoteOn { pitch: 60, velocity: 100 },
        speaker: Speaker::Left,
    });
    assert!(router.left.voice(0).gate_on);
    assert!(!router.right.voice(0).gate_on);
    assert_eq!(router.right.slot_for_pitch(60), None);
}

#[test]
fn right_routing_leaves_left_pool_alone() {
    let mut router = StereoRouter::new(2);
    router.route(&SynthMsg {
        msg: MidiEvent::NoteOn { pitch: 72, velocity: 50 },
        speaker: Speaker::Right,
    });
    assert!(router.right.voice(0).gate_on);
    assert_eq!(router.right.voice(0).pitch, 72);
    assert!(!router.left.voice(0).gate_on);
    assert_eq!(router.left.slot_for_pitch(72), None);
}

#[test]
fn program_change_both_swaps_and_mutes_both_pools() {
    let mut router = StereoRouter::new(2);
    router.route(&SynthMsg {
        msg: MidiEvent::NoteOn { pitch: 60, velocity: 100 },
        speaker: Speaker::Both,
    });
    let changed = router.route(&SynthMsg::program_change(4, Speaker::Both));
    assert!(changed);
    // the master-gain-zero window is visible on both channels
    assert_eq!(router.left.program(), 4);
    assert_eq!(router.right.program(), 4);
    assert!(!router.left.master_gain_on());
    assert!(!router.right.master_gain_on());
    // the next note restores the gain in both pools
    let changed = router.route(&SynthMsg {
        msg: MidiEvent::NoteOn { pitch: 64, velocity: 90 },
        speaker: Speaker::Both,
    });
    assert!(!changed);
    assert!(router.left.master_gain_on());
    assert!(router.right.master_gain_on());
}

#[test]
fn mono_router_channels_stay_identical() {
    let mut router = StereoRouter::new(2);
    let traffic = [
        MidiEvent::NoteOn { pitch: 60, velocity: 100 },
        MidiEvent::PitchBend { bend: 9000 },
        MidiEvent::NoteOn { pitch: 64, velocity: 90 },
        MidiEvent::NoteOff { pitch: 60, velocity: 0 },
        MidiEvent::NoteOn { pitch: 67, velocity: 80 },
        MidiEvent::AllNotesOff,
    ];
    for msg in traffic {
        router.route(&SynthMsg { msg, speaker: Speaker::Both });
        for i in 0..2 {
            assert_eq!(router.left.voice(i), router.right.voice(i));
            assert_eq!(router.left.recent_pitch(i), router.right.recent_pitch(i));
        }
        assert_eq!(router.left.cursor(), router.right.cursor());
        assert_eq!(router.left.master_gain_on(), router.right.master_gain_on());
    }
}

#[test]
fn system_reset_leaves_pools_unchanged() {
    let mut router = StereoRouter::new(2);
    router.route(&SynthMsg {
        msg: MidiEvent::NoteOn { pitch: 60, velocity: 100 },
        speaker: Speaker::Both,
    });
    let before = (router.left.voice(0), router.left.cursor(), router.left.program());
    let changed = router.route(&SynthMsg { msg: MidiEvent::SystemReset, speaker: Speaker::Both });
    assert!(!changed);
    assert_eq!(before, (router.left.voice(0), router.left.cursor(), router.left.program()));
}

#[test]
fn side_from_pitch_splits_at_middle_c() {
    assert_eq!(
        side_from_pitch(&MidiEvent::NoteOn { pitch: 59, velocity: 100 }),
        Some(Speaker::Left)
    );
    assert_eq!(
        side_from_pitch(&MidiEvent::NoteOn { pitch: 60, velocity: 100 }),
        Some(Speaker::Right)
    );
    assert_eq!(
        side_from_pitch(&MidiEvent::NoteOff { pitch: 0, velocity: 0 }),
        Some(Speaker::Left)
    );
    assert_eq!(side_from_pitch(&MidiEvent::PitchBend { bend: 8192 }), None);
    assert_eq!(side_from_pitch(&MidiEvent::AllNotesOff), None);
}
