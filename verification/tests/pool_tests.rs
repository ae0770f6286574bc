use midi_fundsp::pool::VoicePool;

#[test]
fn fresh_pool_state() {
    let pool = VoicePool::new(3);
    assert_eq!(pool.num_voices(), 3);
    assert_eq!(pool.cursor(), 0);
    assert_eq!(pool.program(), 0);
    assert!(pool.master_gain_on());
    for i in 0..3 {
        let v = pool.voice(i);
        assert_eq!(v.pitch, 0);
        assert_eq!(v.velocity, 0);
        assert!(!v.gate_on);
        assert_eq!(v.pitch_bend, 8192);
        assert_eq!(pool.recent_pitch(i), None);
    }
    for p in 0..=127 {
        assert_eq!(pool.slot_for_pitch(p), None);
    }
}

#[test]
fn note_on_claims_first_slot() {
    let mut pool = VoicePool::new(2);
    pool.on(60, 100);
    let v = pool.voice(0);
    assert_eq!(v.pitch, 60);
    assert_eq!(v.velocity, 100);
    assert!(v.gate_on);
    assert_eq!(pool.recent_pitch(0), Some(60));
    assert_eq!(pool.slot_for_pitch(60), Some(0));
    assert_eq!(pool.cursor(), 1);
    assert!(!pool.voice(1).gate_on);
}

#[test]
fn mono_pool_steals_only_slot() {
    // one voice: a second note-on before any off steals the single slot
    let mut pool = VoicePool::new(1);
    pool.on(60, 127);
    pool.on(64, 100);
    let v = pool.voice(0);
    assert_eq!(v.pitch, 64);
    assert_eq!(v.velocity, 100);
    assert!(v.gate_on);
    assert_eq!(pool.recent_pitch(0), Some(64));
    assert_eq!(pool.slot_for_pitch(64), Some(0));
}

#[test]
fn stale_off_does_not_release_stolen_slot() {
    let mut pool = VoicePool::new(1);
    pool.on(60, 127);
    pool.on(64, 100);
    // slot 0 now belongs to pitch 64; the off for 60 is stale
    pool.off(60);
    assert!(pool.voice(0).gate_on);
    assert_eq!(pool.recent_pitch(0), Some(64));
    assert_eq!(pool.slot_for_pitch(60), None);
    // the real owner can still release it
    pool.off(64);
    assert!(!pool.voice(0).gate_on);
    assert_eq!(pool.recent_pitch(0), None);
}

#[test]
fn round_robin_covers_all_slots_once() {
    let mut pool = VoicePool::new(4);
    let pitches = [60u8, 64, 67, 71];
    for (i, &p) in pitches.iter().enumerate() {
        pool.on(p, 100);
        assert_eq!(pool.recent_pitch(i), Some(p));
    }
    for (i, &p) in pitches.iter().enumerate() {
        let v = pool.voice(i);
        assert_eq!(v.pitch, p);
        assert!(v.gate_on);
        assert_eq!(pool.slot_for_pitch(p), Some(i));
    }
    assert_eq!(pool.cursor(), 0);
}

#[test]
fn steal_takes_slot_claimed_longest_ago() {
    let mut pool = VoicePool::new(3);
    pool.on(60, 100);
    pool.on(64, 100);
    pool.on(67, 100);
    // all slots sounding: the next claim steals slot 0, the oldest
    pool.on(71, 90);
    assert_eq!(pool.voice(0).pitch, 71);
    assert_eq!(pool.recent_pitch(0), Some(71));
    assert_eq!(pool.voice(1).pitch, 64);
    assert_eq!(pool.voice(2).pitch, 67);
    assert_eq!(pool.cursor(), 1);
}

#[test]
fn freed_slot_claimed_before_active_one() {
    // idle-first policy: after an off in the middle of the ring, a new note
    // claims the freed slot rather than stealing a sounding one
    let mut pool = VoicePool::new(2);
    pool.on(60, 100);
    pool.on(64, 90);
    pool.off(60);
    assert!(!pool.voice(0).gate_on);
    assert!(pool.voice(1).gate_on);
    pool.on(67, 80);
    assert_eq!(pool.voice(0).pitch, 67);
    assert!(pool.voice(0).gate_on);
    assert_eq!(pool.voice(1).pitch, 64);
    assert!(pool.voice(1).gate_on);
}

#[test]
fn off_for_unknown_pitch_is_a_no_op() {
    let mut pool = VoicePool::new(2);
    pool.on(60, 100);
    pool.off(61);
    assert!(pool.voice(0).gate_on);
    assert_eq!(pool.recent_pitch(0), Some(60));
    assert_eq!(pool.slot_for_pitch(60), Some(0));
}

#[test]
fn note_on_velocity_zero_allocates_silent_voice() {
    let mut pool = VoicePool::new(2);
    pool.on(60, 0);
    let v = pool.voice(0);
    assert!(v.gate_on);
    assert_eq!(v.velocity, 0);
    assert_eq!(pool.recent_pitch(0), Some(60));
}

#[test]
fn bend_reaches_every_slot_uniformly() {
    let mut pool = VoicePool::new(3);
    pool.on(60, 100);
    pool.bend(12345);
    for i in 0..3 {
        // idle slots bend too
        assert_eq!(pool.voice(i).pitch_bend, 12345);
    }
    // a voice claimed later keeps the pool-wide bend
    pool.on(64, 90);
    assert_eq!(pool.voice(1).pitch_bend, 12345);
    assert_eq!(pool.voice(1).pitch, 64);
}

#[test]
fn program_change_mutes_until_next_note_on() {
    let mut pool = VoicePool::new(2);
    pool.on(60, 100);
    assert!(pool.master_gain_on());
    pool.set_render_function(3);
    assert_eq!(pool.program(), 3);
    assert!(!pool.master_gain_on());
    // gates and bookkeeping are untouched by the mute
    assert!(pool.voice(0).gate_on);
    pool.on(64, 90);
    assert!(pool.master_gain_on());
    assert_eq!(pool.program(), 3);
}

#[test]
fn all_notes_off_releases_without_muting() {
    let mut pool = VoicePool::new(2);
    pool.on(60, 100);
    pool.on(64, 90);
    pool.all_notes_off();
    assert!(!pool.voice(0).gate_on);
    assert!(!pool.voice(1).gate_on);
    assert_eq!(pool.recent_pitch(0), None);
    assert_eq!(pool.recent_pitch(1), None);
    assert!(pool.master_gain_on());
    // the pitch map is left as it is; a later off only clears the binding
    assert_eq!(pool.slot_for_pitch(60), Some(0));
    pool.off(60);
    assert_eq!(pool.slot_for_pitch(60), None);
}

#[test]
fn all_sound_off_mutes_without_releasing() {
    let mut pool = VoicePool::new(2);
    pool.on(60, 100);
    pool.all_sound_off();
    assert!(!pool.master_gain_on());
    assert!(pool.voice(0).gate_on);
    assert_eq!(pool.recent_pitch(0), Some(60));
    // the next note-on restores the gain
    pool.on(64, 90);
    assert!(pool.master_gain_on());
}

#[test]
fn duplicate_note_on_reclaims_new_slot() {
    // a repeated pitch claims a fresh slot; the old slot keeps sounding as
    // an orphan until stolen
    let mut pool = VoicePool::new(3);
    pool.on(60, 100);
    pool.on(60, 90);
    assert_eq!(pool.voice(0).pitch, 60);
    assert!(pool.voice(0).gate_on);
    assert_eq!(pool.voice(1).pitch, 60);
    assert!(pool.voice(1).gate_on);
    assert_eq!(pool.slot_for_pitch(60), Some(1));
    // the off releases only the slot the map names now
    pool.off(60);
    assert!(pool.voice(0).gate_on);
    assert!(!pool.voice(1).gate_on);
}
