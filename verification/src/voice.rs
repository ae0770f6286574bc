//! Per-voice control state, sampled continuously by the render function.

use vstd::prelude::*;

verus! {

/// The control state of one voice. A render function derives its waveform
/// from these four values: the MIDI pitch, the MIDI velocity, a gate signal
/// (held vs. released) and the raw 14-bit pitch-bend value.
///
/// The executable realization as per-field atomic signal variables, and the
/// conversions to frequencies and gains, live with the integrator; this type
/// is the state those signals mirror.
#[derive(Clone, Copy, Debug, PartialEq, Eq, Structural)]
pub struct VoiceState {
    /// MIDI pitch of the most recent note sounded by this voice, 0..=127.
    pub pitch: u8,
    /// MIDI velocity of that note, 0..=127.
    pub velocity: u8,
    /// True while the note is held, false once released.
    pub gate_on: bool,
    /// Raw 14-bit pitch-bend value, 0..=16383; 8192 means no bend.
    pub pitch_bend: u16,
}

impl VoiceState {
    /// Every field is inside its MIDI range.
    pub open spec fn wf(self) -> bool {
        self.pitch <= 127 && self.velocity <= 127 && self.pitch_bend <= 16383
    }

    /// The state of a voice that has never sounded: silent, released, unbent.
    pub open spec fn initial() -> VoiceState {
        VoiceState { pitch: 0, velocity: 0, gate_on: false, pitch_bend: 8192 }
    }

    /// Returns a fresh, silent voice.
    pub fn new() -> (r: VoiceState)
        ensures
            r == VoiceState::initial(),
    {
        VoiceState { pitch: 0, velocity: 0, gate_on: false, pitch_bend: 8192 }
    }

    /// Encodes a MIDI `Note On` event: the voice takes the new pitch and
    /// velocity and its gate rises; the bend value is kept.
    pub fn on(&mut self, pitch: u8, velocity: u8)
        requires
            pitch <= 127,
            velocity <= 127,
        ensures
            *final(self) == (VoiceState {
                pitch,
                velocity,
                gate_on: true,
                pitch_bend: old(self).pitch_bend,
            }),
    {
        self.pitch = pitch;
        self.velocity = velocity;
        self.gate_on = true;
    }

    /// Encodes a MIDI `Note Off` event: only its gate signal drops.
    pub fn off(&mut self)
        ensures
            *final(self) == (VoiceState { gate_on: false, ..*old(self) }),
    {
        self.gate_on = false;
    }

    /// Encodes a MIDI `Pitch Bend` event: only the bend value changes.
    pub fn bend(&mut self, bend: u16)
        requires
            bend <= 16383,
        ensures
            *final(self) == (VoiceState { pitch_bend: bend, ..*old(self) }),
    {
        self.pitch_bend = bend;
    }
}

impl Default for VoiceState {
    /// Same state as [`VoiceState::new`].
    fn default() -> (r: VoiceState)
        ensures
            r == VoiceState::initial(),
    {
        VoiceState::new()
    }
}

} // verus!
