//! Routed messages: a decoded MIDI event tagged with the speaker it is for.

use crate::midi::MidiEvent;
use vstd::prelude::*;

verus! {

/// Represents whether a sound should go to the left, right, or both speakers.
#[derive(Clone, Copy, Debug, PartialEq, Eq, Structural)]
pub enum Speaker {
    Left,
    Right,
    Both,
}

impl Speaker {
    /// Value for using a `Speaker` as an array index.
    pub fn i(&self) -> (r: usize)
        ensures
            r == match *self {
                Speaker::Left => 0usize,
                Speaker::Right => 1usize,
                Speaker::Both => 2usize,
            },
    {
        match *self {
            Speaker::Left => 0,
            Speaker::Right => 1,
            Speaker::Both => 2,
        }
    }
}

/// Packages a decoded MIDI event with a designated `Speaker` to output the
/// sound corresponding to the event.
#[derive(Clone, Copy, Debug, PartialEq, Eq, Structural)]
pub struct SynthMsg {
    pub msg: MidiEvent,
    pub speaker: Speaker,
}

impl SynthMsg {
    /// True when the carried event is well formed.
    pub open spec fn wf(self) -> bool {
        self.msg.wf()
    }

    /// Runtime check of [`SynthMsg::wf`], for consumers that receive
    /// messages from unverified producers.
    pub fn is_valid(&self) -> (r: bool)
        ensures
            r == self.wf(),
    {
        self.msg.is_valid()
    }

    /// Returns a MIDI `All Notes Off` message. This releases all current sounds.
    pub fn all_notes_off(speaker: Speaker) -> (r: SynthMsg)
        ensures
            r == (SynthMsg { msg: MidiEvent::AllNotesOff, speaker }),
    {
        SynthMsg { msg: MidiEvent::AllNotesOff, speaker }
    }

    /// Returns a MIDI `All Sound Off` message. This shuts off all current sounds immediately.
    pub fn all_sound_off(speaker: Speaker) -> (r: SynthMsg)
        ensures
            r == (SynthMsg { msg: MidiEvent::AllSoundOff, speaker }),
    {
        SynthMsg { msg: MidiEvent::AllSoundOff, speaker }
    }

    /// Returns a MIDI `Program Change` message. This selects the synthesizer
    /// sound with the given index.
    pub fn program_change(program: u8, speaker: Speaker) -> (r: SynthMsg)
        requires
            program <= 127,
        ensures
            r == (SynthMsg { msg: MidiEvent::ProgramChange { program }, speaker }),
    {
        SynthMsg { msg: MidiEvent::ProgramChange { program }, speaker }
    }

    /// Returns MIDI note and velocity information if pertinent.
    pub fn note_velocity(&self) -> (r: Option<(u8, u8)>)
        ensures
            r == match self.msg {
                MidiEvent::NoteOn { pitch, velocity } => Some((pitch, velocity)),
                MidiEvent::NoteOff { pitch, velocity } => Some((pitch, velocity)),
                _ => None::<(u8, u8)>,
            },
    {
        match self.msg {
            MidiEvent::NoteOn { pitch, velocity } => Some((pitch, velocity)),
            MidiEvent::NoteOff { pitch, velocity } => Some((pitch, velocity)),
            _ => None,
        }
    }
}

/// The speaker a pitch-split stereo setup routes a note to: notes below
/// middle C (pitch 60) go to the left channel, the rest to the right.
/// Events that carry no pitch get no side; a caller routes them to both.
pub fn side_from_pitch(event: &MidiEvent) -> (r: Option<Speaker>)
    ensures
        r == match *event {
            MidiEvent::NoteOn { pitch, velocity: _ } => Some(
                if pitch < 60 {
                    Speaker::Left
                } else {
                    Speaker::Right
                },
            ),
            MidiEvent::NoteOff { pitch, velocity: _ } => Some(
                if pitch < 60 {
                    Speaker::Left
                } else {
                    Speaker::Right
                },
            ),
            _ => None::<Speaker>,
        },
{
    match *event {
        MidiEvent::NoteOn { pitch, velocity: _ } | MidiEvent::NoteOff { pitch, velocity: _ } => {
            if pitch < 60 {
                Some(Speaker::Left)
            } else {
                Some(Speaker::Right)
            }
        },
        _ => None,
    }
}

} // verus!
