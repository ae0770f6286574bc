//! A polyphonic MIDI synthesizer core: decoded MIDI events drive a
//! fixed-capacity pool of voices whose control state (pitch, velocity, gate,
//! pitch bend) is sampled by an externally supplied render function.
//!
//! The crate is organized as follows:
//! * [`midi`] holds the decoded event model and the byte decoder for the
//!   subset of MIDI messages the engine understands.
//! * [`voice`] holds the per-voice control state.
//! * [`pool`] holds the fixed-capacity voice pool and its
//!   steal-oldest allocation algorithm.
//! * [`msg`] holds the routed message type and the speaker tag.
//! * [`router`] composes two pools into a stereo pair.
//! * [`relay`] feeds routed messages into the concurrent queue shared with
//!   the render thread.
//!
//! Waveform synthesis itself, device I/O and the audio stream lifecycle are
//! external collaborators; the integrator wires them to this core.

pub mod midi;
pub mod msg;
pub mod pool;
pub mod relay;
pub mod router;
pub mod voice;

use vstd::prelude::*;

verus! {

/// MIDI values for pitch, velocity and program range from 0 to 127.
pub const MAX_MIDI_VALUE: u8 = 127;

/// Total quantity of distinct MIDI values.
pub const NUM_MIDI_VALUES: usize = 128;

} // verus!
