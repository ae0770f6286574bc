//! The decoded MIDI event model and the byte decoder for the subset of
//! messages the engine understands.

use vstd::prelude::*;

verus! {

/// Canonical decoded representation of the subset of MIDI messages the
/// engine understands.
///
/// A `NoteOn` with velocity 0 is kept as a `NoteOn` (a silent voice is still
/// allocated); it is not folded into `NoteOff`.
#[derive(Clone, Copy, Debug, PartialEq, Eq, Structural)]
pub enum MidiEvent {
    /// Start sounding `pitch` at `velocity`.
    NoteOn { pitch: u8, velocity: u8 },
    /// Release `pitch`; the release velocity is kept but not interpreted.
    NoteOff { pitch: u8, velocity: u8 },
    /// Apply the 14-bit bend value to every voice; 8192 means no bend.
    PitchBend { bend: u16 },
    /// Select the render function with the given index.
    ProgramChange { program: u8 },
    /// Gently release every voice: each gate signal drops, sound decays.
    AllNotesOff,
    /// Hard-mute the whole pool at once.
    AllSoundOff,
    /// Reset request from the device; the pools leave their state unchanged.
    SystemReset,
}

impl MidiEvent {
    /// Every field is inside its MIDI range: pitch, velocity and program in
    /// 0..=127, bend in 0..=16383.
    pub open spec fn wf(self) -> bool {
        match self {
            MidiEvent::NoteOn { pitch, velocity } => pitch <= 127 && velocity <= 127,
            MidiEvent::NoteOff { pitch, velocity } => pitch <= 127 && velocity <= 127,
            MidiEvent::PitchBend { bend } => bend <= 16383,
            MidiEvent::ProgramChange { program } => program <= 127,
            MidiEvent::AllNotesOff => true,
            MidiEvent::AllSoundOff => true,
            MidiEvent::SystemReset => true,
        }
    }

    /// Runtime check of [`MidiEvent::wf`], for callers that receive events
    /// from unverified producers.
    pub fn is_valid(&self) -> (r: bool)
        ensures
            r == self.wf(),
    {
        match *self {
            MidiEvent::NoteOn { pitch, velocity } => pitch <= 127 && velocity <= 127,
            MidiEvent::NoteOff { pitch, velocity } => pitch <= 127 && velocity <= 127,
            MidiEvent::PitchBend { bend } => bend <= 16383,
            MidiEvent::ProgramChange { program } => program <= 127,
            MidiEvent::AllNotesOff => true,
            MidiEvent::AllSoundOff => true,
            MidiEvent::SystemReset => true,
        }
    }
}

/// Why a MIDI byte packet could not be decoded. Decoding fails only for
/// packets that are malformed; packets that are well-formed but of a kind the
/// engine does not use decode to no event and are ignored.
#[derive(Clone, Copy, Debug, PartialEq, Eq, Structural)]
pub enum DecodeError {
    /// The packet holds no bytes at all.
    EmptyMessage,
    /// The first byte is a data byte (high bit clear), so the packet names no
    /// message kind. Running status is not supported.
    MissingStatus,
    /// The status byte promises more data bytes than the packet holds.
    Truncated,
    /// A data byte has its high bit set.
    DataOutOfRange,
}

/// Checks the two data bytes of a three-byte message.
pub open spec fn spec_data2_check(bytes: Seq<u8>) -> Option<DecodeError> {
    if bytes.len() < 3 {
        Some(DecodeError::Truncated)
    } else if bytes[1] >= 128 || bytes[2] >= 128 {
        Some(DecodeError::DataOutOfRange)
    } else {
        None
    }
}

/// Checks the single data byte of a two-byte message.
pub open spec fn spec_data1_check(bytes: Seq<u8>) -> Option<DecodeError> {
    if bytes.len() < 2 {
        Some(DecodeError::Truncated)
    } else if bytes[1] >= 128 {
        Some(DecodeError::DataOutOfRange)
    } else {
        None
    }
}

/// What [`decode`] returns for each byte packet.
///
/// The first byte selects the message kind; its low nibble (the channel) is
/// accepted but not recorded, since the engine listens on every channel.
/// Control change 123 is All Notes Off and 120 is All Sound Off; every other
/// controller is ignored. Status bytes for kinds the engine does not use
/// (polyphonic key pressure, channel pressure, system common and real-time
/// messages other than reset) decode to no event, without further
/// validation. Bytes after the expected length are ignored.
pub open spec fn spec_decode(bytes: Seq<u8>) -> Result<Option<MidiEvent>, DecodeError> {
    if bytes.len() == 0 {
        Err(DecodeError::EmptyMessage)
    } else {
        let status = bytes[0];
        if status < 128 {
            Err(DecodeError::MissingStatus)
        } else if status < 144 {
            match spec_data2_check(bytes) {
                Some(e) => Err(e),
                None => Ok(Some(MidiEvent::NoteOff { pitch: bytes[1], velocity: bytes[2] })),
            }
        } else if status < 160 {
            match spec_data2_check(bytes) {
                Some(e) => Err(e),
                None => Ok(Some(MidiEvent::NoteOn { pitch: bytes[1], velocity: bytes[2] })),
            }
        } else if status < 176 {
            Ok(None)
        } else if status < 192 {
            match spec_data2_check(bytes) {
                Some(e) => Err(e),
                None => if bytes[1] == 123 {
                    Ok(Some(MidiEvent::AllNotesOff))
                } else if bytes[1] == 120 {
                    Ok(Some(MidiEvent::AllSoundOff))
                } else {
                    Ok(None)
                },
            }
        } else if status < 208 {
            match spec_data1_check(bytes) {
                Some(e) => Err(e),
                None => Ok(Some(MidiEvent::ProgramChange { program: bytes[1] })),
            }
        } else if status < 224 {
            Ok(None)
        } else if status < 240 {
            match spec_data2_check(bytes) {
                Some(e) => Err(e),
                None => Ok(Some(MidiEvent::PitchBend { bend: (bytes[1] + bytes[2] * 128) as u16 })),
            }
        } else if status == 255 {
            Ok(Some(MidiEvent::SystemReset))
        } else {
            Ok(None)
        }
    }
}

fn check_data2(bytes: &[u8]) -> (r: Option<DecodeError>)
    ensures
        r == spec_data2_check(bytes@),
{
    if bytes.len() < 3 {
        Some(DecodeError::Truncated)
    } else if bytes[1] >= 128 || bytes[2] >= 128 {
        Some(DecodeError::DataOutOfRange)
    } else {
        None
    }
}

fn check_data1(bytes: &[u8]) -> (r: Option<DecodeError>)
    ensures
        r == spec_data1_check(bytes@),
{
    if bytes.len() < 2 {
        Some(DecodeError::Truncated)
    } else if bytes[1] >= 128 {
        Some(DecodeError::DataOutOfRange)
    } else {
        None
    }
}

/// Decodes one raw MIDI byte packet into the event model.
///
/// `Ok(Some(event))` is returned exactly for well-formed packets of the
/// supported kinds, `Ok(None)` for packets whose status byte names a kind the
/// engine ignores, and `Err` exactly for malformed packets, as
/// [`spec_decode`] lays out.
pub fn decode(bytes: &[u8]) -> (r: Result<Option<MidiEvent>, DecodeError>)
    ensures
        r == spec_decode(bytes@),
        r matches Ok(Some(e)) ==> e.wf(),
{
    if bytes.len() == 0 {
        return Err(DecodeError::EmptyMessage);
    }
    let status = bytes[0];
    if status < 128 {
        Err(DecodeError::MissingStatus)
    } else if status < 144 {
        match check_data2(bytes) {
            Some(e) => Err(e),
            None => Ok(Some(MidiEvent::NoteOff { pitch: bytes[1], velocity: bytes[2] })),
        }
    } else if status < 160 {
        match check_data2(bytes) {
            Some(e) => Err(e),
            None => Ok(Some(MidiEvent::NoteOn { pitch: bytes[1], velocity: bytes[2] })),
        }
    } else if status < 176 {
        Ok(None)
    } else if status < 192 {
        match check_data2(bytes) {
            Some(e) => Err(e),
            None => if bytes[1] == 123 {
                Ok(Some(MidiEvent::AllNotesOff))
            } else if bytes[1] == 120 {
                Ok(Some(MidiEvent::AllSoundOff))
            } else {
                Ok(None)
            },
        }
    } else if status < 208 {
        match check_data1(bytes) {
            Some(e) => Err(e),
            None => Ok(Some(MidiEvent::ProgramChange { program: bytes[1] })),
        }
    } else if status < 224 {
        Ok(None)
    } else if status < 240 {
        match check_data2(bytes) {
            Some(e) => Err(e),
            None => {
                let bend: u16 = bytes[1] as u16 + (bytes[2] as u16) * 128;
                Ok(Some(MidiEvent::PitchBend { bend }))
            },
        }
    } else if status == 255 {
        Ok(Some(MidiEvent::SystemReset))
    } else {
        Ok(None)
    }
}

} // verus!
