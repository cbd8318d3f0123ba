use vstd::prelude::*;

verus! {

/// A decoded MIDI message. Channels are 0-based (0..=15).
#[derive(Debug, Clone, Copy, PartialEq, Eq, Structural)]
pub enum MidiMessage {
    NoteOff { channel: u8, key: u8, velocity: u8 },
    NoteOn { channel: u8, key: u8, velocity: u8 },
    KeyAT { channel: u8, key: u8, pressure: u8 },
    ControlChg { channel: u8, controller: u8, value: u8 },
    ProgramChg { channel: u8, program: u8 },
    ChannelAT { channel: u8, pressure: u8 },
    Pitchbend { channel: u8, pitch: i16 },
    SongPos { position: u16 },
    TimingClock,
    Start,
    Continue,
    Stop,
    ActiveSensing,
    Reset,
}

/// Why a byte sequence is not a message that can be decoded.
#[derive(Debug, Clone, Copy, PartialEq, Eq, Structural)]
pub enum DecodeError {
    /// A message holds one to three bytes.
    InvalidLength { len: usize },
    /// The status byte names no known message kind or system message.
    UnknownStatus { status: u8 },
}

/// Data byte `i` of `m`, or 0 where the message is too short.
pub open spec fn data_byte(m: Seq<u8>, i: int) -> u8 {
    if i < m.len() {
        m[i]
    } else {
        0
    }
}

/// The 14-bit value carried by two data bytes, low byte first.
pub open spec fn combined(lo: u8, hi: u8) -> u16 {
    (lo as u16) | ((hi as u16) << 7u16)
}

/// What `MidiMessage::parse` makes of the bytes `m`.
pub open spec fn decode(m: Seq<u8>) -> Result<MidiMessage, DecodeError> {
    if m.len() < 1 || m.len() > 3 {
        Err(DecodeError::InvalidLength { len: m.len() as usize })
    } else {
        let status = m[0];
        let channel = (status % 16) as u8;
        let p = data_byte(m, 1);
        let v = data_byte(m, 2);
        let kind = status / 16;
        if kind == 0x9 {
            Ok(MidiMessage::NoteOn { channel, key: p, velocity: v })
        } else if kind == 0x8 {
            Ok(MidiMessage::NoteOff { channel, key: p, velocity: v })
        } else if kind == 0xA {
            Ok(MidiMessage::KeyAT { channel, key: p, pressure: v })
        } else if kind == 0xB {
            Ok(MidiMessage::ControlChg { channel, controller: p, value: v })
        } else if kind == 0xC {
            Ok(MidiMessage::ProgramChg { channel, program: p })
        } else if kind == 0xD {
            Ok(MidiMessage::ChannelAT { channel, pressure: p })
        } else if kind == 0xE {
            Ok(MidiMessage::Pitchbend { channel, pitch: (combined(p, v) - 0x2000) as i16 })
        } else if status == 0xF2 {
            Ok(MidiMessage::SongPos { position: combined(p, v) })
        } else if status == 0xF8 {
            Ok(MidiMessage::TimingClock)
        } else if status == 0xFA {
            Ok(MidiMessage::Start)
        } else if status == 0xFB {
            Ok(MidiMessage::Continue)
        } else if status == 0xFC {
            Ok(MidiMessage::Stop)
        } else if status == 0xFE {
            Ok(MidiMessage::ActiveSensing)
        } else if status == 0xFF {
            Ok(MidiMessage::Reset)
        } else {
            Err(DecodeError::UnknownStatus { status })
        }
    }
}

/// The two data bytes, low first, that carry a pitch bend of `pitch`.
pub open spec fn pitch_data(pitch: int) -> (u8, u8) {
    (((pitch + 0x2000) % 128) as u8, ((pitch + 0x2000) / 128) as u8)
}

proof fn lemma_combined(lo: u8, hi: u8)
    ensures
        combined(lo, hi) <= 0x7FFF,
        lo < 128 && hi < 128 ==> combined(lo, hi) == lo + 128 * hi,
{
    assert(((lo as u16) | ((hi as u16) << 7u16)) <= 0x7FFF) by (bit_vector);
    assert(lo < 128 && hi < 128 ==> ((lo as u16) | ((hi as u16) << 7u16)) == (lo as u16) + 128
        * (hi as u16)) by (bit_vector);
}

proof fn lemma_nibbles(b: u8)
    ensures
        b & 0x0F == b % 16,
        b & 0xF0 == (b / 16) * 16,
{
    assert(b & 0x0F == b % 16) by (bit_vector);
    assert(b & 0xF0 == (b / 16) * 16) by (bit_vector);
}

impl MidiMessage {
    /// Decodes one message of one to three bytes. Missing data bytes count
    /// as 0; an unknown status byte is an error, not a panic.
    pub fn parse(message: &[u8]) -> (r: Result<MidiMessage, DecodeError>)
        ensures
            r == decode(message@),
    {
        let len = message.len();
        if len < 1 || len > 3 {
            return Err(DecodeError::InvalidLength { len });
        }
        let status = message[0];
        proof {
            lemma_nibbles(status);
        }
        let channel = status & 0x0F;
        let param = if len > 1 {
            message[1]
        } else {
            0
        };
        let value = if len > 2 {
            message[2]
        } else {
            0
        };
        proof {
            lemma_combined(param, value);
        }
        match status & 0xF0 {
            0x90 => Ok(MidiMessage::NoteOn { channel, key: param, velocity: value }),
            0x80 => Ok(MidiMessage::NoteOff { channel, key: param, velocity: value }),
            0xA0 => Ok(MidiMessage::KeyAT { channel, key: param, pressure: value }),
            0xB0 => Ok(MidiMessage::ControlChg { channel, controller: param, value }),
            0xC0 => Ok(MidiMessage::ProgramChg { channel, program: param }),
            0xD0 => Ok(MidiMessage::ChannelAT { channel, pressure: param }),
            0xE0 => {
                let raw: u16 = (param as u16) | ((value as u16) << 7u16);
                let pitch: i16 = (raw as i16) - 0x2000;
                Ok(MidiMessage::Pitchbend { channel, pitch })
            },
            0xF0 => {
                // System messages are told apart by the whole status byte.
                match status {
                    0xF2 => {
                        let position: u16 = (param as u16) | ((value as u16) << 7u16);
                        Ok(MidiMessage::SongPos { position })
                    },
                    0xF8 => Ok(MidiMessage::TimingClock),
                    0xFA => Ok(MidiMessage::Start),
                    0xFB => Ok(MidiMessage::Continue),
                    0xFC => Ok(MidiMessage::Stop),
                    0xFE => Ok(MidiMessage::ActiveSensing),
                    0xFF => Ok(MidiMessage::Reset),
                    _ => Err(DecodeError::UnknownStatus { status }),
                }
            },
            _ => Err(DecodeError::UnknownStatus { status }),
        }
    }
}

/// The data bytes, low first, of a pitch bend message with value `pitch`.
pub fn pitch_bytes(pitch: i16) -> (r: (u8, u8))
    requires
        -0x2000 <= pitch < 0x2000,
    ensures
        r == pitch_data(pitch as int),
        r.0 < 128 && r.1 < 128,
{
    let raw: u16 = (pitch + 0x2000) as u16;
    ((raw % 128) as u8, (raw / 128) as u8)
}

/// A three-byte note-on message decodes to its channel (the low nibble of
/// the status byte), its key and its velocity.
pub proof fn lemma_note_on_fields(m: Seq<u8>)
    requires
        m.len() == 3,
        m[0] & 0xF0 == 0x90,
    ensures
        decode(m) == Ok::<MidiMessage, DecodeError>(
            MidiMessage::NoteOn { channel: m[0] & 0x0F, key: m[1], velocity: m[2] },
        ),
{
    lemma_nibbles(m[0]);
}

/// Pitch bend is a bijection on the 14-bit space: the data bytes of a decoded
/// pitch bend message are the bytes it was decoded from, and every pitch in
/// range decodes back from its own data bytes.
pub proof fn lemma_pitch_round_trip(status: u8, lo: u8, hi: u8, pitch: int)
    requires
        status / 16 == 0xE,
        lo < 128,
        hi < 128,
        -0x2000 <= pitch < 0x2000,
    ensures
        decode(seq![status, lo, hi]) matches Ok(MidiMessage::Pitchbend { channel, pitch: p })
            && channel == status % 16 && -0x2000 <= p < 0x2000 && pitch_data(p as int) == (lo, hi),
        decode(seq![status, pitch_data(pitch).0, pitch_data(pitch).1]) matches Ok(
            MidiMessage::Pitchbend { pitch: p, .. },
        ) && p == pitch,
{
    lemma_combined(lo, hi);
    let (a, b) = pitch_data(pitch);
    lemma_combined(a, b);
    let m = seq![status, lo, hi];
    assert(data_byte(m, 1) == lo && data_byte(m, 2) == hi);
    let n = seq![status, a, b];
    assert(data_byte(n, 1) == a && data_byte(n, 2) == b);
}

} // verus!
