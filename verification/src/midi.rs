//! Decoding of raw MIDI bytes into structured messages.
//!
//! The decoder is a pure function over a byte slice: the high nibble of the
//! status byte selects the message family, the low nibble carries the channel
//! for channel-voice messages, and system messages dispatch on the full
//! status byte.

use vstd::prelude::*;

verus! {

/// A decode failure: either the status byte matches no known message family,
/// or a data byte of a Control-Change family message is out of the 7-bit
/// range.
#[derive(Debug, Clone, Copy, PartialEq, Eq, Structural)]
pub enum DecodeError {
    InvalidStatus,
    InvalidDataByte,
}

/// A structured MIDI message.  All byte-valued fields decoded from data bytes
/// are 7-bit (0–127) except the 14-bit pitch-bend value and raw status bytes.
#[derive(Debug, Clone, PartialEq, Eq)]
pub enum Message {
    NoteOff { channel: u8, key: u8, velocity: u8 },
    NoteOn { channel: u8, key: u8, velocity: u8 },
    KeyPressure { channel: u8, key: u8, pressure: u8 },
    ControlChange { channel: u8, controller: u8, value: u8 },
    ChannelMode { channel: u8, controller: u8, value: u8 },
    ProgramChange { channel: u8, program: u8 },
    ChannelPressure { channel: u8, pressure: u8 },
    PitchBend { channel: u8, value: u16 },
    SysEx { id: u8, data: Vec<u8> },
    SysCommon { status: u8, data0: u8, data1: u8 },
    SysRealTime { status: u8 },
}

/// The mathematical value of a [`Message`]: identical except that the SysEx
/// payload is a sequence.
pub enum MessageView {
    NoteOff { channel: u8, key: u8, velocity: u8 },
    NoteOn { channel: u8, key: u8, velocity: u8 },
    KeyPressure { channel: u8, key: u8, pressure: u8 },
    ControlChange { channel: u8, controller: u8, value: u8 },
    ChannelMode { channel: u8, controller: u8, value: u8 },
    ProgramChange { channel: u8, program: u8 },
    ChannelPressure { channel: u8, pressure: u8 },
    PitchBend { channel: u8, value: u16 },
    SysEx { id: u8, data: Seq<u8> },
    SysCommon { status: u8, data0: u8, data1: u8 },
    SysRealTime { status: u8 },
}

impl View for Message {
    type V = MessageView;

    open spec fn view(&self) -> MessageView {
        match self {
            Message::NoteOff { channel, key, velocity } => MessageView::NoteOff {
                channel: *channel,
                key: *key,
                velocity: *velocity,
            },
            Message::NoteOn { channel, key, velocity } => MessageView::NoteOn {
                channel: *channel,
                key: *key,
                velocity: *velocity,
            },
            Message::KeyPressure { channel, key, pressure } => MessageView::KeyPressure {
                channel: *channel,
                key: *key,
                pressure: *pressure,
            },
            Message::ControlChange { channel, controller, value } => MessageView::ControlChange {
                channel: *channel,
                controller: *controller,
                value: *value,
            },
            Message::ChannelMode { channel, controller, value } => MessageView::ChannelMode {
                channel: *channel,
                controller: *controller,
                value: *value,
            },
            Message::ProgramChange { channel, program } => MessageView::ProgramChange {
                channel: *channel,
                program: *program,
            },
            Message::ChannelPressure { channel, pressure } => MessageView::ChannelPressure {
                channel: *channel,
                pressure: *pressure,
            },
            Message::PitchBend { channel, value } => MessageView::PitchBend {
                channel: *channel,
                value: *value,
            },
            Message::SysEx { id, data } => MessageView::SysEx { id: *id, data: data@ },
            Message::SysCommon { status, data0, data1 } => MessageView::SysCommon {
                status: *status,
                data0: *data0,
                data1: *data1,
            },
            Message::SysRealTime { status } => MessageView::SysRealTime { status: *status },
        }
    }
}

/// What decoding a byte sequence yields: the reference semantics of
/// [`Message::try_from`].
pub open spec fn spec_decode(data: Seq<u8>) -> Result<MessageView, DecodeError>
    recommends
        data.len() >= 1,
{
    let status = data[0] & 0xF0;
    let channel = data[0] & 0x0F;
    if status == 0x80 {
        Ok(MessageView::NoteOff { channel, key: data[1], velocity: data[2] })
    } else if status == 0x90 {
        Ok(MessageView::NoteOn { channel, key: data[1], velocity: data[2] })
    } else if status == 0xA0 {
        Ok(MessageView::KeyPressure { channel, key: data[1], pressure: data[2] })
    } else if status == 0xB0 {
        if data[1] <= 119 {
            Ok(MessageView::ControlChange { channel, controller: data[1], value: data[2] })
        } else if data[1] <= 127 {
            Ok(MessageView::ChannelMode { channel, controller: data[1], value: data[2] })
        } else {
            Err(DecodeError::InvalidDataByte)
        }
    } else if status == 0xC0 {
        Ok(MessageView::ProgramChange { channel, program: data[1] })
    } else if status == 0xD0 {
        Ok(MessageView::ChannelPressure { channel, pressure: data[1] })
    } else if status == 0xE0 {
        Ok(MessageView::PitchBend {
            channel,
            value: ((data[2] as u16) << 7) | (data[1] as u16),
        })
    } else if status == 0xF0 {
        if data[0] == 0xF0 {
            Ok(MessageView::SysEx { id: data[1], data: data.skip(2) })
        } else if data[0] == 0xF1 || data[0] == 0xF3 {
            Ok(MessageView::SysCommon { status: data[0], data0: data[1], data1: 0 })
        } else if data[0] == 0xF2 {
            Ok(MessageView::SysCommon { status: data[0], data0: data[1], data1: data[2] })
        } else if data[0] <= 0xF7 {
            Ok(MessageView::SysCommon { status: data[0], data0: 0, data1: 0 })
        } else {
            Ok(MessageView::SysRealTime { status: data[0] })
        }
    } else {
        Err(DecodeError::InvalidStatus)
    }
}

/// How many bytes a buffer must hold for its leading status byte to be
/// decoded: the implied message length.  A caller handing a shorter buffer
/// breaks the decoder's contract.
pub open spec fn min_decode_len(data: Seq<u8>) -> nat
    recommends
        data.len() >= 1,
{
    let status = data[0] & 0xF0;
    if status == 0x80 || status == 0x90 || status == 0xA0 || status == 0xE0 {
        3
    } else if status == 0xB0 {
        if data.len() >= 2 && data[1] <= 127 {
            3
        } else {
            2
        }
    } else if status == 0xC0 || status == 0xD0 {
        2
    } else if status == 0xF0 {
        if data[0] == 0xF0 || data[0] == 0xF1 || data[0] == 0xF3 {
            2
        } else if data[0] == 0xF2 {
            3
        } else {
            1
        }
    } else {
        1
    }
}

impl Message {
    /// Decode one MIDI message from a byte buffer whose length covers the
    /// message implied by its status byte.
    pub fn try_from(data: &[u8]) -> (r: Result<Message, DecodeError>)
        requires
            data@.len() >= 1,
            data@.len() >= min_decode_len(data@),
        ensures
            (match r {
                Ok(m) => spec_decode(data@) == Ok::<MessageView, DecodeError>(m@),
                Err(e) => spec_decode(data@) == Err::<MessageView, DecodeError>(e),
            }),
    {
        let status = data[0] & 0xF0;
        let channel = data[0] & 0x0F;
        if status == 0x80 {
            Ok(Message::NoteOff { channel, key: data[1], velocity: data[2] })
        } else if status == 0x90 {
            Ok(Message::NoteOn { channel, key: data[1], velocity: data[2] })
        } else if status == 0xA0 {
            Ok(Message::KeyPressure { channel, key: data[1], pressure: data[2] })
        } else if status == 0xB0 {
            if data[1] <= 119 {
                Ok(Message::ControlChange { channel, controller: data[1], value: data[2] })
            } else if data[1] <= 127 {
                Ok(Message::ChannelMode { channel, controller: data[1], value: data[2] })
            } else {
                Err(DecodeError::InvalidDataByte)
            }
        } else if status == 0xC0 {
            Ok(Message::ProgramChange { channel, program: data[1] })
        } else if status == 0xD0 {
            Ok(Message::ChannelPressure { channel, pressure: data[1] })
        } else if status == 0xE0 {
            Ok(Message::PitchBend {
                channel,
                value: ((data[2] as u16) << 7) | (data[1] as u16),
            })
        } else if status == 0xF0 {
            if data[0] == 0xF0 {
                let payload = vstd::slice::slice_subrange(data, 2, data.len());
                let payload = vstd::slice::slice_to_vec(payload);
                proof {
                    assert(payload@ =~= data@.skip(2));
                }
                Ok(Message::SysEx { id: data[1], data: payload })
            } else if data[0] == 0xF1 || data[0] == 0xF3 {
                Ok(Message::SysCommon { status: data[0], data0: data[1], data1: 0 })
            } else if data[0] == 0xF2 {
                Ok(Message::SysCommon { status: data[0], data0: data[1], data1: data[2] })
            } else if data[0] <= 0xF7 {
                Ok(Message::SysCommon { status: data[0], data0: 0, data1: 0 })
            } else {
                Ok(Message::SysRealTime { status: data[0] })
            }
        } else {
            Err(DecodeError::InvalidStatus)
        }
    }
}

/// The channel nibble round-trips: for every valid three-byte Note-On,
/// Note-Off or Control-Change buffer, the decoded channel is the low nibble
/// of the status byte, and recombining it with the status nibble restores the
/// status byte exactly.
pub proof fn lemma_channel_nibble_round_trip(data: Seq<u8>)
    requires
        data.len() >= 3,
        (data[0] & 0xF0) == 0x80 || (data[0] & 0xF0) == 0x90 || ((data[0] & 0xF0) == 0xB0
            && data[1] <= 119),
    ensures
        spec_decode(data) is Ok,
        (match spec_decode(data) {
            Ok(m) => match m {
                MessageView::NoteOff { channel, .. } => channel == data[0] & 0x0F && ((data[0]
                    & 0xF0) | channel) == data[0],
                MessageView::NoteOn { channel, .. } => channel == data[0] & 0x0F && ((data[0]
                    & 0xF0) | channel) == data[0],
                MessageView::ControlChange { channel, .. } => channel == data[0] & 0x0F && ((
                data[0] & 0xF0) | channel) == data[0],
                _ => false,
            },
            Err(_) => false,
        }),
{
    let b = data[0];
    assert(((b & 0xF0) | (b & 0x0F)) == b) by (bit_vector);
}

} // verus!
