use oscify::midi::DecodeError;
use oscify::midi::Message;

#[test]
fn note_off_decodes() {
    let m = Message::try_from(&[0x83, 60, 40]).unwrap();
    assert_eq!(m, Message::NoteOff { channel: 3, key: 60, velocity: 40 });
}

#[test]
fn note_on_decodes() {
    let m = Message::try_from(&[0x90, 60, 100]).unwrap();
    assert_eq!(m, Message::NoteOn { channel: 0, key: 60, velocity: 100 });
}

#[test]
fn key_pressure_decodes() {
    let m = Message::try_from(&[0xA5, 61, 99]).unwrap();
    assert_eq!(m, Message::KeyPressure { channel: 5, key: 61, pressure: 99 });
}

#[test]
fn control_change_decodes_below_120() {
    let m = Message::try_from(&[0xB2, 119, 1]).unwrap();
    assert_eq!(m, Message::ControlChange { channel: 2, controller: 119, value: 1 });
}

#[test]
fn channel_mode_decodes_from_120() {
    let m = Message::try_from(&[0xB2, 120, 1]).unwrap();
    assert_eq!(m, Message::ChannelMode { channel: 2, controller: 120, value: 1 });
    let m = Message::try_from(&[0xBF, 127, 0]).unwrap();
    assert_eq!(m, Message::ChannelMode { channel: 15, controller: 127, value: 0 });
}

#[test]
fn control_family_rejects_non_data_byte() {
    let e = Message::try_from(&[0xB0, 0x80]).unwrap_err();
    assert_eq!(e, DecodeError::InvalidDataByte);
}

#[test]
fn program_change_decodes() {
    let m = Message::try_from(&[0xC7, 12]).unwrap();
    assert_eq!(m, Message::ProgramChange { channel: 7, program: 12 });
}

#[test]
fn channel_pressure_decodes() {
    let m = Message::try_from(&[0xD1, 88]).unwrap();
    assert_eq!(m, Message::ChannelPressure { channel: 1, pressure: 88 });
}

#[test]
fn pitch_bend_center_reconstructs_0x2000() {
    let m = Message::try_from(&[0xE0, 0x00, 0x40]).unwrap();
    assert_eq!(m, Message::PitchBend { channel: 0, value: 0x2000 });
}

#[test]
fn pitch_bend_full_up_reconstructs_16383() {
    let m = Message::try_from(&[0xE9, 0x7F, 0x7F]).unwrap();
    assert_eq!(m, Message::PitchBend { channel: 9, value: 16383 });
}

#[test]
fn sysex_captures_remaining_payload() {
    let m = Message::try_from(&[0xF0, 0x7E, 1, 2, 3]).unwrap();
    assert_eq!(m, Message::SysEx { id: 0x7E, data: vec![1, 2, 3] });
}

#[test]
fn sysex_payload_may_be_empty() {
    let m = Message::try_from(&[0xF0, 0x41]).unwrap();
    assert_eq!(m, Message::SysEx { id: 0x41, data: vec![] });
}

#[test]
fn sys_common_one_data_byte() {
    let m = Message::try_from(&[0xF1, 9]).unwrap();
    assert_eq!(m, Message::SysCommon { status: 0xF1, data0: 9, data1: 0 });
    let m = Message::try_from(&[0xF3, 4]).unwrap();
    assert_eq!(m, Message::SysCommon { status: 0xF3, data0: 4, data1: 0 });
}

#[test]
fn sys_common_two_data_bytes() {
    let m = Message::try_from(&[0xF2, 0x12, 0x34]).unwrap();
    assert_eq!(m, Message::SysCommon { status: 0xF2, data0: 0x12, data1: 0x34 });
}

#[test]
fn sys_common_no_data_bytes() {
    let m = Message::try_from(&[0xF6]).unwrap();
    assert_eq!(m, Message::SysCommon { status: 0xF6, data0: 0, data1: 0 });
}

#[test]
fn sys_real_time_is_status_only() {
    let m = Message::try_from(&[0xF8]).unwrap();
    assert_eq!(m, Message::SysRealTime { status: 0xF8 });
    let m = Message::try_from(&[0xFF]).unwrap();
    assert_eq!(m, Message::SysRealTime { status: 0xFF });
}

#[test]
fn low_status_nibble_is_invalid() {
    let e = Message::try_from(&[0x70, 0, 0]).unwrap_err();
    assert_eq!(e, DecodeError::InvalidStatus);
    let e = Message::try_from(&[0x00]).unwrap_err();
    assert_eq!(e, DecodeError::InvalidStatus);
}

#[test]
fn channel_nibble_round_trips() {
    // The decoded channel is the low nibble, and status-nibble | channel
    // restores the status byte.
    for status in [0x80u8, 0x90, 0xB0] {
        for ch in 0u8..16 {
            let byte = status | ch;
            let m = Message::try_from(&[byte, 10, 20]).unwrap();
            let decoded_channel = match m {
                Message::NoteOff { channel, .. } => channel,
                Message::NoteOn { channel, .. } => channel,
                Message::ControlChange { channel, .. } => channel,
                other => panic!("unexpected message {:?}", other),
            };
            assert_eq!(decoded_channel, byte & 0x0F);
            assert_eq!(status | decoded_channel, byte);
        }
    }
}
