use oscify::config::Entry;
use oscify::config::EntryType;
use oscify::config::JsonEntry;
use oscify::midi::Message;
use oscify::midi_pitch::PITCH_FIXED_ONE;
use oscify::osc::BASE_HOST_PORT;
use oscify::osc::FloatArg;
use oscify::osc::OscArg;
use oscify::osc::OscSendError;
use oscify::osc::OscSender;
use oscify::osc::scan_port;
use oscify::osc::select_port;
use oscify::plugin::OscifyPlugin;
use oscify::plugin::frames_to_nanos;
use oscify::plugin::get_time;

fn mono_entry(address: &str) -> Entry {
    JsonEntry {
        entry_type: EntryType::Mono,
        name: "voice".to_string(),
        address: address.to_string(),
        params: vec!["cutoff".to_string()],
        keys: None,
    }
}

fn entry_of(entry_type: EntryType, address: &str) -> Entry {
    JsonEntry {
        entry_type,
        name: "voice".to_string(),
        address: address.to_string(),
        params: vec![],
        keys: None,
    }
}

#[test]
fn note_on_emits_pitch_then_four_note_messages() {
    let mut p = OscifyPlugin::new(vec![mono_entry("synth")], 0);
    let msg = Message::try_from(&[0x90, 60, 100]).unwrap();
    p.process_midi_event(&msg, (7, 8));
    let batch = p.flush_midi_events();
    assert_eq!(batch.len(), 5);
    assert_eq!(batch[0].addr, "/oscify/synth/pitch");
    assert_eq!(batch[0].arg, OscArg::Float(FloatArg::Fixed(60 * PITCH_FIXED_ONE)));
    assert_eq!(batch[1].addr, "/oscify/synth/note/on");
    assert_eq!(batch[1].arg, OscArg::Bool(true));
    assert_eq!(batch[2].addr, "/oscify/synth/note/key");
    assert_eq!(batch[2].arg, OscArg::Int(60));
    assert_eq!(batch[3].addr, "/oscify/synth/note/vel");
    assert_eq!(batch[3].arg, OscArg::Float(FloatArg::Fixed(100 * 16384)));
    assert_eq!(batch[4].addr, "/oscify/synth/note/phase");
    assert_eq!(batch[4].arg, OscArg::Float(FloatArg::Bits(0)));
    assert_eq!(batch[0].sec, 7);
    assert_eq!(batch[0].frac, 8);
}

#[test]
fn note_off_emits_only_the_off_flag() {
    let mut p = OscifyPlugin::new(vec![mono_entry("synth")], 0);
    let msg = Message::try_from(&[0x80, 60, 0]).unwrap();
    p.process_midi_event(&msg, (0, 0));
    let batch = p.flush_midi_events();
    assert_eq!(batch.len(), 1);
    assert_eq!(batch[0].addr, "/oscify/synth/note/on");
    assert_eq!(batch[0].arg, OscArg::Bool(false));
}

#[test]
fn poly_entry_names_voice_by_channel() {
    let mut p = OscifyPlugin::new(vec![entry_of(EntryType::Poly, "keys")], 0);
    let msg = Message::try_from(&[0x93, 60, 100]).unwrap();
    p.process_midi_event(&msg, (0, 0));
    let batch = p.flush_midi_events();
    assert_eq!(batch[1].addr, "/oscify/keys/3/note/on");
}

#[test]
fn param_entry_suppresses_all_note_traffic() {
    let mut p = OscifyPlugin::new(vec![entry_of(EntryType::Param, "ctl")], 0);
    let note_on = Message::try_from(&[0x90, 60, 100]).unwrap();
    let bend = Message::try_from(&[0xE0, 0x7F, 0x7F]).unwrap();
    let pressure = Message::try_from(&[0xD0, 50]).unwrap();
    p.process_midi_event(&note_on, (0, 0));
    p.process_midi_event(&bend, (0, 0));
    p.process_midi_event(&pressure, (0, 0));
    let batch = p.flush_midi_events();
    assert_eq!(batch.len(), 0);
}

#[test]
fn drum_entry_without_table_falls_back_to_key_number() {
    let mut p = OscifyPlugin::new(vec![entry_of(EntryType::Drum, "drums")], 0);
    let msg = Message::try_from(&[0x90, 40, 100]).unwrap();
    p.process_midi_event(&msg, (0, 0));
    let batch = p.flush_midi_events();
    assert_eq!(batch[1].addr, "/oscify/drums/40/note/on");
}

#[test]
fn missing_entry_uses_numeric_base() {
    let mut p = OscifyPlugin::new(vec![], 0);
    p.entry_index = 3;
    let msg = Message::try_from(&[0x90, 60, 100]).unwrap();
    p.process_midi_event(&msg, (0, 0));
    let batch = p.flush_midi_events();
    assert_eq!(batch[1].addr, "/oscify/3/note/on");
}

#[test]
fn bend_before_note_emits_pending_pitch_exactly_once() {
    let mut p = OscifyPlugin::new(vec![mono_entry("synth")], 0);
    // Full-up bend on a silent channel: nothing is emitted yet.
    let bend = Message::try_from(&[0xE0, 0x7F, 0x7F]).unwrap();
    p.process_midi_event(&bend, (0, 0));
    assert_eq!(p.flush_midi_events().len(), 0);
    // The next note-on resolves the parked bend into its pitch message.
    let note_on = Message::try_from(&[0x90, 60, 100]).unwrap();
    p.process_midi_event(&note_on, (0, 0));
    let batch = p.flush_midi_events();
    assert_eq!(batch.len(), 5);
    assert_eq!(batch[0].addr, "/oscify/synth/pitch");
    let expected = 60 * PITCH_FIXED_ONE + 16382 * 256;
    assert_eq!(batch[0].arg, OscArg::Float(FloatArg::Fixed(expected)));
    let semis = expected as f64 / PITCH_FIXED_ONE as f64;
    assert!((semis - 62.0).abs() < 0.01);
    // Another note-on: the bend is gone, the pitch is the bare key.
    let note_again = Message::try_from(&[0x90, 62, 100]).unwrap();
    p.process_midi_event(&note_again, (0, 0));
    let batch = p.flush_midi_events();
    assert_eq!(batch[0].arg, OscArg::Float(FloatArg::Fixed(62 * PITCH_FIXED_ONE)));
}

#[test]
fn rpn_range_and_full_bend_reach_almost_twelve_semitones_up() {
    let mut p = OscifyPlugin::new(vec![mono_entry("synth")], 0);
    for data in [[0xB0, 101, 0], [0xB0, 100, 0], [0xB0, 6, 12], [0xB0, 38, 0], [0x90, 60, 100]] {
        let msg = Message::try_from(&data).unwrap();
        p.process_midi_event(&msg, (0, 0));
    }
    p.flush_midi_events();
    let bend = Message::try_from(&[0xE0, 0x7F, 0x7F]).unwrap();
    p.process_midi_event(&bend, (0, 0));
    let batch = p.flush_midi_events();
    assert_eq!(batch.len(), 1);
    assert_eq!(batch[0].addr, "/oscify/synth/pitch");
    match batch[0].arg {
        OscArg::Float(FloatArg::Fixed(n)) => {
            assert_eq!(n, 60 * PITCH_FIXED_ONE + 16382 * 1536);
            let semis = n as f64 / PITCH_FIXED_ONE as f64;
            assert!((semis - 71.999).abs() < 0.001);
        },
        ref other => panic!("unexpected argument {:?}", other),
    }
}

#[test]
fn pressure_and_controllers_emit_per_voice_values() {
    let mut p = OscifyPlugin::new(vec![entry_of(EntryType::Poly, "keys")], 0);
    let note_on = Message::try_from(&[0x92, 60, 100]).unwrap();
    p.process_midi_event(&note_on, (0, 0));
    p.flush_midi_events();

    let pressure = Message::try_from(&[0xD2, 64]).unwrap();
    p.process_midi_event(&pressure, (0, 0));
    let timbre = Message::try_from(&[0xB2, 74, 32]).unwrap();
    p.process_midi_event(&timbre, (0, 0));
    let pan = Message::try_from(&[0xB2, 10, 127]).unwrap();
    p.process_midi_event(&pan, (0, 0));
    // An unmapped controller emits nothing.
    let other = Message::try_from(&[0xB2, 20, 1]).unwrap();
    p.process_midi_event(&other, (0, 0));

    let batch = p.flush_midi_events();
    assert_eq!(batch.len(), 3);
    assert_eq!(batch[0].addr, "/oscify/keys/2/press");
    assert_eq!(batch[0].arg, OscArg::Float(FloatArg::Fixed(64 * 16384)));
    assert_eq!(batch[1].addr, "/oscify/keys/2/timbre");
    assert_eq!(batch[1].arg, OscArg::Float(FloatArg::Fixed(32 * 16384)));
    assert_eq!(batch[2].addr, "/oscify/keys/2/pan");
    assert_eq!(batch[2].arg, OscArg::Float(FloatArg::Fixed(127 * 16384)));
}

#[test]
fn param_event_addresses_with_name_and_fallback() {
    let mut p = OscifyPlugin::new(vec![mono_entry("synth")], 0);
    p.process_param_event(0, FloatArg::Bits(0x3F000000));
    p.process_param_event(5, FloatArg::Bits(0));
    let batch = p.flush_midi_events();
    assert_eq!(batch.len(), 2);
    assert_eq!(batch[0].addr, "/oscify/synth/param/cutoff");
    assert_eq!(batch[0].arg, OscArg::Float(FloatArg::Bits(0x3F000000)));
    assert_eq!(batch[1].addr, "/oscify/synth/param/5");
}

#[test]
fn untracked_messages_emit_nothing() {
    let mut p = OscifyPlugin::new(vec![mono_entry("synth")], 0);
    for data in [
        vec![0xA0u8, 60, 10],
        vec![0xB0, 120, 0],
        vec![0xC0, 5],
        vec![0xF8],
        vec![0xF0, 0x7E, 1, 2],
    ] {
        let msg = Message::try_from(&data).unwrap();
        p.process_midi_event(&msg, (0, 0));
    }
    assert_eq!(p.flush_midi_events().len(), 0);
}

#[test]
fn full_down_bend_reaches_two_semitones_under_the_key() {
    let mut p = OscifyPlugin::new(vec![mono_entry("synth")], 0);
    let note_on = Message::try_from(&[0x90, 60, 100]).unwrap();
    p.process_midi_event(&note_on, (0, 0));
    p.flush_midi_events();
    let bend = Message::try_from(&[0xE0, 0x00, 0x00]).unwrap();
    p.process_midi_event(&bend, (0, 0));
    let batch = p.flush_midi_events();
    assert_eq!(batch.len(), 1);
    assert_eq!(batch[0].arg, OscArg::Float(FloatArg::Fixed(60 * PITCH_FIXED_ONE - 16384 * 256)));
    let semis = match batch[0].arg {
        OscArg::Float(FloatArg::Fixed(n)) => n as f64 / PITCH_FIXED_ONE as f64,
        ref other => panic!("unexpected argument {:?}", other),
    };
    assert_eq!(semis, 58.0);
}

#[test]
fn param_event_without_entry_uses_numeric_base() {
    let mut p = OscifyPlugin::new(vec![], 0);
    p.entry_index = 3;
    p.process_param_event(0, FloatArg::Bits(0));
    let batch = p.flush_midi_events();
    assert_eq!(batch[0].addr, "/oscify/3/param/0");
}

#[test]
fn flush_drains_queue_atomically() {
    let mut s = OscSender::new(2);
    for i in 0..10u32 {
        s.push(format!("/a/{}", i), OscArg::Int(i as i32), (i, 0));
    }
    assert_eq!(s.queue_len(), 10);
    let batch = s.flush();
    assert_eq!(batch.len(), 10);
    assert_eq!(s.queue_len(), 0);
    assert_eq!(s.id, 2);
    // A second flush hands back nothing.
    assert_eq!(s.flush().len(), 0);
}

#[test]
fn port_scan_policy() {
    assert_eq!(scan_port(0), Some(BASE_HOST_PORT));
    assert_eq!(scan_port(99), Some(BASE_HOST_PORT + 99));
    assert_eq!(scan_port(100), None);
    assert_eq!(scan_port(u16::MAX), None);
}

#[test]
fn exhausted_scan_range_is_no_available_port() {
    let all_taken = vec![false; 100];
    assert_eq!(select_port(&all_taken), Err(OscSendError::NoAvailablePort));
}

#[test]
fn first_free_port_wins() {
    let mut avail = vec![false; 100];
    avail[5] = true;
    avail[9] = true;
    assert_eq!(select_port(&avail), Ok(BASE_HOST_PORT + 5));
    let all_free = vec![true; 100];
    assert_eq!(select_port(&all_free), Ok(BASE_HOST_PORT));
}

#[test]
fn ntp_timestamps() {
    assert_eq!(get_time(0, 0), (2208988800, 0));
    // Half of the ten-second fraction window is half of the 32-bit range.
    assert_eq!(get_time(0, 5_000_000_000), (2208988800, 1 << 31));
    // Seconds wrap at 32 bits as NTP does.
    let (sec, _) = get_time(4_294_967_296, 0);
    assert_eq!(sec as u64, (4_294_967_296u64 + 2_208_988_800) % 4_294_967_296);
}

#[test]
fn sample_offsets_in_nanoseconds() {
    assert_eq!(frames_to_nanos(44100, 44100), 1_000_000_000);
    assert_eq!(frames_to_nanos(1, 48000), 20833);
    assert_eq!(frames_to_nanos(0, 48000), 0);
}
