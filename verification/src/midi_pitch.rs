//! Per-channel note and pitch-bend tracking.
//!
//! Sixteen channels each hold a note status (off, sounding on a key, or a
//! pitch bend waiting for its note), and all channels share one
//! registered-parameter (RPN) selection and one pitch-bend range.  Pitch is
//! resolved exactly as a fixed-point number of semitones scaled by
//! [`PITCH_FIXED_ONE`]: a note's pitch is `key + bend`, where the bend term
//! for a raw 14-bit wheel value is `(2*raw - 16384) * range14 / 2^21`
//! semitones.

use vstd::prelude::*;

use crate::midi::Message;
use crate::midi::MessageView;

verus! {

/// Controller number selecting the RPN most-significant byte.
pub const RPN_MSB: u8 = 101;

/// Controller number selecting the RPN least-significant byte.
pub const RPN_LSB: u8 = 100;

/// Controller number carrying the data-entry most-significant byte.
pub const DATA_ENTRY_MSB: u8 = 6;

/// Controller number carrying the data-entry least-significant byte.
pub const DATA_ENTRY_LSB: u8 = 38;

/// The fixed-point scale of resolved pitches: one semitone is this many
/// ticks (`2^21 = 16384 * 128`, so both the wheel normalisation and the
/// range normalisation stay exact).
pub const PITCH_FIXED_ONE: i64 = 2097152;

/// Combine a (most, least) significant 7-bit pair into a 14-bit value.
pub open spec fn spec_u14(msb: u8, lsb: u8) -> u16 {
    ((msb as u16) << 7) | (lsb as u16)
}

/// Combine a (most, least) significant 7-bit pair into a 14-bit value.
pub fn to_u14(msb: u8, lsb: u8) -> (r: u16)
    ensures
        r == spec_u14(msb, lsb),
        r <= 32767,
{
    proof {
        let m = msb;
        let l = lsb;
        assert((((m as u16) << 7) | (l as u16)) <= 32767) by (bit_vector);
    }
    ((msb as u16) << 7) | (lsb as u16)
}

/// For genuine 7-bit halves the combination is plain arithmetic.
pub proof fn lemma_u14_value(msb: u8, lsb: u8)
    requires
        msb < 128,
        lsb < 128,
    ensures
        spec_u14(msb, lsb) == msb * 128 + lsb,
{
    let m = msb;
    let l = lsb;
    assert(m < 128 && l < 128 ==> ((((m as u16) << 7) | (l as u16)) == m * 128 + l))
        by (bit_vector);
}

/// The status of one MIDI channel: silent, sounding a key, or holding a
/// pitch bend (a fixed-point semitone offset) that arrived before its note.
#[derive(Debug, Clone, Copy, PartialEq, Eq, Structural)]
pub enum NoteStatus {
    Off,
    On(u8),
    PendingBend(i64),
}

/// A pending bend stays within the range reachable from 14-bit inputs, so
/// pitch arithmetic over it cannot overflow.
pub open spec fn bend_bounded(s: NoteStatus) -> bool {
    match s {
        NoteStatus::PendingBend(b) => -0x1_0000_0000 <= b <= 0x1_0000_0000,
        _ => true,
    }
}

/// The mathematical state of a [`MidiPitch`] tracker.
#[verifier::ext_equal]
pub struct MidiPitchView {
    pub selected_msb: u8,
    pub selected_lsb: u8,
    pub bend_msb: u8,
    pub bend_lsb: u8,
    pub keys: Seq<NoteStatus>,
}

impl MidiPitchView {
    /// Well-formedness: one slot per MIDI channel, every pending bend in
    /// range.
    pub open spec fn wf(self) -> bool {
        &&& self.keys.len() == 16
        &&& forall|i: int| 0 <= i < 16 ==> bend_bounded(self.keys[i])
    }

    /// The pitch-bend range as a 14-bit value (semitones scaled by 128).
    pub open spec fn range14(self) -> u16 {
        spec_u14(self.bend_msb, self.bend_lsb)
    }
}

/// The bend term, in fixed-point semitones, that a raw 14-bit wheel value
/// resolves to under the tracker's current bend range:
/// `(2*raw/16384 - 1) * (range14/128)` semitones, kept exact over the common
/// denominator `2^21`.
pub open spec fn spec_bend_num(s: MidiPitchView, raw: u16) -> int {
    (2 * (raw as int) - 16384) * (s.range14() as int)
}

/// The pitch, in fixed-point semitones, of key `key` shifted by bend term
/// `bend`.
pub open spec fn spec_pitch_num(key: u8, bend: int) -> int {
    (key as int) * (PITCH_FIXED_ONE as int) + bend
}

/// The key a channel answers while a note is sounding; 0 is the sentinel for
/// "no note".
pub open spec fn spec_get_key(s: MidiPitchView, channel: u8) -> u8
    recommends
        channel < 16,
        s.wf(),
{
    match s.keys[channel as int] {
        NoteStatus::On(key) => key,
        _ => 0,
    }
}

/// One step of the tracker's state machine.
pub open spec fn spec_step(s: MidiPitchView, m: MessageView) -> MidiPitchView
    recommends
        s.wf(),
        spec_channel_ok(m),
{
    match m {
        MessageView::NoteOff { channel, .. } => MidiPitchView {
            keys: s.keys.update(channel as int, NoteStatus::Off),
            ..s
        },
        MessageView::NoteOn { channel, key, .. } => MidiPitchView {
            keys: s.keys.update(channel as int, NoteStatus::On(key)),
            ..s
        },
        MessageView::ControlChange { controller, value, .. } => {
            if controller == RPN_MSB {
                MidiPitchView { selected_msb: value, ..s }
            } else if controller == RPN_LSB {
                MidiPitchView { selected_lsb: value, ..s }
            } else if controller == DATA_ENTRY_MSB {
                if s.selected_msb == 0 && s.selected_lsb == 0 {
                    MidiPitchView { bend_msb: value, ..s }
                } else {
                    s
                }
            } else if controller == DATA_ENTRY_LSB {
                if s.selected_msb == 0 && s.selected_lsb == 0 {
                    MidiPitchView { bend_lsb: value, ..s }
                } else {
                    s
                }
            } else {
                s
            }
        },
        _ => s,
    }
}

/// Every channel field a message carries is a low nibble, hence below 16.
/// The decoder only builds such messages.
pub open spec fn spec_channel_ok(m: MessageView) -> bool {
    match m {
        MessageView::NoteOff { channel, .. } => channel < 16,
        MessageView::NoteOn { channel, .. } => channel < 16,
        MessageView::KeyPressure { channel, .. } => channel < 16,
        MessageView::ControlChange { channel, .. } => channel < 16,
        MessageView::ChannelMode { channel, .. } => channel < 16,
        MessageView::ProgramChange { channel, .. } => channel < 16,
        MessageView::ChannelPressure { channel, .. } => channel < 16,
        MessageView::PitchBend { channel, .. } => channel < 16,
        _ => true,
    }
}

/// The per-plugin pitch tracker: sixteen channel slots, one shared RPN
/// selection and one shared pitch-bend range.
#[derive(Debug)]
pub struct MidiPitch {
    selected_msb: u8,
    selected_lsb: u8,
    bend_msb: u8,
    bend_lsb: u8,
    keys: Vec<NoteStatus>,
}

impl View for MidiPitch {
    type V = MidiPitchView;

    closed spec fn view(&self) -> MidiPitchView {
        MidiPitchView {
            selected_msb: self.selected_msb,
            selected_lsb: self.selected_lsb,
            bend_msb: self.bend_msb,
            bend_lsb: self.bend_lsb,
            keys: self.keys@,
        }
    }
}

impl MidiPitch {
    /// A fresh tracker: no RPN selected (0x7F/0x7F), bend range of two
    /// semitones, every channel off.
    pub fn new() -> (r: Self)
        ensures
            r@.wf(),
            r@.selected_msb == 0x7F,
            r@.selected_lsb == 0x7F,
            r@.bend_msb == 2,
            r@.bend_lsb == 0,
            forall|i: int| 0 <= i < 16 ==> r@.keys[i] == NoteStatus::Off,
    {
        MidiPitch {
            selected_msb: 0x7F,
            selected_lsb: 0x7F,
            bend_msb: 2,
            bend_lsb: 0,
            keys: vec![NoteStatus::Off; 16],
        }
    }

    /// The key currently sounding on `channel`, or the sentinel 0.
    pub fn get_key(&self, channel: u8) -> (r: u8)
        requires
            self@.wf(),
            channel < 16,
        ensures
            r == spec_get_key(self@, channel),
    {
        match self.keys[channel as usize] {
            NoteStatus::On(key) => key,
            _ => 0,
        }
    }

    /// Resolve a raw 14-bit pitch-bend value.  While a note is sounding the
    /// resolved pitch comes back at once and the state is untouched; on a
    /// silent channel the bend is parked as pending and nothing is returned —
    /// the next note-on picks it up through [`Self::get_pending_pitch`].
    pub fn get_pitch(&mut self, channel: u8, pitch_bend_amount: u16) -> (r: Option<i64>)
        requires
            old(self)@.wf(),
            channel < 16,
        ensures
            final(self)@.wf(),
            (match old(self)@.keys[channel as int] {
                NoteStatus::On(key) => {
                    &&& r == Some(spec_pitch_num(key, spec_bend_num(old(self)@,
                        pitch_bend_amount)) as i64)
                    &&& final(self)@ == old(self)@
                },
                _ => {
                    &&& r is None
                    &&& final(self)@ == (MidiPitchView {
                        keys: old(self)@.keys.update(channel as int, NoteStatus::PendingBend(
                            spec_bend_num(old(self)@, pitch_bend_amount) as i64)),
                        ..old(self)@
                    })
                },
            }),
    {
        let range = to_u14(self.bend_msb, self.bend_lsb);
        proof {
            assert((2 * (pitch_bend_amount as int) - 16384) * (range as int)
                <= 0x1_0000_0000 && (2 * (pitch_bend_amount as int) - 16384) * (range as int)
                >= -0x1_0000_0000) by (nonlinear_arith)
                requires
                    pitch_bend_amount <= 65535,
                    0 <= range <= 32767,
            ;
        }
        let bend: i64 = (2 * (pitch_bend_amount as i64) - 16384) * (range as i64);

        match self.keys[channel as usize] {
            NoteStatus::On(key) => {
                let pitch: i64 = (key as i64) * PITCH_FIXED_ONE + bend;
                proof {
                    assert(self@ =~= old(self)@);
                }
                Some(pitch)
            },
            _ => {
                self.keys[channel as usize] = NoteStatus::PendingBend(bend);
                proof {
                    assert(self@ =~= (MidiPitchView {
                        keys: old(self)@.keys.update(channel as int, NoteStatus::PendingBend(
                            spec_bend_num(old(self)@, pitch_bend_amount) as i64)),
                        ..old(self)@
                    }));
                }
                None
            },
        }
    }

    /// The pitch a parked bend resolves to once its note-on has arrived with
    /// `key`; nothing if no bend is pending on `channel`.
    pub fn get_pending_pitch(&self, channel: u8, key: u8) -> (r: Option<i64>)
        requires
            self@.wf(),
            channel < 16,
        ensures
            (match self@.keys[channel as int] {
                NoteStatus::PendingBend(bend) => r == Some(spec_pitch_num(key, bend as int)
                    as i64),
                _ => r is None,
            }),
    {
        match self.keys[channel as usize] {
            NoteStatus::PendingBend(bend) => {
                proof {
                    assert(bend_bounded(self@.keys[channel as int]));
                }
                Some((key as i64) * PITCH_FIXED_ONE + bend)
            },
            _ => None,
        }
    }

    /// Feed one decoded message through the state machine: note-off and
    /// note-on set the channel slot, Control-Change messages drive the RPN
    /// selection and — while the pitch-bend-range RPN (0,0) is selected — the
    /// bend range; everything else is a no-op.
    pub fn process_midi_event(&mut self, msg: &Message)
        requires
            old(self)@.wf(),
            spec_channel_ok(msg@),
        ensures
            final(self)@.wf(),
            final(self)@ == spec_step(old(self)@, msg@),
    {
        match msg {
            Message::NoteOff { channel, .. } => {
                self.keys[*channel as usize] = NoteStatus::Off;
            },
            Message::NoteOn { channel, key, .. } => {
                self.keys[*channel as usize] = NoteStatus::On(*key);
            },
            Message::ControlChange { controller, value, .. } => {
                if *controller == RPN_MSB {
                    self.selected_msb = *value;
                } else if *controller == RPN_LSB {
                    self.selected_lsb = *value;
                } else if *controller == DATA_ENTRY_MSB {
                    if self.selected_msb == 0 && self.selected_lsb == 0 {
                        self.bend_msb = *value;
                    }
                } else if *controller == DATA_ENTRY_LSB {
                    if self.selected_msb == 0 && self.selected_lsb == 0 {
                        self.bend_lsb = *value;
                    }
                }
            },
            _ => {},
        }
        proof {
            assert(self@ =~= spec_step(old(self)@, msg@));
        }
    }
}

/// A centered pitch wheel (raw value 0x2000) bends by nothing: whatever the
/// bend range, the resolved pitch is exactly the sounding key.
pub proof fn lemma_center_bend_is_key(s: MidiPitchView, key: u8)
    ensures
        spec_bend_num(s, 0x2000) == 0,
        spec_pitch_num(key, spec_bend_num(s, 0x2000)) == key * PITCH_FIXED_ONE,
{
    let r = s.range14() as int;
    assert((2 * (0x2000 as int) - 16384) == 0);
    assert((0 as int) * r == 0) by (nonlinear_arith);
}

/// The RPN sequence "select pitch-bend-range (101:0, 100:0), then data entry
/// (6:semitones, 38:cents)" sets the bend range, from any starting state,
/// and touches no channel slot.
pub proof fn lemma_rpn_sets_bend_range(s: MidiPitchView, channel: u8, semis: u8, cents: u8)
    requires
        s.wf(),
        channel < 16,
        semis < 128,
        cents < 128,
    ensures
        ({
            let s1 = spec_step(s, MessageView::ControlChange {
                channel,
                controller: RPN_MSB,
                value: 0,
            });
            let s2 = spec_step(s1, MessageView::ControlChange {
                channel,
                controller: RPN_LSB,
                value: 0,
            });
            let s3 = spec_step(s2, MessageView::ControlChange {
                channel,
                controller: DATA_ENTRY_MSB,
                value: semis,
            });
            let s4 = spec_step(s3, MessageView::ControlChange {
                channel,
                controller: DATA_ENTRY_LSB,
                value: cents,
            });
            s4.bend_msb == semis && s4.bend_lsb == cents && s4.range14() == semis * 128 + cents
                && s4.keys == s.keys && s4.wf()
        }),
{
    lemma_u14_value(semis, cents);
}

} // verus!
