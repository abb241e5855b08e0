//! The translation orchestrator: one decoded MIDI message in, zero or more
//! queued OSC messages out, with the pitch tracker updated on the way.
//!
//! This is the only component that sees the decoder, the tracker, the
//! address resolver and the batching sender together.  The host boundary
//! outside this crate drives it with decoded messages and NTP timestamps and
//! transmits what [`OscifyPlugin::flush_midi_events`] hands back.

use vstd::prelude::*;

use crate::config::Entry;
use crate::midi::Message;
use crate::midi::MessageView;
use crate::midi_pitch::MidiPitch;
use crate::midi_pitch::MidiPitchView;
use crate::midi_pitch::NoteStatus;
use crate::midi_pitch::PITCH_FIXED_ONE;
use crate::midi_pitch::spec_bend_num;
use crate::midi_pitch::spec_channel_ok;
use crate::midi_pitch::spec_get_key;
use crate::midi_pitch::spec_pitch_num;
use crate::midi_pitch::spec_step;
use crate::osc::FloatArg;
use crate::osc::OscArg;
use crate::osc::OscMsgView;
use crate::osc::OscSender;
use crate::osc::OutgoingOsc;
use crate::sender::AddressNode;
use crate::sender::AddressNodeView;
use crate::sender::ChannelMessage;
use crate::sender::ChannelType;
use crate::sender::NoteMessage;
use crate::sender::ParamMessage;
use crate::sender::assemble;
use crate::sender::assemble_param;
use crate::sender::spec_address;
use crate::sender::spec_base;
use crate::sender::spec_id;
use crate::sender::spec_param_address;
use crate::sender::spec_param_node;
use crate::sender::spec_segment;

verus! {

/// The controller number carrying timbre (MPE convention).
pub const CC_TIMBRE: u8 = 74;

/// The controller number carrying pan.
pub const CC_PAN: u8 = 10;

/// Seconds between the Unix epoch and the NTP epoch.
pub const NTP_EPOCH_DELTA: u64 = 2208988800;

/// A 7-bit value as a fixed-point fraction of 128: `x/128` scaled by
/// [`PITCH_FIXED_ONE`] (so `x * 16384`, since `16384/2^21 == 1/128`).
pub fn u7_to_fixed(x: u8) -> (r: i64)
    ensures
        r == x * 16384,
{
    (x as i64) * 16384
}

/// The messages a note-on/note-off emits: the `on` flag always, and for a
/// note-on also the key, the velocity and the host phase — unless the
/// identity segment suppresses the note entirely.
pub open spec fn spec_note_emit(
    entries: Seq<Entry>,
    entry_index: int,
    phase: u32,
    m: NoteMessage,
    t: (u32, u32),
) -> Seq<OscMsgView> {
    let id = spec_id(entries, entry_index, m.channel, m.key);
    if id is DoNotSend {
        Seq::empty()
    } else {
        let base = spec_base(entries, entry_index);
        let on = OscMsgView {
            addr: spec_address(base, id, "/note/on"@),
            arg: OscArg::Bool(m.note_on),
            sec: t.0,
            frac: t.1,
        };
        if !m.note_on {
            seq![on]
        } else {
            seq![
                on,
                OscMsgView {
                    addr: spec_address(base, id, "/note/key"@),
                    arg: OscArg::Int(m.key as i32),
                    sec: t.0,
                    frac: t.1,
                },
                OscMsgView {
                    addr: spec_address(base, id, "/note/vel"@),
                    arg: OscArg::Float(FloatArg::Fixed((m.velocity * 16384) as i64)),
                    sec: t.0,
                    frac: t.1,
                },
                OscMsgView {
                    addr: spec_address(base, id, "/note/phase"@),
                    arg: OscArg::Float(FloatArg::Bits(phase)),
                    sec: t.0,
                    frac: t.1,
                },
            ]
        }
    }
}

/// The messages a per-voice controller value emits: one, unless the identity
/// segment suppresses it.
pub open spec fn spec_channel_emit(
    entries: Seq<Entry>,
    entry_index: int,
    m: ChannelMessage,
    t: (u32, u32),
) -> Seq<OscMsgView> {
    let id = spec_id(entries, entry_index, m.channel, m.key);
    if id is DoNotSend {
        Seq::empty()
    } else {
        seq![
            OscMsgView {
                addr: spec_address(spec_base(entries, entry_index), id, spec_segment(
                    AddressNodeView::Ch(m.channel_type),
                )),
                arg: OscArg::Float(m.value),
                sec: t.0,
                frac: t.1,
            },
        ]
    }
}

/// The message a generic parameter value emits (never suppressed).
pub open spec fn spec_param_emit(
    entries: Seq<Entry>,
    entry_index: int,
    m: ParamMessage,
    t: (u32, u32),
) -> Seq<OscMsgView> {
    seq![
        OscMsgView {
            addr: spec_param_address(spec_base(entries, entry_index), spec_param_node(entries,
                entry_index, m.param_index as int)),
            arg: OscArg::Float(m.value),
            sec: t.0,
            frac: t.1,
        },
    ]
}

/// Everything one decoded MIDI message makes the orchestrator queue, given
/// the tracker state it met.
pub open spec fn spec_process(
    entries: Seq<Entry>,
    entry_index: int,
    phase: u32,
    st: MidiPitchView,
    m: MessageView,
    t: (u32, u32),
) -> Seq<OscMsgView>
    recommends
        st.wf(),
        spec_channel_ok(m),
{
    match m {
        MessageView::NoteOff { channel, key, velocity } => spec_note_emit(entries, entry_index,
            phase, NoteMessage { note_on: false, channel, key, velocity }, t),
        MessageView::NoteOn { channel, key, velocity } => {
            let value = match st.keys[channel as int] {
                NoteStatus::PendingBend(b) => FloatArg::Fixed(spec_pitch_num(key, b as int)
                    as i64),
                _ => FloatArg::Fixed((key * PITCH_FIXED_ONE) as i64),
            };
            spec_channel_emit(entries, entry_index, ChannelMessage {
                channel_type: ChannelType::Pitch,
                channel,
                key,
                value,
            }, t) + spec_note_emit(entries, entry_index, phase, NoteMessage {
                note_on: true,
                channel,
                key,
                velocity,
            }, t)
        },
        MessageView::PitchBend { channel, value } => {
            match st.keys[channel as int] {
                NoteStatus::On(key) => spec_channel_emit(entries, entry_index, ChannelMessage {
                    channel_type: ChannelType::Pitch,
                    channel,
                    key,
                    value: FloatArg::Fixed(spec_pitch_num(key, spec_bend_num(st, value)) as i64),
                }, t),
                _ => Seq::empty(),
            }
        },
        MessageView::ChannelPressure { channel, pressure } => spec_channel_emit(entries,
            entry_index, ChannelMessage {
            channel_type: ChannelType::Pressure,
            channel,
            key: spec_get_key(st, channel),
            value: FloatArg::Fixed((pressure * 16384) as i64),
        }, t),
        MessageView::ControlChange { channel, controller, value } => {
            if controller == CC_TIMBRE {
                spec_channel_emit(entries, entry_index, ChannelMessage {
                    channel_type: ChannelType::Timbre,
                    channel,
                    key: spec_get_key(st, channel),
                    value: FloatArg::Fixed((value * 16384) as i64),
                }, t)
            } else if controller == CC_PAN {
                spec_channel_emit(entries, entry_index, ChannelMessage {
                    channel_type: ChannelType::Pan,
                    channel,
                    key: spec_get_key(st, channel),
                    value: FloatArg::Fixed((value * 16384) as i64),
                }, t)
            } else {
                Seq::empty()
            }
        },
        _ => Seq::empty(),
    }
}

/// The tracker state after the orchestrator has handled one message: a pitch
/// bend met on a silent channel is parked as pending first, and then the
/// message steps the tracker's own state machine.
pub open spec fn spec_track(st: MidiPitchView, m: MessageView) -> MidiPitchView
    recommends
        st.wf(),
        spec_channel_ok(m),
{
    match m {
        MessageView::PitchBend { channel, value } => match st.keys[channel as int] {
            NoteStatus::On(_) => st,
            _ => MidiPitchView {
                keys: st.keys.update(channel as int, NoteStatus::PendingBend(spec_bend_num(st,
                    value) as i64)),
                ..st
            },
        },
        _ => spec_step(st, m),
    }
}

/// The orchestrator: the pitch tracker, the batching sender, the loaded
/// configuration entries and the host-controlled selection state.
#[derive(Debug)]
pub struct OscifyPlugin {
    /// The host's sample rate in Hz, for sample-offset timestamps.
    pub sample_rate: u32,
    pub osc_sender: OscSender,
    pub entries: Vec<Entry>,
    pub entry_index: usize,
    /// The host's phase parameter, as IEEE-754 bits.
    pub phase: u32,
    pub midi_pitch: MidiPitch,
}

impl OscifyPlugin {
    /// Well-formedness: the tracker has its sixteen channel slots.
    pub open spec fn wf(self) -> bool {
        self.midi_pitch@.wf()
    }

    /// A fresh orchestrator over loaded entries and a bound transport slot.
    pub fn new(entries: Vec<Entry>, sender_id: u16) -> (r: Self)
        ensures
            r.wf(),
            r.sample_rate == 0,
            r.entries == entries,
            r.entry_index == 0,
            r.phase == 0,
            r.osc_sender@ == Seq::<OscMsgView>::empty(),
            r.osc_sender.id == sender_id,
            r.midi_pitch@.selected_msb == 0x7F,
            r.midi_pitch@.selected_lsb == 0x7F,
            r.midi_pitch@.bend_msb == 2,
            r.midi_pitch@.bend_lsb == 0,
            forall|i: int| 0 <= i < 16 ==> r.midi_pitch@.keys[i] == NoteStatus::Off,
    {
        OscifyPlugin {
            sample_rate: 0,
            osc_sender: OscSender::new(sender_id),
            entries,
            entry_index: 0,
            phase: 0,
            midi_pitch: MidiPitch::new(),
        }
    }

    /// The entry the host has selected, if one is configured at that index.
    fn selected_entry(&self) -> (r: Option<&Entry>)
        ensures
            (match r {
                Option::Some(e) => 0 <= self.entry_index < self.entries@.len() && *e
                    == self.entries@[self.entry_index as int],
                Option::None => self.entry_index >= self.entries@.len(),
            }),
    {
        if self.entry_index < self.entries.len() {
            Some(&self.entries[self.entry_index])
        } else {
            None
        }
    }

    /// Queue the messages for one note-on or note-off, unless the entry type
    /// suppresses them.
    pub fn send_note(&mut self, m: NoteMessage, t: (u32, u32))
        ensures
            final(self).osc_sender@ == old(self).osc_sender@ + spec_note_emit(
                old(self).entries@,
                old(self).entry_index as int,
                old(self).phase,
                m,
                t,
            ),
            final(self).osc_sender.id == old(self).osc_sender.id,
            final(self).sample_rate == old(self).sample_rate,
            final(self).entries == old(self).entries,
            final(self).entry_index == old(self).entry_index,
            final(self).phase == old(self).phase,
            final(self).midi_pitch == old(self).midi_pitch,
    {
        let ghost entries0 = self.entries@;
        let ghost idx = self.entry_index as int;
        let entry = self.selected_entry();
        let id_node = AddressNode::id(entry, m.channel, m.key);
        proof {
            assert(id_node@ == spec_id(entries0, idx, m.channel, m.key));
        }
        if !id_node.should_send() {
            proof {
                assert(old(self).osc_sender@ + spec_note_emit(entries0, idx, old(self).phase, m,
                    t) =~= old(self).osc_sender@);
            }
            return ;
        }
        let base_node = AddressNode::base(entry, self.entry_index);
        proof {
            assert(base_node@ == spec_base(entries0, idx));
        }
        let addr_on = assemble(&base_node, &id_node, "/note/on");
        self.osc_sender.push(addr_on, OscArg::Bool(m.note_on), t);
        if m.note_on {
            let addr_key = assemble(&base_node, &id_node, "/note/key");
            self.osc_sender.push(addr_key, OscArg::Int(m.key as i32), t);
            let addr_vel = assemble(&base_node, &id_node, "/note/vel");
            self.osc_sender.push(addr_vel, OscArg::Float(FloatArg::Fixed(u7_to_fixed(m.velocity))),
                t);
            let addr_phase = assemble(&base_node, &id_node, "/note/phase");
            self.osc_sender.push(addr_phase, OscArg::Float(FloatArg::Bits(self.phase)), t);
        }
        proof {
            assert(self.osc_sender@ =~= old(self).osc_sender@ + spec_note_emit(entries0, idx,
                old(self).phase, m, t));
        }
    }

    /// Queue one per-voice controller message, unless the entry type
    /// suppresses it.
    pub fn send_channel(&mut self, m: ChannelMessage, t: (u32, u32))
        ensures
            final(self).osc_sender@ == old(self).osc_sender@ + spec_channel_emit(
                old(self).entries@,
                old(self).entry_index as int,
                m,
                t,
            ),
            final(self).osc_sender.id == old(self).osc_sender.id,
            final(self).sample_rate == old(self).sample_rate,
            final(self).entries == old(self).entries,
            final(self).entry_index == old(self).entry_index,
            final(self).phase == old(self).phase,
            final(self).midi_pitch == old(self).midi_pitch,
    {
        let ghost entries0 = self.entries@;
        let ghost idx = self.entry_index as int;
        let entry = self.selected_entry();
        let base_node = AddressNode::base(entry, self.entry_index);
        let id_node = AddressNode::id(entry, m.channel, m.key);
        proof {
            assert(base_node@ == spec_base(entries0, idx));
            assert(id_node@ == spec_id(entries0, idx, m.channel, m.key));
        }
        if !id_node.should_send() {
            proof {
                assert(old(self).osc_sender@ + spec_channel_emit(entries0, idx, m, t) =~= old(
                    self,
                ).osc_sender@);
            }
            return ;
        }
        let addr = assemble(&base_node, &id_node, m.channel_type.path());
        self.osc_sender.push(addr, OscArg::Float(m.value), t);
        proof {
            assert(self.osc_sender@ =~= old(self).osc_sender@ + spec_channel_emit(entries0, idx,
                m, t));
        }
    }

    /// Queue one generic parameter message.
    pub fn send_param(&mut self, m: ParamMessage, t: (u32, u32))
        ensures
            final(self).osc_sender@ == old(self).osc_sender@ + spec_param_emit(
                old(self).entries@,
                old(self).entry_index as int,
                m,
                t,
            ),
            final(self).osc_sender.id == old(self).osc_sender.id,
            final(self).sample_rate == old(self).sample_rate,
            final(self).entries == old(self).entries,
            final(self).entry_index == old(self).entry_index,
            final(self).phase == old(self).phase,
            final(self).midi_pitch == old(self).midi_pitch,
    {
        let ghost entries0 = self.entries@;
        let ghost idx = self.entry_index as int;
        let entry = self.selected_entry();
        let base_node = AddressNode::base(entry, self.entry_index);
        let param_node = AddressNode::param(entry, m.param_index);
        proof {
            assert(base_node@ == spec_base(entries0, idx));
            assert(param_node@ == spec_param_node(entries0, idx, m.param_index as int));
        }
        let addr = assemble_param(&base_node, &param_node);
        self.osc_sender.push(addr, OscArg::Float(m.value), t);
        proof {
            assert(self.osc_sender@ =~= old(self).osc_sender@ + spec_param_emit(entries0, idx, m,
                t));
        }
    }

    /// Translate one decoded MIDI message: queue what it emits under the
    /// current tracker state and configuration, then update the tracker.
    pub fn process_midi_event(&mut self, msg: &Message, time: (u32, u32))
        requires
            old(self).wf(),
            spec_channel_ok(msg@),
        ensures
            final(self).wf(),
            final(self).osc_sender@ == old(self).osc_sender@ + spec_process(
                old(self).entries@,
                old(self).entry_index as int,
                old(self).phase,
                old(self).midi_pitch@,
                msg@,
                time,
            ),
            final(self).midi_pitch@ == spec_track(old(self).midi_pitch@, msg@),
            final(self).osc_sender.id == old(self).osc_sender.id,
            final(self).sample_rate == old(self).sample_rate,
            final(self).entries == old(self).entries,
            final(self).entry_index == old(self).entry_index,
            final(self).phase == old(self).phase,
    {
        let ghost st0 = self.midi_pitch@;
        match msg {
            Message::NoteOff { channel, key, velocity } => {
                self.send_note(NoteMessage {
                    note_on: false,
                    channel: *channel,
                    key: *key,
                    velocity: *velocity,
                }, time);
            },
            Message::NoteOn { channel, key, velocity } => {
                let value = match self.midi_pitch.get_pending_pitch(*channel, *key) {
                    Some(pitch) => FloatArg::Fixed(pitch),
                    None => FloatArg::Fixed((*key as i64) * PITCH_FIXED_ONE),
                };
                self.send_channel(ChannelMessage {
                    channel_type: ChannelType::Pitch,
                    channel: *channel,
                    key: *key,
                    value,
                }, time);
                self.send_note(NoteMessage {
                    note_on: true,
                    channel: *channel,
                    key: *key,
                    velocity: *velocity,
                }, time);
            },
            Message::PitchBend { channel, value } => {
                match self.midi_pitch.get_pitch(*channel, *value) {
                    Some(pitch) => {
                        let key = self.midi_pitch.get_key(*channel);
                        self.send_channel(ChannelMessage {
                            channel_type: ChannelType::Pitch,
                            channel: *channel,
                            key,
                            value: FloatArg::Fixed(pitch),
                        }, time);
                    },
                    None => {},
                }
            },
            Message::ChannelPressure { channel, pressure } => {
                let key = self.midi_pitch.get_key(*channel);
                self.send_channel(ChannelMessage {
                    channel_type: ChannelType::Pressure,
                    channel: *channel,
                    key,
                    value: FloatArg::Fixed(u7_to_fixed(*pressure)),
                }, time);
            },
            Message::ControlChange { channel, controller, value } => {
                let key = self.midi_pitch.get_key(*channel);
                if *controller == CC_TIMBRE {
                    self.send_channel(ChannelMessage {
                        channel_type: ChannelType::Timbre,
                        channel: *channel,
                        key,
                        value: FloatArg::Fixed(u7_to_fixed(*value)),
                    }, time);
                } else if *controller == CC_PAN {
                    self.send_channel(ChannelMessage {
                        channel_type: ChannelType::Pan,
                        channel: *channel,
                        key,
                        value: FloatArg::Fixed(u7_to_fixed(*value)),
                    }, time);
                }
            },
            _ => {},
        }
        self.midi_pitch.process_midi_event(msg);
        proof {
            assert(self.midi_pitch@ =~= spec_track(st0, msg@));
            assert(self.osc_sender@ =~= old(self).osc_sender@ + spec_process(
                old(self).entries@,
                old(self).entry_index as int,
                old(self).phase,
                st0,
                msg@,
                time,
            ));
        }
    }

    /// Queue the message for one host parameter change (parameters carry no
    /// event time: their bundles are stamped zero).
    pub fn process_param_event(&mut self, index: usize, value: FloatArg)
        ensures
            final(self).osc_sender@ == old(self).osc_sender@ + spec_param_emit(
                old(self).entries@,
                old(self).entry_index as int,
                ParamMessage { param_index: index, value },
                (0, 0),
            ),
            final(self).osc_sender.id == old(self).osc_sender.id,
            final(self).sample_rate == old(self).sample_rate,
            final(self).entries == old(self).entries,
            final(self).entry_index == old(self).entry_index,
            final(self).phase == old(self).phase,
            final(self).midi_pitch == old(self).midi_pitch,
    {
        self.send_param(ParamMessage { param_index: index, value }, (0, 0));
    }

    /// Drain the whole queue for transmission; the queue is empty afterwards
    /// whatever becomes of the batch.
    pub fn flush_midi_events(&mut self) -> (batch: Vec<OutgoingOsc>)
        ensures
            final(self).osc_sender@ == Seq::<OscMsgView>::empty(),
            batch.deep_view() == old(self).osc_sender@,
            final(self).osc_sender.id == old(self).osc_sender.id,
            final(self).sample_rate == old(self).sample_rate,
            final(self).entries == old(self).entries,
            final(self).entry_index == old(self).entry_index,
            final(self).phase == old(self).phase,
            final(self).midi_pitch == old(self).midi_pitch,
    {
        self.osc_sender.flush()
    }
}

/// An event's block-relative sample offset as nanoseconds:
/// `frames * 10^9 / rate`.
pub fn frames_to_nanos(delta_frames: u32, sample_rate: u32) -> (ns: u64)
    requires
        sample_rate > 0,
    ensures
        ns == (delta_frames as int) * 1_000_000_000 / (sample_rate as int),
{
    ((delta_frames as u64) * 1_000_000_000) / (sample_rate as u64)
}

/// Unix seconds plus a sub-second nanosecond offset as an NTP timestamp:
/// `seconds + 2208988800` (truncated to 32 bits, as NTP wraps), and the
/// fraction `nanos * 2^32 / 10^10`.
pub fn get_time(unix_sec: u64, nanos: u64) -> (t: (u32, u32))
    requires
        unix_sec + NTP_EPOCH_DELTA <= u64::MAX,
        nanos < 10_000_000_000,
    ensures
        t.0 == ((unix_sec + NTP_EPOCH_DELTA) % 0x1_0000_0000) as u32,
        t.1 == (nanos as int) * 0x1_0000_0000 / 10_000_000_000,
{
    let sec = ((unix_sec + NTP_EPOCH_DELTA) % 0x1_0000_0000) as u32;
    proof {
        assert((nanos as int) * 0x1_0000_0000 / 10_000_000_000 < 0x1_0000_0000) by (nonlinear_arith)
            requires
                nanos < 10_000_000_000,
        ;
        assert((nanos as int) * 0x1_0000_0000 / 10_000_000_000 >= 0) by (nonlinear_arith)
            requires
                nanos < 10_000_000_000,
        ;
    }
    let frac = (((nanos as u128) * 0x1_0000_0000u128) / 10_000_000_000u128) as u32;
    (sec, frac)
}

/// A `Param`-typed entry suppresses note and per-voice controller messages
/// entirely: nothing is queued for them.
pub proof fn lemma_param_entry_suppresses(
    entries: Seq<Entry>,
    entry_index: int,
    phase: u32,
    nm: NoteMessage,
    cm: ChannelMessage,
    t: (u32, u32),
)
    requires
        0 <= entry_index < entries.len(),
        entries[entry_index].entry_type == crate::config::EntryType::Param,
    ensures
        spec_note_emit(entries, entry_index, phase, nm, t) == Seq::<OscMsgView>::empty(),
        spec_channel_emit(entries, entry_index, cm, t) == Seq::<OscMsgView>::empty(),
{
}

/// Under a `Param`-typed entry the orchestrator queues nothing at all,
/// whatever MIDI message arrives: suppression happens before any queue
/// insertion.
pub proof fn lemma_param_entry_suppresses_all(
    entries: Seq<Entry>,
    entry_index: int,
    phase: u32,
    st: MidiPitchView,
    m: MessageView,
    t: (u32, u32),
)
    requires
        0 <= entry_index < entries.len(),
        entries[entry_index].entry_type == crate::config::EntryType::Param,
        st.wf(),
        spec_channel_ok(m),
    ensures
        spec_process(entries, entry_index, phase, st, m, t) == Seq::<OscMsgView>::empty(),
{
    assert(spec_id(entries, entry_index, 0, 0) is DoNotSend);
    match m {
        MessageView::NoteOn { channel, key, velocity } => {
            assert(spec_process(entries, entry_index, phase, st, m, t) =~= Seq::<
                OscMsgView,
            >::empty());
        },
        _ => {},
    }
}

/// An out-of-order bend: a pitch bend processed while its channel is silent
/// emits nothing and parks the bend; the next note-on on that channel emits
/// the parked pitch exactly once — as the pitch message of its emission —
/// and moves the channel to `On(key)`.
pub proof fn lemma_bend_before_note(
    entries: Seq<Entry>,
    entry_index: int,
    phase: u32,
    st: MidiPitchView,
    channel: u8,
    raw: u16,
    key: u8,
    velocity: u8,
    t1: (u32, u32),
    t2: (u32, u32),
)
    requires
        st.wf(),
        channel < 16,
        st.keys[channel as int] is Off,
    ensures
        ({
            let bend_msg = MessageView::PitchBend { channel, value: raw };
            let note_msg = MessageView::NoteOn { channel, key, velocity };
            let st1 = spec_track(st, bend_msg);
            let bend = spec_bend_num(st, raw);
            &&& spec_process(entries, entry_index, phase, st, bend_msg, t1) == Seq::<
                OscMsgView,
            >::empty()
            &&& st1.keys[channel as int] == NoteStatus::PendingBend(bend as i64)
            &&& spec_process(entries, entry_index, phase, st1, note_msg, t2)
                == spec_channel_emit(entries, entry_index, ChannelMessage {
                channel_type: ChannelType::Pitch,
                channel,
                key,
                value: FloatArg::Fixed(spec_pitch_num(key, bend as i64 as int) as i64),
            }, t2) + spec_note_emit(entries, entry_index, phase, NoteMessage {
                note_on: true,
                channel,
                key,
                velocity,
            }, t2)
            &&& spec_track(st1, note_msg).keys[channel as int] == NoteStatus::On(key)
        }),
{
}

} // verus!
