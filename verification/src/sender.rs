//! Resolution of hierarchical OSC addresses.
//!
//! An address is assembled from path segments, each rendered as `/<value>`.
//! The base segment names the selected configuration entry (or its numeric
//! index when unconfigured), the identity segment names the voice according
//! to the entry type, and note, controller and parameter leaves follow.  A
//! `Param`-typed (or otherwise unroutable) entry resolves the identity to
//! "do not send": such a message is suppressed before anything is queued.

use vstd::prelude::*;

use crate::config::Entry;
use crate::config::EntryType;
use crate::config::spec_lookup;
use crate::config::lookup_key;
use crate::decimal::spec_decimal;
use crate::decimal::u64_to_string;
use crate::osc::FloatArg;

verus! {

/// The per-voice continuous controllers a channel message can carry.
#[derive(Debug, Clone, Copy, PartialEq, Eq, Structural)]
pub enum ChannelType {
    Pitch,
    Pressure,
    Timbre,
    Pan,
}

impl ChannelType {
    /// The controller's name as it appears in an address.
    pub open spec fn spec_name(self) -> Seq<char> {
        match self {
            ChannelType::Pitch => "pitch"@,
            ChannelType::Pressure => "press"@,
            ChannelType::Timbre => "timbre"@,
            ChannelType::Pan => "pan"@,
        }
    }

    /// The controller's name as it appears in an address.
    pub fn name(&self) -> (r: &'static str)
        ensures
            r@ == self.spec_name(),
    {
        match self {
            ChannelType::Pitch => "pitch",
            ChannelType::Pressure => "press",
            ChannelType::Timbre => "timbre",
            ChannelType::Pan => "pan",
        }
    }

    /// The segment this controller contributes to an address: `/<name>`.
    pub fn path(&self) -> (r: &'static str)
        ensures
            r@ == spec_segment(AddressNodeView::Ch(*self)),
    {
        proof {
            reveal_strlit("pitch");
            reveal_strlit("press");
            reveal_strlit("timbre");
            reveal_strlit("pan");
            reveal_strlit("/pitch");
            reveal_strlit("/press");
            reveal_strlit("/timbre");
            reveal_strlit("/pan");
            assert("/pitch"@ =~= seq!['/'] + "pitch"@);
            assert("/press"@ =~= seq!['/'] + "press"@);
            assert("/timbre"@ =~= seq!['/'] + "timbre"@);
            assert("/pan"@ =~= seq!['/'] + "pan"@);
        }
        match self {
            ChannelType::Pitch => "/pitch",
            ChannelType::Pressure => "/press",
            ChannelType::Timbre => "/timbre",
            ChannelType::Pan => "/pan",
        }
    }
}

/// A note-on or note-off heading for the translation pipeline.
#[derive(Debug, Clone, Copy, PartialEq, Eq, Structural)]
pub struct NoteMessage {
    pub note_on: bool,
    pub channel: u8,
    pub key: u8,
    /// Raw 7-bit MIDI velocity; emitted as the float `velocity / 128`.
    pub velocity: u8,
}

/// A per-voice continuous-controller value.
#[derive(Debug, Clone, Copy, PartialEq, Eq, Structural)]
pub struct ChannelMessage {
    pub channel_type: ChannelType,
    pub channel: u8,
    pub key: u8,
    pub value: FloatArg,
}

/// A generic parameter value.
#[derive(Debug, Clone, Copy, PartialEq, Eq, Structural)]
pub struct ParamMessage {
    pub param_index: usize,
    pub value: FloatArg,
}

/// One path segment of an OSC address.
#[derive(Debug, Clone, PartialEq, Eq)]
pub enum AddressNode {
    /// A configured name.
    Name(String),
    /// A numeric fallback.
    Num(u64),
    /// A controller name.
    Ch(ChannelType),
    /// No segment (a mono voice needs no identity).
    Empty,
    /// Identity resolution failed hard: suppress the whole message.
    DoNotSend,
}

/// The mathematical value of an [`AddressNode`].
pub enum AddressNodeView {
    Name(Seq<char>),
    Num(u64),
    Ch(ChannelType),
    Empty,
    DoNotSend,
}

impl View for AddressNode {
    type V = AddressNodeView;

    open spec fn view(&self) -> AddressNodeView {
        match self {
            AddressNode::Name(s) => AddressNodeView::Name(s@),
            AddressNode::Num(x) => AddressNodeView::Num(*x),
            AddressNode::Ch(c) => AddressNodeView::Ch(*c),
            AddressNode::Empty => AddressNodeView::Empty,
            AddressNode::DoNotSend => AddressNodeView::DoNotSend,
        }
    }
}

/// The characters a segment contributes to an address: `/<value>`, or
/// nothing for the empty and suppressed segments.
pub open spec fn spec_segment(n: AddressNodeView) -> Seq<char> {
    match n {
        AddressNodeView::Name(s) => seq!['/'] + s,
        AddressNodeView::Num(x) => seq!['/'] + spec_decimal(x as nat),
        AddressNodeView::Ch(c) => seq!['/'] + c.spec_name(),
        AddressNodeView::Empty => Seq::empty(),
        AddressNodeView::DoNotSend => Seq::empty(),
    }
}

/// The base segment of the selected entry: its configured address, or the
/// numeric entry index when no entry is configured there.
pub open spec fn spec_base(entries: Seq<Entry>, entry_index: int) -> AddressNodeView {
    if 0 <= entry_index < entries.len() {
        AddressNodeView::Name(entries[entry_index].address@)
    } else {
        AddressNodeView::Num(entry_index as u64)
    }
}

/// The identity segment for a (channel, key) pair under the selected entry:
/// mono voices have none, polyphonic voices are named by channel, drum
/// entries by the configured key name (or the raw key number as fallback),
/// and a `Param` entry suppresses the message.
pub open spec fn spec_id(entries: Seq<Entry>, entry_index: int, channel: u8, key: u8)
    -> AddressNodeView {
    if 0 <= entry_index < entries.len() {
        match entries[entry_index].entry_type {
            EntryType::Mono => AddressNodeView::Empty,
            EntryType::Poly => AddressNodeView::Num(channel as u64),
            EntryType::Drum => match entries[entry_index].keys {
                Option::Some(ks) => match spec_lookup(ks@, key) {
                    Some(name) => AddressNodeView::Name(name),
                    None => AddressNodeView::Num(key as u64),
                },
                Option::None => AddressNodeView::Num(key as u64),
            },
            EntryType::Param => AddressNodeView::DoNotSend,
        }
    } else {
        AddressNodeView::Empty
    }
}

/// The parameter segment: the configured parameter name at the index, or the
/// numeric index as fallback.
pub open spec fn spec_param_node(entries: Seq<Entry>, entry_index: int, param_index: int)
    -> AddressNodeView {
    if 0 <= entry_index < entries.len() && 0 <= param_index
        < entries[entry_index].params.len() {
        AddressNodeView::Name(entries[entry_index].params[param_index]@)
    } else {
        AddressNodeView::Num(param_index as u64)
    }
}

/// A full address under the `/oscify` namespace: two segments and a leaf.
pub open spec fn spec_address(a: AddressNodeView, b: AddressNodeView, tail: Seq<char>)
    -> Seq<char> {
    "/oscify"@ + spec_segment(a) + spec_segment(b) + tail
}

/// A generic-parameter address: the base segment, then the `/param`
/// namespace, then the parameter segment.
pub open spec fn spec_param_address(base: AddressNodeView, pnode: AddressNodeView)
    -> Seq<char> {
    "/oscify"@ + spec_segment(base) + "/param"@ + spec_segment(pnode)
}

impl AddressNode {
    /// Whether a message routed through this identity segment may be sent at
    /// all.
    pub fn should_send(&self) -> (r: bool)
        ensures
            r == !(self@ is DoNotSend),
    {
        match self {
            AddressNode::DoNotSend => false,
            _ => true,
        }
    }

    /// The base segment for the entry selected at `entry_index`.
    pub fn base(entry: Option<&Entry>, entry_index: usize) -> (r: AddressNode)
        ensures
            (match entry {
                Option::Some(e) => r@ == AddressNodeView::Name(e.address@),
                Option::None => r@ == AddressNodeView::Num(entry_index as u64),
            }),
    {
        match entry {
            Option::Some(e) => AddressNode::Name(e.address.clone()),
            Option::None => AddressNode::Num(entry_index as u64),
        }
    }

    /// The identity segment for a (channel, key) pair under the selected
    /// entry.
    pub fn id(entry: Option<&Entry>, channel: u8, key: u8) -> (r: AddressNode)
        ensures
            (match entry {
                Option::Some(e) => (match e.entry_type {
                    EntryType::Mono => r@ == AddressNodeView::Empty,
                    EntryType::Poly => r@ == AddressNodeView::Num(channel as u64),
                    EntryType::Drum => (match e.keys {
                        Option::Some(ks) => (match spec_lookup(ks@, key) {
                            Some(name) => r@ == AddressNodeView::Name(name),
                            None => r@ == AddressNodeView::Num(key as u64),
                        }),
                        Option::None => r@ == AddressNodeView::Num(key as u64),
                    }),
                    EntryType::Param => r@ == AddressNodeView::DoNotSend,
                }),
                Option::None => r@ == AddressNodeView::Empty,
            }),
    {
        match entry {
            Option::Some(e) => match e.entry_type {
                EntryType::Mono => AddressNode::Empty,
                EntryType::Poly => AddressNode::Num(channel as u64),
                EntryType::Drum => match &e.keys {
                    Option::Some(ks) => match lookup_key(ks, key) {
                        Some(name) => AddressNode::Name(name.clone()),
                        None => AddressNode::Num(key as u64),
                    },
                    Option::None => AddressNode::Num(key as u64),
                },
                EntryType::Param => AddressNode::DoNotSend,
            },
            Option::None => AddressNode::Empty,
        }
    }

    /// The parameter segment for `param_index` under the selected entry.
    pub fn param(entry: Option<&Entry>, param_index: usize) -> (r: AddressNode)
        ensures
            (match entry {
                Option::Some(e) => {
                    if 0 <= param_index < e.params@.len() {
                        r@ == AddressNodeView::Name(e.params@[param_index as int]@)
                    } else {
                        r@ == AddressNodeView::Num(param_index as u64)
                    }
                },
                Option::None => r@ == AddressNodeView::Num(param_index as u64),
            }),
    {
        match entry {
            Option::Some(e) => {
                if param_index < e.params.len() {
                    AddressNode::Name(e.params[param_index].clone())
                } else {
                    AddressNode::Num(param_index as u64)
                }
            },
            Option::None => AddressNode::Num(param_index as u64),
        }
    }

    /// Render this segment as `/<value>` (the empty and suppressed segments
    /// contribute nothing).
    pub fn to_segment(&self) -> (s: String)
        ensures
            s@ == spec_segment(self@),
    {
        proof {
            reveal_strlit("/");
        }
        match self {
            AddressNode::Name(x) => {
                let mut s = "/".to_owned();
                s.append(x.as_str());
                proof {
                    assert(s@ =~= spec_segment(self@));
                }
                s
            },
            AddressNode::Num(x) => {
                let mut s = "/".to_owned();
                s.append(u64_to_string(*x).as_str());
                proof {
                    assert(s@ =~= spec_segment(self@));
                }
                s
            },
            AddressNode::Ch(c) => {
                let mut s = "/".to_owned();
                s.append(c.name());
                proof {
                    assert(s@ =~= spec_segment(self@));
                }
                s
            },
            AddressNode::Empty => {
                let s = String::new();
                proof {
                    assert(s@ =~= spec_segment(self@));
                }
                s
            },
            AddressNode::DoNotSend => {
                let s = String::new();
                proof {
                    assert(s@ =~= spec_segment(self@));
                }
                s
            },
        }
    }
}

/// A drum entry without a key-name table names the voice by the raw key
/// number, not by an error.
pub proof fn lemma_drum_without_table_uses_key_number(
    entries: Seq<Entry>,
    entry_index: int,
    channel: u8,
    key: u8,
)
    requires
        0 <= entry_index < entries.len(),
        entries[entry_index].entry_type == EntryType::Drum,
        entries[entry_index].keys is None,
    ensures
        spec_id(entries, entry_index, channel, key) == AddressNodeView::Num(key as u64),
{
}

/// Assemble `/oscify<a><b><tail>`.
pub fn assemble(a: &AddressNode, b: &AddressNode, tail: &str) -> (s: String)
    ensures
        s@ == spec_address(a@, b@, tail@),
{
    let mut s = "/oscify".to_owned();
    s.append(a.to_segment().as_str());
    s.append(b.to_segment().as_str());
    s.append(tail);
    proof {
        assert(s@ =~= spec_address(a@, b@, tail@));
    }
    s
}

/// Assemble `/oscify<base>/param<pnode>`.
pub fn assemble_param(base: &AddressNode, pnode: &AddressNode) -> (s: String)
    ensures
        s@ == spec_param_address(base@, pnode@),
{
    let mut s = "/oscify".to_owned();
    s.append(base.to_segment().as_str());
    s.append("/param");
    s.append(pnode.to_segment().as_str());
    proof {
        assert(s@ =~= spec_param_address(base@, pnode@));
    }
    s
}

} // verus!
