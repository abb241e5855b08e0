//! Batching of outgoing OSC messages.
//!
//! The sender owns a queue of timestamped, typed messages.  `push` only
//! queues; `flush` drains the whole queue in one step and hands the batch to
//! the transport, so at most one datagram leaves per processing cycle.  The
//! transport itself — an encoder and a UDP socket — lives outside this crate;
//! here the port-scan policy and the queue discipline are stated and proved.

use vstd::prelude::*;

verus! {

/// The destination port OSC datagrams are sent to.
pub const TO_PORT: u16 = 9001;

/// The first local port the transport tries to bind.
pub const BASE_HOST_PORT: u16 = 9100;

/// How many consecutive ports the transport may try.
pub const PORT_SCAN_ATTEMPTS: u16 = 100;

/// A failure of the OSC transport.
#[derive(Debug, Clone, Copy, PartialEq, Eq, Structural)]
pub enum OscSendError {
    /// Every port in the scan range was already bound at construction.
    NoAvailablePort,
    /// The batch could not be encoded into a datagram.
    EncodingError,
    /// The datagram could not be sent.
    TransmissionError,
}

/// A floating-point OSC argument, kept exact: either a fixed-point number of
/// semitone ticks scaled by [`crate::midi_pitch::PITCH_FIXED_ONE`], or a raw
/// IEEE-754 bit pattern handed through from the host.
#[derive(Debug, Clone, Copy, PartialEq, Eq, Structural)]
pub enum FloatArg {
    Fixed(i64),
    Bits(u32),
}

/// One typed OSC argument.
#[derive(Debug, Clone, Copy, PartialEq, Eq, Structural)]
pub enum OscArg {
    Bool(bool),
    Int(i32),
    Float(FloatArg),
}

/// One queued OSC message: an address, one argument, and the NTP timestamp
/// of the bundle that will wrap it.
#[derive(Debug, Clone, PartialEq, Eq)]
pub struct OutgoingOsc {
    pub addr: String,
    pub arg: OscArg,
    pub sec: u32,
    pub frac: u32,
}

/// The mathematical value of an [`OutgoingOsc`].
#[verifier::ext_equal]
pub struct OscMsgView {
    pub addr: Seq<char>,
    pub arg: OscArg,
    pub sec: u32,
    pub frac: u32,
}

impl View for OutgoingOsc {
    type V = OscMsgView;

    open spec fn view(&self) -> OscMsgView {
        OscMsgView { addr: self.addr@, arg: self.arg, sec: self.sec, frac: self.frac }
    }
}

impl DeepView for OutgoingOsc {
    type V = OscMsgView;

    open spec fn deep_view(&self) -> OscMsgView {
        self.view()
    }
}

/// The batching sender: a queue of outgoing messages and the identifier of
/// the local port the transport bound (its offset in the scan range).
#[derive(Debug)]
pub struct OscSender {
    pub id: u16,
    pub queue: Vec<OutgoingOsc>,
}

impl View for OscSender {
    type V = Seq<OscMsgView>;

    open spec fn view(&self) -> Seq<OscMsgView> {
        self.queue.deep_view()
    }
}

impl OscSender {
    /// A sender with an empty queue, noting which scan offset the transport
    /// bound.
    pub fn new(id: u16) -> (r: Self)
        ensures
            r@ == Seq::<OscMsgView>::empty(),
            r.id == id,
    {
        let r = OscSender { id, queue: Vec::new() };
        proof {
            assert(r@ =~= Seq::<OscMsgView>::empty());
        }
        r
    }

    /// How many messages are queued.
    pub fn queue_len(&self) -> (n: usize)
        ensures
            n == self@.len(),
    {
        self.queue.len()
    }

    /// Queue one message wrapped with its timestamp.  No I/O happens here.
    pub fn push(&mut self, addr: String, arg: OscArg, t: (u32, u32))
        ensures
            final(self)@ == old(self)@.push(OscMsgView { addr: addr@, arg, sec: t.0, frac: t.1 }),
            final(self).id == old(self).id,
    {
        self.queue.push(OutgoingOsc { addr, arg, sec: t.0, frac: t.1 });
        proof {
            assert(self@ =~= old(self)@.push(OscMsgView { addr: addr@, arg, sec: t.0, frac: t.1 }));
        }
    }

    /// Drain the whole queue atomically and hand the batch out for
    /// transmission.  The queue is empty afterwards whatever the transport
    /// later does with the batch.
    pub fn flush(&mut self) -> (batch: Vec<OutgoingOsc>)
        ensures
            final(self)@ == Seq::<OscMsgView>::empty(),
            final(self).id == old(self).id,
            batch.deep_view() == old(self)@,
    {
        let mut out: Vec<OutgoingOsc> = Vec::new();
        core::mem::swap(&mut self.queue, &mut out);
        proof {
            assert(self@ =~= Seq::<OscMsgView>::empty());
        }
        out
    }
}

/// The port-scan policy: attempt `i` tries `BASE_HOST_PORT + i`, and the
/// scan gives up after [`PORT_SCAN_ATTEMPTS`] tries.
pub fn scan_port(attempt: u16) -> (r: Option<u16>)
    ensures
        r == (if attempt < PORT_SCAN_ATTEMPTS {
            Some((BASE_HOST_PORT + attempt) as u16)
        } else {
            None::<u16>
        }),
{
    if attempt < PORT_SCAN_ATTEMPTS {
        Some(BASE_HOST_PORT + attempt)
    } else {
        None
    }
}

/// Decide which local port the sender binds, given the outcome of each bind
/// attempt in the scan range: the first available port wins, and a fully
/// exhausted range is `NoAvailablePort`.
pub fn select_port(avail: &Vec<bool>) -> (r: Result<u16, OscSendError>)
    requires
        avail@.len() == PORT_SCAN_ATTEMPTS,
    ensures
        (match r {
            Ok(port) => exists|i: int|
                0 <= i < avail@.len() && avail@[i] && port == BASE_HOST_PORT + i && (forall|j: int|
                    0 <= j < i ==> !avail@[j]),
            Err(e) => e == OscSendError::NoAvailablePort && (forall|i: int|
                0 <= i < avail@.len() ==> !avail@[i]),
        }),
{
    let mut i: usize = 0;
    while i < avail.len()
        invariant
            0 <= i <= avail@.len(),
            avail@.len() == PORT_SCAN_ATTEMPTS,
            forall|j: int| 0 <= j < i ==> !avail@[j],
        decreases avail@.len() - i,
    {
        if avail[i] {
            return Ok(BASE_HOST_PORT + (i as u16));
        }
        i = i + 1;
    }
    Err(OscSendError::NoAvailablePort)
}

} // verus!
