use vstd::prelude::*;
use vstd::string::StringSliceAdditionalSpecFns;

verus! {

/// Line speed used for every connection.
pub const BAUD_RATE: u32 = 115200;

/// Read timeout configured on an opened port, in milliseconds.
pub const READ_TIMEOUT_MS: u64 = 100;

/// Total time a readiness handshake may take, in milliseconds.
pub const HANDSHAKE_BOUND_MS: u64 = 3000;

/// Wait between writing a probe and reading the answer, in milliseconds.
pub const SETTLE_MS: u64 = 100;

/// Wait before repeating an unanswered probe, in milliseconds.
pub const RETRY_DELAY_MS: u64 = 200;

/// Probe rounds after which a silent peer has certainly timed out: each round
/// takes at least `SETTLE_MS`.
pub const MAX_SILENT_ROUNDS: u64 = 30;

#[derive(Clone, Copy, Debug, PartialEq, Eq, Structural)]
pub enum SerialError {
    /// A port is already held by the session.
    AlreadyConnected,
    /// No port is held by the session.
    NotConnected,
    /// The peer did not answer the readiness probes in time.
    HandshakeTimeout,
    /// The device could not be opened, read or written.
    DeviceUnavailable,
}

/// Whether the readiness handshake runs before every send, or once per connection.
#[derive(Clone, Copy, Debug, PartialEq, Eq, Structural)]
pub enum HandshakePolicy {
    EverySend,
    OncePerConnection,
}

/// What to do after a probe round of the handshake.
#[derive(Clone, Copy, Debug, PartialEq, Eq, Structural)]
pub enum HandshakeStep {
    /// The peer answered: it is ready.
    Ready,
    /// No answer yet: wait `RETRY_DELAY_MS` and probe again.
    Retry,
    /// No answer within `HANDSHAKE_BOUND_MS`: give up.
    TimedOut,
}

/// The decision after a probe round that ended `elapsed_ms` after the
/// handshake began and read `bytes_read` bytes.
pub open spec fn handshake_model(elapsed_ms: u64, bytes_read: usize) -> HandshakeStep {
    if bytes_read > 0 {
        HandshakeStep::Ready
    } else if elapsed_ms >= HANDSHAKE_BOUND_MS {
        HandshakeStep::TimedOut
    } else {
        HandshakeStep::Retry
    }
}

/// Decides the next step of the handshake after a probe round: any bytes read
/// mean the peer is ready; silence past the bound is a timeout.
pub fn handshake_step(elapsed_ms: u64, bytes_read: usize) -> (r: HandshakeStep)
    ensures
        r == handshake_model(elapsed_ms, bytes_read),
{
    if bytes_read > 0 {
        HandshakeStep::Ready
    } else if elapsed_ms >= HANDSHAKE_BOUND_MS {
        HandshakeStep::TimedOut
    } else {
        HandshakeStep::Retry
    }
}

/// What happened in the last step of a send, as reported to the session.
#[derive(Clone, Copy, Debug, PartialEq, Eq)]
pub enum SendEvent {
    /// The readiness handshake ended with this step (never `Retry`).
    HandshakeEnded(HandshakeStep),
    /// Writing the framed message completed (`true`) or failed (`false`).
    Written(bool),
    /// The port failed while probing the peer.
    DeviceFailed,
}

/// What a send does next.
#[derive(Clone, Copy, Debug, PartialEq, Eq)]
pub enum SendAction {
    /// Run the readiness handshake on the held port.
    Handshake,
    /// Write the framed message on the held port.
    Write,
    /// The send is over, with this result.
    Done(Result<(), SerialError>),
}

/// A silent peer times out at about the bound: never before `HANDSHAKE_BOUND_MS`
/// has passed, and at the latest in round `MAX_SILENT_ROUNDS`, given that
/// round `i` (from 0) ends at `rounds[i]` ms, at least `(i + 1) * SETTLE_MS`
/// after the start.
pub proof fn lemma_silent_handshake_times_out(rounds: Seq<u64>)
    requires
        rounds.len() >= MAX_SILENT_ROUNDS,
        forall|i: int| 0 <= i < rounds.len() ==> rounds[i] >= (i + 1) * SETTLE_MS,
    ensures
        forall|i: int|
            0 <= i < rounds.len() ==> (#[trigger] handshake_model(rounds[i], 0) == HandshakeStep::TimedOut
                <==> rounds[i] >= HANDSHAKE_BOUND_MS),
        forall|i: int|
            0 <= i < rounds.len() && rounds[i] < HANDSHAKE_BOUND_MS ==> #[trigger] handshake_model(
                rounds[i],
                0,
            ) == HandshakeStep::Retry,
        handshake_model(rounds[MAX_SILENT_ROUNDS - 1], 0) == HandshakeStep::TimedOut,
{
    assert(rounds[MAX_SILENT_ROUNDS - 1] >= MAX_SILENT_ROUNDS * SETTLE_MS);
}

/// The bytes written for a command: the message, then a newline.
pub fn frame_message(message: &str) -> (r: Vec<u8>)
    ensures
        r@ == message.spec_bytes().push(10u8),
{
    let bytes = message.as_bytes();
    let mut out: Vec<u8> = Vec::new();
    let mut i: usize = 0;
    while i < bytes.len()
        invariant
            i <= bytes@.len(),
            bytes@ == message.spec_bytes(),
            out@ == bytes@.subrange(0, i as int),
        decreases bytes@.len() - i,
    {
        out.push(bytes[i]);
        i = i + 1;
    }
    out.push(10u8);
    assert(out@ =~= message.spec_bytes().push(10u8));
    out
}

/// At most one open port, of type `P`, with the handshake policy and whether
/// the peer has answered a handshake on the current connection.
pub struct SerialSession<P> {
    port: Option<P>,
    ready: bool,
    policy: HandshakePolicy,
}

impl<P> SerialSession<P> {
    pub closed spec fn port(&self) -> Option<P> {
        self.port
    }

    pub open spec fn connected(&self) -> bool {
        self.port().is_some()
    }

    /// The peer answered a handshake since the port was connected.
    pub closed spec fn verified(&self) -> bool {
        self.ready
    }

    pub closed spec fn policy(&self) -> HandshakePolicy {
        self.policy
    }

    /// A readiness mark only ever belongs to a held connection.
    pub closed spec fn wf(&self) -> bool {
        self.ready ==> self.port.is_some()
    }

    pub fn new(policy: HandshakePolicy) -> (r: SerialSession<P>)
        ensures
            r.wf(),
            !r.connected(),
            !r.verified(),
            r.policy() == policy,
    {
        SerialSession { port: None, ready: false, policy }
    }

    pub fn is_connected(&self) -> (r: bool)
        ensures
            r == self.connected(),
    {
        self.port.is_some()
    }

    /// Holds `port` as the session's connection. Fails with `AlreadyConnected`,
    /// leaving the session as it was, when a port is already held.
    pub fn connect(&mut self, port: P) -> (r: Result<(), SerialError>)
        requires
            old(self).wf(),
        ensures
            final(self).wf(),
            final(self).policy() == old(self).policy(),
            (final(self).port(), r) == connect_model(old(self).port(), port),
            old(self).connected() ==> final(self).verified() == old(self).verified(),
            !old(self).connected() ==> !final(self).verified(),
    {
        if self.port.is_some() {
            Err(SerialError::AlreadyConnected)
        } else {
            self.port = Some(port);
            self.ready = false;
            Ok(())
        }
    }

    /// Releases the held port and hands it back, to be closed. Fails with
    /// `NotConnected` when no port is held.
    pub fn disconnect(&mut self) -> (r: Result<P, SerialError>)
        requires
            old(self).wf(),
        ensures
            final(self).wf(),
            final(self).policy() == old(self).policy(),
            !final(self).connected(),
            !final(self).verified(),
            !old(self).connected() ==> r == Err::<P, SerialError>(SerialError::NotConnected),
            old(self).connected() ==> r == Ok::<P, SerialError>(old(self).port().unwrap()),
    {
        self.ready = false;
        match self.port.take() {
            Some(p) => Ok(p),
            None => Err(SerialError::NotConnected),
        }
    }

    /// The first step of a send: done with `NotConnected` when no port is held,
    /// without any I/O; else the handshake when the policy asks for one, or
    /// straight to the write.
    pub fn begin_send(&self) -> (r: SendAction)
        ensures
            !self.connected() ==> r == SendAction::Done(Err(SerialError::NotConnected)),
            self.connected() ==> r == (if self.policy() == HandshakePolicy::EverySend
                || !self.verified() {
                SendAction::Handshake
            } else {
                SendAction::Write
            }),
    {
        if self.port.is_none() {
            SendAction::Done(Err(SerialError::NotConnected))
        } else if self.policy == HandshakePolicy::EverySend || !self.ready {
            SendAction::Handshake
        } else {
            SendAction::Write
        }
    }

    /// The next step of a send after `event`. A handshake that found the peer
    /// ready is remembered for the connection and leads to the write; one that
    /// timed out ends the send with `HandshakeTimeout` and nothing written. A
    /// failed write or probe ends it with `DeviceUnavailable`. The port stays
    /// held whatever happened.
    pub fn send_step(&mut self, event: SendEvent) -> (r: SendAction)
        requires
            old(self).wf(),
            old(self).connected(),
            event != SendEvent::HandshakeEnded(HandshakeStep::Retry),
        ensures
            final(self).wf(),
            final(self).port() == old(self).port(),
            final(self).policy() == old(self).policy(),
            event == SendEvent::HandshakeEnded(HandshakeStep::Ready) ==> r == SendAction::Write
                && final(self).verified(),
            event != SendEvent::HandshakeEnded(HandshakeStep::Ready) ==> final(self).verified()
                == old(self).verified(),
            event == SendEvent::HandshakeEnded(HandshakeStep::TimedOut) ==> r == SendAction::Done(
                Err(SerialError::HandshakeTimeout),
            ),
            event == SendEvent::DeviceFailed ==> r == SendAction::Done(
                Err(SerialError::DeviceUnavailable),
            ),
            event == SendEvent::Written(true) ==> r == SendAction::Done(Ok(())),
            event == SendEvent::Written(false) ==> r == SendAction::Done(
                Err(SerialError::DeviceUnavailable),
            ),
    {
        match event {
            SendEvent::HandshakeEnded(HandshakeStep::Ready) => {
                self.ready = true;
                SendAction::Write
            },
            SendEvent::HandshakeEnded(_) => SendAction::Done(Err(SerialError::HandshakeTimeout)),
            SendEvent::Written(true) => SendAction::Done(Ok(())),
            SendEvent::Written(false) => SendAction::Done(Err(SerialError::DeviceUnavailable)),
            SendEvent::DeviceFailed => SendAction::Done(Err(SerialError::DeviceUnavailable)),
        }
    }

    /// The held port, to run the handshake and write the message on.
    pub fn port_mut(&mut self) -> (r: Option<&mut P>)
        requires
            old(self).wf(),
        ensures
            final(self).wf(),
            final(self).connected() == old(self).connected(),
            final(self).verified() == old(self).verified(),
            final(self).policy() == old(self).policy(),
            r.is_some() == old(self).connected(),
            r.is_some() ==> *r.unwrap() == old(self).port().unwrap(),
    {
        self.port.as_mut()
    }
}

/// The held port and result after `connect` of `port`: a held port stays and
/// the call fails with `AlreadyConnected`; otherwise `port` is held.
pub open spec fn connect_model<P>(held: Option<P>, port: P) -> (Option<P>, Result<(), SerialError>) {
    match held {
        Some(p) => (Some(p), Err(SerialError::AlreadyConnected)),
        None => (Some(port), Ok(())),
    }
}

/// Connect is exclusive: from a disconnected session, connecting `first` and
/// then `second` without a disconnect between fails the second call with
/// `AlreadyConnected`, and `first` stays held.
pub proof fn lemma_second_connect_fails<P>(first: P, second: P)
    ensures
        connect_model(None, first) == (Some(first), Ok::<(), SerialError>(())),
        connect_model(connect_model(None, first).0, second) == (
            Some(first),
            Err::<(), SerialError>(SerialError::AlreadyConnected),
        ),
{
}

} // verus!
