//! The link-play transport seam: the error type the library reasons about, the
//! message transport interface the trade state machine drives, and an
//! in-memory connected pair built on the engine's channel transport.

use vstd::prelude::*;

use dotzuki_engine::link::ChannelTransport as EngineChannel;
use dotzuki_engine::link::NetworkTransport as EngineTransport;
use dotzuki_engine::link::TransportError as EngineTransportError;

verus! {

/// Errors a transport can report.
#[derive(Debug, Clone, PartialEq, Eq)]
pub enum TransportError {
    /// The peer is gone (socket closed, channel dropped, ...).
    Disconnected,
    /// The operation timed out.
    Timeout,
    /// The message could not be (de)serialized on the wire.
    SerializationError(String),
    /// An underlying I/O failure, or a refused operation.
    IoError(String),
}

/// The human-readable text of a transport error.
pub open spec fn spec_transport_text(e: TransportError) -> Seq<char> {
    match e {
        TransportError::Disconnected => "peer disconnected"@,
        TransportError::Timeout => "operation timed out"@,
        TransportError::SerializationError(m) => "serialization error: "@ + m@,
        TransportError::IoError(m) => "I/O error: "@ + m@,
    }
}

impl TransportError {
    /// The human-readable text of the error.
    pub fn message(&self) -> (s: String)
        ensures
            s@ == spec_transport_text(*self),
    {
        match self {
            TransportError::Disconnected => String::from_str("peer disconnected"),
            TransportError::Timeout => String::from_str("operation timed out"),
            TransportError::SerializationError(e) => {
                String::from_str("serialization error: ").concat(e.as_str())
            },
            TransportError::IoError(e) => String::from_str("I/O error: ").concat(e.as_str()),
        }
    }
}

/// A bidirectional message transport for link play: `recv` blocks until a
/// message or a failure arrives, `try_recv` never blocks (`Ok(None)` when
/// nothing is pending).
///
/// Every transport keeps three abstract logs: each message handed to `send`
/// (`attempted`), the outcome of each of those sends (`send_results`, the
/// same length), and the outcome of each receive (`polled`; a blocking
/// `recv` that returns a message is logged as `Ok(Some(..))`).
pub trait NetworkTransport<M> {
    spec fn attempted(&self) -> Seq<M>;

    spec fn send_results(&self) -> Seq<Result<(), TransportError>>;

    spec fn polled(&self) -> Seq<Result<Option<M>, TransportError>>;

    /// Send one message; the attempt and its outcome are logged.
    fn send(&mut self, msg: M) -> (r: Result<(), TransportError>)
        ensures
            final(self).attempted() == old(self).attempted().push(msg),
            final(self).send_results() == old(self).send_results().push(r),
            final(self).polled() == old(self).polled(),
    ;

    /// Block until a message arrives or the connection fails.
    fn recv(&mut self) -> (r: Result<M, TransportError>)
        ensures
            final(self).attempted() == old(self).attempted(),
            final(self).send_results() == old(self).send_results(),
            final(self).polled() == old(self).polled().push(recv_outcome(r)),
    ;

    /// Non-blocking receive: `Ok(None)` when nothing is pending.
    fn try_recv(&mut self) -> (r: Result<Option<M>, TransportError>)
        ensures
            final(self).attempted() == old(self).attempted(),
            final(self).send_results() == old(self).send_results(),
            final(self).polled() == old(self).polled().push(r),
    ;
}

/// A blocking receive's outcome as logged in `polled`.
pub open spec fn recv_outcome<M>(r: Result<M, TransportError>) -> Result<Option<M>, TransportError> {
    match r {
        Ok(m) => Ok(Some(m)),
        Err(e) => Err(e),
    }
}

/// Exactly one `send`, of `msg`, happened between `t` and `t2`, with outcome
/// `r`.
pub open spec fn sent_once<M, T: NetworkTransport<M>>(t: T, t2: T, msg: M, r: Result<(), TransportError>) -> bool {
    &&& t2.attempted() == t.attempted().push(msg)
    &&& t2.send_results() == t.send_results().push(r)
}

/// Nothing was handed to `send` between `t` and `t2`.
pub open spec fn sends_unchanged<M, T: NetworkTransport<M>>(t: T, t2: T) -> bool {
    &&& t2.attempted() == t.attempted()
    &&& t2.send_results() == t.send_results()
}

#[verifier::external_type_specification]
#[verifier::external_body]
#[verifier::reject_recursive_types(M)]
pub struct ExEngineChannel<M>(EngineChannel<M>);

#[verifier::external_type_specification]
#[verifier::external_body]
pub struct ExEngineTransportError(EngineTransportError);

/// Converts the engine's transport error into the library's, variant for
/// variant (`dotzuki_engine::link::TransportError`).
#[verifier::external_body]
fn from_engine_error(e: EngineTransportError) -> TransportError {
    match e {
        EngineTransportError::Disconnected => TransportError::Disconnected,
        EngineTransportError::Timeout => TransportError::Timeout,
        EngineTransportError::SerializationError(s) => TransportError::SerializationError(s),
        EngineTransportError::IoError(s) => TransportError::IoError(s),
    }
}

/// `dotzuki_engine::link::ChannelTransport::new_pair`: two connected ends of
/// one in-memory link (mpsc channels). Nothing is stated of the pair beyond
/// its existence.
#[verifier::external_body]
fn engine_channel_pair<M>() -> (EngineChannel<M>, EngineChannel<M>) {
    EngineChannel::new_pair()
}

/// `ChannelTransport::send` (an mpsc `Sender::send`): succeeds, or reports
/// `Disconnected` once the other end of the pair is dropped.
#[verifier::external_body]
fn engine_channel_send<M>(t: &mut EngineChannel<M>, msg: M) -> (r: Result<(), TransportError>)
    ensures
        r matches Err(e) ==> e is Disconnected,
{
    EngineTransport::send(t, msg).map_err(from_engine_error)
}

/// `ChannelTransport::recv` (an mpsc `Receiver::recv`): the next message, or
/// `Disconnected` once the other end is dropped and the queue is drained.
#[verifier::external_body]
fn engine_channel_recv<M>(t: &mut EngineChannel<M>) -> (r: Result<M, TransportError>)
    ensures
        r matches Err(e) ==> e is Disconnected,
{
    EngineTransport::recv(t).map_err(from_engine_error)
}

/// `ChannelTransport::try_recv` (an mpsc `Receiver::try_recv`): `Some`
/// message, `None` when the queue is empty, or `Disconnected`.
#[verifier::external_body]
fn engine_channel_try_recv<M>(t: &mut EngineChannel<M>) -> (r: Result<Option<M>, TransportError>)
    ensures
        r matches Err(e) ==> e is Disconnected,
{
    EngineTransport::try_recv(t).map_err(from_engine_error)
}

/// One end of an in-memory link connection (local play and tests). Dropping
/// one end makes the other report `Disconnected`, like a closed socket.
#[verifier::reject_recursive_types(M)]
pub struct ChannelTransport<M> {
    inner: EngineChannel<M>,
    attempted_log: Ghost<Seq<M>>,
    send_log: Ghost<Seq<Result<(), TransportError>>>,
    polled_log: Ghost<Seq<Result<Option<M>, TransportError>>>,
}

impl<M> ChannelTransport<M> {
    /// Create a connected pair: the two ends of one link connection, with
    /// nothing sent or received yet.
    pub fn new_pair() -> (r: (ChannelTransport<M>, ChannelTransport<M>))
        ensures
            r.0.attempted() == Seq::<M>::empty(),
            r.0.send_results() == Seq::<Result<(), TransportError>>::empty(),
            r.0.polled() == Seq::<Result<Option<M>, TransportError>>::empty(),
            r.1.attempted() == Seq::<M>::empty(),
            r.1.send_results() == Seq::<Result<(), TransportError>>::empty(),
            r.1.polled() == Seq::<Result<Option<M>, TransportError>>::empty(),
    {
        let (a, b) = engine_channel_pair();
        (
            ChannelTransport {
                inner: a,
                attempted_log: Ghost(Seq::empty()),
                send_log: Ghost(Seq::empty()),
                polled_log: Ghost(Seq::empty()),
            },
            ChannelTransport {
                inner: b,
                attempted_log: Ghost(Seq::empty()),
                send_log: Ghost(Seq::empty()),
                polled_log: Ghost(Seq::empty()),
            },
        )
    }
}

impl<M> NetworkTransport<M> for ChannelTransport<M> {
    closed spec fn attempted(&self) -> Seq<M> {
        self.attempted_log@
    }

    closed spec fn send_results(&self) -> Seq<Result<(), TransportError>> {
        self.send_log@
    }

    closed spec fn polled(&self) -> Seq<Result<Option<M>, TransportError>> {
        self.polled_log@
    }

    fn send(&mut self, msg: M) -> (r: Result<(), TransportError>)
        ensures
            r matches Err(e) ==> e is Disconnected,
    {
        let ghost m = msg;
        let r = engine_channel_send(&mut self.inner, msg);
        self.attempted_log = Ghost(self.attempted_log@.push(m));
        self.send_log = Ghost(self.send_log@.push(r));
        r
    }

    fn recv(&mut self) -> (r: Result<M, TransportError>)
        ensures
            r matches Err(e) ==> e is Disconnected,
    {
        let r = engine_channel_recv(&mut self.inner);
        self.polled_log = Ghost(self.polled_log@.push(recv_outcome(r)));
        r
    }

    fn try_recv(&mut self) -> (r: Result<Option<M>, TransportError>)
        ensures
            r matches Err(e) ==> e is Disconnected,
    {
        let r = engine_channel_try_recv(&mut self.inner);
        self.polled_log = Ghost(self.polled_log@.push(r));
        r
    }
}

} // verus!
