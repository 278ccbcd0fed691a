//! The two ends of the statistics service: the broker, which runs with full
//! privilege and answers one command, and the agent, which the sandboxed
//! process holds.  Neither end touches the channel or the kernel: each says
//! what is to be done next, and is told what came of it.

use crate::codec::{decode, decoding, encode, encoding, lemma_decoding_of_encoding, ENCODED_LEN};
use crate::error::{Error, Fatal};
use crate::message::{lookup_binary, lookup_string, BrokerMessage, FieldView, ValueView};
use crate::nfs::{collect, normalized, NfsStat, OsError, RawStats};
use vstd::prelude::*;

verus! {

/// The one command that the broker answers.
pub const COMMAND: &'static str = "nfsstat";

/// Name of the string field of a request that holds the command.
pub const COMMAND_FIELD: &'static str = "cmd";

/// Name of the binary field of a reply that holds the encoded record.
pub const PAYLOAD_FIELD: &'static str = "nfsstat";

/// The request for statistics: one string field, the command.
pub open spec fn request_fields() -> Seq<FieldView> {
    seq![FieldView { name: COMMAND_FIELD@, value: ValueView::Text(COMMAND@) }]
}

/// The reply that carries a record: one binary field, the record's encoding.
pub open spec fn reply_fields(stat: NfsStat) -> Seq<FieldView> {
    seq![FieldView { name: PAYLOAD_FIELD@, value: ValueView::Binary(encoding(stat)) }]
}

/// Where the broker stands between two calls.
#[derive(Clone, Copy, Debug, PartialEq, Eq, Structural)]
pub enum BrokerState {
    /// No request is being served.
    Idle,
    /// A request was accepted, and the privileged read is under way.
    Dispatching,
}

/// What the broker is told.
#[derive(Debug)]
pub enum BrokerEvent {
    /// A request arrived with this command.
    Command(String),
    /// The privileged read ended: with the kernel's record, or with an
    /// error code.
    Collected(Result<RawStats, OsError>),
}

/// What the broker asks for.
#[derive(Debug)]
pub enum BrokerAction {
    /// Perform the privileged read, and report how it ended.
    Collect,
    /// Send this reply.
    Reply(BrokerMessage),
    /// Report this error code through the channel's own error path, and send
    /// no payload.
    ReplyError(OsError),
    /// Stop the process.
    Abort(Fatal),
}

/// What the broker asks for, as a mathematical value.
pub ghost enum BrokerActionView {
    Collect,
    Reply(Seq<FieldView>),
    ReplyError(OsError),
    Abort(Fatal),
}

impl View for BrokerAction {
    type V = BrokerActionView;

    open spec fn view(&self) -> BrokerActionView {
        match self {
            BrokerAction::Collect => BrokerActionView::Collect,
            BrokerAction::Reply(message) => BrokerActionView::Reply(message@),
            BrokerAction::ReplyError(error) => BrokerActionView::ReplyError(*error),
            BrokerAction::Abort(fatal) => BrokerActionView::Abort(*fatal),
        }
    }
}

/// The broker's rule: the state that follows, and what is asked for.
///
/// A request is accepted only while idle and only with the one command; it
/// leads to the privileged read.  The outcome of the read is taken only while
/// a request is being served, and ends it: a record is normalized, encoded
/// and sent; a failure is reported by its code.  Anything else is a breach of
/// the protocol, and leaves the state as it was.
pub open spec fn broker_next(state: BrokerState, event: BrokerEvent) -> (
    BrokerState,
    BrokerActionView,
) {
    match (state, event) {
        (BrokerState::Idle, BrokerEvent::Command(command)) => if command@ == COMMAND@ {
            (BrokerState::Dispatching, BrokerActionView::Collect)
        } else {
            (BrokerState::Idle, BrokerActionView::Abort(Fatal::ProtocolViolation))
        },
        (BrokerState::Dispatching, BrokerEvent::Collected(Ok(raw))) => (
            BrokerState::Idle,
            BrokerActionView::Reply(reply_fields(normalized(raw))),
        ),
        (BrokerState::Dispatching, BrokerEvent::Collected(Err(error))) => (
            BrokerState::Idle,
            BrokerActionView::ReplyError(error),
        ),
        _ => (state, BrokerActionView::Abort(Fatal::ProtocolViolation)),
    }
}

/// The broker: the trusted side of the service.
#[derive(Clone, Copy, Debug)]
pub struct CapNfs {
    pub state: BrokerState,
}

impl CapNfs {
    /// A broker that serves no request yet.
    pub fn new() -> (broker: CapNfs)
        ensures
            broker.state == BrokerState::Idle,
    {
        CapNfs { state: BrokerState::Idle }
    }

    /// Takes one event and says what is to be done next.
    pub fn dispatch(&mut self, event: BrokerEvent) -> (action: BrokerAction)
        ensures
            (final(self).state, action@) == broker_next(old(self).state, event),
    {
        match (self.state, event) {
            (BrokerState::Idle, BrokerEvent::Command(command)) => {
                if command == COMMAND.to_owned() {
                    self.state = BrokerState::Dispatching;
                    BrokerAction::Collect
                } else {
                    BrokerAction::Abort(Fatal::ProtocolViolation)
                }
            },
            (BrokerState::Dispatching, BrokerEvent::Collected(read)) => {
                match collect(read) {
                    Ok(stat) => match encode(&stat) {
                        Ok(payload) => {
                            let mut reply = BrokerMessage::new();
                            reply.insert_binary(PAYLOAD_FIELD, payload);
                            self.state = BrokerState::Idle;
                            BrokerAction::Reply(reply)
                        },
                        Err(fatal) => BrokerAction::Abort(fatal),
                    },
                    Err(error) => {
                        self.state = BrokerState::Idle;
                        BrokerAction::ReplyError(error)
                    },
                }
            },
            _ => BrokerAction::Abort(Fatal::ProtocolViolation),
        }
    }
}

/// What came of sending a request over the channel.
#[derive(Debug)]
pub enum Exchange {
    /// The channel delivered this reply.
    Reply(BrokerMessage),
    /// The channel delivered an error code in place of a reply: the
    /// privileged read failed on the other side.
    NativeError(i32),
    /// The channel itself failed, with this error code.
    TransportFailed(i32),
}

/// What came of sending a request, as a mathematical value.
pub ghost enum ExchangeView {
    Reply(Seq<FieldView>),
    NativeError(i32),
    TransportFailed(i32),
}

impl View for Exchange {
    type V = ExchangeView;

    open spec fn view(&self) -> ExchangeView {
        match self {
            Exchange::Reply(message) => ExchangeView::Reply(message@),
            Exchange::NativeError(code) => ExchangeView::NativeError(*code),
            Exchange::TransportFailed(code) => ExchangeView::TransportFailed(*code),
        }
    }
}

/// The agent's rule: what a query yields for each outcome of the exchange.
///
/// A failure of the channel and an error code from the other side are handed
/// on as they are.  A reply must hold the payload field, and the payload must
/// be long enough to hold a record; the record is then the one that its first
/// `ENCODED_LEN` bytes encode.  A reply never stands for a record of zeros.
pub open spec fn answer(exchange: ExchangeView) -> Result<NfsStat, Error> {
    match exchange {
        ExchangeView::TransportFailed(code) => Err(Error::Transport(code)),
        ExchangeView::NativeError(code) => Err(Error::Os(code)),
        ExchangeView::Reply(fields) => match lookup_binary(fields, PAYLOAD_FIELD@) {
            None => Err(Error::Fatal(Fatal::ProtocolViolation)),
            Some(payload) => if payload.len() >= ENCODED_LEN {
                Ok(decoding(payload))
            } else {
                Err(Error::Fatal(Fatal::Encoding))
            },
        },
    }
}

/// The agent: the sandboxed side of the service.  It is used by one caller at
/// a time: the channel carries one request, then its reply.
#[derive(Debug)]
pub struct CapNfsAgent {}

impl CapNfsAgent {
    /// The agent of a channel on which nothing was sent yet.
    pub fn new() -> CapNfsAgent {
        CapNfsAgent {  }
    }

    /// The request to send: the command, and nothing else.
    pub fn request(&self) -> (message: BrokerMessage)
        ensures
            message@ == request_fields(),
            lookup_string(message@, COMMAND_FIELD@) == Some(COMMAND@),
    {
        let mut message = BrokerMessage::new();
        message.insert_string(COMMAND_FIELD, COMMAND);
        assert(message@.subrange(1, 1) =~= Seq::empty());
        message
    }

    /// Retrieve NFS stats: the record, or the error, that comes of the
    /// exchange that followed a request.
    pub fn nfsstat(&mut self, exchange: Exchange) -> (result: Result<NfsStat, Error>)
        ensures
            result == answer(exchange@),
    {
        match exchange {
            Exchange::TransportFailed(code) => Err(Error::Transport(code)),
            Exchange::NativeError(code) => Err(Error::Os(code)),
            Exchange::Reply(reply) => match reply.get_binary(PAYLOAD_FIELD) {
                None => Err(Error::Fatal(Fatal::ProtocolViolation)),
                Some(payload) => match decode(payload.as_slice()) {
                    Ok(stat) => Ok(stat),
                    Err(fatal) => Err(Error::Fatal(fatal)),
                },
            },
        }
    }
}

/// The request that the agent sends is one that an idle broker accepts.
pub proof fn lemma_request_is_accepted(command: String)
    requires
        lookup_string(request_fields(), COMMAND_FIELD@) == Some(command@),
    ensures
        broker_next(BrokerState::Idle, BrokerEvent::Command(command)) == (
            BrokerState::Dispatching,
            BrokerActionView::Collect,
        ),
{
    assert(request_fields().subrange(1, 1) =~= Seq::empty());
}

/// A command other than the recognized one is never served.  Whatever the
/// broker's state, it asks for the process to stop: never for the privileged
/// read, and never for a reply.
pub proof fn lemma_unknown_command_aborts(state: BrokerState, command: String)
    requires
        command@ != COMMAND@,
    ensures
        broker_next(state, BrokerEvent::Command(command)) == (
            state,
            BrokerActionView::Abort(Fatal::ProtocolViolation),
        ),
{
}

/// A reply without the payload field is a breach of the protocol.  It never
/// passes for a record, and so never for a record of zeros.
pub proof fn lemma_missing_payload_is_violation(fields: Seq<FieldView>)
    requires
        lookup_binary(fields, PAYLOAD_FIELD@) is None,
    ensures
        answer(ExchangeView::Reply(fields)) == Err::<NfsStat, Error>(
            Error::Fatal(Fatal::ProtocolViolation),
        ),
{
}

/// A query that goes through yields the normalized record: what the agent
/// makes of the broker's reply to a read is what the kernel's record stands
/// for.
pub proof fn lemma_query_yields_normalized_record(raw: RawStats)
    ensures
        broker_next(BrokerState::Dispatching, BrokerEvent::Collected(Ok(raw))) == (
            BrokerState::Idle,
            BrokerActionView::Reply(reply_fields(normalized(raw))),
        ),
        answer(ExchangeView::Reply(reply_fields(normalized(raw)))) == Ok::<NfsStat, Error>(
            normalized(raw),
        ),
{
    let stat = normalized(raw);
    let fields = reply_fields(stat);
    assert(lookup_binary(fields, PAYLOAD_FIELD@) == Some(encoding(stat)));
    lemma_decoding_of_encoding(stat, Seq::empty());
    assert(encoding(stat) + Seq::<u8>::empty() =~= encoding(stat));
}

/// A failed read reaches the caller as its error code: the broker reports the
/// code in place of a payload, and the agent hands it on.
pub proof fn lemma_failed_read_yields_its_code(error: OsError)
    ensures
        broker_next(BrokerState::Dispatching, BrokerEvent::Collected(Err(error))) == (
            BrokerState::Idle,
            BrokerActionView::ReplyError(error),
        ),
        answer(ExchangeView::NativeError(error.code)) == Err::<NfsStat, Error>(
            Error::Os(error.code),
        ),
{
}

} // verus!
