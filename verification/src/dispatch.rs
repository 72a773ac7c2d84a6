//! The dispatcher and the per-connection rule of a session.
//!
//! Dispatch decides which handler a received buffer is for and hands back
//! the decoded request; invoking the handler, which replies on the live
//! connection, is left to the caller, who passes its result on unchanged.

use vstd::prelude::*;

use crate::error::ErrorKind;
use crate::messages::envelope::{envelope_of, message_of, tag_of, MessageEnvelope};
use crate::messages::index::{IndexRequest, IndexRequestView};
use crate::messages::messagetype::MessageType;

verus! {

/// A decoded request together with the handler that it is for.
#[derive(Debug)]
pub enum Request {
    /// For the index handler.
    Index(IndexRequest),
}

/// A routed request as a mathematical value.
pub enum RequestView {
    Index(IndexRequestView),
}

impl View for Request {
    type V = RequestView;

    open spec fn view(&self) -> RequestView {
        match self {
            Request::Index(request) => RequestView::Index(request@),
        }
    }
}

/// Where a parsed value is routed to.
pub open spec fn route_of_value(value: rmpv::Value) -> Result<RequestView, ErrorKind> {
    match tag_of(value) {
        None => Err(ErrorKind::MalformedEnvelope),
        Some(tag) => match MessageType::of_tag(tag) {
            None => Err(ErrorKind::UnknownMessageType),
            Some(MessageType::IndexRequest) => match message_of::<IndexRequest>(value) {
                Ok(request) => Ok(RequestView::Index(request)),
                Err(e) => Err(e),
            },
            Some(_) => Err(ErrorKind::UnsupportedMessageType),
        },
    }
}

/// Where a received buffer is routed to.
pub open spec fn route_of(bytes: Seq<u8>) -> Result<RequestView, ErrorKind> {
    match envelope_of(bytes) {
        Some(envelope) => route_of_value(envelope.1),
        None => Err(ErrorKind::MalformedEnvelope),
    }
}

/// Routes a decoded envelope: resolves its tag, and for a type with a wired
/// handler reads the payload as the request of that handler.
pub fn dispatch_envelope(envelope: &MessageEnvelope) -> (out: Result<Request, ErrorKind>)
    ensures
        match out {
            Ok(request) => route_of_value(envelope@.1) == Ok::<RequestView, ErrorKind>(request@),
            Err(e) => route_of_value(envelope@.1) == Err::<RequestView, ErrorKind>(e),
        },
        MessageType::of_tag(envelope@.0) is None ==> out == Err::<Request, ErrorKind>(
            ErrorKind::UnknownMessageType,
        ),
        MessageType::of_tag(envelope@.0) matches Some(t) && !t.spec_is_wired() ==> out == Err::<
            Request,
            ErrorKind,
        >(ErrorKind::UnsupportedMessageType),
{
    let tag = envelope.type_tag();
    match MessageType::from_tag(tag) {
        Err(e) => Err(e),
        Ok(MessageType::IndexRequest) => match envelope.decode_payload::<IndexRequest>() {
            Ok(request) => Ok(Request::Index(request)),
            Err(e) => Err(e),
        },
        Ok(_) => Err(ErrorKind::UnsupportedMessageType),
    }
}

/// Decodes a received buffer and routes it.
pub fn dispatch(buffer: &[u8]) -> (out: Result<Request, ErrorKind>)
    ensures
        match out {
            Ok(request) => route_of(buffer@) == Ok::<RequestView, ErrorKind>(request@),
            Err(e) => route_of(buffer@) == Err::<RequestView, ErrorKind>(e),
        },
{
    match crate::messages::envelope::decode(buffer) {
        Ok(envelope) => dispatch_envelope(&envelope),
        Err(e) => Err(e),
    }
}

/// Routing never succeeds silently: a tag outside the enumeration is
/// unknown, a tag of a type without a handler is unsupported, and a request
/// comes out only under the tag of a wired type.
pub proof fn lemma_dispatch_routing(value: rmpv::Value, tag: u64)
    requires
        tag_of(value) == Some(tag),
    ensures
        MessageType::of_tag(tag) is None ==> route_of_value(value) == Err::<RequestView, ErrorKind>(
            ErrorKind::UnknownMessageType,
        ),
        MessageType::of_tag(tag) matches Some(t) && !t.spec_is_wired() ==> route_of_value(value)
            == Err::<RequestView, ErrorKind>(ErrorKind::UnsupportedMessageType),
        route_of_value(value) is Ok ==> (MessageType::of_tag(tag) matches Some(t)
            && t.spec_is_wired()),
{
}

/// What the socket of a listening session reports.
#[derive(Debug)]
pub enum SessionEvent {
    /// A connection was accepted and these bytes were read from it.
    Received(Vec<u8>),
    /// A connection was accepted but could not be read.
    ReadFailed,
    /// The listening socket itself failed.
    SocketFailed,
}

/// What a listening session does about an event.
#[derive(Debug)]
pub enum SessionAction {
    /// Invoke the handler of this request on the connection, then accept the
    /// next connection.
    Handle(Request),
    /// Report the error, drop the connection and accept the next one.
    Drop(ErrorKind),
    /// Stop listening.
    Stop(ErrorKind),
}

/// A session action as a mathematical value.
pub enum SessionActionView {
    Handle(RequestView),
    Drop(ErrorKind),
    Stop(ErrorKind),
}

impl View for SessionAction {
    type V = SessionActionView;

    open spec fn view(&self) -> SessionActionView {
        match self {
            SessionAction::Handle(request) => SessionActionView::Handle(request@),
            SessionAction::Drop(e) => SessionActionView::Drop(*e),
            SessionAction::Stop(e) => SessionActionView::Stop(*e),
        }
    }
}

/// The rule of a listening session.
pub open spec fn action_of(event: SessionEvent) -> SessionActionView {
    match event {
        SessionEvent::Received(bytes) => match route_of(bytes@) {
            Ok(request) => SessionActionView::Handle(request),
            Err(e) => SessionActionView::Drop(e),
        },
        SessionEvent::ReadFailed => SessionActionView::Drop(ErrorKind::TransportError),
        SessionEvent::SocketFailed => SessionActionView::Stop(ErrorKind::TransportError),
    }
}

/// Decides what a listening session does next. One connection is dealt with
/// at a time. An error that belongs to one connection never stops the
/// session; only a failure of the listening socket does.
pub fn serve(event: &SessionEvent) -> (action: SessionAction)
    ensures
        action@ == action_of(*event),
        action@ is Stop <==> *event is SocketFailed,
{
    match event {
        SessionEvent::Received(bytes) => match dispatch(bytes.as_slice()) {
            Ok(request) => SessionAction::Handle(request),
            Err(e) => SessionAction::Drop(e),
        },
        SessionEvent::ReadFailed => SessionAction::Drop(ErrorKind::TransportError),
        SessionEvent::SocketFailed => SessionAction::Stop(ErrorKind::TransportError),
    }
}

} // verus!
