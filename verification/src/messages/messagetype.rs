//! The closed enumeration of message types and the trait that ties a message
//! struct to its type and to the wire form of its fields.

use vstd::prelude::*;

use crate::error::ErrorKind;

verus! {

/// The types of message that both daemons know. The tag of a type is fixed
/// for good: a peer of another version reads the same number as the same type.
#[derive(Clone, Copy, Debug, PartialEq, Eq, Structural)]
pub enum MessageType {
    /// Rebuild or query the file index of the workspace.
    IndexRequest,
    /// Reserved for reading and writing a remote file; no handler is wired.
    FileRequest,
    /// Reserved for running a command on the remote host; no handler is wired.
    ShellRequest,
}

impl MessageType {
    /// The number that stands for this type on the wire.
    pub open spec fn spec_tag(self) -> u64 {
        match self {
            MessageType::IndexRequest => 0,
            MessageType::FileRequest => 1,
            MessageType::ShellRequest => 2,
        }
    }

    /// The type that `tag` stands for, if it stands for one.
    pub open spec fn of_tag(tag: u64) -> Option<MessageType> {
        if tag == 0 {
            Some(MessageType::IndexRequest)
        } else if tag == 1 {
            Some(MessageType::FileRequest)
        } else if tag == 2 {
            Some(MessageType::ShellRequest)
        } else {
            None
        }
    }

    /// Whether a handler is wired for this type.
    pub open spec fn spec_is_wired(self) -> bool {
        self is IndexRequest
    }

    /// The number that stands for this type on the wire.
    #[verifier::when_used_as_spec(spec_tag)]
    pub fn tag(self) -> (t: u64)
        ensures
            t == self.spec_tag(),
    {
        match self {
            MessageType::IndexRequest => 0,
            MessageType::FileRequest => 1,
            MessageType::ShellRequest => 2,
        }
    }

    /// Resolves a tag read off the wire. A tag outside the enumeration is an
    /// error, never skipped.
    pub fn from_tag(tag: u64) -> (out: Result<MessageType, ErrorKind>)
        ensures
            out == match MessageType::of_tag(tag) {
                Some(t) => Ok::<MessageType, ErrorKind>(t),
                None => Err(ErrorKind::UnknownMessageType),
            },
    {
        if tag == 0 {
            Ok(MessageType::IndexRequest)
        } else if tag == 1 {
            Ok(MessageType::FileRequest)
        } else if tag == 2 {
            Ok(MessageType::ShellRequest)
        } else {
            Err(ErrorKind::UnknownMessageType)
        }
    }

    /// Whether a handler is wired for this type.
    #[verifier::when_used_as_spec(spec_is_wired)]
    pub fn is_wired(self) -> (wired: bool)
        ensures
            wired == self.spec_is_wired(),
    {
        match self {
            MessageType::IndexRequest => true,
            _ => false,
        }
    }
}

impl TryFrom<u64> for MessageType {
    type Error = ErrorKind;

    /// Resolves a tag read off the wire, as `from_tag` does.
    fn try_from(tag: u64) -> (out: Result<MessageType, ErrorKind>) {
        MessageType::from_tag(tag)
    }
}

impl vstd::std_specs::convert::TryFromSpecImpl<u64> for MessageType {
    open spec fn obeys_try_from_spec() -> bool {
        true
    }

    open spec fn try_from_spec(tag: u64) -> Result<MessageType, ErrorKind> {
        match MessageType::of_tag(tag) {
            Some(t) => Ok(t),
            None => Err(ErrorKind::UnknownMessageType),
        }
    }
}

/// Every type is found again by its tag, and no two types share a tag.
pub proof fn lemma_tag_identifies_type(t: MessageType, tag: u64)
    ensures
        MessageType::of_tag(t.spec_tag()) == Some(t),
        MessageType::of_tag(tag) == Some(t) <==> tag == t.spec_tag(),
{
}

/// A message struct: it belongs to one message type and knows how its fields
/// lie behind the tag on the wire.
pub trait MessageTypeTrait: Sized + View {
    /// The type under whose tag messages of this struct travel.
    spec fn spec_messagetype() -> MessageType;

    /// The message that `fields`, the elements behind the tag, hold, if they
    /// have the shape of this struct.
    spec fn parse_fields(fields: Seq<rmpv::Value>) -> Option<Self::V>;

    /// Whether `fields` is a wire form of the fields of `message`.
    spec fn fields_of(message: Self::V, fields: Seq<rmpv::Value>) -> bool;

    /// The type under whose tag messages of this struct travel.
    fn messagetype() -> (t: MessageType)
        ensures
            t == Self::spec_messagetype(),
    ;

    /// Reads a message out of the elements behind the tag.
    fn from_fields(fields: &[rmpv::Value]) -> (out: Option<Self>)
        ensures
            match out {
                Some(message) => Self::parse_fields(fields@) == Some(message@),
                None => Self::parse_fields(fields@) is None,
            },
    ;

    /// Writes the fields of the message as the elements that follow the tag.
    fn to_fields(&self) -> (fields: Vec<rmpv::Value>)
        ensures
            Self::fields_of(self@, fields@),
    ;

    /// Reading what was written gives the message back.
    proof fn lemma_fields_round_trip(message: Self::V, fields: Seq<rmpv::Value>)
        requires
            Self::fields_of(message, fields),
        ensures
            Self::parse_fields(fields) == Some(message),
    ;
}

} // verus!
