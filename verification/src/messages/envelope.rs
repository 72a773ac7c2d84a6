//! The envelope codec: bytes to tagged value and back.
//!
//! Decoding runs in two phases. The first parses the bytes as a generic value
//! and takes the tag off its front; the second, once the tag has picked a
//! message struct, reads the fields of that struct out of the same value.

use vstd::prelude::*;
use vstd::slice::slice_subrange;

use crate::error::ErrorKind;
use crate::messages::messagetype::{MessageType, MessageTypeTrait};
use crate::wire::{array_items, packed, parsed, read_value, unsigned, write_value};

verus! {

/// The number of bytes that a session reads of one message. What a peer
/// sends beyond it is not looked at.
pub const BUFFER_SIZE: usize = 1024;

/// The part of a received buffer that is decoded.
pub open spec fn window(bytes: Seq<u8>) -> Seq<u8> {
    if bytes.len() <= BUFFER_SIZE {
        bytes
    } else {
        bytes.take(BUFFER_SIZE as int)
    }
}

/// The tag of `value`: the unsigned first element of an array.
pub open spec fn tag_of(value: rmpv::Value) -> Option<u64> {
    match array_items(value) {
        Some(items) => if items.len() > 0 {
            unsigned(items[0])
        } else {
            None
        },
        None => None,
    }
}

/// The elements of a tagged value that follow its tag.
pub open spec fn fields_of_value(value: rmpv::Value) -> Seq<rmpv::Value>
    recommends
        tag_of(value) is Some,
{
    array_items(value)->0.skip(1)
}

/// A decoded message before its payload has been given a type: the tag and
/// the raw value that it was read from.
#[derive(Debug)]
pub struct MessageEnvelope {
    type_tag: u64,
    payload: rmpv::Value,
}

impl View for MessageEnvelope {
    type V = (u64, rmpv::Value);

    closed spec fn view(&self) -> (u64, rmpv::Value) {
        (self.type_tag, self.payload)
    }
}

/// The tag and raw value of the envelope that `bytes` hold, if they hold one.
pub open spec fn envelope_of(bytes: Seq<u8>) -> Option<(u64, rmpv::Value)> {
    match parsed(window(bytes)) {
        Some(value) => match tag_of(value) {
            Some(tag) => Some((tag, value)),
            None => None,
        },
        None => None,
    }
}

/// What reading `value` as a message of struct `M` gives.
pub open spec fn message_of<M: MessageTypeTrait>(value: rmpv::Value) -> Result<M::V, ErrorKind> {
    match tag_of(value) {
        None => Err(ErrorKind::MalformedEnvelope),
        Some(tag) => match MessageType::of_tag(tag) {
            None => Err(ErrorKind::UnknownMessageType),
            Some(t) => if t != M::spec_messagetype() {
                Err(ErrorKind::TypeMismatch)
            } else {
                match M::parse_fields(fields_of_value(value)) {
                    Some(message) => Ok(message),
                    None => Err(ErrorKind::PayloadDecodeError),
                }
            },
        },
    }
}

/// Whether `value` is a wire form of `message`: an array of the tag of `M`
/// followed by a wire form of the fields.
pub open spec fn is_wire_of<M: MessageTypeTrait>(value: rmpv::Value, message: M::V) -> bool {
    &&& tag_of(value) == Some(M::spec_messagetype().spec_tag())
    &&& M::fields_of(message, fields_of_value(value))
}

/// Whether `bytes` is the serialized form of a wire form of `message`.
pub open spec fn frames<M: MessageTypeTrait>(bytes: Seq<u8>, message: M::V) -> bool {
    exists|value: rmpv::Value| #[trigger] is_wire_of::<M>(value, message) && bytes == packed(value)
}

impl MessageEnvelope {
    #[verifier::type_invariant]
    spec fn well_formed(self) -> bool {
        tag_of(self.payload) == Some(self.type_tag)
    }

    /// Takes the tag off a parsed value. Only the array and its first element
    /// are looked at: what follows the tag may have any shape.
    pub fn from_value(value: rmpv::Value) -> (out: Result<MessageEnvelope, ErrorKind>)
        ensures
            match out {
                Ok(envelope) => tag_of(value) == Some(envelope@.0) && envelope@.1 == value,
                Err(e) => e == ErrorKind::MalformedEnvelope && tag_of(value) is None,
            },
    {
        let tag = match value.as_array() {
            Some(items) => if items.len() > 0 {
                items[0].as_u64()
            } else {
                None
            },
            None => None,
        };
        match tag {
            Some(type_tag) => Ok(MessageEnvelope { type_tag, payload: value }),
            None => Err(ErrorKind::MalformedEnvelope),
        }
    }

    /// The tag as it stood on the wire.
    pub fn type_tag(&self) -> (tag: u64)
        ensures
            tag == self@.0,
            tag_of(self@.1) == Some(tag),
    {
        proof {
            use_type_invariant(self);
        }
        self.type_tag
    }

    /// The raw value that the envelope was read from, tag included.
    pub fn payload(&self) -> (value: &rmpv::Value)
        ensures
            *value == self@.1,
            tag_of(*value) == Some(self@.0),
    {
        proof {
            use_type_invariant(self);
        }
        &self.payload
    }

    /// Resolves the tag to a message type.
    pub fn message_type(&self) -> (out: Result<MessageType, ErrorKind>)
        ensures
            out == match MessageType::of_tag(self@.0) {
                Some(t) => Ok::<MessageType, ErrorKind>(t),
                None => Err(ErrorKind::UnknownMessageType),
            },
    {
        MessageType::from_tag(self.type_tag)
    }

    /// The second phase: reads the payload as a message of struct `M`. The
    /// tag has to resolve to the type of `M`, and the elements behind it have
    /// to match the fields of `M`.
    pub fn decode_payload<M: MessageTypeTrait>(&self) -> (out: Result<M, ErrorKind>)
        ensures
            match out {
                Ok(message) => message_of::<M>(self@.1) == Ok::<M::V, ErrorKind>(message@),
                Err(e) => message_of::<M>(self@.1) == Err::<M::V, ErrorKind>(e),
            },
    {
        proof {
            use_type_invariant(self);
        }
        let t = match MessageType::from_tag(self.type_tag) {
            Ok(t) => t,
            Err(e) => {
                return Err(e);
            },
        };
        if t != M::messagetype() {
            return Err(ErrorKind::TypeMismatch);
        }
        match self.payload.as_array() {
            Some(items) => {
                let fields = slice_subrange(items.as_slice(), 1, items.len());
                assert(fields@ == fields_of_value(self.payload));
                match M::from_fields(fields) {
                    Some(message) => Ok(message),
                    None => Err(ErrorKind::PayloadDecodeError),
                }
            },
            None => Err(ErrorKind::MalformedEnvelope),
        }
    }
}

/// The first phase: parses the leading `BUFFER_SIZE` bytes of `buffer` as a
/// generic value and takes the tag off it. Anything but an array that starts
/// with an unsigned integer is malformed.
pub fn decode(buffer: &[u8]) -> (out: Result<MessageEnvelope, ErrorKind>)
    ensures
        match out {
            Ok(envelope) => envelope_of(buffer@) == Some(envelope@),
            Err(e) => e == ErrorKind::MalformedEnvelope && envelope_of(buffer@) is None,
        },
{
    let read = if buffer.len() <= BUFFER_SIZE {
        buffer
    } else {
        slice_subrange(buffer, 0, BUFFER_SIZE)
    };
    assert(read@ == window(buffer@));
    match read_value(read) {
        Ok(value) => MessageEnvelope::from_value(value),
        Err(_) => Err(ErrorKind::MalformedEnvelope),
    }
}

/// Builds the wire form of a message: the array of its tag and its fields.
pub fn to_value<M: MessageTypeTrait>(message: &M) -> (value: rmpv::Value)
    ensures
        is_wire_of::<M>(value, message@),
{
    let mut items: Vec<rmpv::Value> = Vec::new();
    items.push(rmpv::Value::from(M::messagetype().tag()));
    let mut fields = message.to_fields();
    let ghost written = fields@;
    items.append(&mut fields);
    assert(items@.skip(1) == written);
    rmpv::Value::from(items)
}

/// What is made of the serializer's answer: the bytes that it wrote where it
/// succeeded, nothing where it gave up.
pub fn into_frame(written: Result<Vec<u8>, rmp_serde::encode::Error>) -> (out: Option<Vec<u8>>)
    ensures
        out == match written {
            Ok(bytes) => Some(bytes),
            Err(_) => None::<Vec<u8>>,
        },
{
    match written {
        Ok(bytes) => Some(bytes),
        Err(_) => None,
    }
}

/// Serializes a message into the bytes of its envelope: the wire form of the
/// message is handed to the serializer, and its answer is taken by
/// `into_frame`. `None` means that the serializer gave up; it never stands
/// for bytes of another message.
pub fn encode<M: MessageTypeTrait>(message: &M) -> (out: Option<Vec<u8>>)
    ensures
        out matches Some(bytes) ==> frames::<M>(bytes@, message@),
{
    let value = to_value(message);
    let out = into_frame(write_value(&value));
    assert(out matches Some(bytes) ==> is_wire_of::<M>(value, message@) && bytes@ == packed(
        value,
    ));
    out
}

/// Round trip: reading a wire form of a message as its own struct gives the
/// message back, for every message struct.
pub proof fn lemma_round_trip<M: MessageTypeTrait>(value: rmpv::Value, message: M::V)
    requires
        is_wire_of::<M>(value, message),
    ensures
        message_of::<M>(value) == Ok::<M::V, ErrorKind>(message),
{
    crate::messages::messagetype::lemma_tag_identifies_type(
        M::spec_messagetype(),
        M::spec_messagetype().spec_tag(),
    );
    M::lemma_fields_round_trip(message, fields_of_value(value));
}

/// Tag first: bytes that parse as an array with an unsigned first element
/// give an envelope with that tag, whether or not the elements behind the
/// tag match the fields of the type that the tag stands for.
pub proof fn lemma_tag_first<M: MessageTypeTrait>(bytes: Seq<u8>, value: rmpv::Value, tag: u64)
    requires
        parsed(window(bytes)) == Some(value),
        tag_of(value) == Some(tag),
    ensures
        envelope_of(bytes) == Some((tag, value)),
        M::parse_fields(fields_of_value(value)) is None && MessageType::of_tag(tag) == Some(
            M::spec_messagetype(),
        ) ==> message_of::<M>(value) == Err::<M::V, ErrorKind>(ErrorKind::PayloadDecodeError),
{
}

} // verus!
