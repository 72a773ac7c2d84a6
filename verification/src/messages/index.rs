//! The index request and its reply.

use vstd::prelude::*;

use crate::messages::messagetype::{MessageType, MessageTypeTrait};
use crate::wire::{text, unsigned};

verus! {

/// Asks the server for the file index of a directory unless the index still
/// has the fingerprint that the client saw last.
#[derive(Clone, Debug)]
pub struct IndexRequest {
    /// The fingerprint of the index as the client last saw it; 0 for none.
    pub prev_hash: u64,
    /// The directory on the remote host whose index is asked for.
    pub index_path: String,
}

/// An index request as a mathematical value.
pub struct IndexRequestView {
    pub prev_hash: u64,
    pub index_path: Seq<char>,
}

impl View for IndexRequest {
    type V = IndexRequestView;

    open spec fn view(&self) -> IndexRequestView {
        IndexRequestView { prev_hash: self.prev_hash, index_path: self.index_path@ }
    }
}

impl IndexRequest {
    pub fn new(prev_hash: u64, index_path: String) -> (request: IndexRequest)
        ensures
            request.prev_hash == prev_hash,
            request.index_path == index_path,
    {
        IndexRequest { prev_hash, index_path }
    }
}

impl MessageTypeTrait for IndexRequest {
    open spec fn spec_messagetype() -> MessageType {
        MessageType::IndexRequest
    }

    open spec fn parse_fields(fields: Seq<rmpv::Value>) -> Option<IndexRequestView> {
        if fields.len() == 2 && unsigned(fields[0]) is Some && text(fields[1]) is Some {
            Some(
                IndexRequestView {
                    prev_hash: unsigned(fields[0])->0,
                    index_path: text(fields[1])->0,
                },
            )
        } else {
            None
        }
    }

    open spec fn fields_of(message: IndexRequestView, fields: Seq<rmpv::Value>) -> bool {
        &&& fields.len() == 2
        &&& unsigned(fields[0]) == Some(message.prev_hash)
        &&& text(fields[1]) == Some(message.index_path)
    }

    fn messagetype() -> (t: MessageType) {
        MessageType::IndexRequest
    }

    fn from_fields(fields: &[rmpv::Value]) -> (out: Option<IndexRequest>) {
        if fields.len() != 2 {
            return None;
        }
        match fields[0].as_u64() {
            Some(prev_hash) => match fields[1].as_str() {
                Some(path) => Some(IndexRequest { prev_hash, index_path: path.to_owned() }),
                None => None,
            },
            None => None,
        }
    }

    fn to_fields(&self) -> (fields: Vec<rmpv::Value>) {
        let mut fields: Vec<rmpv::Value> = Vec::new();
        fields.push(rmpv::Value::from(self.prev_hash));
        fields.push(rmpv::Value::from(self.index_path.clone()));
        fields
    }

    proof fn lemma_fields_round_trip(message: IndexRequestView, fields: Seq<rmpv::Value>) {
    }
}

/// The reply to an index request: the fingerprint that the index of the
/// server has now. It travels under the tag of the request that it answers.
#[derive(Clone, Copy, Debug, PartialEq, Eq, Structural)]
pub struct IndexResponse {
    /// The fingerprint of the index on the server.
    pub hash: u64,
}

impl View for IndexResponse {
    type V = IndexResponse;

    open spec fn view(&self) -> IndexResponse {
        *self
    }
}

impl IndexResponse {
    pub fn new(hash: u64) -> (response: IndexResponse)
        ensures
            response.hash == hash,
    {
        IndexResponse { hash }
    }
}

impl MessageTypeTrait for IndexResponse {
    open spec fn spec_messagetype() -> MessageType {
        MessageType::IndexRequest
    }

    open spec fn parse_fields(fields: Seq<rmpv::Value>) -> Option<IndexResponse> {
        if fields.len() == 1 && unsigned(fields[0]) is Some {
            Some(IndexResponse { hash: unsigned(fields[0])->0 })
        } else {
            None
        }
    }

    open spec fn fields_of(message: IndexResponse, fields: Seq<rmpv::Value>) -> bool {
        &&& fields.len() == 1
        &&& unsigned(fields[0]) == Some(message.hash)
    }

    fn messagetype() -> (t: MessageType) {
        MessageType::IndexRequest
    }

    fn from_fields(fields: &[rmpv::Value]) -> (out: Option<IndexResponse>) {
        if fields.len() != 1 {
            return None;
        }
        match fields[0].as_u64() {
            Some(hash) => Some(IndexResponse { hash }),
            None => None,
        }
    }

    fn to_fields(&self) -> (fields: Vec<rmpv::Value>) {
        let mut fields: Vec<rmpv::Value> = Vec::new();
        fields.push(rmpv::Value::from(self.hash));
        fields
    }

    proof fn lemma_fields_round_trip(message: IndexResponse, fields: Seq<rmpv::Value>) {
    }
}

} // verus!
