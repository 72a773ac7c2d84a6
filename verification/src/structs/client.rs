//! The client daemon: the state of the process on the local host and what it
//! decides about the bytes that it sends and receives. Sockets are the
//! caller's: the daemon is handed the bytes that were read and hands back the
//! bytes to write.

use vstd::prelude::*;
use vstd::string::StringExecFns;

use crate::dispatch::{action_of, serve, SessionAction, SessionEvent};
use crate::error::ErrorKind;
use crate::messages::envelope::{envelope_of, frames, message_of};
use crate::messages::messagetype::MessageTypeTrait;

verus! {

/// The state of the client process.
pub struct ClientDaemon {
    /// The root of the workspace on the remote host.
    pub workspace: String,
    /// The directory of the local cache.
    pub client_path: String,
    client_port: String,
    server_port: String,
    current_index_hash: u64,
}

/// The client daemon as a mathematical value.
pub struct ClientDaemonView {
    pub workspace: Seq<char>,
    pub client_path: Seq<char>,
    pub client_port: Seq<char>,
    pub server_port: Seq<char>,
    /// The fingerprint of the remote index that the client saw last.
    pub current_index_hash: u64,
}

impl ClientDaemonView {
    /// The daemon after an update with `hash`: the fingerprint moves to
    /// `hash` unless that would move it back, and nothing else changes.
    pub open spec fn updated(self, hash: u64) -> ClientDaemonView {
        ClientDaemonView {
            current_index_hash: if hash >= self.current_index_hash {
                hash
            } else {
                self.current_index_hash
            },
            ..self
        }
    }

    /// The daemon after one update with each of `hashes` in turn.
    pub open spec fn updated_all(self, hashes: Seq<u64>) -> ClientDaemonView
        decreases hashes.len(),
    {
        if hashes.len() == 0 {
            self
        } else {
            self.updated(hashes[0]).updated_all(hashes.skip(1))
        }
    }
}

impl View for ClientDaemon {
    type V = ClientDaemonView;

    closed spec fn view(&self) -> ClientDaemonView {
        ClientDaemonView {
            workspace: self.workspace@,
            client_path: self.client_path@,
            client_port: self.client_port@,
            server_port: self.server_port@,
            current_index_hash: self.current_index_hash,
        }
    }
}

/// The address of a port of this host.
pub open spec fn local_address(port: Seq<char>) -> Seq<char> {
    "localhost:"@ + port
}

/// What reading `bytes` as a reply of struct `M` gives.
pub open spec fn reply_of<M: MessageTypeTrait>(bytes: Seq<u8>) -> Result<M::V, ErrorKind> {
    match envelope_of(bytes) {
        Some(envelope) => message_of::<M>(envelope.1),
        None => Err(ErrorKind::MalformedEnvelope),
    }
}

fn address(port: &String) -> (out: String)
    ensures
        out@ == local_address(port@),
{
    let mut out = String::from_str("localhost:");
    out.append(port.as_str());
    out
}

impl ClientDaemon {
    /// The state of a client that has seen no index yet.
    pub fn new(
        workspace: String,
        client_path: String,
        client_port: String,
        server_port: String,
    ) -> (daemon: ClientDaemon)
        ensures
            daemon@ == (ClientDaemonView {
                workspace: workspace@,
                client_path: client_path@,
                client_port: client_port@,
                server_port: server_port@,
                current_index_hash: 0,
            }),
    {
        ClientDaemon { workspace, client_path, client_port, server_port, current_index_hash: 0 }
    }

    /// The address at which the server is reached through the tunnel.
    pub fn server_address(&self) -> (out: String)
        ensures
            out@ == local_address(self@.server_port),
    {
        address(&self.server_port)
    }

    /// The address at which the client listens for the server.
    pub fn listen_address(&self) -> (out: String)
        ensures
            out@ == local_address(self@.client_port),
    {
        address(&self.client_port)
    }

    /// The fingerprint of the remote index that the client saw last.
    pub fn index_hash(&self) -> (hash: u64)
        ensures
            hash == self@.current_index_hash,
    {
        self.current_index_hash
    }

    /// Encodes a message for the server and hands back the bytes to write
    /// and flush. A message that cannot be encoded cannot be sent. The state
    /// of the daemon stays as it is.
    pub fn server_send<M: MessageTypeTrait>(&mut self, message: &M) -> (out: Result<
        Vec<u8>,
        ErrorKind,
    >)
        ensures
            final(self)@ == old(self)@,
            match out {
                Ok(bytes) => frames::<M>(bytes@, message@),
                Err(e) => e == ErrorKind::TransportError,
            },
    {
        match crate::messages::envelope::encode(message) {
            Some(bytes) => Ok(bytes),
            None => Err(ErrorKind::TransportError),
        }
    }

    /// Reads the bytes of a reply as a message of struct `M`. A reply under
    /// the tag of another type is a mismatch. The state of the daemon stays
    /// as it is, whatever the reply holds.
    pub fn server_recv<M: MessageTypeTrait>(&mut self, buffer: &[u8]) -> (out: Result<M, ErrorKind>)
        ensures
            final(self)@ == old(self)@,
            match out {
                Ok(message) => reply_of::<M>(buffer@) == Ok::<M::V, ErrorKind>(message@),
                Err(e) => reply_of::<M>(buffer@) == Err::<M::V, ErrorKind>(e),
            },
    {
        match crate::messages::envelope::decode(buffer) {
            Ok(envelope) => envelope.decode_payload::<M>(),
            Err(e) => Err(e),
        }
    }

    /// Records the fingerprint that a reply has confirmed. The fingerprint
    /// only moves forward: a value below the present one is not taken.
    pub fn update_index_hash(&mut self, hash: u64)
        ensures
            final(self)@ == old(self)@.updated(hash),
            final(self)@.current_index_hash >= old(self)@.current_index_hash,
            hash >= old(self)@.current_index_hash ==> final(self)@.current_index_hash == hash,
    {
        if hash >= self.current_index_hash {
            self.current_index_hash = hash;
        }
    }

    /// Decides what the listening client does about an event of its socket.
    /// The state of the daemon stays as it is.
    pub fn listen(&mut self, event: &SessionEvent) -> (action: SessionAction)
        ensures
            final(self)@ == old(self)@,
            action@ == action_of(*event),
            action@ is Stop <==> *event is SocketFailed,
    {
        serve(event)
    }
}

/// The fingerprint never decreases: whatever value an update is made with,
/// the fingerprint afterwards is not below the one before, it is the given
/// value wherever that is not below, and nothing else of the daemon changes.
pub proof fn lemma_index_hash_moves_forward(daemon: ClientDaemonView, hash: u64)
    ensures
        daemon.updated(hash).current_index_hash >= daemon.current_index_hash,
        daemon.updated(hash).current_index_hash >= hash,
        hash >= daemon.current_index_hash ==> daemon.updated(hash).current_index_hash == hash,
        hash <= daemon.current_index_hash ==> daemon.updated(hash) == daemon,
        daemon.updated(hash) == (ClientDaemonView {
            current_index_hash: daemon.updated(hash).current_index_hash,
            ..daemon
        }),
{
}

/// Over every run of updates the fingerprint ends not below where it began
/// and not below any value that it was updated with, and nothing else of the
/// daemon changes.
pub proof fn lemma_index_hash_never_decreases(daemon: ClientDaemonView, hashes: Seq<u64>)
    ensures
        daemon.updated_all(hashes).current_index_hash >= daemon.current_index_hash,
        forall|i: int|
            0 <= i < hashes.len() ==> daemon.updated_all(hashes).current_index_hash
                >= #[trigger] hashes[i],
        daemon.updated_all(hashes) == (ClientDaemonView {
            current_index_hash: daemon.updated_all(hashes).current_index_hash,
            ..daemon
        }),
    decreases hashes.len(),
{
    if hashes.len() > 0 {
        let rest = hashes.skip(1);
        lemma_index_hash_never_decreases(daemon.updated(hashes[0]), rest);
        assert forall|i: int| 0 <= i < hashes.len() implies daemon.updated_all(
            hashes,
        ).current_index_hash >= #[trigger] hashes[i] by {
            if i > 0 {
                assert(rest[i - 1] == hashes[i]);
            }
        }
    }
}

} // verus!
