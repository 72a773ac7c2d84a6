//! The server daemon: the state of the process on the remote host and what
//! it decides about the connections that reach it through the tunnel.

use vstd::prelude::*;
use vstd::string::StringExecFns;

use crate::dispatch::{action_of, serve, SessionAction, SessionEvent};
use crate::structs::client::local_address;

verus! {

/// The state of the server process.
pub struct ServerDaemon {
    /// The root of the workspace that the server works on.
    pub workspace: String,
    /// The directory in which the server keeps what it derives.
    pub emacs_remote_path: String,
    port: String,
}

/// The server daemon as a mathematical value.
pub struct ServerDaemonView {
    pub workspace: Seq<char>,
    pub emacs_remote_path: Seq<char>,
    pub port: Seq<char>,
}

impl View for ServerDaemon {
    type V = ServerDaemonView;

    closed spec fn view(&self) -> ServerDaemonView {
        ServerDaemonView {
            workspace: self.workspace@,
            emacs_remote_path: self.emacs_remote_path@,
            port: self.port@,
        }
    }
}

impl ServerDaemon {
    pub fn new(emacs_remote_path: String, port: String, workspace: String) -> (daemon: ServerDaemon)
        ensures
            daemon@ == (ServerDaemonView {
                workspace: workspace@,
                emacs_remote_path: emacs_remote_path@,
                port: port@,
            }),
    {
        ServerDaemon { workspace, emacs_remote_path, port }
    }

    /// The address at which the server listens.
    pub fn listen_address(&self) -> (out: String)
        ensures
            out@ == local_address(self@.port),
    {
        let mut out = String::from_str("localhost:");
        out.append(self.port.as_str());
        out
    }

    /// Decides what the listening server does about an event of its socket.
    /// The state of the daemon stays as it is.
    pub fn listen(&mut self, event: &SessionEvent) -> (action: SessionAction)
        ensures
            final(self)@ == old(self)@,
            action@ == action_of(*event),
            action@ is Stop <==> *event is SocketFailed,
    {
        serve(event)
    }
}

} // verus!
