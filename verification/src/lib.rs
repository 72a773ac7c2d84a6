//! Transport and dispatch core shared by the local client daemon and the
//! remote server daemon of a remote-editing system, together with the state
//! machine that supervises the secure-shell tunnel between them.

pub mod dispatch;
pub mod error;
pub mod messages;
pub mod structs;
pub mod utils;
pub mod wire;
