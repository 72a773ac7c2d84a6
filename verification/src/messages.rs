//! The messages that travel between the two daemons and their wire form:
//! an array whose first element is the unsigned tag of the message type and
//! whose remaining elements are the fields of that type.

pub mod envelope;
pub mod index;
pub mod messagetype;
