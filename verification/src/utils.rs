//! The tunnel supervisor and the text helpers of its command line.

pub mod decimal;
pub mod stcp;
