//! Process-supervision fabric: typed pipe and control endpoints, an envelope
//! codec for the internal control channels, descriptor-lifecycle rules, and
//! the decision logic of the five cooperating roles and the init sequencer.

pub mod codec;
pub mod control;
pub mod dec;
mod error;
pub mod fork;
pub mod init;
pub mod ledger;
pub mod msg;
pub mod pipe;
pub mod procs;
mod sys;

pub use error::Error;
pub use error::ErrorKind;
