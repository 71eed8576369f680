//! Instruction decoding and dispatch for a fleet of worker nodes.
//!
//! Each call hands the library one untrusted byte buffer. The buffer is
//! decoded into a typed [`instruction::Instruction`] or rejected with a
//! typed [`error::DecodeError`], and a decoded instruction is routed to
//! exactly one handler, which produces an [`dispatch::Effect`] record.

pub mod error;
pub mod field;
pub mod instruction;
pub mod decode;
pub mod encode;
pub mod dispatch;
pub mod laws;
