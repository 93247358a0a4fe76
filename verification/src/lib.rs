//! Decoding, classification and key derivation for the on-chain mail
//! program's binary payloads.
//!
//! The library turns untrusted byte payloads — structured log events and
//! call instructions emitted by one program — into strongly typed records,
//! attaches their transaction context, derives a deterministic
//! content-addressed primary key for each, and emits storage-ready rows.

use vstd::prelude::*;

pub mod dispatch;
pub mod errors;
pub mod events;
pub mod helpers;
pub mod instructions;
pub mod keys;
pub mod output;
pub mod pipeline;
pub mod rows;
pub mod types;

pub use pipeline::map_program_data;
pub use rows::db_out;

verus! {

/// Identifier of the on-chain program whose emissions this library decodes.
pub const PROGRAM_ID: &'static str = "Mai1UbiFBUvDnE2DDRxp765sRtX792zw24cgSpcgrz1";

} // verus!
