//! A pluggable data-availability (DA) client: a capability contract for DA
//! backends together with its polling backend, which pads and submits batch
//! payloads to a dispersal endpoint and then confirms inclusion by scanning
//! validator endpoints under bounded retries, telling transient failures
//! apart from permanent ones.
//!
//! All protocol decisions are made by the verified functions of this crate;
//! the network transport itself (HTTP requests and the polling throttle)
//! lives outside and feeds its observations back in as plain values.

use vstd::prelude::*;

pub mod client;
pub mod codec;
pub mod config;
pub mod engine;
pub mod error;
pub mod types;
pub mod wiring;

verus! {

/// The DA network stores data in field-element chunks of this many bytes;
/// every submitted payload is zero-padded to a multiple of it.
pub const CHUNK_SIZE: usize = 31;

} // verus!
