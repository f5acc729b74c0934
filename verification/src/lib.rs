//! Typed bindings for a chat-completion service: the data model, the wire
//! encoding of requests, and the decoder for streamed response frames.

use vstd::prelude::*;

pub mod decode;
pub mod dtypes;
pub mod encode;
pub mod endpoint;
pub mod envelope;
pub mod error;
pub mod json;
pub mod roundtrip;
pub mod stream;
pub mod text;

pub use crate::dtypes::ListModelsResponse;

verus! {

/// The base address of the service.
pub const BASE_URL: &'static str = "https://api.openai.com/";

} // verus!
