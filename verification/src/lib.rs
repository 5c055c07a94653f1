//! Backend core of a desktop quick-reply utility: a streaming
//! chat-completion client (server-sent-event decoding, cooperative
//! per-request cancellation, endpoint and credential resolution) and a
//! clipboard capture engine with a fast path and a bounded fallback.

use vstd::prelude::*;

pub mod body;
pub mod capture;
pub mod errors;
pub mod json;
pub mod registry;
pub mod settings;
pub mod sse;
pub mod stream;
pub mod text;

verus! {

/// True exactly when `status` is an HTTP success status (2xx).
pub fn status_is_success(status: u16) -> (r: bool)
    ensures
        r == (200 <= status < 300),
{
    200 <= status && status < 300
}

} // verus!
