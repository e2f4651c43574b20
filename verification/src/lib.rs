//! Classifier for Git smart-HTTP requests behind a CORS proxy.
//!
//! A front-end proxy hands each inbound request to [`classify::allow`], which
//! decides whether the request is one of the six shapes a Git smart-HTTP
//! exchange can take (reference discovery, upload-pack, receive-pack, and the
//! CORS preflight counterpart of each). Everything else is denied.

pub mod classify;
pub mod request;
pub mod text;
