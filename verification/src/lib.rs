//! Verified core of the Dojo client bindings for the Torii indexer.
//!
//! The network client itself lives outside this crate; what stands here is
//! every decision the bindings make around it: how failures of each kind of
//! request are reported, how hex-encoded field elements and token ids are
//! parsed, how subscription ids are handed out and cancelled, and how an
//! update stream is forwarded to a callback.

pub mod error;
pub mod outcome;
pub mod hex;
pub mod field_element;
pub mod token_id;
pub mod registry;
pub mod stream;
pub mod subscription;
