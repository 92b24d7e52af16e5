//! Core of an event-log inspection toolkit: handle bookkeeping, the two-call
//! buffer negotiation used to render a record, table-driven extraction of
//! publisher metadata into JSON, the publisher enumerator, and the two
//! output forms.
//!
//! The native log API itself is never called from here. Every function takes
//! what the native side answered as a plain value and states, in its contract,
//! what is decided from it.

pub mod enumerator;
pub mod errors;
pub mod handle;
pub mod json;
pub mod present;
pub mod property;
pub mod publisher;
pub mod render;
pub mod subscription;
pub mod tables;
pub mod variant;
