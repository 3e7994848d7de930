//! Settlement-notification pipeline for keysend chat messages.
//!
//! The library holds the verified core of a bridge between a Lightning
//! payment node and a direct-message relay: classifying settlement events,
//! extracting the embedded chat message and sender identity, the cache-aside
//! alias lookup, and formatting of the outbound notification. The
//! surrounding process (subscription transport, HTTP, relay client) lives
//! outside the library and exchanges plain values with it.

pub mod alias;
pub mod event;
pub mod extract;
pub mod format;
pub mod hexenc;
pub mod pipeline;
pub mod text;
pub mod timefmt;
