//! Responding to Discord interactions concisely, with verified response
//! bookkeeping.
//!
//! The heart of the crate is the interaction handle: a per-interaction state
//! machine that decides, for every response attempt, whether the transport
//! must create the interaction's single initial response or a followup
//! message, and that optionally tracks the identifier of the most recent
//! followup so it can be edited later without the caller remembering it.
//!
//! Network calls are asynchronous and live outside this crate: the handle
//! produces a request value describing exactly which transport operation to
//! perform, the surrounding program performs it and reports the outcome back
//! to the handle, which updates its state and classifies failures.
//!
//! [`model`] holds the crate's view of response payloads and interaction
//! data, [`builder`] offers builders for those payloads, [`extract`] pulls
//! command options and modal values out of interaction data, and [`text`]
//! holds the verified string helpers the extraction code rests on.

pub mod builder;
pub mod extract;
pub mod handle;
pub mod model;
pub mod text;

pub use handle::InteractionHandle;
