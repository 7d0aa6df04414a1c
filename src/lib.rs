//! An OpenAI-compatible gateway: a chat relay towards a dialog backend and an
//! asynchronous image-job coordinator towards a webhook-driven image backend.
//!
//! The modules hold the decisions of the gateway as verified functions on plain
//! values; transport, timers and storage drivers live outside this crate.
//!
//! - [`text`]: character-level string helpers with exact contracts.
//! - [`job`]: the job row and the store's update rule (terminal states are
//!   sticky, rows stay consistent).
//! - [`rendezvous`]: the registry through which the webhook side hands a
//!   result to the waiting request, or to a callback once the wait is over.
//! - [`image`]: the image coordinator: mappings, backend request, pinning,
//!   and the create and webhook flows.
//! - [`chat`]: the chat relay: request translation, replies, stream frames.

pub mod text;
pub mod job;
pub mod rendezvous;
pub mod image;
pub mod chat;
