//! Resolution and synchronization engine for exporting a platform-neutral
//! playlist (ordered `(title, creator)` pairs) to remote music services.
//!
//! The library covers the decision logic: building platform search queries,
//! interpreting search replies, verifying candidate matches against a policy,
//! accumulating per-track outcomes into a synchronization result, and the
//! OAuth-style authorization handshake with its one-shot resume. Network
//! transport and server wiring live outside the library and hand plain
//! values in and out.

pub mod auth;
pub mod codec;
pub mod json;
pub mod matching;
pub mod mbzlists;
pub mod platform;
pub mod sync;
pub mod view;

pub use matching::Candidate;
pub use matching::Policy;
