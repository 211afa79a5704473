//! The platform adapters: one module per target service. Each builds the
//! service's request URLs and payloads and interprets its responses into
//! plain values; the transport itself is the caller's work.

pub mod spotify;
pub mod subsonic;
pub mod youtube;
