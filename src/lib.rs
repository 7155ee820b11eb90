//! Locates, provisions and launches the golangci-lint language server for an
//! editor extension.
//!
//! `platform` names the release asset that fits a host; `resolver` decides,
//! step by step, where the binary comes from and what the host must do next;
//! `laws` states what follows for whole resolutions.
pub mod platform;
pub mod resolver;
pub mod laws;
