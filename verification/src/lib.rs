//! A kiosk enforcement engine. It locks an endpoint into a
//! single-application mode: a per-key decision table suppresses the
//! desktop's escape mechanisms, a registry tracks the processes the
//! engine launched, and a state machine relaxes the restrictions while
//! any launched process lives and re-imposes them once none remains.
//! Around that core stand the window-chrome rule, the error taxonomy,
//! and the HMAC-signed device heartbeat.
//!
//! The engine decides; the surrounding shell performs. Every OS outcome
//! a decision depends on reaches the engine as a plain value, so the
//! transitions are verified for every outcome the OS can produce.
pub mod auth;
pub mod chrome;
pub mod engine;
pub mod error;
pub mod heartbeat;
pub mod interceptor;
pub mod procs;
pub mod registry;
pub mod text;
