//! Detection of drag-selections of text anywhere on the desktop.
//!
//! The library holds the decisions of the selection pipeline: the gesture
//! recognizer that turns raw pointer events into extraction requests, the
//! ordered fallback between the extraction tiers, the lifecycle of the
//! global hook, and the events that reach the consumer. The platform work
//! itself (the hook, the accessibility query, the clipboard, the key
//! injection) is performed by the caller, which hands the results back.
pub mod actions;
pub mod event;
pub mod extract;
pub mod gesture;
pub mod hooks;
pub mod notify;
pub mod text;
pub mod toolbar;
