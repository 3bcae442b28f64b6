//! Keeps a browser's file-association launch commands carrying a preferred
//! option string: locating the tracked store entries, resolving the effective
//! configuration, repairing launch commands, and the service run loop.

pub mod text;
pub mod reconcile;
pub mod locator;
pub mod config;
pub mod lifecycle;
