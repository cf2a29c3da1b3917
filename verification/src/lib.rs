//! A small feed widget's verified core: a bounded least-recently-used image
//! cache, an authenticated fetch cycle driven as a state machine, and a
//! process-reachable visibility control service.
//!
//! The network, the session bus and the screen stay outside; the library
//! decides what to request, how responses become displayable items, what the
//! cache keeps, and which command every visibility change produces.

pub mod cache;
pub mod dbus;
pub mod structs;
pub mod www;
