//! Shift synchronisation and notification dispatch.
pub mod cycle;
pub mod dates;
pub mod diff;
pub mod directory;
pub mod dispatch;
pub mod event;
pub mod render;
pub mod shift;
