//! A single event-loop actor that owns every window record, a work queue
//! that carries commands and queries to it from other threads, and the
//! decisions of the native message loop and of display enumeration.
pub mod actor;
pub mod appearance;
pub mod guiwin;
pub mod laws;
pub mod notify;
pub mod queue;
pub mod record;
pub mod retry;
pub mod screens;
pub mod wide;
