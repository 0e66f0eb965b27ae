//! Core of a desktop launcher that supervises a background executor process:
//! port selection, readiness detection on the executor's output, and the
//! lifecycle state machine that decides what the UI shell does next.

pub mod port;
pub mod readiness;
pub mod url;
pub mod lifecycle;
pub mod tray;
pub mod executor;
pub mod lifecycle_lemmas;
