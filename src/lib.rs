//! A readiness-driven receive loop over one non-blocking byte stream, kept
//! free of I/O: the caller waits for events and reads, and the loop's state
//! machine decides what each event and each read outcome means.

pub mod laws;
pub mod peer;
pub mod receiver;
pub mod text;
