//! Terminal clock state synchronized against a network time source.
//!
//! The library holds the shared synchronization state (last measured clock
//! offset and the time of the last successful measurement), the pure rules
//! that turn that state into presentation values (severity bands, freshness,
//! gauge fill, offset text), and the update rule that a refresh applies.
//! Network measurement, terminal drawing and the event loops live in the
//! binary around the library.

pub mod cli;
pub mod ntp;
pub mod ui;
