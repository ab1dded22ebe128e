//! Log levels for driver diagnostics.
//!
//! The core itself does no printing; the embedding program maps these
//! levels onto whatever logging facility it has.

use vstd::prelude::*;

verus! {

/// Log Level.
#[derive(Clone, Copy, Debug, PartialEq, Eq, Structural)]
pub enum LogLevel {
    /// The "EMERG" level.
    Emerge,
    /// The "Alert" level.
    Alert,
    /// The "Crit" level.
    Crit,
    /// The "error" level.
    Error,
    /// The "warn" level.
    Warn,
    /// The "info" level.
    Info,
    /// The "debug" level.
    Debug,
    /// The "continuation" level.
    Cont,
}

} // verus!
