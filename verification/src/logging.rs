//! Process-wide logging initialization.
//!
//! Exposed as an explicit, idempotent entry point that a caller may invoke
//! once before constructing a bridge, rather than as a construction-time
//! side effect. Platform-specific log sinks are wired up outside this
//! crate; this entry point installs the default collector.

use vstd::prelude::*;

verus! {

/// Relies on `tracing_subscriber::fmt::try_init`: installs the
/// process-global default trace collector, returning an error — never
/// panicking — if one is already installed. The error is deliberately
/// ignored: a collector being present already is exactly the intended
/// state.
#[verifier::external_body]
fn try_install_log_collector() {
    let _ = tracing_subscriber::fmt::try_init();
}

/// Initializes process-wide logging. Idempotent: the first call installs
/// the default log collector and every later call finds one installed and
/// leaves it in place.
pub fn init_logging() {
    try_install_log_collector();
}

} // verus!
