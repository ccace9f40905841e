//! The process-wide toggle for the diagnostic tracing subsystem.
//!
//! The toggle is independent of the session lifecycle: it may be switched
//! in either lifecycle stage. The switch records the value it was last set
//! to, so contracts can speak of it, and drives the global trace collector
//! on every change.

use vstd::prelude::*;

verus! {

/// Relies on xi_trace::enable_tracing: switches the global trace collector
/// on, with the default configuration.
#[verifier::external_body]
fn trace_on() {
    xi_trace::enable_tracing()
}

/// Relies on xi_trace::disable_tracing: switches the global trace
/// collector off and drops the collected samples.
#[verifier::external_body]
fn trace_off() {
    xi_trace::disable_tracing()
}

/// The tracing switch. Its view is the value it was last set to; tracing
/// is disabled on program launch.
pub struct TracingSwitch {
    enabled: bool,
}

impl View for TracingSwitch {
    type V = bool;

    closed spec fn view(&self) -> bool {
        self.enabled
    }
}

impl TracingSwitch {
    /// A fresh switch, matching the collector's initial disabled state.
    pub fn new() -> (r: TracingSwitch)
        ensures
            !r@,
    {
        TracingSwitch { enabled: false }
    }

    pub fn is_enabled(&self) -> (r: bool)
        ensures
            r == self@,
    {
        self.enabled
    }

    /// Drives the global collector and records the new value.
    pub fn set(&mut self, enabled: bool)
        ensures
            final(self)@ == enabled,
    {
        if enabled {
            trace_on();
        } else {
            trace_off();
        }
        self.enabled = enabled;
    }
}

} // verus!
