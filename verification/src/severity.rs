//! How loud a diagnostic is.

use vstd::prelude::*;

verus! {

/// The level at which the caller reports what the library found.
#[derive(Clone, Copy, Debug, PartialEq, Eq, Structural)]
pub enum Severity {
    /// Routine: a path or a child that was looked at and is in order.
    Trace,
    /// An anomaly that was dealt with on the spot.
    Warn,
    /// A failure that ends the check or the scan.
    Error,
}

} // verus!
