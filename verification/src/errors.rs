//! The one failure the integrators report.

use vstd::prelude::*;

verus! {

/// A step could not be completed: a denominator of the equations of motion
/// reached zero, or a value left the representable fixed-point range (the
/// integer analogue of an infinity). The step leaves the state untouched,
/// so the simulation fails fast at the step boundary instead of carrying
/// poisoned values forward.
#[derive(Clone, Copy, Debug, PartialEq, Eq, Structural)]
pub struct DegenerateConfigurationError;

} // verus!
