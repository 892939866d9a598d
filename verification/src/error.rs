//! Errors reported at configuration and build time.

use vstd::prelude::*;

verus! {

/// A configuration the engine refuses at builder time.
///
/// Everything else in the engine is total: once a world, body or collider
/// has been built, stepping never fails.
#[derive(Clone, Copy, PartialEq, Eq, Structural, Debug)]
pub enum PhysicsError {
    /// `sub_step` was zero; the substep size would be undefined.
    SubStepZero,
    /// `position_iterations` was zero; contacts would never be resolved.
    PositionIterationsZero,
    /// `ticks_per_second` was not a finite value strictly above zero.
    TicksPerSecondNotPositive,
    /// `time_step` was not a finite value strictly above zero.
    TimeStepNotPositive,
    /// A mass was negative, infinite or NaN.
    MassInvalid,
    /// A radius was not a finite value strictly above zero.
    RadiusNotPositive,
    /// A half-extents vector had a component that was not finite and
    /// strictly above zero.
    HalfExtentsNotPositive,
    /// A half-height was not a finite value strictly above zero.
    HalfHeightNotPositive,
    /// The contact prediction distance was negative, infinite or NaN.
    PrecisionInvalid,
    /// The broad-phase dilation margin was negative, infinite or NaN.
    DilationInvalid,
}

} // verus!
