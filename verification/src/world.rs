//! World configuration rows and the rules they are checked against.

use vstd::prelude::*;

use crate::error::PhysicsError;
use crate::math::{f32_bits_is_nonneg_finite, f32_bits_is_positive_finite, Vec3Bits};

verus! {

/// A simulation domain: its tick rate, substepping, gravity and tolerances.
///
/// Scalar fields are single-precision bit patterns; `sub_step` and
/// `position_iterations` are genuine integers. The builder enforces the
/// configuration rules; the debug flags only widen logging and default to
/// off.
#[derive(Clone, Copy, Debug)]
pub struct PhysicsWorld {
    pub id: u64,
    pub ticks_per_second: u32,
    pub time_step: u32,
    pub sub_step: u32,
    pub gravity: Vec3Bits,
    pub precision: u32,
    pub position_iterations: u32,
    pub qbvh_dilation: u32,
    pub debug: bool,
    pub debug_time: bool,
    pub debug_triggers: bool,
    pub debug_broad_phase: bool,
    pub debug_narrow_phase: bool,
    pub debug_substep: bool,
}

impl PhysicsWorld {
    /// The configuration rules a world must satisfy to be built: at least
    /// one substep and one position iteration, a positive finite tick rate
    /// and step size, and non-negative finite tolerances.
    pub open spec fn config_ok(
        ticks_per_second: u32,
        time_step: u32,
        sub_step: u32,
        precision: u32,
        position_iterations: u32,
        qbvh_dilation: u32,
    ) -> bool {
        &&& sub_step >= 1
        &&& position_iterations >= 1
        &&& f32_bits_is_positive_finite(ticks_per_second)
        &&& f32_bits_is_positive_finite(time_step)
        &&& f32_bits_is_nonneg_finite(precision)
        &&& f32_bits_is_nonneg_finite(qbvh_dilation)
    }

    /// Builds a world, refusing every configuration the engine cannot run:
    /// a zero substep count or iteration count, a tick rate or step size
    /// that is not strictly positive and finite, or a negative tolerance.
    /// The checks are reported in that order; on success every field is the
    /// given value and all debug flags are off.
    pub fn new(
        id: u64,
        ticks_per_second: u32,
        time_step: u32,
        sub_step: u32,
        gravity: Vec3Bits,
        precision: u32,
        position_iterations: u32,
        qbvh_dilation: u32,
    ) -> (r: Result<PhysicsWorld, PhysicsError>)
        ensures
            r is Ok <==> Self::config_ok(
                ticks_per_second,
                time_step,
                sub_step,
                precision,
                position_iterations,
                qbvh_dilation,
            ),
            r matches Ok(w) ==> w == (PhysicsWorld {
                id,
                ticks_per_second,
                time_step,
                sub_step,
                gravity,
                precision,
                position_iterations,
                qbvh_dilation,
                debug: false,
                debug_time: false,
                debug_triggers: false,
                debug_broad_phase: false,
                debug_narrow_phase: false,
                debug_substep: false,
            }),
            r matches Err(e) ==> {
                &&& e == PhysicsError::SubStepZero <==> sub_step == 0
                &&& e == PhysicsError::PositionIterationsZero <==> sub_step >= 1
                    && position_iterations == 0
                &&& e == PhysicsError::TicksPerSecondNotPositive <==> sub_step >= 1
                    && position_iterations >= 1 && !f32_bits_is_positive_finite(ticks_per_second)
                &&& e == PhysicsError::TimeStepNotPositive <==> sub_step >= 1
                    && position_iterations >= 1 && f32_bits_is_positive_finite(ticks_per_second)
                    && !f32_bits_is_positive_finite(time_step)
                &&& e == PhysicsError::PrecisionInvalid <==> sub_step >= 1
                    && position_iterations >= 1 && f32_bits_is_positive_finite(ticks_per_second)
                    && f32_bits_is_positive_finite(time_step) && !f32_bits_is_nonneg_finite(
                    precision,
                )
                &&& e == PhysicsError::DilationInvalid <==> sub_step >= 1
                    && position_iterations >= 1 && f32_bits_is_positive_finite(ticks_per_second)
                    && f32_bits_is_positive_finite(time_step) && f32_bits_is_nonneg_finite(
                    precision,
                ) && !f32_bits_is_nonneg_finite(qbvh_dilation)
            },
    {
        if sub_step == 0 {
            return Err(PhysicsError::SubStepZero);
        }
        if position_iterations == 0 {
            return Err(PhysicsError::PositionIterationsZero);
        }
        if !crate::math::f32_bits_positive_finite(ticks_per_second) {
            return Err(PhysicsError::TicksPerSecondNotPositive);
        }
        if !crate::math::f32_bits_positive_finite(time_step) {
            return Err(PhysicsError::TimeStepNotPositive);
        }
        if !(precision < crate::math::POS_INF_BITS) {
            return Err(PhysicsError::PrecisionInvalid);
        }
        if !(qbvh_dilation < crate::math::POS_INF_BITS) {
            return Err(PhysicsError::DilationInvalid);
        }
        Ok(
            PhysicsWorld {
                id,
                ticks_per_second,
                time_step,
                sub_step,
                gravity,
                precision,
                position_iterations,
                qbvh_dilation,
                debug: false,
                debug_time: false,
                debug_triggers: false,
                debug_broad_phase: false,
                debug_narrow_phase: false,
                debug_substep: false,
            },
        )
    }
}

} // verus!
