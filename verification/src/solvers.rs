//! Solver strategy markers and the body lookup they share.
//!
//! The numeric passes of both solvers are floating-point arithmetic and
//! run outside the library; what they share with the verified core is the
//! lookup from a constraint's body id to its row in the sorted body array.

use vstd::prelude::*;

use crate::body::RigidBody;

verus! {

/// Marker for the impulse-based velocity-level solver.
#[derive(Clone, Copy, PartialEq, Eq, Structural, Debug)]
pub struct ImpulseSolver;

/// Marker for the projection-based position-level solver.
#[derive(Clone, Copy, PartialEq, Eq, Structural, Debug)]
pub struct PositionSolver;

/// Finds the first row holding the body with the given id; `None` iff no
/// row does.
pub fn find_body_index(bodies: &Vec<RigidBody>, id: u64) -> (r: Option<usize>)
    ensures
        r matches Some(i) ==> i < bodies@.len() && bodies@[i as int].id == id && forall|k: int|
            0 <= k < i ==> bodies@[k].id != id,
        r is None ==> forall|k: int| 0 <= k < bodies@.len() ==> bodies@[k].id != id,
{
    let n = bodies.len();
    for i in 0..n
        invariant
            n == bodies@.len(),
            forall|k: int| 0 <= k < i ==> bodies@[k].id != id,
    {
        if bodies[i].id == id {
            return Some(i);
        }
    }
    None
}

} // verus!
