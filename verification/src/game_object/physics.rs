//! The physics handles of an entity.

use vstd::prelude::*;
use crate::physics::ColliderHandle;
use crate::physics::RigidBodyHandle;

verus! {

#[derive(Clone, Copy, Debug, PartialEq, Eq, Structural)]
pub struct PhysicsData {
    pub collider_handle: Option<ColliderHandle>,
    pub rigid_body_handle: Option<RigidBodyHandle>,
}

} // verus!
