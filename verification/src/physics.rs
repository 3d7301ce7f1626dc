//! The physics world, as far as the engine core deals with it.
//!
//! Simulation is done by `rapier2d`. Its sets and pipelines are carried
//! through the verified code as opaque values. What the core needs to know of
//! them (which handles are live, which body a collider hangs on, which entity
//! a collider belongs to, which pairs touch) is named by the uninterpreted
//! functions below, and each call into `rapier2d` goes through a trusted
//! function that states what the call does to those names.
//!
//! The sets of one world are kept together in a [`PhysicsWorld`], which
//! alone changes them: rapier relies on the body set, the collider set, the
//! island manager and the rest having been through the same calls.
//!
//! Floating-point values never enter verified code: where one has to be
//! carried (a translation, the gravity) it travels as its IEEE-754 bit
//! pattern.

use vstd::prelude::*;
use rapier2d::dynamics::CCDSolver;
use rapier2d::dynamics::ImpulseJointSet;
use rapier2d::dynamics::IslandManager;
use rapier2d::dynamics::MultibodyJointSet;
use rapier2d::dynamics::RigidBody;
use rapier2d::dynamics::RigidBodySet;
use rapier2d::geometry::BroadPhase;
use rapier2d::geometry::Collider;
use rapier2d::geometry::ColliderSet;
use rapier2d::geometry::NarrowPhase;
use rapier2d::pipeline::PhysicsPipeline;
use rapier2d::pipeline::QueryPipeline;

verus! {

#[verifier::external_type_specification]
#[verifier::external_body]
pub struct ExRigidBodySet(RigidBodySet);

#[verifier::external_type_specification]
#[verifier::external_body]
pub struct ExColliderSet(ColliderSet);

#[verifier::external_type_specification]
#[verifier::external_body]
pub struct ExNarrowPhase(NarrowPhase);

#[verifier::external_type_specification]
#[verifier::external_body]
pub struct ExIslandManager(IslandManager);

#[verifier::external_type_specification]
#[verifier::external_body]
pub struct ExBroadPhase(BroadPhase);

#[verifier::external_type_specification]
#[verifier::external_body]
pub struct ExImpulseJointSet(ImpulseJointSet);

#[verifier::external_type_specification]
#[verifier::external_body]
pub struct ExMultibodyJointSet(MultibodyJointSet);

#[verifier::external_type_specification]
#[verifier::external_body]
pub struct ExCCDSolver(CCDSolver);

#[verifier::external_type_specification]
#[verifier::external_body]
pub struct ExQueryPipeline(QueryPipeline);

#[verifier::external_type_specification]
#[verifier::external_body]
pub struct ExPhysicsPipeline(PhysicsPipeline);

#[verifier::external_type_specification]
#[verifier::external_body]
pub struct ExRigidBody(RigidBody);

#[verifier::external_type_specification]
#[verifier::external_body]
pub struct ExCollider(Collider);

/// Handle of a rigid body: slot index and generation of the slot.
#[derive(Clone, Copy, Debug, PartialEq, Eq, Hash, Structural)]
pub struct RigidBodyHandle {
    pub index: u32,
    pub generation: u32,
}

/// Handle of a collider: slot index and generation of the slot.
#[derive(Clone, Copy, Debug, PartialEq, Eq, Hash, Structural)]
pub struct ColliderHandle {
    pub index: u32,
    pub generation: u32,
}

impl RigidBodyHandle {
    pub open spec fn parts(self) -> (u32, u32) {
        (self.index, self.generation)
    }
}

impl ColliderHandle {
    pub open spec fn parts(self) -> (u32, u32) {
        (self.index, self.generation)
    }

    /// The handle as one number, for the latch set.
    pub open spec fn spec_key(self) -> u64 {
        (self.index as u64 * 0x1_0000_0000 + self.generation as u64) as u64
    }

    #[verifier::when_used_as_spec(spec_key)]
    pub fn key(self) -> (k: u64)
        ensures
            k == self.spec_key(),
    {
        let index: u64 = self.index as u64;
        let generation: u64 = self.generation as u64;
        index * 0x1_0000_0000 + generation
    }

    /// Different handles have different keys.
    pub proof fn lemma_key_injective(a: ColliderHandle, b: ColliderHandle)
        ensures
            a.spec_key() == b.spec_key() <==> a == b,
    {
    }
}

/// The live rigid bodies of a set: handle parts to the bit patterns of the
/// body's translation (x, y).
pub uninterp spec fn body_positions(set: RigidBodySet) -> Map<(u32, u32), (u32, u32)>;

/// The live colliders of a set: handle parts to the parts of the handle of
/// the body the collider is attached to, if any.
pub uninterp spec fn collider_parents(set: ColliderSet) -> Map<(u32, u32), Option<(u32, u32)>>;

/// The user data of each live collider of a set.
pub uninterp spec fn collider_tags(set: ColliderSet) -> Map<(u32, u32), u128>;

/// The user data of a collider that is in no set yet.
pub uninterp spec fn collider_tag(collider: Collider) -> u128;

/// The contact pairs a narrow phase tracks: pair of collider handle parts to
/// whether the pair has an active contact.
pub uninterp spec fn contact_pairs(narrow_phase: NarrowPhase) -> Map<
    ((u32, u32), (u32, u32)),
    bool,
>;

/// The intersection pairs a narrow phase tracks: pair of collider handle
/// parts to whether the two shapes intersect.
pub uninterp spec fn intersection_pairs(narrow_phase: NarrowPhase) -> Map<
    ((u32, u32), (u32, u32)),
    bool,
>;

/// What looking up the parent of `collider` in `set` gives: nothing for a
/// handle that is not live, else the body the collider is attached to, if
/// any.
pub open spec fn parent_lookup(set: ColliderSet, collider: ColliderHandle) -> Option<
    Option<RigidBodyHandle>,
> {
    if collider_parents(set).contains_key(collider.parts()) {
        Some(
            match collider_parents(set)[collider.parts()] {
                Some(parts) => Some(RigidBodyHandle { index: parts.0, generation: parts.1 }),
                None => None,
            },
        )
    } else {
        None
    }
}

/// Derived `Clone` of `RigidBodySet`: the same bodies under the same handles.
pub assume_specification[ <RigidBodySet as Clone>::clone ](set: &RigidBodySet) -> (copy:
    RigidBodySet)
    ensures
        body_positions(copy) == body_positions(*set),
;

/// Derived `Clone` of `ColliderSet`: the same colliders under the same
/// handles, with the same parents and user data.
pub assume_specification[ <ColliderSet as Clone>::clone ](set: &ColliderSet) -> (copy: ColliderSet)
    ensures
        collider_parents(copy) == collider_parents(*set),
        collider_tags(copy) == collider_tags(*set),
;

/// Derived `Clone` of `NarrowPhase`: the same pairs in the same state.
pub assume_specification[ <NarrowPhase as Clone>::clone ](narrow_phase: &NarrowPhase) -> (copy:
    NarrowPhase)
    ensures
        contact_pairs(copy) == contact_pairs(*narrow_phase),
        intersection_pairs(copy) == intersection_pairs(*narrow_phase),
;

/// Derived `Clone` of `IslandManager`.
pub assume_specification[ <IslandManager as Clone>::clone ](islands: &IslandManager) -> (copy:
    IslandManager);

/// Derived `Clone` of `BroadPhase`.
pub assume_specification[ <BroadPhase as Clone>::clone ](broad_phase: &BroadPhase) -> (copy:
    BroadPhase);

/// Derived `Clone` of `ImpulseJointSet`.
pub assume_specification[ <ImpulseJointSet as Clone>::clone ](joints: &ImpulseJointSet) -> (copy:
    ImpulseJointSet);

/// Derived `Clone` of `MultibodyJointSet`.
pub assume_specification[ <MultibodyJointSet as Clone>::clone ](joints: &MultibodyJointSet) -> (copy:
    MultibodyJointSet);

/// Derived `Clone` of `CCDSolver`.
pub assume_specification[ <CCDSolver as Clone>::clone ](solver: &CCDSolver) -> (copy: CCDSolver);

/// `RigidBodySet::new`: a set without bodies.
#[verifier::external_body]
fn body_set_new() -> (set: RigidBodySet)
    ensures
        body_positions(set).dom() == Set::<(u32, u32)>::empty(),
{
    RigidBodySet::new()
}

/// `RigidBodySet::insert`: stores the body under a handle that was not live
/// before and leaves the other bodies as they were.
#[verifier::external_body]
fn body_set_insert(set: &mut RigidBodySet, body: RigidBody) -> (handle: RigidBodyHandle)
    ensures
        !body_positions(*old(set)).contains_key(handle.parts()),
        body_positions(*final(set)).contains_key(handle.parts()),
        body_positions(*final(set)).remove(handle.parts()) == body_positions(*old(set)),
{
    let (index, generation) = set.insert(body).into_raw_parts();
    RigidBodyHandle { index, generation }
}

/// `RigidBodySet::get` with `RigidBody::translation`: the translation of the
/// body under `handle`, as bit patterns, or nothing when the handle is not
/// live.
#[verifier::external_body]
fn body_translation(set: &RigidBodySet, handle: RigidBodyHandle) -> (bits: Option<
    (u32, u32),
>)
    ensures
        bits.is_some() == body_positions(*set).contains_key(handle.parts()),
        bits.is_some() ==> bits.unwrap() == body_positions(*set)[handle.parts()],
{
    let raw = rapier2d::dynamics::RigidBodyHandle::from_raw_parts(handle.index, handle.generation);
    set.get(raw).map(|body| (body.translation().x.to_bits(), body.translation().y.to_bits()))
}

/// `ColliderSet::new`: a set without colliders.
#[verifier::external_body]
fn collider_set_new() -> (set: ColliderSet)
    ensures
        collider_parents(set).dom() == Set::<(u32, u32)>::empty(),
        collider_tags(set).dom() == Set::<(u32, u32)>::empty(),
{
    ColliderSet::new()
}

/// Assignment to the public field `Collider::user_data`.
#[verifier::external_body]
fn collider_set_tag(collider: &mut Collider, tag: u128)
    ensures
        collider_tag(*final(collider)) == tag,
{
    collider.user_data = tag;
}

/// `ColliderSet::insert`: stores the collider, detached from any body, under
/// a handle that was not live before, with the user data it came with.
#[verifier::external_body]
fn collider_set_insert(set: &mut ColliderSet, collider: Collider) -> (handle:
    ColliderHandle)
    ensures
        !collider_parents(*old(set)).contains_key(handle.parts()),
        collider_parents(*final(set)) == collider_parents(*old(set)).insert(handle.parts(), None),
        collider_tags(*final(set)) == collider_tags(*old(set)).insert(
            handle.parts(),
            collider_tag(collider),
        ),
{
    let (index, generation) = set.insert(collider).into_raw_parts();
    ColliderHandle { index, generation }
}

/// `ColliderSet::insert_with_parent`: stores the collider, attached to the
/// body under `parent`, under a handle that was not live before, with the
/// user data it came with. The set of bodies keeps its handles. The call
/// panics when `parent` is not live, which the precondition rules out.
#[verifier::external_body]
fn collider_set_insert_with_parent(
    set: &mut ColliderSet,
    collider: Collider,
    parent: RigidBodyHandle,
    bodies: &mut RigidBodySet,
) -> (handle: ColliderHandle)
    requires
        body_positions(*old(bodies)).contains_key(parent.parts()),
    ensures
        !collider_parents(*old(set)).contains_key(handle.parts()),
        collider_parents(*final(set)) == collider_parents(*old(set)).insert(
            handle.parts(),
            Some(parent.parts()),
        ),
        collider_tags(*final(set)) == collider_tags(*old(set)).insert(
            handle.parts(),
            collider_tag(collider),
        ),
        body_positions(*final(bodies)).dom() == body_positions(*old(bodies)).dom(),
{
    let raw = rapier2d::dynamics::RigidBodyHandle::from_raw_parts(parent.index, parent.generation);
    let (index, generation) = set.insert_with_parent(collider, raw, bodies).into_raw_parts();
    ColliderHandle { index, generation }
}

/// `ColliderSet::remove`, waking the parent up: takes the collider under
/// `handle` out of the set and detaches it from its body; the result tells
/// whether the handle was live. No body is added, removed or moved. (The
/// set counts its removals in a `u32`.)
#[verifier::external_body]
fn collider_set_remove(
    set: &mut ColliderSet,
    handle: ColliderHandle,
    islands: &mut IslandManager,
    bodies: &mut RigidBodySet,
) -> (removed: bool)
    ensures
        removed == collider_parents(*old(set)).contains_key(handle.parts()),
        collider_parents(*final(set)) == collider_parents(*old(set)).remove(handle.parts()),
        collider_tags(*final(set)) == collider_tags(*old(set)).remove(handle.parts()),
        body_positions(*final(bodies)) == body_positions(*old(bodies)),
{
    let raw = rapier2d::geometry::ColliderHandle::from_raw_parts(handle.index, handle.generation);
    set.remove(raw, islands, bodies, true).is_some()
}

/// `RigidBodySet::remove`, removing the attached colliders too: takes the
/// body under `handle` out of the set, with its colliders and joints; the
/// result tells whether the handle was live. The other bodies stay as they
/// were. Colliders are only taken out: what is left of them is as it was.
#[verifier::external_body]
fn body_set_remove(
    set: &mut RigidBodySet,
    handle: RigidBodyHandle,
    islands: &mut IslandManager,
    colliders: &mut ColliderSet,
    impulse_joints: &mut ImpulseJointSet,
    multibody_joints: &mut MultibodyJointSet,
) -> (removed: bool)
    ensures
        removed == body_positions(*old(set)).contains_key(handle.parts()),
        body_positions(*final(set)) == body_positions(*old(set)).remove(handle.parts()),
        collider_parents(*final(colliders)).submap_of(collider_parents(*old(colliders))),
        collider_tags(*final(colliders)).submap_of(collider_tags(*old(colliders))),
{
    let raw = rapier2d::dynamics::RigidBodyHandle::from_raw_parts(handle.index, handle.generation);
    set.remove(raw, islands, colliders, impulse_joints, multibody_joints, true).is_some()
}

/// `ColliderSet::get` with `Collider::parent`: for a live handle, the handle
/// of the body the collider is attached to, if any; nothing when the handle
/// is not live.
#[verifier::external_body]
fn collider_parent(set: &ColliderSet, handle: ColliderHandle) -> (parent: Option<
    Option<RigidBodyHandle>,
>)
    ensures
        parent.is_some() == collider_parents(*set).contains_key(handle.parts()),
        parent.is_some() ==> (parent.unwrap().is_some() == collider_parents(
            *set,
        )[handle.parts()].is_some()),
        parent.is_some() && parent.unwrap().is_some() ==> parent.unwrap().unwrap().parts()
            == collider_parents(*set)[handle.parts()].unwrap(),
{
    let raw = rapier2d::geometry::ColliderHandle::from_raw_parts(handle.index, handle.generation);
    let parent = set.get(raw).map(|collider| collider.parent().map(|body| body.into_raw_parts()));
    parent.map(|found| found.map(|(index, generation)| RigidBodyHandle { index, generation }))
}

/// `ColliderSet::get` with the public field `Collider::user_data`: the user
/// data of the collider under `handle`, or nothing when the handle is not
/// live.
#[verifier::external_body]
fn collider_tag_of(set: &ColliderSet, handle: ColliderHandle) -> (tag: Option<u128>)
    ensures
        tag.is_some() == collider_tags(*set).contains_key(handle.parts()),
        tag.is_some() ==> tag.unwrap() == collider_tags(*set)[handle.parts()],
{
    let raw = rapier2d::geometry::ColliderHandle::from_raw_parts(handle.index, handle.generation);
    set.get(raw).map(|collider| collider.user_data)
}

/// `NarrowPhase::contact_pair` with the public field
/// `ContactPair::has_any_active_contact`: whether the tracked pair has an
/// active contact, or nothing when the narrow phase tracks no such pair.
#[verifier::external_body]
fn contact_pair_active(
    narrow_phase: &NarrowPhase,
    first: ColliderHandle,
    second: ColliderHandle,
) -> (active: Option<bool>)
    ensures
        active.is_some() == contact_pairs(*narrow_phase).contains_key(
            (first.parts(), second.parts()),
        ),
        active.is_some() ==> active.unwrap() == contact_pairs(*narrow_phase)[(
            first.parts(),
            second.parts(),
        )],
{
    let a = rapier2d::geometry::ColliderHandle::from_raw_parts(first.index, first.generation);
    let b = rapier2d::geometry::ColliderHandle::from_raw_parts(second.index, second.generation);
    narrow_phase.contact_pair(a, b).map(|pair| pair.has_any_active_contact)
}

/// `NarrowPhase::intersection_pair`: whether the two shapes of the tracked
/// pair intersect, or nothing when the narrow phase tracks no such pair.
#[verifier::external_body]
fn intersection_pair_state(
    narrow_phase: &NarrowPhase,
    first: ColliderHandle,
    second: ColliderHandle,
) -> (intersecting: Option<bool>)
    ensures
        intersecting.is_some() == intersection_pairs(*narrow_phase).contains_key(
            (first.parts(), second.parts()),
        ),
        intersecting.is_some() ==> intersecting.unwrap() == intersection_pairs(*narrow_phase)[(
            first.parts(),
            second.parts(),
        )],
{
    let a = rapier2d::geometry::ColliderHandle::from_raw_parts(first.index, first.generation);
    let b = rapier2d::geometry::ColliderHandle::from_raw_parts(second.index, second.generation);
    narrow_phase.intersection_pair(a, b)
}

/// `PhysicsPipeline::step` on the parts of one world, under the given
/// gravity, with rapier's own `IntegrationParameters::default()` (whose
/// `min_island_size` is 128), without hooks, event handler or query
/// pipeline: advances the simulation by one step. A step moves bodies and
/// updates the pairs of the narrow phase; it neither adds nor removes a body
/// or a collider, and changes no collider's parent or user data.
#[verifier::external_body]
fn physics_step(
    pipeline: &mut PhysicsPipeline,
    gravity_x_bits: u32,
    gravity_y_bits: u32,
    world: &mut WorldParts,
)
    ensures
        body_positions(final(world).rigid_body_set).dom() == body_positions(
            old(world).rigid_body_set,
        ).dom(),
        collider_parents(final(world).collider_set) == collider_parents(old(world).collider_set),
        collider_tags(final(world).collider_set) == collider_tags(old(world).collider_set),
{
    let x = rapier2d::math::Real::from_bits(gravity_x_bits);
    let gravity = rapier2d::math::Vector::new(x, rapier2d::math::Real::from_bits(gravity_y_bits));
    let parameters = rapier2d::dynamics::IntegrationParameters::default();
    pipeline.step(
        &gravity, &parameters, &mut world.island_manager, &mut world.broad_phase,
        &mut world.narrow_phase, &mut world.rigid_body_set, &mut world.collider_set,
        &mut world.impulse_joint_set, &mut world.multibody_joint_set, &mut world.ccd_solver,
        None, &(), &(),
    );
}

/// Whether the bit pattern is that of a finite `f32`.
pub open spec fn finite_bits(bits: u32) -> bool {
    bits & 0x7f80_0000 != 0x7f80_0000
}

/// Whether two bit patterns, the second that of a finite `f32`, stand for
/// the same number: they are the same bits, or the two zeros.
pub open spec fn same_number(a: u32, b: u32) -> bool {
    a == b || (a & 0x7fff_ffff == 0 && b & 0x7fff_ffff == 0)
}

/// Where a body that was at `before` is after it was moved to the given
/// coordinates: there, bit for bit; or, if it was there already as numbers,
/// where it was, so that a zero may keep its sign.
pub open spec fn placed(before: (u32, u32), now: (u32, u32), x_bits: u32, y_bits: u32) -> bool {
    now == (x_bits, y_bits) || (now == before && same_number(before.0, x_bits) && same_number(
        before.1,
        y_bits,
    ))
}

/// `RigidBodySet::get_mut` with `RigidBody::set_translation`, waking the
/// body up: moves the body under `handle` to the given coordinates; the
/// result tells whether the handle was live. The other bodies stay as they
/// were. Rapier writes the coordinates unless the body has them already as
/// numbers, in which case it may leave the body alone: the body is then
/// `placed`.
#[verifier::external_body]
fn body_set_translation(
    set: &mut RigidBodySet,
    handle: RigidBodyHandle,
    x_bits: u32,
    y_bits: u32,
) -> (moved: bool)
    requires
        finite_bits(x_bits),
        finite_bits(y_bits),
    ensures
        moved == body_positions(*old(set)).contains_key(handle.parts()),
        body_positions(*final(set)).dom() == body_positions(*old(set)).dom(),
        body_positions(*final(set)).remove(handle.parts()) == body_positions(*old(set)).remove(
            handle.parts(),
        ),
        !moved ==> body_positions(*final(set)) == body_positions(*old(set)),
        moved ==> placed(
            body_positions(*old(set))[handle.parts()],
            body_positions(*final(set))[handle.parts()],
            x_bits,
            y_bits,
        ),
{
    let raw = rapier2d::dynamics::RigidBodyHandle::from_raw_parts(handle.index, handle.generation);
    let to = rapier2d::math::Vector::new(
        rapier2d::math::Real::from_bits(x_bits),
        rapier2d::math::Real::from_bits(y_bits),
    );
    set.get_mut(raw).map(|body| body.set_translation(to, true)).is_some()
}

/// `RigidBodySet::get_mut` with `RigidBody::set_position`, waking the body
/// up: moves the body under `handle` to the given coordinates and turns it
/// to the given angle, in radians; the result tells whether the handle was
/// live. The other bodies stay as they were. As with
/// `RigidBody::set_translation`, rapier writes the position unless the body
/// has it already as numbers: the body is then `placed`.
#[verifier::external_body]
fn body_set_position(
    set: &mut RigidBodySet,
    handle: RigidBodyHandle,
    x_bits: u32,
    y_bits: u32,
    angle_bits: u32,
) -> (moved: bool)
    requires
        finite_bits(x_bits),
        finite_bits(y_bits),
        finite_bits(angle_bits),
    ensures
        moved == body_positions(*old(set)).contains_key(handle.parts()),
        body_positions(*final(set)).dom() == body_positions(*old(set)).dom(),
        body_positions(*final(set)).remove(handle.parts()) == body_positions(*old(set)).remove(
            handle.parts(),
        ),
        !moved ==> body_positions(*final(set)) == body_positions(*old(set)),
        moved ==> placed(
            body_positions(*old(set))[handle.parts()],
            body_positions(*final(set))[handle.parts()],
            x_bits,
            y_bits,
        ),
{
    let raw = rapier2d::dynamics::RigidBodyHandle::from_raw_parts(handle.index, handle.generation);
    let to = rapier2d::math::Vector::new(
        rapier2d::math::Real::from_bits(x_bits),
        rapier2d::math::Real::from_bits(y_bits),
    );
    let place = rapier2d::math::Isometry::new(to, rapier2d::math::Real::from_bits(angle_bits));
    set.get_mut(raw).map(|body| body.set_position(place, true)).is_some()
}

/// `RigidBodySet::get_mut` with `RigidBody::reset_forces`, waking the body
/// up: takes the constant forces that were added to the body under `handle`
/// away; the result tells whether the handle was live. No body is added,
/// removed or moved by the call itself.
#[verifier::external_body]
fn body_reset_forces(set: &mut RigidBodySet, handle: RigidBodyHandle) -> (found: bool)
    ensures
        found == body_positions(*old(set)).contains_key(handle.parts()),
        body_positions(*final(set)) == body_positions(*old(set)),
{
    let raw = rapier2d::dynamics::RigidBodyHandle::from_raw_parts(handle.index, handle.generation);
    set.get_mut(raw).map(|body| body.reset_forces(true)).is_some()
}

/// `RigidBodySet::get_mut` with `RigidBody::set_linvel`, waking the body
/// up: gives the body under `handle` the linear velocity with the given
/// components; the result tells whether the handle was live. No body is
/// added, removed or moved by the call itself.
#[verifier::external_body]
fn body_set_linvel(
    set: &mut RigidBodySet,
    handle: RigidBodyHandle,
    x_bits: u32,
    y_bits: u32,
) -> (found: bool)
    requires
        finite_bits(x_bits),
        finite_bits(y_bits),
    ensures
        found == body_positions(*old(set)).contains_key(handle.parts()),
        body_positions(*final(set)) == body_positions(*old(set)),
{
    let raw = rapier2d::dynamics::RigidBodyHandle::from_raw_parts(handle.index, handle.generation);
    let to = rapier2d::math::Vector::new(
        rapier2d::math::Real::from_bits(x_bits),
        rapier2d::math::Real::from_bits(y_bits),
    );
    set.get_mut(raw).map(|body| body.set_linvel(to, true)).is_some()
}

/// `RigidBodySet::get_mut` with `RigidBody::apply_impulse`, waking the body
/// up: applies the impulse with the given components at the centre of mass
/// of the body under `handle`; the result tells whether the handle was
/// live. No body is added, removed or moved by the call itself.
#[verifier::external_body]
fn body_apply_impulse(
    set: &mut RigidBodySet,
    handle: RigidBodyHandle,
    x_bits: u32,
    y_bits: u32,
) -> (found: bool)
    requires
        finite_bits(x_bits),
        finite_bits(y_bits),
    ensures
        found == body_positions(*old(set)).contains_key(handle.parts()),
        body_positions(*final(set)) == body_positions(*old(set)),
{
    let raw = rapier2d::dynamics::RigidBodyHandle::from_raw_parts(handle.index, handle.generation);
    let by = rapier2d::math::Vector::new(
        rapier2d::math::Real::from_bits(x_bits),
        rapier2d::math::Real::from_bits(y_bits),
    );
    set.get_mut(raw).map(|body| body.apply_impulse(by, true)).is_some()
}

/// `QueryPipeline::update`: rebuilds the ray-cast structure from the sets.
#[verifier::external_body]
fn query_pipeline_update(
    queries: &mut QueryPipeline,
    bodies: &RigidBodySet,
    colliders: &ColliderSet,
) {
    queries.update(bodies, colliders);
}

/// `PhysicsPipeline::new`.
#[verifier::external_body]
fn physics_pipeline_new() -> PhysicsPipeline {
    PhysicsPipeline::new()
}

/// `QueryPipeline::new`.
#[verifier::external_body]
fn query_pipeline_new() -> QueryPipeline {
    QueryPipeline::new()
}

/// `NarrowPhase::new`: a narrow phase that tracks no pair.
#[verifier::external_body]
fn narrow_phase_new() -> (narrow_phase: NarrowPhase)
    ensures
        contact_pairs(narrow_phase).dom() == Set::<((u32, u32), (u32, u32))>::empty(),
        intersection_pairs(narrow_phase).dom() == Set::<((u32, u32), (u32, u32))>::empty(),
{
    NarrowPhase::new()
}

/// `IslandManager::new`.
#[verifier::external_body]
fn island_manager_new() -> IslandManager {
    IslandManager::new()
}

/// `BroadPhase::new`.
#[verifier::external_body]
fn broad_phase_new() -> BroadPhase {
    BroadPhase::new()
}

/// `ImpulseJointSet::new`.
#[verifier::external_body]
fn impulse_joint_set_new() -> ImpulseJointSet {
    ImpulseJointSet::new()
}

/// `MultibodyJointSet::new`.
#[verifier::external_body]
fn multibody_joint_set_new() -> MultibodyJointSet {
    MultibodyJointSet::new()
}

/// `CCDSolver::new`.
#[verifier::external_body]
fn ccd_solver_new() -> CCDSolver {
    CCDSolver::new()
}

/// One physics world: bodies, colliders and everything rapier keeps beside
/// them. The parts of a world belong together: they are made by
/// [`PhysicsWorld::new`] or copied by [`PhysicsWorld::duplicate`], and
/// changed only by the functions of this type, each of which hands rapier
/// the parts of this one world. Rapier's own sets can be read from outside,
/// not changed.
pub struct PhysicsWorld {
    parts: WorldParts,
    advanced: Ghost<nat>,
}

/// What rapier keeps of one world.
struct WorldParts {
    rigid_body_set: RigidBodySet,
    collider_set: ColliderSet,
    narrow_phase: NarrowPhase,
    island_manager: IslandManager,
    broad_phase: BroadPhase,
    impulse_joint_set: ImpulseJointSet,
    multibody_joint_set: MultibodyJointSet,
    ccd_solver: CCDSolver,
}

impl PhysicsWorld {
    /// The rigid bodies of the world.
    pub closed spec fn bodies(&self) -> RigidBodySet {
        self.parts.rigid_body_set
    }

    /// The colliders of the world.
    pub closed spec fn colliders(&self) -> ColliderSet {
        self.parts.collider_set
    }

    /// The narrow phase of the world.
    pub closed spec fn pairs(&self) -> NarrowPhase {
        self.parts.narrow_phase
    }

    /// How many steps the world was advanced by since it was made.
    pub closed spec fn steps_taken(&self) -> nat {
        self.advanced@
    }

    /// Whether the narrow phase reports an active contact for the pair.
    pub open spec fn touching(&self, a: ColliderHandle, b: ColliderHandle) -> bool {
        contact_pairs(self.pairs()).contains_key((a.parts(), b.parts())) && contact_pairs(
            self.pairs(),
        )[(a.parts(), b.parts())]
    }

    /// Whether the narrow phase reports that the shapes of the pair
    /// intersect.
    pub open spec fn overlapping(&self, a: ColliderHandle, b: ColliderHandle) -> bool {
        intersection_pairs(self.pairs()).contains_key((a.parts(), b.parts()))
            && intersection_pairs(self.pairs())[(a.parts(), b.parts())]
    }

    /// Whether the two worlds hold the same: the same bodies at the same
    /// places and the same colliders with the same parents and user data,
    /// all under the same handles; the same pairs in the same state; and as
    /// many steps taken.
    pub open spec fn same_as(&self, other: PhysicsWorld) -> bool {
        &&& body_positions(self.bodies()) == body_positions(other.bodies())
        &&& collider_parents(self.colliders()) == collider_parents(other.colliders())
        &&& collider_tags(self.colliders()) == collider_tags(other.colliders())
        &&& contact_pairs(self.pairs()) == contact_pairs(other.pairs())
        &&& intersection_pairs(self.pairs()) == intersection_pairs(other.pairs())
        &&& self.steps_taken() == other.steps_taken()
    }

    /// A world without bodies and colliders, in which no pair touches.
    pub fn new() -> (world: PhysicsWorld)
        ensures
            body_positions(world.bodies()).dom() == Set::<(u32, u32)>::empty(),
            collider_parents(world.colliders()).dom() == Set::<(u32, u32)>::empty(),
            collider_tags(world.colliders()).dom() == Set::<(u32, u32)>::empty(),
            forall|a: ColliderHandle, b: ColliderHandle| !#[trigger] world.touching(a, b),
            forall|a: ColliderHandle, b: ColliderHandle| !#[trigger] world.overlapping(a, b),
            world.steps_taken() == 0,
    {
        PhysicsWorld {
            parts: WorldParts {
                rigid_body_set: body_set_new(),
                collider_set: collider_set_new(),
                narrow_phase: narrow_phase_new(),
                island_manager: island_manager_new(),
                broad_phase: broad_phase_new(),
                impulse_joint_set: impulse_joint_set_new(),
                multibody_joint_set: multibody_joint_set_new(),
                ccd_solver: ccd_solver_new(),
            },
            advanced: Ghost(0),
        }
    }

    /// A copy of the world: the same bodies and colliders under the same
    /// handles, the same pairs.
    pub fn duplicate(&self) -> (copy: PhysicsWorld)
        ensures
            copy.same_as(*self),
            body_positions(copy.bodies()) == body_positions(self.bodies()),
            collider_parents(copy.colliders()) == collider_parents(self.colliders()),
            collider_tags(copy.colliders()) == collider_tags(self.colliders()),
            contact_pairs(copy.pairs()) == contact_pairs(self.pairs()),
            intersection_pairs(copy.pairs()) == intersection_pairs(self.pairs()),
            copy.steps_taken() == self.steps_taken(),
    {
        PhysicsWorld {
            parts: WorldParts {
                rigid_body_set: self.parts.rigid_body_set.clone(),
                collider_set: self.parts.collider_set.clone(),
                narrow_phase: self.parts.narrow_phase.clone(),
                island_manager: self.parts.island_manager.clone(),
                broad_phase: self.parts.broad_phase.clone(),
                impulse_joint_set: self.parts.impulse_joint_set.clone(),
                multibody_joint_set: self.parts.multibody_joint_set.clone(),
                ccd_solver: self.parts.ccd_solver.clone(),
            },
            advanced: Ghost(self.advanced@),
        }
    }

    /// Rapier's set of rigid bodies, to read.
    pub fn rigid_body_set(&self) -> (set: &RigidBodySet)
        ensures
            *set == self.bodies(),
    {
        &self.parts.rigid_body_set
    }

    /// Rapier's set of colliders, to read.
    pub fn collider_set(&self) -> (set: &ColliderSet)
        ensures
            *set == self.colliders(),
    {
        &self.parts.collider_set
    }

    /// Rapier's narrow phase, to read.
    pub fn narrow_phase(&self) -> (narrow_phase: &NarrowPhase)
        ensures
            *narrow_phase == self.pairs(),
    {
        &self.parts.narrow_phase
    }

    /// Puts a body into the world, under a handle that was not live before.
    pub fn insert_body(&mut self, body: RigidBody) -> (handle: RigidBodyHandle)
        ensures
            !body_positions(old(self).bodies()).contains_key(handle.parts()),
            body_positions(final(self).bodies()).contains_key(handle.parts()),
            body_positions(final(self).bodies()).remove(handle.parts()) == body_positions(
                old(self).bodies(),
            ),
            final(self).colliders() == old(self).colliders(),
            final(self).pairs() == old(self).pairs(),
            final(self).steps_taken() == old(self).steps_taken(),
    {
        body_set_insert(&mut self.parts.rigid_body_set, body)
    }

    /// Puts a collider into the world, with `tag` as its user data, hanging
    /// on the body `parent` or free-standing. A parent that is not live is
    /// an error, and the world stays as it is.
    pub fn insert_collider(
        &mut self,
        collider: Collider,
        tag: u128,
        parent: Option<RigidBodyHandle>,
    ) -> (handle: Option<ColliderHandle>)
        ensures
            handle.is_some() == (parent matches Some(body) ==> body_positions(
                old(self).bodies(),
            ).contains_key(body.parts())),
            handle.is_none() ==> *final(self) == *old(self),
            handle matches Some(h) ==> {
                &&& !collider_parents(old(self).colliders()).contains_key(h.parts())
                &&& collider_parents(final(self).colliders()) == collider_parents(
                    old(self).colliders(),
                ).insert(
                    h.parts(),
                    match parent {
                        Some(body) => Some(body.parts()),
                        None => None,
                    },
                )
                &&& collider_tags(final(self).colliders()) == collider_tags(
                    old(self).colliders(),
                ).insert(h.parts(), tag)
                &&& body_positions(final(self).bodies()).dom() == body_positions(
                    old(self).bodies(),
                ).dom()
                &&& parent.is_none() ==> final(self).bodies() == old(self).bodies()
                &&& final(self).pairs() == old(self).pairs()
                &&& final(self).steps_taken() == old(self).steps_taken()
            },
    {
        let mut collider = collider;
        match parent {
            Some(body) => {
                if body_translation(&self.parts.rigid_body_set, body).is_none() {
                    return None;
                }
                collider_set_tag(&mut collider, tag);
                Some(
                    collider_set_insert_with_parent(
                        &mut self.parts.collider_set,
                        collider,
                        body,
                        &mut self.parts.rigid_body_set,
                    ),
                )
            },
            None => {
                collider_set_tag(&mut collider, tag);
                Some(collider_set_insert(&mut self.parts.collider_set, collider))
            },
        }
    }

    /// Takes a collider out of the world; tells whether the handle was
    /// live. No body is added, removed or moved.
    pub fn remove_collider(&mut self, handle: ColliderHandle) -> (removed: bool)
        ensures
            removed == collider_parents(old(self).colliders()).contains_key(handle.parts()),
            collider_parents(final(self).colliders()) == collider_parents(
                old(self).colliders(),
            ).remove(handle.parts()),
            collider_tags(final(self).colliders()) == collider_tags(old(self).colliders()).remove(
                handle.parts(),
            ),
            body_positions(final(self).bodies()) == body_positions(old(self).bodies()),
            final(self).pairs() == old(self).pairs(),
            final(self).steps_taken() == old(self).steps_taken(),
    {
        collider_set_remove(
            &mut self.parts.collider_set,
            handle,
            &mut self.parts.island_manager,
            &mut self.parts.rigid_body_set,
        )
    }

    /// Takes a body out of the world, with the colliders that hang on it;
    /// tells whether the handle was live. The other bodies stay as they
    /// were; of the colliders, what is left is as it was.
    pub fn remove_body(&mut self, handle: RigidBodyHandle) -> (removed: bool)
        ensures
            removed == body_positions(old(self).bodies()).contains_key(handle.parts()),
            body_positions(final(self).bodies()) == body_positions(old(self).bodies()).remove(
                handle.parts(),
            ),
            collider_parents(final(self).colliders()).submap_of(
                collider_parents(old(self).colliders()),
            ),
            collider_tags(final(self).colliders()).submap_of(collider_tags(old(self).colliders())),
            final(self).pairs() == old(self).pairs(),
            final(self).steps_taken() == old(self).steps_taken(),
    {
        body_set_remove(
            &mut self.parts.rigid_body_set,
            handle,
            &mut self.parts.island_manager,
            &mut self.parts.collider_set,
            &mut self.parts.impulse_joint_set,
            &mut self.parts.multibody_joint_set,
        )
    }

    /// Moves a body to the given coordinates, each an `f32` as its bit
    /// pattern. A handle that is not live, or a coordinate that is not
    /// finite, is refused, and the world stays as it is. Only this body
    /// moves, and it is then `placed` at the coordinates.
    pub fn set_translation(&mut self, body: RigidBodyHandle, x_bits: u32, y_bits: u32) -> (moved:
        bool)
        ensures
            moved == (finite_bits(x_bits) && finite_bits(y_bits) && body_positions(
                old(self).bodies(),
            ).contains_key(body.parts())),
            body_positions(final(self).bodies()).dom() == body_positions(old(self).bodies()).dom(),
            body_positions(final(self).bodies()).remove(body.parts()) == body_positions(
                old(self).bodies(),
            ).remove(body.parts()),
            !moved ==> body_positions(final(self).bodies()) == body_positions(old(self).bodies()),
            moved ==> placed(
                body_positions(old(self).bodies())[body.parts()],
                body_positions(final(self).bodies())[body.parts()],
                x_bits,
                y_bits,
            ),
            final(self).colliders() == old(self).colliders(),
            final(self).pairs() == old(self).pairs(),
            final(self).steps_taken() == old(self).steps_taken(),
    {
        if x_bits & 0x7f80_0000 == 0x7f80_0000 || y_bits & 0x7f80_0000 == 0x7f80_0000 {
            return false;
        }
        body_set_translation(&mut self.parts.rigid_body_set, body, x_bits, y_bits)
    }

    /// Moves a body to the given coordinates and turns it to the given
    /// angle, in radians, each an `f32` as its bit pattern. A handle that is
    /// not live, or a value that is not finite, is refused, and the world
    /// stays as it is. Only this body moves, and it is then `placed` at the
    /// coordinates.
    pub fn set_position(
        &mut self,
        body: RigidBodyHandle,
        x_bits: u32,
        y_bits: u32,
        angle_bits: u32,
    ) -> (moved: bool)
        ensures
            moved == (finite_bits(x_bits) && finite_bits(y_bits) && finite_bits(angle_bits)
                && body_positions(old(self).bodies()).contains_key(body.parts())),
            body_positions(final(self).bodies()).dom() == body_positions(old(self).bodies()).dom(),
            body_positions(final(self).bodies()).remove(body.parts()) == body_positions(
                old(self).bodies(),
            ).remove(body.parts()),
            !moved ==> body_positions(final(self).bodies()) == body_positions(old(self).bodies()),
            moved ==> placed(
                body_positions(old(self).bodies())[body.parts()],
                body_positions(final(self).bodies())[body.parts()],
                x_bits,
                y_bits,
            ),
            final(self).colliders() == old(self).colliders(),
            final(self).pairs() == old(self).pairs(),
            final(self).steps_taken() == old(self).steps_taken(),
    {
        if x_bits & 0x7f80_0000 == 0x7f80_0000 || y_bits & 0x7f80_0000 == 0x7f80_0000 || angle_bits
            & 0x7f80_0000 == 0x7f80_0000 {
            return false;
        }
        body_set_position(&mut self.parts.rigid_body_set, body, x_bits, y_bits, angle_bits)
    }

    /// Takes the constant forces that were added to a body away; tells
    /// whether the handle was live. No body moves before the next step.
    pub fn reset_forces(&mut self, body: RigidBodyHandle) -> (found: bool)
        ensures
            found == body_positions(old(self).bodies()).contains_key(body.parts()),
            body_positions(final(self).bodies()) == body_positions(old(self).bodies()),
            final(self).colliders() == old(self).colliders(),
            final(self).pairs() == old(self).pairs(),
            final(self).steps_taken() == old(self).steps_taken(),
    {
        body_reset_forces(&mut self.parts.rigid_body_set, body)
    }

    /// Gives a body a linear velocity, each component an `f32` as its bit
    /// pattern. A handle that is not live, or a component that is not
    /// finite, is refused. No body moves before the next step.
    pub fn set_linvel(&mut self, body: RigidBodyHandle, x_bits: u32, y_bits: u32) -> (found: bool)
        ensures
            found == (finite_bits(x_bits) && finite_bits(y_bits) && body_positions(
                old(self).bodies(),
            ).contains_key(body.parts())),
            body_positions(final(self).bodies()) == body_positions(old(self).bodies()),
            final(self).colliders() == old(self).colliders(),
            final(self).pairs() == old(self).pairs(),
            final(self).steps_taken() == old(self).steps_taken(),
    {
        if x_bits & 0x7f80_0000 == 0x7f80_0000 || y_bits & 0x7f80_0000 == 0x7f80_0000 {
            return false;
        }
        body_set_linvel(&mut self.parts.rigid_body_set, body, x_bits, y_bits)
    }

    /// Applies an impulse at the centre of mass of a body, each component
    /// an `f32` as its bit pattern. A handle that is not live, or a
    /// component that is not finite, is refused. No body moves before the
    /// next step.
    pub fn apply_impulse(&mut self, body: RigidBodyHandle, x_bits: u32, y_bits: u32) -> (found:
        bool)
        ensures
            found == (finite_bits(x_bits) && finite_bits(y_bits) && body_positions(
                old(self).bodies(),
            ).contains_key(body.parts())),
            body_positions(final(self).bodies()) == body_positions(old(self).bodies()),
            final(self).colliders() == old(self).colliders(),
            final(self).pairs() == old(self).pairs(),
            final(self).steps_taken() == old(self).steps_taken(),
    {
        if x_bits & 0x7f80_0000 == 0x7f80_0000 || y_bits & 0x7f80_0000 == 0x7f80_0000 {
            return false;
        }
        body_apply_impulse(&mut self.parts.rigid_body_set, body, x_bits, y_bits)
    }

    /// The translation of a body, as the bit patterns of its coordinates;
    /// nothing for a handle that is not live.
    pub fn translation_of(&self, body: RigidBodyHandle) -> (bits: Option<(u32, u32)>)
        ensures
            bits == if body_positions(self.bodies()).contains_key(body.parts()) {
                Some(body_positions(self.bodies())[body.parts()])
            } else {
                None
            },
    {
        body_translation(&self.parts.rigid_body_set, body)
    }

    /// The body a collider hangs on; see [`parent_lookup`].
    pub fn parent_of(&self, collider: ColliderHandle) -> (parent: Option<Option<RigidBodyHandle>>)
        ensures
            parent == parent_lookup(self.colliders(), collider),
    {
        collider_parent(&self.parts.collider_set, collider)
    }

    /// The user data of a collider; nothing for a handle that is not live.
    pub fn tag_of(&self, collider: ColliderHandle) -> (tag: Option<u128>)
        ensures
            tag == if collider_tags(self.colliders()).contains_key(collider.parts()) {
                Some(collider_tags(self.colliders())[collider.parts()])
            } else {
                None
            },
    {
        collider_tag_of(&self.parts.collider_set, collider)
    }

    /// Whether the two colliders have an active contact.
    pub fn is_touching(&self, a: ColliderHandle, b: ColliderHandle) -> (touching: bool)
        ensures
            touching == self.touching(a, b),
    {
        match contact_pair_active(&self.parts.narrow_phase, a, b) {
            Some(true) => true,
            _ => false,
        }
    }

    /// Whether the shapes of the two colliders intersect.
    pub fn is_overlapping(&self, a: ColliderHandle, b: ColliderHandle) -> (overlapping: bool)
        ensures
            overlapping == self.overlapping(a, b),
    {
        match intersection_pair_state(&self.parts.narrow_phase, a, b) {
            Some(true) => true,
            _ => false,
        }
    }

    /// Advances the world by one step under the given gravity, each
    /// component an `f32` as its bit pattern. Bodies move and pairs change;
    /// every handle stays live, and every collider keeps its parent and its
    /// user data.
    pub fn step(&mut self, pipeline: &mut PhysicsPipeline, gravity_x_bits: u32, gravity_y_bits: u32)
        ensures
            final(self).steps_taken() == old(self).steps_taken() + 1,
            body_positions(final(self).bodies()).dom() == body_positions(old(self).bodies()).dom(),
            collider_parents(final(self).colliders()) == collider_parents(old(self).colliders()),
            collider_tags(final(self).colliders()) == collider_tags(old(self).colliders()),
    {
        physics_step(pipeline, gravity_x_bits, gravity_y_bits, &mut self.parts);
        proof {
            self.advanced = Ghost(self.advanced@ + 1);
        }
    }

    /// Rebuilds a ray-cast structure from the bodies and colliders of the
    /// world.
    pub fn refresh_queries(&self, queries: &mut QueryPipeline) {
        query_pipeline_update(queries, &self.parts.rigid_body_set, &self.parts.collider_set);
    }
}

/// A pipeline to step worlds with. It holds only buffers for the work of a
/// step, so one pipeline serves any number of worlds.
pub fn new_physics_pipeline() -> PhysicsPipeline {
    physics_pipeline_new()
}

/// An empty ray-cast structure.
pub fn new_query_pipeline() -> QueryPipeline {
    query_pipeline_new()
}

} // verus!
