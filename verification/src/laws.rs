//! Laws that relate the reference kinds to one another.
//!
//! Each law is a proof function over the spec functions that the contracts
//! of the executable functions use. The laws say which entity of which store
//! each reference asks about, and what is done with an answer once it is
//! there. Of the store itself they assume nothing: where a law needs a store
//! that answers one question one way only, it says so in its `requires`.

use crate::handle::{group_handle_model, BoundEntity, EntityHandle};
use crate::links::{follows, follows_opt};
use crate::ptr::{group_ptr_model, EntityPtr, WorldRef};
use crate::store::{alive, answers, entity_bits, lemma_answer_needs_entity};
use bevy_ecs::component::Component;
use bevy_ecs::entity::Entity;
use bevy_ecs::world::World;
use vstd::prelude::*;
use vstd::std_specs::cmp::PartialEqSpec;

verus! {

broadcast use {group_handle_model, group_ptr_model};

/// A handle, a bound entity and a pointer made from one id and one store ask
/// about the same entity of the same store, whichever way they were made, and
/// so agree on whether the entity exists.
pub proof fn lemma_kinds_name_one_entity(world: &'static World, entity: Entity)
    ensures
        EntityHandle::new(entity).entity() == entity,
        EntityHandle::new(entity).bind(world) == BoundEntity::new(entity, world),
        BoundEntity::new(entity, world).entity() == entity,
        BoundEntity::new(entity, world).world() == world,
        WorldRef::new(world).entity(entity) == EntityPtr::new(entity, world),
        WorldRef::new(world).from_handle(EntityHandle::new(entity)) == EntityPtr::new(entity, world),
        EntityPtr::new(entity, world).entity() == entity,
        EntityPtr::new(entity, world).world() == world,
        EntityHandle::new(entity).is_alive(world) == alive(world, entity),
        BoundEntity::new(entity, world).is_alive() == alive(world, entity),
        EntityPtr::new(entity, world).is_alive() == alive(world, entity),
{
}

/// A lookup through any of the three kinds made from one id and one store
/// puts one and the same question to the store: an answer to one of them is
/// an answer to each of the others.
pub proof fn lemma_kinds_ask_one_question<T: Component>(
    world: &'static World,
    entity: Entity,
    found: Option<&T>,
)
    ensures
        answers::<T>(world, EntityHandle::new(entity).entity(), found) == answers::<T>(
            world,
            entity,
            found,
        ),
        answers::<T>(
            BoundEntity::new(entity, world).world(),
            BoundEntity::new(entity, world).entity(),
            found,
        ) == answers::<T>(world, entity, found),
        answers::<T>(
            EntityPtr::new(entity, world).world(),
            EntityPtr::new(entity, world).entity(),
            found,
        ) == answers::<T>(world, entity, found),
{
}

/// The three kinds agree on what a lookup finds, in a store that answers one
/// question one way only.
pub proof fn lemma_kinds_agree<T: Component>(
    world: &'static World,
    entity: Entity,
    by_handle: Option<&T>,
    by_bound: Option<&T>,
    by_ptr: Option<&T>,
)
    requires
        answers::<T>(world, EntityHandle::new(entity).entity(), by_handle),
        answers::<T>(
            BoundEntity::new(entity, world).world(),
            BoundEntity::new(entity, world).entity(),
            by_bound,
        ),
        answers::<T>(
            EntityPtr::new(entity, world).world(),
            EntityPtr::new(entity, world).entity(),
            by_ptr,
        ),
        forall|a: Option<&T>, b: Option<&T>|
            answers::<T>(world, entity, a) && answers::<T>(world, entity, b) ==> a == b,
    ensures
        by_handle == by_bound,
        by_bound == by_ptr,
{
}

/// Nothing is reached from an entity that does not exist: whatever the store
/// answers for it, following a link from the answer gives no target.
pub proof fn lemma_dead_entity_links_nowhere<T: Component, F: FnOnce(&T) -> EntityHandle>(
    world: &World,
    entity: Entity,
    found: Option<&T>,
    f: F,
    target: Option<EntityHandle>,
)
    requires
        !alive(world, entity),
        answers::<T>(world, entity, found),
        follows(found, f, target),
    ensures
        found is None,
        target is None,
{
    lemma_answer_needs_entity(world, entity, found);
}

/// Turning a bound entity into a handle and binding the handle to the same
/// store gives the bound entity back.
pub proof fn lemma_bound_round_trip(bound: BoundEntity)
    ensures
        bound.handle().bind(bound.world()) == bound,
        bound.follow_handle(bound.handle()) == bound,
{
}

/// Turning a pointer into a handle and making a pointer from the handle in
/// the same store gives the pointer back.
pub proof fn lemma_ptr_round_trip(ptr: EntityPtr, factory: WorldRef)
    requires
        factory.world() == ptr.world(),
    ensures
        factory.from_handle(ptr.handle()) == ptr,
        ptr.follow_handle(ptr.handle()) == ptr,
{
}

/// A handle survives the trip through either of the other kinds.
pub proof fn lemma_handle_round_trip(handle: EntityHandle, world: &'static World)
    ensures
        handle.bind(world).handle() == handle,
        WorldRef::new(world).from_handle(handle).handle() == handle,
{
}

/// References made from one id compare equal whichever kind produced them,
/// and references made from ids with different bits do not.
pub proof fn lemma_equal_by_id(first: Entity, second: Entity, world: &'static World)
    ensures
        EntityHandle::new(first)@ == entity_bits(first),
        EntityHandle::new(first).bind(world).handle()@ == entity_bits(first),
        WorldRef::new(world).entity(first).handle()@ == entity_bits(first),
        EntityHandle::new(first).eq_spec(&EntityHandle::new(second)) == (entity_bits(first)
            == entity_bits(second)),
        EntityPtr::new(first, world).eq_spec(&EntityPtr::new(second, world)) == (entity_bits(first)
            == entity_bits(second)),
{
}

/// Following a link twice gives the same target, provided the store gave the
/// same answer both times and the extractor returns one handle for one
/// component.
pub proof fn lemma_follow_repeatable<T, F: FnOnce(&T) -> EntityHandle>(
    found: Option<&T>,
    f: F,
    first: Option<EntityHandle>,
    second: Option<EntityHandle>,
)
    requires
        follows(found, f, first),
        follows(found, f, second),
        forall|c: &T, a: EntityHandle, b: EntityHandle|
            f.ensures((c,), a) && f.ensures((c,), b) ==> a == b,
    ensures
        first == second,
{
}

/// Following an optional link twice gives the same target, provided the
/// store gave the same answer both times and the extractor returns one
/// result for one component.
pub proof fn lemma_follow_opt_repeatable<T, F: FnOnce(&T) -> Option<EntityHandle>>(
    found: Option<&T>,
    f: F,
    first: Option<EntityHandle>,
    second: Option<EntityHandle>,
)
    requires
        follows_opt(found, f, first),
        follows_opt(found, f, second),
        forall|c: &T, a: Option<EntityHandle>, b: Option<EntityHandle>|
            f.ensures((c,), a) && f.ensures((c,), b) ==> a == b,
    ensures
        first == second,
{
}

/// A reference with no children to go to goes nowhere: an empty list of
/// handles gives an empty list of references, for both kinds.
pub proof fn lemma_no_children(bound: BoundEntity, ptr: EntityPtr)
    ensures
        bound.spec_follow_handles(Seq::empty()).len() == 0,
        ptr.spec_follow_handles(Seq::empty()).len() == 0,
{
}

} // verus!
