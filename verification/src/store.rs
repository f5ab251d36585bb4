//! The entity store as this library sees it.
//!
//! The store is `bevy_ecs::world::World` and an entity id is
//! `bevy_ecs::entity::Entity`. Neither is verified here. This module declares
//! both types, gives names to the few things the contracts of this crate
//! say about them, and holds the one function per outside call through which
//! the rest of the crate reaches them. What those functions promise is
//! believed, not proved.

use bevy_ecs::component::Component;
use bevy_ecs::entity::Entity;
use bevy_ecs::world::World;
use vstd::prelude::*;

verus! {

/// `bevy_ecs::world::World`: the store. Nothing inside it is visible to proofs.
#[verifier::external_type_specification]
#[verifier::external_body]
pub struct ExWorld(World);

/// `bevy_ecs::entity::Entity`: the id of an entity. Nothing inside it is
/// visible to proofs; what this crate says of an id it says of its bits.
#[verifier::external_type_specification]
#[verifier::external_body]
pub struct ExEntity(Entity);

/// The 64 bits of an entity id: the result of `Entity::to_bits`.
pub uninterp spec fn entity_bits(e: Entity) -> u64;

/// The text of an entity id: what its `Display` impl writes.
pub uninterp spec fn entity_text(e: Entity) -> Seq<char>;

/// What the store holds: the ids, as bits, of the entities that exist in it.
pub uninterp spec fn live_entities(w: World) -> Set<u64>;

/// Whether entity `e` exists in store `w`.
pub open spec fn alive(w: &World, e: Entity) -> bool {
    live_entities(*w).contains(entity_bits(e))
}

/// Calls `Entity::to_bits`. The result is a function of the id alone, which
/// `entity_bits` names.
#[verifier::external_body]
pub(crate) fn entity_to_bits(e: Entity) -> (r: u64)
    ensures
        r == entity_bits(e),
{
    e.to_bits()
}

/// Formats the id with its `Display` impl. The text is a function of the id
/// alone, which `entity_text` names.
#[verifier::external_body]
pub(crate) fn entity_to_text(e: Entity) -> (r: String)
    ensures
        r@ == entity_text(e),
{
    format!("{}", e)
}

/// Calls `<Entity as Hash>::hash`, which feeds the id's bits to the hasher.
/// Nothing is claimed of the hasher's state afterwards.
#[verifier::external_body]
pub(crate) fn entity_hash<H: std::hash::Hasher>(e: Entity, state: &mut H) {
    std::hash::Hash::hash(&e, state)
}

/// Calls `World::get_entity` with a single id and reports whether it
/// succeeded. It succeeds exactly when the store has a location for the id,
/// that is, when the entity exists.
#[verifier::external_body]
pub(crate) fn world_contains(w: &World, e: Entity) -> (r: bool)
    ensures
        r == live_entities(*w).contains(entity_bits(e)),
{
    w.get_entity(e).is_ok()
}

/// Calls `World::get::<T>`. That function first looks the entity up as
/// `World::get_entity` does and returns `None` if that fails, so a component
/// only ever comes back for an entity that exists. Which component comes back
/// is not stated here; `answers` speaks of it.
#[verifier::external_body]
pub(crate) fn world_get<'w, T: Component>(w: &'w World, e: Entity) -> (r: Option<&'w T>)
    ensures
        r is Some ==> live_entities(*w).contains(entity_bits(e)),
{
    w.get::<T>(e)
}

/// `found` is an answer of store `w` to the question for the component of
/// type `T` of entity `e`: a value that the store's lookup, called with `w`
/// and `e` for `T`, returns.
///
/// Nothing is assumed of the store beyond the contract of that lookup. In
/// particular this does not say that the store answers one question the same
/// way twice; who knows that of a store can conclude from two answers to one
/// question that they are equal.
pub closed spec fn answers<T: Component>(w: &World, e: Entity, found: Option<&T>) -> bool {
    call_ensures(world_get::<T>, (w, e), found)
}

/// The store has no answer but `None` for an entity that does not exist.
pub proof fn lemma_answer_needs_entity<T: Component>(w: &World, e: Entity, found: Option<&T>)
    requires
        answers::<T>(w, e, found),
        !alive(w, e),
    ensures
        found is None,
{
}

/// Asks store `w` for the component of type `T` of entity `e`, and returns
/// the store's answer as it is.
pub(crate) fn lookup<'w, T: Component>(w: &'w World, e: Entity) -> (r: Option<&'w T>)
    ensures
        answers::<T>(w, e, r),
        !alive(w, e) ==> r is None,
{
    // Called as a function value, the lookup's result is known to be one of
    // its answers for these arguments.
    let ask = world_get::<T>;
    ask(w, e)
}

/// Calls `String::push_str`, which appends `text` to `buf`.
#[verifier::external_body]
pub(crate) fn push_text(buf: &mut String, text: &str)
    ensures
        final(buf)@ == old(buf)@ + text@,
{
    buf.push_str(text)
}

} // verus!
