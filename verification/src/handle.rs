//! `EntityHandle` and `BoundEntity`: entity access with an explicit store.
//!
//! A handle is an entity id and nothing else. It can be stored inside
//! components and shared across threads; every access names the store. A
//! bound entity pairs the id with a borrowed store for the length of that
//! borrow, so that calls can be chained without repeating the store.

use crate::links::{follow_link, follow_opt_link, follows, follows_opt};
use crate::store::{
    alive, answers, entity_bits, entity_hash, entity_text, entity_to_bits, entity_to_text, lookup,
    push_text, world_contains,
};
use bevy_ecs::component::Component;
use bevy_ecs::entity::Entity;
use bevy_ecs::world::World;
use vstd::prelude::*;
use std::cmp::Ordering;
use vstd::std_specs::cmp::{PartialEqSpecImpl, PartialOrdSpecImpl};
use vstd::std_specs::convert::FromSpecImpl;

verus! {

/// A storable reference to an entity: the entity's id, without a store.
///
/// A handle stays a valid value when its entity is removed from the store;
/// lookups through it then find nothing.
#[derive(Clone, Copy, Debug, Ord)]
pub struct EntityHandle(Entity);

/// The model of a handle is the 64 bits of its entity id. Two handles are
/// equal as values of the running program exactly when their models are.
impl View for EntityHandle {
    type V = u64;

    closed spec fn view(&self) -> u64 {
        entity_bits(self.0)
    }
}

impl EntityHandle {
    /// The handle for `entity`.
    pub closed spec fn spec_new(entity: Entity) -> Self {
        EntityHandle(entity)
    }

    /// The id that the handle wraps.
    pub closed spec fn spec_entity(self) -> Entity {
        self.0
    }

    /// The text of the handle: the id's own text between `EntityHandle(` and
    /// `)`.
    pub open spec fn spec_text(self) -> Seq<char> {
        "EntityHandle("@ + entity_text(self.entity()) + ")"@
    }

    /// Wrapping an id and unwrapping it again gives the id, and the model of
    /// the handle is the id's bits.
    pub broadcast proof fn lemma_new(entity: Entity)
        ensures
            (#[trigger] Self::spec_new(entity)).spec_entity() == entity,
            Self::spec_new(entity)@ == entity_bits(entity),
    {
    }

    /// A handle is determined by the id it wraps.
    pub broadcast proof fn lemma_entity(self)
        ensures
            Self::spec_new(#[trigger] self.spec_entity()) == self,
            self@ == entity_bits(self.spec_entity()),
    {
    }

    /// Creates a handle from an entity id.
    #[verifier::when_used_as_spec(spec_new)]
    pub fn new(entity: Entity) -> (r: Self)
        ensures
            r == Self::spec_new(entity),
            r.spec_entity() == entity,
            r@ == entity_bits(entity),
    {
        EntityHandle(entity)
    }

    /// Returns the entity id.
    #[verifier::when_used_as_spec(spec_entity)]
    pub fn entity(self) -> (r: Entity)
        ensures
            r == self.spec_entity(),
    {
        self.0
    }

    /// Looks up the entity's component of type `T` in `world`.
    ///
    /// Returns the store's answer: `None` if the entity does not exist or has
    /// no such component.
    #[must_use]
    pub fn get<T: Component>(self, world: &World) -> (r: Option<&T>)
        ensures
            answers::<T>(world, self.entity(), r),
            !alive(world, self.entity()) ==> r is None,
    {
        lookup::<T>(world, self.0)
    }

    /// Whether the entity has a component of type `T` in `world`.
    ///
    /// Returns whether the store's answer to the lookup is a component;
    /// `false` if the entity does not exist.
    pub fn has<T: Component>(self, world: &World) -> (r: bool)
        ensures
            exists|found: Option<&T>|
                r == (found is Some) && #[trigger] answers::<T>(world, self.entity(), found),
            !alive(world, self.entity()) ==> !r,
    {
        let found = self.get::<T>(world);
        found.is_some()
    }

    /// Whether the entity exists in `world`.
    pub open spec fn spec_is_alive(self, world: &World) -> bool {
        alive(world, self.entity())
    }

    /// Whether the entity exists in `world`.
    #[verifier::when_used_as_spec(spec_is_alive)]
    pub fn is_alive(self, world: &World) -> (r: bool)
        ensures
            r == alive(world, self.entity()),
    {
        world_contains(world, self.0)
    }

    /// The accessor for this handle's entity in `world`.
    pub open spec fn spec_bind<'w>(self, world: &'w World) -> BoundEntity<'w> {
        BoundEntity::spec_new(self.entity(), world)
    }

    /// Binds the handle to a store for fluent access.
    #[verifier::when_used_as_spec(spec_bind)]
    pub fn bind<'w>(self, world: &'w World) -> (r: BoundEntity<'w>)
        ensures
            r == BoundEntity::spec_new(self.entity(), world),
            r.entity() == self.entity(),
            r.world() == world,
    {
        BoundEntity::new(self.0, world)
    }

    /// The handle as text: `EntityHandle(`, the id as the store prints it,
    /// and `)`.
    pub fn to_string(&self) -> (r: String)
        ensures
            r@ == self.spec_text(),
    {
        let id = entity_to_text(self.0);
        let mut text = "EntityHandle(".to_owned();
        push_text(&mut text, id.as_str());
        push_text(&mut text, ")");
        text
    }
}

impl PartialEq for EntityHandle {
    /// Handles are equal when the bits of their ids are.
    fn eq(&self, other: &Self) -> (r: bool) {
        entity_to_bits(self.0) == entity_to_bits(other.0)
    }
}

impl Eq for EntityHandle {}

impl PartialEqSpecImpl for EntityHandle {
    open spec fn obeys_eq_spec() -> bool {
        true
    }

    open spec fn eq_spec(&self, other: &Self) -> bool {
        self@ == other@
    }
}

impl PartialOrd for EntityHandle {
    /// Handles are ordered as the bits of their ids are.
    fn partial_cmp(&self, other: &Self) -> (r: Option<Ordering>) {
        let mine = entity_to_bits(self.0);
        let theirs = entity_to_bits(other.0);
        if mine < theirs {
            Some(Ordering::Less)
        } else if mine == theirs {
            Some(Ordering::Equal)
        } else {
            Some(Ordering::Greater)
        }
    }
}

impl PartialOrdSpecImpl for EntityHandle {
    open spec fn obeys_partial_cmp_spec() -> bool {
        true
    }

    open spec fn partial_cmp_spec(&self, other: &Self) -> Option<Ordering> {
        if self@ < other@ {
            Some(Ordering::Less)
        } else if self@ == other@ {
            Some(Ordering::Equal)
        } else {
            Some(Ordering::Greater)
        }
    }
}

impl std::hash::Hash for EntityHandle {
    /// Hashes the id, and nothing else.
    fn hash<H: std::hash::Hasher>(&self, state: &mut H) {
        entity_hash(self.0, state)
    }
}

impl From<Entity> for EntityHandle {
    fn from(entity: Entity) -> (r: Self) {
        EntityHandle::new(entity)
    }
}

impl FromSpecImpl<Entity> for EntityHandle {
    open spec fn obeys_from_spec() -> bool {
        true
    }

    open spec fn from_spec(entity: Entity) -> Self {
        EntityHandle::new(entity)
    }
}

impl From<EntityHandle> for Entity {
    fn from(handle: EntityHandle) -> (r: Self) {
        handle.entity()
    }
}

impl FromSpecImpl<EntityHandle> for Entity {
    open spec fn obeys_from_spec() -> bool {
        true
    }

    open spec fn from_spec(handle: EntityHandle) -> Self {
        handle.entity()
    }
}

/// An entity id paired with a borrowed store, for the length of the borrow.
///
/// Every method asks the store again; nothing is cached. An accessor built
/// before the store was changed cannot be used after it: build a new one
/// from the handle.
#[derive(Clone, Copy, Debug)]
pub struct BoundEntity<'w> {
    entity: Entity,
    world: &'w World,
}

impl<'w> BoundEntity<'w> {
    /// The accessor for `entity` in `world`.
    pub closed spec fn spec_new(entity: Entity, world: &'w World) -> Self {
        BoundEntity { entity, world }
    }

    /// The id of the entity.
    pub closed spec fn spec_entity(self) -> Entity {
        self.entity
    }

    /// The store that the accessor borrows.
    pub closed spec fn spec_world(self) -> &'w World {
        self.world
    }

    /// An accessor built from an id and a store has that id and that store.
    pub broadcast proof fn lemma_new(entity: Entity, world: &'w World)
        ensures
            (#[trigger] Self::spec_new(entity, world)).spec_entity() == entity,
            Self::spec_new(entity, world).spec_world() == world,
    {
    }

    /// An accessor is determined by its id and its store.
    pub broadcast proof fn lemma_parts(self)
        ensures
            Self::spec_new(#[trigger] self.spec_entity(), self.spec_world()) == self,
    {
    }

    /// Creates an accessor for `entity` in `world`.
    #[verifier::when_used_as_spec(spec_new)]
    pub fn new(entity: Entity, world: &'w World) -> (r: Self)
        ensures
            r == Self::spec_new(entity, world),
            r.spec_entity() == entity,
            r.spec_world() == world,
    {
        BoundEntity { entity, world }
    }

    /// Returns the entity id.
    #[verifier::when_used_as_spec(spec_entity)]
    pub fn entity(self) -> (r: Entity)
        ensures
            r == self.spec_entity(),
    {
        self.entity
    }

    /// Returns the store.
    #[verifier::when_used_as_spec(spec_world)]
    pub fn world(self) -> (r: &'w World)
        ensures
            r == self.spec_world(),
    {
        self.world
    }

    /// The handle of the entity.
    pub open spec fn spec_handle(self) -> EntityHandle {
        EntityHandle::new(self.entity())
    }

    /// Returns a handle for storage.
    #[verifier::when_used_as_spec(spec_handle)]
    pub fn handle(self) -> (r: EntityHandle)
        ensures
            r == EntityHandle::new(self.entity()),
            r.entity() == self.entity(),
    {
        EntityHandle::new(self.entity)
    }

    /// Looks up the entity's component of type `T`.
    ///
    /// Returns the store's answer: `None` if the entity does not exist or has
    /// no such component.
    #[must_use]
    pub fn get<T: Component>(self) -> (r: Option<&'w T>)
        ensures
            answers::<T>(self.world(), self.entity(), r),
            !alive(self.world(), self.entity()) ==> r is None,
    {
        lookup::<T>(self.world, self.entity)
    }

    /// Whether the entity has a component of type `T`.
    ///
    /// Returns whether the store's answer to the lookup is a component;
    /// `false` if the entity does not exist.
    pub fn has<T: Component>(self) -> (r: bool)
        ensures
            exists|found: Option<&T>|
                r == (found is Some) && #[trigger] answers::<T>(self.world(), self.entity(), found),
            !alive(self.world(), self.entity()) ==> !r,
    {
        let found = self.get::<T>();
        found.is_some()
    }

    /// Whether the entity exists in the store.
    pub open spec fn spec_is_alive(self) -> bool {
        alive(self.world(), self.entity())
    }

    /// Whether the entity exists in the store.
    #[verifier::when_used_as_spec(spec_is_alive)]
    pub fn is_alive(self) -> (r: bool)
        ensures
            r == alive(self.world(), self.entity()),
    {
        world_contains(self.world, self.entity)
    }

    /// The accessor for `handle`'s entity in this accessor's store.
    pub open spec fn spec_follow_handle(self, handle: EntityHandle) -> Self {
        Self::spec_new(handle.entity(), self.world())
    }

    /// Jumps to the entity of `handle`, in the same store.
    #[verifier::when_used_as_spec(spec_follow_handle)]
    pub fn follow_handle(self, handle: EntityHandle) -> (r: Self)
        ensures
            r == Self::spec_new(handle.entity(), self.world()),
            r.entity() == handle.entity(),
            r.world() == self.world(),
    {
        BoundEntity::new(handle.entity(), self.world)
    }

    /// The accessor for `target`'s entity in this accessor's store, if there
    /// is a target.
    pub open spec fn spec_follow_handle_opt(self, target: Option<EntityHandle>) -> Option<Self> {
        match target {
            Some(h) => Some(self.follow_handle(h)),
            None => None,
        }
    }

    /// Jumps to the entity of `target`, if there is one, in the same store.
    #[verifier::when_used_as_spec(spec_follow_handle_opt)]
    pub fn follow_handle_opt(self, target: Option<EntityHandle>) -> (r: Option<Self>)
        ensures
            r == match target {
                Some(h) => Some(self.follow_handle(h)),
                None => None,
            },
    {
        match target {
            Some(h) => Some(self.follow_handle(h)),
            None => None,
        }
    }

    /// The accessors for the entities of `handles`, in order, in this
    /// accessor's store.
    pub open spec fn spec_follow_handles(self, handles: Seq<EntityHandle>) -> Seq<Self> {
        handles.map_values(|h: EntityHandle| self.follow_handle(h))
    }

    /// Jumps to the entity of each handle of `handles`, in order, in the same
    /// store.
    pub fn follow_handles(self, handles: &[EntityHandle]) -> (r: Vec<Self>)
        ensures
            r@ == self.spec_follow_handles(handles@),
            r@.len() == handles@.len(),
    {
        let mut out: Vec<Self> = Vec::new();
        let mut i: usize = 0;
        while i < handles.len()
            invariant
                i <= handles@.len(),
                out@ == self.spec_follow_handles(handles@.take(i as int)),
            decreases handles@.len() - i,
        {
            out.push(self.follow_handle(handles[i]));
            i += 1;
            assert(handles@.take(i as int) == handles@.take(i - 1).push(handles@[i - 1]));
        }
        assert(handles@.take(i as int) == handles@);
        out
    }

    /// Follows a relationship component to the entity it names.
    ///
    /// Reads component `T` of this entity and applies `f` to it to obtain a
    /// handle. Returns an accessor for that handle's entity in the same
    /// store, or `None` if this entity has no component `T`. The entity
    /// reached may no longer exist.
    #[must_use]
    pub fn follow<T, F>(self, f: F) -> (r: Option<BoundEntity<'w>>)
        where T: Component, F: FnOnce(&T) -> EntityHandle
        requires
            forall|c: &T| f.requires((c,)),
        ensures
            exists|found: Option<&T>, target: Option<EntityHandle>|
                answers::<T>(self.world(), self.entity(), found)
                    && #[trigger] follows(found, f, target)
                    && r == self.follow_handle_opt(target),
            !alive(self.world(), self.entity()) ==> r is None,
            r matches Some(b) ==> b.world() == self.world() && exists|c: &T|
                f.ensures((c,), b.handle()),
    {
        let found = self.get::<T>();
        let target = follow_link(found, f);
        let r = self.follow_handle_opt(target);
        proof {
            if let Some(b) = r {
                assert(b.handle() == target->0);
                assert(f.ensures((found->0,), b.handle()));
            }
        }
        r
    }

    /// Follows an optional relationship component to the entity it names.
    ///
    /// As `follow`, for an extractor that may find no relation. Returns
    /// `None` if this entity has no component `T` or if `f` returns `None`
    /// for it; the two cases are not told apart.
    #[must_use]
    pub fn follow_opt<T, F>(self, f: F) -> (r: Option<BoundEntity<'w>>)
        where T: Component, F: FnOnce(&T) -> Option<EntityHandle>
        requires
            forall|c: &T| f.requires((c,)),
        ensures
            exists|found: Option<&T>, target: Option<EntityHandle>|
                answers::<T>(self.world(), self.entity(), found)
                    && #[trigger] follows_opt(found, f, target)
                    && r == self.follow_handle_opt(target),
            !alive(self.world(), self.entity()) ==> r is None,
            r matches Some(b) ==> b.world() == self.world() && exists|c: &T|
                f.ensures((c,), Some(b.handle())),
    {
        let found = self.get::<T>();
        let target = follow_opt_link(found, f);
        let r = self.follow_handle_opt(target);
        proof {
            if let Some(b) = r {
                assert(b.handle() == target->0);
                assert(f.ensures((found->0,), Some(b.handle())));
            }
        }
        r
    }

    /// The navigator for this accessor.
    pub closed spec fn spec_nav(self) -> BoundEntityNav<'w> {
        BoundEntityNav(self)
    }

    /// Returns a navigator for parent and children traversal.
    #[verifier::when_used_as_spec(spec_nav)]
    pub fn nav(self) -> (r: BoundEntityNav<'w>)
        ensures
            r == self.spec_nav(),
            r.inner() == self,
    {
        BoundEntityNav(self)
    }
}

/// Navigation wrapper for `BoundEntity`, for parent and children traversal.
#[derive(Clone, Copy, Debug)]
pub struct BoundEntityNav<'w>(BoundEntity<'w>);

impl<'w> BoundEntityNav<'w> {
    /// The accessor that the navigator wraps.
    pub closed spec fn spec_inner(self) -> BoundEntity<'w> {
        self.0
    }

    /// Returns the accessor that the navigator wraps.
    #[verifier::when_used_as_spec(spec_inner)]
    pub fn inner(self) -> (r: BoundEntity<'w>)
        ensures
            r == self.spec_inner(),
    {
        self.0
    }
}

/// What the constructors and accessors of this module say of each other.
pub broadcast group group_handle_model {
    EntityHandle::lemma_new,
    EntityHandle::lemma_entity,
    BoundEntity::lemma_new,
    BoundEntity::lemma_parts,
}

} // verus!
