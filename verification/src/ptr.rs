//! `WorldRef` and `EntityPtr`: traversal without a lifetime parameter.
//!
//! An `EntityPtr` carries its store as a `'static` reference, so that
//! recursive traversal code can pass pointers around and keep them in local
//! variables without naming a lifetime. A `WorldRef` is the factory that
//! mints such pointers; every pointer it mints shares its store.
//!
//! Both are made from a store that is borrowed for `'static`. A caller whose
//! store lives shorter has to widen the borrow itself and must then keep the
//! store alive and unchanged for as long as any pointer made from it is in
//! use; nothing here can check that for it.

use crate::handle::{group_handle_model, EntityHandle};
use crate::links::{follow_link, follow_opt_link, follows, follows_opt};
use crate::store::{alive, answers, entity_hash, entity_to_bits, lookup, world_contains};
use bevy_ecs::component::Component;
use bevy_ecs::entity::Entity;
use bevy_ecs::world::World;
use vstd::prelude::*;
use vstd::std_specs::cmp::PartialEqSpecImpl;

verus! {

broadcast use group_handle_model;

/// A factory of `EntityPtr`s over one store.
///
/// The factory is copyable. It must stay on the thread that created it and
/// must not be kept beyond the traversal it was created for.
#[derive(Clone, Copy, Debug)]
pub struct WorldRef {
    world: &'static World,
}

impl WorldRef {
    /// The factory over `world`.
    pub closed spec fn spec_new(world: &'static World) -> Self {
        WorldRef { world }
    }

    /// The store of the factory.
    pub closed spec fn spec_world(&self) -> &World {
        self.world
    }

    /// A factory made over a store has that store.
    pub broadcast proof fn lemma_new(world: &'static World)
        ensures
            (#[trigger] Self::spec_new(world)).spec_world() == world,
    {
    }

    /// Creates a factory over `world`.
    #[verifier::when_used_as_spec(spec_new)]
    pub fn new(world: &'static World) -> (r: Self)
        ensures
            r == Self::spec_new(world),
            r.spec_world() == world,
    {
        WorldRef { world }
    }

    /// Returns the store.
    #[verifier::when_used_as_spec(spec_world)]
    pub fn world(&self) -> (r: &World)
        ensures
            r == self.spec_world(),
    {
        self.world
    }

    /// The pointer to `entity` in the factory's store.
    pub open spec fn spec_entity(&self, entity: Entity) -> EntityPtr {
        EntityPtr::spec_new(entity, self.world())
    }

    /// Returns a pointer to `entity`, whether or not the entity exists.
    ///
    /// Use `EntityPtr::is_alive` to find out whether it does.
    #[verifier::when_used_as_spec(spec_entity)]
    pub fn entity(&self, entity: Entity) -> (r: EntityPtr)
        ensures
            r == EntityPtr::spec_new(entity, self.world()),
            r.entity() == entity,
            r.world() == self.world(),
    {
        EntityPtr::new(entity, self.world)
    }

    /// Returns a pointer to `entity` if the entity exists, and `None` if it
    /// does not.
    #[must_use]
    pub fn entity_opt(&self, entity: Entity) -> (r: Option<EntityPtr>)
        ensures
            r == (if alive(self.world(), entity) {
                Some(self.entity(entity))
            } else {
                None
            }),
    {
        let present = world_contains(self.world, entity);
        EntityPtr::new(entity, self.world).when_alive(present)
    }

    /// The pointer to `handle`'s entity in the factory's store.
    pub open spec fn spec_from_handle(&self, handle: EntityHandle) -> EntityPtr {
        EntityPtr::spec_new(handle.entity(), self.world())
    }

    /// Returns a pointer to the entity of `handle`.
    #[verifier::when_used_as_spec(spec_from_handle)]
    pub fn from_handle(&self, handle: EntityHandle) -> (r: EntityPtr)
        ensures
            r == EntityPtr::spec_new(handle.entity(), self.world()),
            r.entity() == handle.entity(),
            r.world() == self.world(),
    {
        EntityPtr::new(handle.entity(), self.world)
    }

    /// Looks up the component of type `T` of `entity`, without minting a
    /// pointer.
    pub fn get<T: Component>(&self, entity: Entity) -> (r: Option<&T>)
        ensures
            answers::<T>(self.world(), entity, r),
            !alive(self.world(), entity) ==> r is None,
    {
        lookup::<T>(self.world, entity)
    }
}

/// A pointer to an entity that carries its store.
///
/// Two pointers are equal when the bits of their entity ids are; the store
/// takes no part in the comparison. Pointers into two different stores may
/// therefore compare equal: compare only pointers of one store.
#[derive(Clone, Copy, Debug)]
pub struct EntityPtr {
    entity: Entity,
    world: &'static World,
}

impl EntityPtr {
    /// The pointer to `entity` in `world`.
    pub closed spec fn spec_new(entity: Entity, world: &'static World) -> Self {
        EntityPtr { entity, world }
    }

    /// The id of the entity.
    pub closed spec fn spec_entity(self) -> Entity {
        self.entity
    }

    /// The store of the pointer.
    pub closed spec fn spec_world(self) -> &'static World {
        self.world
    }

    /// A pointer built from an id and a store has that id and that store.
    pub broadcast proof fn lemma_new(entity: Entity, world: &'static World)
        ensures
            (#[trigger] Self::spec_new(entity, world)).spec_entity() == entity,
            Self::spec_new(entity, world).spec_world() == world,
    {
    }

    /// A pointer is determined by its id and its store.
    pub broadcast proof fn lemma_parts(self)
        ensures
            Self::spec_new(#[trigger] self.spec_entity(), self.spec_world()) == self,
    {
    }

    /// Creates a pointer to `entity` in `world`.
    #[verifier::when_used_as_spec(spec_new)]
    pub fn new(entity: Entity, world: &'static World) -> (r: Self)
        ensures
            r == Self::spec_new(entity, world),
            r.spec_entity() == entity,
            r.spec_world() == world,
    {
        EntityPtr { entity, world }
    }

    /// Returns the entity id.
    #[verifier::when_used_as_spec(spec_entity)]
    pub fn entity(self) -> (r: Entity)
        ensures
            r == self.spec_entity(),
    {
        self.entity
    }

    /// Returns the store.
    #[verifier::when_used_as_spec(spec_world)]
    pub fn world(self) -> (r: &'static World)
        ensures
            r == self.spec_world(),
    {
        self.world
    }

    /// The pointer itself if `present` holds, and `None` otherwise.
    pub open spec fn spec_when_alive(self, present: bool) -> Option<EntityPtr> {
        if present {
            Some(self)
        } else {
            None
        }
    }

    /// Keeps the pointer if its entity was found to exist, and drops it if
    /// not. `present` is what the store answered for this pointer's entity.
    #[verifier::when_used_as_spec(spec_when_alive)]
    pub fn when_alive(self, present: bool) -> (r: Option<EntityPtr>)
        ensures
            r == (if present {
                Some(self)
            } else {
                None
            }),
    {
        if present {
            Some(self)
        } else {
            None
        }
    }

    /// The handle of the entity.
    pub open spec fn spec_handle(self) -> EntityHandle {
        EntityHandle::new(self.entity())
    }

    /// Returns a handle, which can be stored beyond the traversal.
    #[verifier::when_used_as_spec(spec_handle)]
    pub fn handle(self) -> (r: EntityHandle)
        ensures
            r == EntityHandle::new(self.entity()),
            r.entity() == self.entity(),
    {
        EntityHandle::new(self.entity)
    }

    /// Looks up the entity's component of type `T`.
    ///
    /// Returns the store's answer: `None` if the entity does not exist or has
    /// no such component.
    #[must_use]
    pub fn get<T: Component>(self) -> (r: Option<&'static T>)
        ensures
            answers::<T>(self.world(), self.entity(), r),
            !alive(self.world(), self.entity()) ==> r is None,
    {
        lookup::<T>(self.world, self.entity)
    }

    /// Whether the entity has a component of type `T`.
    ///
    /// Returns whether the store's answer to the lookup is a component;
    /// `false` if the entity does not exist.
    pub fn has<T: Component>(self) -> (r: bool)
        ensures
            exists|found: Option<&T>|
                r == (found is Some) && #[trigger] answers::<T>(self.world(), self.entity(), found),
            !alive(self.world(), self.entity()) ==> !r,
    {
        let found = self.get::<T>();
        found.is_some()
    }

    /// Whether the entity exists in the store.
    pub open spec fn spec_is_alive(self) -> bool {
        alive(self.world(), self.entity())
    }

    /// Whether the entity exists in the store.
    #[verifier::when_used_as_spec(spec_is_alive)]
    pub fn is_alive(self) -> (r: bool)
        ensures
            r == alive(self.world(), self.entity()),
    {
        world_contains(self.world, self.entity)
    }

    /// The pointer to `handle`'s entity in this pointer's store.
    pub open spec fn spec_follow_handle(self, handle: EntityHandle) -> EntityPtr {
        Self::spec_new(handle.entity(), self.world())
    }

    /// Jumps to the entity of `handle`, in the same store.
    ///
    /// This lets a recursive function descend into handles it has read from a
    /// component without a factory in scope.
    #[verifier::when_used_as_spec(spec_follow_handle)]
    pub fn follow_handle(self, handle: EntityHandle) -> (r: EntityPtr)
        ensures
            r == Self::spec_new(handle.entity(), self.world()),
            r.entity() == handle.entity(),
            r.world() == self.world(),
    {
        EntityPtr::new(handle.entity(), self.world)
    }

    /// The pointer to `target`'s entity in this pointer's store, if there is
    /// a target.
    pub open spec fn spec_follow_handle_opt(self, target: Option<EntityHandle>) -> Option<
        EntityPtr,
    > {
        match target {
            Some(h) => Some(self.follow_handle(h)),
            None => None,
        }
    }

    /// Jumps to the entity of `target`, if there is one, in the same store.
    #[verifier::when_used_as_spec(spec_follow_handle_opt)]
    pub fn follow_handle_opt(self, target: Option<EntityHandle>) -> (r: Option<EntityPtr>)
        ensures
            r == match target {
                Some(h) => Some(self.follow_handle(h)),
                None => None,
            },
    {
        match target {
            Some(h) => Some(self.follow_handle(h)),
            None => None,
        }
    }

    /// The pointers to the entities of `handles`, in order, in this pointer's
    /// store.
    pub open spec fn spec_follow_handles(self, handles: Seq<EntityHandle>) -> Seq<EntityPtr> {
        handles.map_values(|h: EntityHandle| self.follow_handle(h))
    }

    /// Jumps to the entity of each handle of `handles`, in order, in the same
    /// store.
    pub fn follow_handles(self, handles: &[EntityHandle]) -> (r: Vec<EntityPtr>)
        ensures
            r@ == self.spec_follow_handles(handles@),
            r@.len() == handles@.len(),
    {
        let mut out: Vec<EntityPtr> = Vec::new();
        let mut i: usize = 0;
        while i < handles.len()
            invariant
                i <= handles@.len(),
                out@ == self.spec_follow_handles(handles@.take(i as int)),
            decreases handles@.len() - i,
        {
            out.push(self.follow_handle(handles[i]));
            i += 1;
            assert(handles@.take(i as int) == handles@.take(i - 1).push(handles@[i - 1]));
        }
        assert(handles@.take(i as int) == handles@);
        out
    }

    /// Follows a relationship component to the entity it names.
    ///
    /// Reads component `T` of this entity and applies `f` to it to obtain a
    /// handle. Returns a pointer to that handle's entity in the same store,
    /// or `None` if this entity has no component `T`. The entity reached may
    /// no longer exist.
    #[must_use]
    pub fn follow<T, F>(self, f: F) -> (r: Option<EntityPtr>)
        where T: Component, F: FnOnce(&T) -> EntityHandle
        requires
            forall|c: &T| f.requires((c,)),
        ensures
            exists|found: Option<&T>, target: Option<EntityHandle>|
                answers::<T>(self.world(), self.entity(), found)
                    && #[trigger] follows(found, f, target)
                    && r == self.follow_handle_opt(target),
            !alive(self.world(), self.entity()) ==> r is None,
            r matches Some(p) ==> p.world() == self.world() && exists|c: &T|
                f.ensures((c,), p.handle()),
    {
        let found = self.get::<T>();
        let target = follow_link(found, f);
        let r = self.follow_handle_opt(target);
        proof {
            if let Some(p) = r {
                assert(p.handle() == target->0);
                assert(f.ensures((found->0,), p.handle()));
            }
        }
        r
    }

    /// Follows an optional relationship component to the entity it names.
    ///
    /// As `follow`, for an extractor that may find no relation. Returns
    /// `None` if this entity has no component `T` or if `f` returns `None`
    /// for it; the two cases are not told apart.
    #[must_use]
    pub fn follow_opt<T, F>(self, f: F) -> (r: Option<EntityPtr>)
        where T: Component, F: FnOnce(&T) -> Option<EntityHandle>
        requires
            forall|c: &T| f.requires((c,)),
        ensures
            exists|found: Option<&T>, target: Option<EntityHandle>|
                answers::<T>(self.world(), self.entity(), found)
                    && #[trigger] follows_opt(found, f, target)
                    && r == self.follow_handle_opt(target),
            !alive(self.world(), self.entity()) ==> r is None,
            r matches Some(p) ==> p.world() == self.world() && exists|c: &T|
                f.ensures((c,), Some(p.handle())),
    {
        let found = self.get::<T>();
        let target = follow_opt_link(found, f);
        let r = self.follow_handle_opt(target);
        proof {
            if let Some(p) = r {
                assert(p.handle() == target->0);
                assert(f.ensures((found->0,), Some(p.handle())));
            }
        }
        r
    }

    /// The navigator for this pointer.
    pub closed spec fn spec_nav(self) -> EntityPtrNav {
        EntityPtrNav(self)
    }

    /// Returns a navigator for parent traversal.
    #[verifier::when_used_as_spec(spec_nav)]
    pub fn nav(self) -> (r: EntityPtrNav)
        ensures
            r == self.spec_nav(),
            r.inner() == self,
    {
        EntityPtrNav(self)
    }

    /// The many-navigator for this pointer.
    pub closed spec fn spec_nav_many(self) -> EntityPtrNavMany {
        EntityPtrNavMany(self)
    }

    /// Returns a navigator for children traversal.
    #[verifier::when_used_as_spec(spec_nav_many)]
    pub fn nav_many(self) -> (r: EntityPtrNavMany)
        ensures
            r == self.spec_nav_many(),
            r.inner() == self,
    {
        EntityPtrNavMany(self)
    }
}

impl PartialEq for EntityPtr {
    /// Pointers are equal when the bits of their entity ids are.
    fn eq(&self, other: &Self) -> (r: bool) {
        entity_to_bits(self.entity) == entity_to_bits(other.entity)
    }
}

impl Eq for EntityPtr {}

impl PartialEqSpecImpl for EntityPtr {
    open spec fn obeys_eq_spec() -> bool {
        true
    }

    open spec fn eq_spec(&self, other: &Self) -> bool {
        self.handle()@ == other.handle()@
    }
}

impl std::hash::Hash for EntityPtr {
    /// Hashes the entity id, and nothing of the store.
    fn hash<H: std::hash::Hasher>(&self, state: &mut H) {
        entity_hash(self.entity, state)
    }
}

/// Navigation wrapper for `EntityPtr`, for parent traversal.
#[derive(Clone, Copy, Debug)]
pub struct EntityPtrNav(EntityPtr);

impl EntityPtrNav {
    /// The pointer that the navigator wraps.
    pub closed spec fn spec_inner(self) -> EntityPtr {
        self.0
    }

    /// Returns the pointer that the navigator wraps.
    #[verifier::when_used_as_spec(spec_inner)]
    pub fn inner(self) -> (r: EntityPtr)
        ensures
            r == self.spec_inner(),
    {
        self.0
    }
}

/// Navigation wrapper for `EntityPtr`, for children traversal.
#[derive(Clone, Copy, Debug)]
pub struct EntityPtrNavMany(EntityPtr);

impl EntityPtrNavMany {
    /// The pointer that the navigator wraps.
    pub closed spec fn spec_inner(self) -> EntityPtr {
        self.0
    }

    /// Returns the pointer that the navigator wraps.
    #[verifier::when_used_as_spec(spec_inner)]
    pub fn inner(self) -> (r: EntityPtr)
        ensures
            r == self.spec_inner(),
    {
        self.0
    }
}

/// What the constructors and accessors of this module say of each other.
pub broadcast group group_ptr_model {
    WorldRef::lemma_new,
    EntityPtr::lemma_new,
    EntityPtr::lemma_parts,
}

} // verus!
