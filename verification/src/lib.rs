//! Smart-pointer-like, read-only access to the entities of a `bevy_ecs` world.
//!
//! Three reference kinds name an entity:
//!
//! - `EntityHandle` is the entity's id and nothing else. It can be stored in
//!   components and shared across threads; every access takes the store as
//!   an argument.
//! - `BoundEntity<'w>` pairs the id with a borrowed store. It lives as long
//!   as the borrow and offers the same accesses without the store argument.
//! - `EntityPtr` pairs the id with a store borrowed for `'static`, so that
//!   recursive traversal code needs no lifetime parameter. `WorldRef` mints
//!   such pointers.
//!
//! All access is read-only. An entity that no longer exists is never an
//! error: lookups through any of the three kinds return `None` or `false`.

pub mod handle;
pub mod laws;
pub mod links;
pub mod nav;
pub mod ptr;
pub mod store;

use bevy_ecs::entity::Entity;
use bevy_ecs::world::World;
use vstd::prelude::*;

pub use handle::{BoundEntity, BoundEntityNav, EntityHandle};
pub use nav::{HasChildren, HasParent};
pub use ptr::{EntityPtr, EntityPtrNav, EntityPtrNavMany, WorldRef};

verus! {

/// Entity access as methods of the store itself.
pub trait WorldExt {
    /// Creates a `BoundEntity` for `entity`, borrowing the store.
    fn bind_entity(&self, entity: Entity) -> BoundEntity<'_>;

    /// Creates an `EntityPtr` for `entity` in a store borrowed for `'static`.
    fn entity_ptr(&'static self, entity: Entity) -> EntityPtr;
}

impl WorldExt for World {
    fn bind_entity(&self, entity: Entity) -> (r: BoundEntity<'_>)
        ensures
            r == BoundEntity::new(entity, self),
    {
        EntityHandle::new(entity).bind(self)
    }

    fn entity_ptr(&'static self, entity: Entity) -> (r: EntityPtr)
        ensures
            r == EntityPtr::new(entity, self),
    {
        WorldRef::new(self).entity(entity)
    }
}

} // verus!
