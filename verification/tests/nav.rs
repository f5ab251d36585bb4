use bevy_ecs::component::{Component, Mutable, StorageType};
use bevy_ecs::world::World;
use bevy_entity_ptr::{EntityHandle, HasChildren, HasParent, WorldRef};

struct Name(&'static str);

impl Component for Name {
    const STORAGE_TYPE: StorageType = StorageType::Table;
    type Mutability = Mutable;
}

struct ParentRef(Option<EntityHandle>);

impl Component for ParentRef {
    const STORAGE_TYPE: StorageType = StorageType::Table;
    type Mutability = Mutable;
}

impl HasParent for ParentRef {
    fn parent_handle(&self) -> Option<EntityHandle> {
        self.0
    }
}

struct ChildRefs(Vec<EntityHandle>);

impl Component for ChildRefs {
    const STORAGE_TYPE: StorageType = StorageType::Table;
    type Mutability = Mutable;
}

impl HasChildren for ChildRefs {
    fn children_handles(&self) -> &[EntityHandle] {
        &self.0
    }
}

/// Gives the store to the rest of the process, so that it can be borrowed
/// for `'static`.
fn leak(world: World) -> &'static World {
    Box::leak(Box::new(world))
}

#[test]
fn bound_entity_nav_parent() {
    let mut world = World::new();
    let parent = world.spawn(Name("parent")).id();
    let child = world
        .spawn((Name("child"), ParentRef(Some(EntityHandle::new(parent)))))
        .id();

    let bound = EntityHandle::new(child).bind(&world);
    let parent_bound = bound.nav().parent::<ParentRef>().unwrap();

    assert_eq!(parent_bound.get::<Name>().unwrap().0, "parent");
}

#[test]
fn bound_entity_nav_parent_none() {
    let mut world = World::new();
    let orphan = world.spawn((Name("orphan"), ParentRef(None))).id();

    let bound = EntityHandle::new(orphan).bind(&world);
    assert!(bound.nav().parent::<ParentRef>().is_none());
}

#[test]
fn bound_entity_nav_children() {
    let mut world = World::new();
    let child1 = world.spawn(Name("child1")).id();
    let child2 = world.spawn(Name("child2")).id();
    let parent = world
        .spawn((
            Name("parent"),
            ChildRefs(vec![EntityHandle::new(child1), EntityHandle::new(child2)]),
        ))
        .id();

    let bound = EntityHandle::new(parent).bind(&world);
    let children: Vec<_> = bound.nav().children::<ChildRefs>();

    assert_eq!(children.len(), 2);
    let names: Vec<_> = children
        .iter()
        .map(|c| c.get::<Name>().unwrap().0)
        .collect();
    assert!(names.contains(&"child1"));
    assert!(names.contains(&"child2"));
}

#[test]
fn entityptr_nav_parent() {
    let mut world = World::new();
    let parent = world.spawn(Name("parent")).id();
    let child = world
        .spawn((Name("child"), ParentRef(Some(EntityHandle::new(parent)))))
        .id();

    let world_ref = WorldRef::new(leak(world));
    let ptr = world_ref.entity(child);
    let parent_ptr = ptr.nav().parent::<ParentRef>().unwrap();

    assert_eq!(parent_ptr.get::<Name>().unwrap().0, "parent");
}

#[test]
fn entityptr_nav_many_children() {
    let mut world = World::new();
    let child1 = world.spawn(Name("child1")).id();
    let child2 = world.spawn(Name("child2")).id();
    let parent = world
        .spawn((
            Name("parent"),
            ChildRefs(vec![EntityHandle::new(child1), EntityHandle::new(child2)]),
        ))
        .id();

    let world_ref = WorldRef::new(leak(world));
    let ptr = world_ref.entity(parent);
    let children: Vec<_> = ptr.nav_many().children::<ChildRefs>();

    assert_eq!(children.len(), 2);
    let names: Vec<_> = children
        .iter()
        .map(|c| c.get::<Name>().unwrap().0)
        .collect();
    assert!(names.contains(&"child1"));
    assert!(names.contains(&"child2"));
}

/// A component with an empty list of children gives no children.
#[test]
fn children_empty_vec() {
    let mut world = World::new();
    let parent = world.spawn((Name("parent"), ChildRefs(vec![]))).id();
    let world = leak(world);

    // With a bound entity
    let bound = EntityHandle::new(parent).bind(world);
    assert_eq!(bound.nav().children::<ChildRefs>().len(), 0);

    // With a pointer
    let world_ref = WorldRef::new(world);
    let ptr = world_ref.entity(parent);
    assert_eq!(ptr.nav_many().children::<ChildRefs>().len(), 0);
}

/// An entity without the component gives no children.
#[test]
fn nav_many_no_children_component() {
    let mut world = World::new();
    let entity = world.spawn(Name("no_children")).id();
    let world = leak(world);

    // With a bound entity
    let bound = EntityHandle::new(entity).bind(world);
    assert_eq!(bound.nav().children::<ChildRefs>().len(), 0);

    // With a pointer
    let world_ref = WorldRef::new(world);
    let ptr = world_ref.entity(entity);
    assert_eq!(ptr.nav_many().children::<ChildRefs>().len(), 0);
}
