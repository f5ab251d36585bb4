use bevy_ecs::component::{Component, Mutable, StorageType};
use bevy_ecs::entity::Entity;
use bevy_ecs::world::World;
use bevy_entity_ptr::{BoundEntity, EntityHandle, EntityPtr, HasChildren, WorldExt, WorldRef};
use std::collections::hash_map::DefaultHasher;
use std::collections::HashSet;
use std::hash::{Hash, Hasher};

struct Name(&'static str);

impl Component for Name {
    const STORAGE_TYPE: StorageType = StorageType::Table;
    type Mutability = Mutable;
}

struct Health(i32);

impl Component for Health {
    const STORAGE_TYPE: StorageType = StorageType::Table;
    type Mutability = Mutable;
}

struct Value(i32);

impl Component for Value {
    const STORAGE_TYPE: StorageType = StorageType::Table;
    type Mutability = Mutable;
}

struct Next(EntityHandle);

impl Component for Next {
    const STORAGE_TYPE: StorageType = StorageType::Table;
    type Mutability = Mutable;
}

struct MaybeNext(Option<EntityHandle>);

impl Component for MaybeNext {
    const STORAGE_TYPE: StorageType = StorageType::Table;
    type Mutability = Mutable;
}

struct TreeChildren(Vec<EntityHandle>);

impl Component for TreeChildren {
    const STORAGE_TYPE: StorageType = StorageType::Table;
    type Mutability = Mutable;
}

impl HasChildren for TreeChildren {
    fn children_handles(&self) -> &[EntityHandle] {
        &self.0
    }
}

/// Gives the store to the rest of the process, so that it can be borrowed
/// for `'static`.
fn leak(world: World) -> &'static World {
    Box::leak(Box::new(world))
}

fn hash_of<T: Hash>(value: &T) -> u64 {
    let mut hasher = DefaultHasher::new();
    value.hash(&mut hasher);
    hasher.finish()
}

#[test]
fn three_kinds_agree_on_lookups() {
    let mut world = World::new();
    let full = world.spawn((Name("full"), Health(7))).id();
    let bare = world.spawn(Name("bare")).id();
    let gone = world.spawn((Name("gone"), Health(1))).id();
    world.despawn(gone);
    let world = leak(world);
    let factory = WorldRef::new(world);

    for entity in [full, bare, gone] {
        let handle = EntityHandle::new(entity);
        let bound = BoundEntity::new(entity, world);
        let ptr = factory.entity(entity);

        let by_handle = handle.get::<Health>(world);
        let by_bound = bound.get::<Health>();
        let by_ptr = ptr.get::<Health>();
        let by_factory = factory.get::<Health>(entity);
        assert_eq!(by_handle.map(|h| h.0), by_bound.map(|h| h.0));
        assert_eq!(by_handle.map(|h| h.0), by_ptr.map(|h| h.0));
        assert_eq!(by_handle.map(|h| h.0), by_factory.map(|h| h.0));
        if let (Some(a), Some(b), Some(c)) = (by_handle, by_bound, by_ptr) {
            assert!(std::ptr::eq(a, b));
            assert!(std::ptr::eq(a, c));
        }

        assert_eq!(handle.has::<Health>(world), by_handle.is_some());
        assert_eq!(bound.has::<Health>(), by_handle.is_some());
        assert_eq!(ptr.has::<Health>(), by_handle.is_some());

        assert_eq!(handle.is_alive(world), bound.is_alive());
        assert_eq!(handle.is_alive(world), ptr.is_alive());
        assert_eq!(factory.entity_opt(entity).is_some(), ptr.is_alive());
    }

    assert_eq!(EntityHandle::new(full).get::<Health>(world).unwrap().0, 7);
    assert!(EntityHandle::new(bare).get::<Health>(world).is_none());
    assert!(EntityHandle::new(bare).is_alive(world));
    assert!(!EntityHandle::new(gone).is_alive(world));
}

#[test]
fn nothing_is_found_after_despawn() {
    let mut world = World::new();
    let entity = world.spawn((Name("short-lived"), Health(3), Value(4))).id();
    let handle = EntityHandle::new(entity);
    assert!(handle.is_alive(&world));
    assert!(handle.has::<Name>(&world));

    assert!(world.despawn(entity));
    let world = leak(world);

    assert!(!handle.is_alive(world));
    assert!(handle.get::<Name>(world).is_none());
    assert!(handle.get::<Health>(world).is_none());
    assert!(handle.get::<Value>(world).is_none());
    assert!(!handle.has::<Name>(world));

    let bound = handle.bind(world);
    assert!(!bound.is_alive());
    assert!(bound.get::<Name>().is_none());
    assert!(bound.get::<Health>().is_none());
    assert!(!bound.has::<Value>());
    assert!(bound.follow::<Next, _>(|n| n.0).is_none());
    assert!(bound.nav().children::<TreeChildren>().is_empty());

    let factory = WorldRef::new(world);
    let ptr = factory.entity(entity);
    assert!(!ptr.is_alive());
    assert!(ptr.get::<Name>().is_none());
    assert!(ptr.get::<Health>().is_none());
    assert!(!ptr.has::<Value>());
    assert!(ptr.follow_opt::<MaybeNext, _>(|n| n.0).is_none());
    assert!(ptr.nav_many().children::<TreeChildren>().is_empty());
    assert!(factory.entity_opt(entity).is_none());
    assert!(factory.get::<Name>(entity).is_none());
}

#[test]
fn following_twice_gives_the_same_reference() {
    let mut world = World::new();
    let target = world.spawn((Name("target"), Health(42))).id();
    let source = world
        .spawn((
            Next(EntityHandle::new(target)),
            MaybeNext(Some(EntityHandle::new(target))),
        ))
        .id();
    let world = leak(world);

    let bound = EntityHandle::new(source).bind(world);
    let first = bound.follow::<Next, _>(|n| n.0).unwrap();
    let second = bound.follow::<Next, _>(|n| n.0).unwrap();
    assert_eq!(first.entity(), target);
    assert_eq!(first.entity(), second.entity());
    assert_eq!(
        first.get::<Health>().unwrap().0,
        second.get::<Health>().unwrap().0
    );
    let first = bound.follow_opt::<MaybeNext, _>(|n| n.0).unwrap();
    let second = bound.follow_opt::<MaybeNext, _>(|n| n.0).unwrap();
    assert_eq!(first.entity(), target);
    assert_eq!(first.entity(), second.entity());

    let ptr = WorldRef::new(world).entity(source);
    let first = ptr.follow::<Next, _>(|n| n.0).unwrap();
    let second = ptr.follow::<Next, _>(|n| n.0).unwrap();
    assert_eq!(first, second);
    assert_eq!(first.entity(), target);
    assert_eq!(first.get::<Health>().unwrap().0, 42);
    assert_eq!(second.get::<Health>().unwrap().0, 42);
    let first = ptr.follow_opt::<MaybeNext, _>(|n| n.0).unwrap();
    let second = ptr.follow_opt::<MaybeNext, _>(|n| n.0).unwrap();
    assert_eq!(first, second);
    assert_eq!(first.entity(), target);
}

#[test]
fn follow_reaches_the_named_entity_in_the_same_store() {
    let mut world = World::new();
    let target = world.spawn(Name("target")).id();
    let other = world.spawn(Name("other")).id();
    let source = world.spawn(Next(EntityHandle::new(target))).id();
    let world = leak(world);

    let bound = EntityHandle::new(source).bind(world);
    let reached = bound.follow::<Next, _>(|n| n.0).unwrap();
    assert_eq!(reached.entity(), target);
    assert_ne!(reached.entity(), other);
    assert_ne!(reached.entity(), source);
    assert!(std::ptr::eq(reached.world(), world));

    let ptr = WorldRef::new(world).entity(source);
    let reached = ptr.follow::<Next, _>(|n| n.0).unwrap();
    assert_eq!(reached.entity(), target);
    assert!(std::ptr::eq(reached.world(), world));

    // No component, no link
    let bare = EntityHandle::new(target).bind(world);
    assert!(bare.follow::<Next, _>(|n| n.0).is_none());
    assert!(bare.follow_opt::<MaybeNext, _>(|n| n.0).is_none());
}

#[test]
fn handle_round_trip_gives_the_reference_back() {
    let mut world = World::new();
    let entity = world.spawn((Name("round"), Health(9))).id();
    let world = leak(world);
    let factory = WorldRef::new(world);

    let ptr = factory.entity(entity);
    let again = factory.from_handle(ptr.handle());
    assert_eq!(again, ptr);
    assert_eq!(again.entity(), ptr.entity());
    assert!(std::ptr::eq(again.world(), ptr.world()));
    assert_eq!(again.get::<Health>().unwrap().0, 9);
    assert_eq!(again.get::<Name>().unwrap().0, "round");

    let bound = BoundEntity::new(entity, world);
    let again = bound.handle().bind(bound.world());
    assert_eq!(again.entity(), bound.entity());
    assert!(std::ptr::eq(again.world(), bound.world()));
    assert_eq!(again.get::<Health>().unwrap().0, 9);

    let handle = EntityHandle::new(entity);
    assert_eq!(handle.bind(world).handle(), handle);
    assert_eq!(factory.from_handle(handle).handle(), handle);
}

fn count_chain_length(ptr: EntityPtr) -> usize {
    match ptr.follow::<Next, _>(|n| n.0) {
        Some(next) => 1 + count_chain_length(next),
        None => 1,
    }
}

#[test]
fn chain_of_four_and_a_removed_link() {
    let mut world = World::new();
    let d = world.spawn(Name("d")).id();
    let c = world.spawn((Name("c"), Next(EntityHandle::new(d)))).id();
    let b = world.spawn((Name("b"), Next(EntityHandle::new(c)))).id();
    let a = world.spawn((Name("a"), Next(EntityHandle::new(b)))).id();

    // The count needs pointers, and pointers need a store that stays as it
    // is: count on a copy of the chain that is never changed.
    let mut frozen = World::new();
    let fd = frozen.spawn(Name("d")).id();
    let fc = frozen.spawn((Name("c"), Next(EntityHandle::new(fd)))).id();
    let fb = frozen.spawn((Name("b"), Next(EntityHandle::new(fc)))).id();
    let fa = frozen.spawn((Name("a"), Next(EntityHandle::new(fb)))).id();
    assert_eq!(count_chain_length(WorldRef::new(leak(frozen)).entity(fa)), 4);

    {
        let start = EntityHandle::new(a).bind(&world);
        let reached = start
            .follow::<Next, _>(|n| n.0)
            .and_then(|n| n.follow::<Next, _>(|n| n.0))
            .unwrap();
        assert_eq!(reached.entity(), c);
        assert!(reached.is_alive());
        assert_eq!(reached.get::<Name>().unwrap().0, "c");
    }

    world.despawn(c);

    let start = EntityHandle::new(a).bind(&world);
    let reached = start
        .follow::<Next, _>(|n| n.0)
        .and_then(|n| n.follow::<Next, _>(|n| n.0))
        .unwrap();
    assert_eq!(reached.entity(), c);
    assert!(!reached.is_alive());
    assert!(reached.get::<Name>().is_none());
    assert!(!reached.handle().is_alive(&world));
    assert!(reached.handle().get::<Name>(&world).is_none());

    // The chain now ends at the removed link
    assert_eq!(count_chain_length(WorldRef::new(leak(world)).entity(a)), 3);
}

fn build_tree(world: &mut World, depth: u32, next_value: &mut i32) -> Entity {
    let value = *next_value;
    *next_value += 1;
    if depth == 0 {
        return world.spawn(Value(value)).id();
    }
    let left = build_tree(world, depth - 1, next_value);
    let right = build_tree(world, depth - 1, next_value);
    world
        .spawn((
            Value(value),
            TreeChildren(vec![EntityHandle::new(left), EntityHandle::new(right)]),
        ))
        .id()
}

fn sum_tree(ptr: EntityPtr) -> i32 {
    let mine = ptr.get::<Value>().map(|v| v.0).unwrap_or(0);
    let below: i32 = ptr
        .nav_many()
        .children::<TreeChildren>()
        .into_iter()
        .map(sum_tree)
        .sum();
    mine + below
}

fn tree_depth(ptr: EntityPtr) -> usize {
    ptr.nav_many()
        .children::<TreeChildren>()
        .into_iter()
        .map(|child| tree_depth(child) + 1)
        .max()
        .unwrap_or(0)
}

fn count_nodes(bound: BoundEntity<'_>) -> usize {
    1 + bound
        .nav()
        .children::<TreeChildren>()
        .into_iter()
        .map(count_nodes)
        .sum::<usize>()
}

#[test]
fn binary_tree_of_depth_three() {
    let mut world = World::new();
    let mut next_value = 1;
    let root = build_tree(&mut world, 3, &mut next_value);
    assert_eq!(next_value, 16);
    let world = leak(world);

    let ptr = world.entity_ptr(root);
    assert_eq!(sum_tree(ptr), (1..=15).sum::<i32>());
    assert_eq!(sum_tree(ptr), 120);
    assert_eq!(tree_depth(ptr), 3);
    assert_eq!(count_nodes(world.bind_entity(root)), 15);

    let children = ptr.nav_many().children::<TreeChildren>();
    assert_eq!(children.len(), 2);
    assert_eq!(tree_depth(children[0]), 2);
    assert_eq!(tree_depth(children[1]), 2);
}

#[test]
fn references_to_one_entity_are_equal_and_hash_alike() {
    let mut world = World::new();
    let first = world.spawn(()).id();
    let second = world.spawn(()).id();
    let world = leak(world);
    let factory = WorldRef::new(world);

    let handle = EntityHandle::new(first);
    let bound = handle.bind(world);
    let ptr = factory.entity(first);

    assert_eq!(handle, bound.handle());
    assert_eq!(handle, ptr.handle());
    assert_eq!(ptr, factory.from_handle(handle));
    assert_eq!(ptr, world.entity_ptr(first));
    assert_eq!(ptr, ptr.follow_handle(bound.handle()));

    assert_eq!(hash_of(&handle), hash_of(&first));
    assert_eq!(hash_of(&handle), hash_of(&bound.handle()));
    assert_eq!(hash_of(&handle), hash_of(&ptr));
    assert_eq!(hash_of(&ptr), hash_of(&first));

    let other = EntityHandle::new(second);
    assert_ne!(handle, other);
    assert_ne!(handle, factory.entity(second).handle());
    assert_ne!(ptr, factory.entity(second));
    assert_ne!(bound.handle(), other.bind(world).handle());
    assert_ne!(hash_of(&handle), hash_of(&other));

    let mut handles = HashSet::new();
    handles.insert(handle);
    assert!(handles.contains(&ptr.handle()));
    assert!(!handles.contains(&other));
}

#[test]
fn pointers_into_two_stores_compare_by_id_alone() {
    let mut one = World::new();
    let mut two = World::new();
    let in_one = one.spawn(Name("one")).id();
    let in_two = two.spawn(Name("two")).id();
    assert_eq!(in_one, in_two);

    let a = WorldRef::new(leak(one)).entity(in_one);
    let b = WorldRef::new(leak(two)).entity(in_two);
    assert_eq!(a, b);
    assert_eq!(a.get::<Name>().unwrap().0, "one");
    assert_eq!(b.get::<Name>().unwrap().0, "two");
}

#[test]
fn handle_text_wraps_the_text_of_the_id() {
    let entity = Entity::from_raw_u32(42).unwrap();
    assert_eq!(EntityHandle::new(entity).to_string(), "EntityHandle(42v0)");

    let mut world = World::new();
    let first = world.spawn(()).id();
    world.despawn(first);
    let reused = world.spawn(()).id();
    assert_eq!(
        EntityHandle::new(first).to_string(),
        format!("EntityHandle({})", first)
    );
    assert_eq!(
        EntityHandle::new(reused).to_string(),
        format!("EntityHandle({})", reused)
    );
    assert_ne!(
        EntityHandle::new(first).to_string(),
        EntityHandle::new(reused).to_string()
    );
    assert_eq!(
        EntityHandle::new(Entity::PLACEHOLDER).to_string(),
        "EntityHandle(PLACEHOLDER)"
    );
}

#[test]
fn a_reused_row_is_a_different_entity() {
    let mut world = World::new();
    let first = world.spawn(Name("first")).id();
    world.despawn(first);
    let reused = world.spawn(Name("reused")).id();
    assert_eq!(first.index(), reused.index());
    let world = leak(world);

    let stale = EntityHandle::new(first);
    let fresh = EntityHandle::new(reused);
    assert_ne!(stale, fresh);
    assert!(!stale.is_alive(world));
    assert!(fresh.is_alive(world));
    assert!(stale.get::<Name>(world).is_none());
    assert_eq!(fresh.get::<Name>(world).unwrap().0, "reused");
    assert!(WorldRef::new(world).entity_opt(first).is_none());
    assert_eq!(
        WorldRef::new(world).entity_opt(reused).unwrap().entity(),
        reused
    );
}

#[test]
fn entity_opt_points_to_the_entity_asked_for() {
    let mut world = World::new();
    let a = world.spawn(Name("a")).id();
    let b = world.spawn(Name("b")).id();
    let factory = WorldRef::new(leak(world));

    let ptr = factory.entity_opt(b).unwrap();
    assert_eq!(ptr.entity(), b);
    assert_ne!(ptr.entity(), a);
    assert_eq!(ptr.get::<Name>().unwrap().0, "b");
    assert_eq!(ptr, factory.entity(b));

    // A pointer to an id that never existed can still be made
    let fake = Entity::from_raw_u32(9999).unwrap();
    let ptr = factory.entity(fake);
    assert_eq!(ptr.entity(), fake);
    assert!(!ptr.is_alive());
    assert!(ptr.get::<Name>().is_none());
}
