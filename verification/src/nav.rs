//! Navigation over parent and children relationships.
//!
//! A component type that names a parent implements `HasParent`; one that
//! names children implements `HasChildren`. Both reference kinds can then
//! traverse such components without an extractor closure.
//!
//! What a component reports is the component's own business. The contracts
//! here speak of it through `call_ensures`: a handle that
//! `T::parent_handle` may return for the component, a list that
//! `T::children_handles` may return for it.

use crate::handle::{group_handle_model, BoundEntity, BoundEntityNav, EntityHandle};
use crate::ptr::{group_ptr_model, EntityPtr, EntityPtrNav, EntityPtrNavMany};
use crate::store::{alive, answers};
use bevy_ecs::component::Component;
use vstd::prelude::*;

verus! {

broadcast use {group_handle_model, group_ptr_model};

/// A component that refers to a parent entity.
pub trait HasParent {
    /// Returns a handle to the parent entity, if there is one.
    fn parent_handle(&self) -> Option<EntityHandle>;
}

/// A component that refers to child entities.
pub trait HasChildren {
    /// Returns the handles of the child entities, in order.
    fn children_handles(&self) -> &[EntityHandle];
}

/// `target` is a parent that the looked-up component `found` names: nothing
/// without a component, and with one what the component may report.
pub open spec fn names_parent<T: HasParent>(found: Option<&T>, target: Option<EntityHandle>) -> bool {
    match found {
        Some(c) => call_ensures(T::parent_handle, (c,), target),
        None => target is None,
    }
}

/// `handles` are children that the looked-up component `found` lists: none
/// without a component, and with one a list that the component may report.
pub open spec fn lists_children<T: HasChildren>(found: Option<&T>, handles: Seq<EntityHandle>) -> bool {
    match found {
        Some(c) => exists|list: &[EntityHandle]|
            call_ensures(T::children_handles, (c,), list) && list@ == handles,
        None => handles.len() == 0,
    }
}

/// The parent that a looked-up component names: what the component reports,
/// or `None` where the lookup found no component.
pub fn parent_link<T: HasParent>(found: Option<&T>) -> (target: Option<EntityHandle>)
    ensures
        names_parent(found, target),
{
    match found {
        Some(c) => c.parent_handle(),
        None => None,
    }
}

impl<'w> BoundEntityNav<'w> {
    /// Navigates to the parent entity through component `T`.
    ///
    /// Returns `None` if this entity has no component `T` or the component
    /// names no parent.
    pub fn parent<T: Component + HasParent>(self) -> (r: Option<BoundEntity<'w>>)
        ensures
            exists|found: Option<&T>, target: Option<EntityHandle>|
                answers::<T>(self.inner().world(), self.inner().entity(), found)
                    && #[trigger] names_parent(found, target)
                    && r == self.inner().follow_handle_opt(target),
            !alive(self.inner().world(), self.inner().entity()) ==> r is None,
            r matches Some(b) ==> b.world() == self.inner().world() && exists|c: &T|
                call_ensures(T::parent_handle, (c,), Some(b.handle())),
    {
        let found = self.inner().get::<T>();
        let target = parent_link(found);
        let r = self.inner().follow_handle_opt(target);
        proof {
            if let Some(b) = r {
                assert(b.handle() == target->0);
                assert(call_ensures(T::parent_handle, (found->0,), Some(b.handle())));
            }
        }
        r
    }

    /// Navigates to the child entities through component `T`.
    ///
    /// Returns one accessor per child, in the component's order, all in this
    /// accessor's store. The result is empty if this entity has no component
    /// `T` or the component lists no children.
    pub fn children<T: Component + HasChildren>(self) -> (r: Vec<BoundEntity<'w>>)
        ensures
            !alive(self.inner().world(), self.inner().entity()) ==> r@.len() == 0,
            exists|found: Option<&T>, handles: Seq<EntityHandle>|
                answers::<T>(self.inner().world(), self.inner().entity(), found)
                    && #[trigger] lists_children(found, handles)
                    && r@ == self.inner().spec_follow_handles(handles),
    {
        let found = self.inner().get::<T>();
        self.children_of(found)
    }

    /// The accessors for the children that a looked-up component lists: one
    /// per handle, in order, all in this accessor's store, and none where the
    /// lookup found no component.
    pub fn children_of<T: HasChildren>(self, found: Option<&T>) -> (r: Vec<BoundEntity<'w>>)
        ensures
            found is None ==> r@.len() == 0,
            exists|handles: Seq<EntityHandle>|
                lists_children(found, handles) && r@ == self.inner().spec_follow_handles(handles),
    {
        match found {
            Some(c) => {
                let list = c.children_handles();
                let r = self.inner().follow_handles(list);
                assert(lists_children(found, list@));
                r
            },
            None => {
                let r = Vec::new();
                assert(lists_children(found, Seq::<EntityHandle>::empty()));
                assert(r@ == self.inner().spec_follow_handles(Seq::<EntityHandle>::empty()));
                r
            },
        }
    }
}

impl EntityPtrNav {
    /// Navigates to the parent entity through component `T`.
    ///
    /// Returns `None` if this entity has no component `T` or the component
    /// names no parent.
    pub fn parent<T: Component + HasParent>(self) -> (r: Option<EntityPtr>)
        ensures
            exists|found: Option<&T>, target: Option<EntityHandle>|
                answers::<T>(self.inner().world(), self.inner().entity(), found)
                    && #[trigger] names_parent(found, target)
                    && r == self.inner().follow_handle_opt(target),
            !alive(self.inner().world(), self.inner().entity()) ==> r is None,
            r matches Some(p) ==> p.world() == self.inner().world() && exists|c: &T|
                call_ensures(T::parent_handle, (c,), Some(p.handle())),
    {
        let found = self.inner().get::<T>();
        let target = parent_link(found);
        let r = self.inner().follow_handle_opt(target);
        proof {
            if let Some(p) = r {
                assert(p.handle() == target->0);
                assert(call_ensures(T::parent_handle, (found->0,), Some(p.handle())));
            }
        }
        r
    }
}

impl EntityPtrNavMany {
    /// Navigates to the child entities through component `T`.
    ///
    /// Returns one pointer per child, in the component's order, all in this
    /// pointer's store. The result is empty if this entity has no component
    /// `T` or the component lists no children.
    pub fn children<T: Component + HasChildren>(self) -> (r: Vec<EntityPtr>)
        ensures
            !alive(self.inner().world(), self.inner().entity()) ==> r@.len() == 0,
            exists|found: Option<&T>, handles: Seq<EntityHandle>|
                answers::<T>(self.inner().world(), self.inner().entity(), found)
                    && #[trigger] lists_children(found, handles)
                    && r@ == self.inner().spec_follow_handles(handles),
    {
        let found = self.inner().get::<T>();
        self.children_of(found)
    }

    /// The pointers to the children that a looked-up component lists: one
    /// per handle, in order, all in this pointer's store, and none where the
    /// lookup found no component.
    pub fn children_of<T: HasChildren>(self, found: Option<&T>) -> (r: Vec<EntityPtr>)
        ensures
            found is None ==> r@.len() == 0,
            exists|handles: Seq<EntityHandle>|
                lists_children(found, handles) && r@ == self.inner().spec_follow_handles(handles),
    {
        match found {
            Some(c) => {
                let list = c.children_handles();
                let r = self.inner().follow_handles(list);
                assert(lists_children(found, list@));
                r
            },
            None => {
                let r = Vec::new();
                assert(lists_children(found, Seq::<EntityHandle>::empty()));
                assert(r@ == self.inner().spec_follow_handles(Seq::<EntityHandle>::empty()));
                r
            },
        }
    }
}

} // verus!
