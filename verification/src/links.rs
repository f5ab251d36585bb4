//! What a relationship component points to.
//!
//! A relationship component is caller-defined data that names another
//! entity. The store returns the component, if the entity has one; a closure
//! of the caller extracts the handle. The functions here do the part in
//! between, on plain values, so that both reference kinds share it.

use crate::handle::EntityHandle;
use vstd::prelude::*;

verus! {

/// `target` is a result of following a link when the store's lookup returned
/// `found` and `f` extracts the handle: nothing without a component, and with
/// one a handle that `f` may return for it.
pub open spec fn follows<T, F: FnOnce(&T) -> EntityHandle>(
    found: Option<&T>,
    f: F,
    target: Option<EntityHandle>,
) -> bool {
    match found {
        Some(c) => target matches Some(h) && f.ensures((c,), h),
        None => target is None,
    }
}

/// As `follows`, for an extractor that may itself find no relation.
pub open spec fn follows_opt<T, F: FnOnce(&T) -> Option<EntityHandle>>(
    found: Option<&T>,
    f: F,
    target: Option<EntityHandle>,
) -> bool {
    match found {
        Some(c) => f.ensures((c,), target),
        None => target is None,
    }
}

/// The handle that a relationship component points to: `f` applied to the
/// component, or `None` where the lookup found no component.
pub fn follow_link<T, F>(found: Option<&T>, f: F) -> (target: Option<EntityHandle>)
    where F: FnOnce(&T) -> EntityHandle
    requires
        found matches Some(c) ==> f.requires((c,)),
    ensures
        follows(found, f, target),
{
    match found {
        Some(c) => Some(f(c)),
        None => None,
    }
}

/// The handle that an optional relationship component points to: `f` applied
/// to the component, or `None` where the lookup found no component. A missing
/// component and a present component without a relation give the same
/// result.
pub fn follow_opt_link<T, F>(found: Option<&T>, f: F) -> (target: Option<EntityHandle>)
    where F: FnOnce(&T) -> Option<EntityHandle>
    requires
        found matches Some(c) ==> f.requires((c,)),
    ensures
        follows_opt(found, f, target),
{
    match found {
        Some(c) => f(c),
        None => None,
    }
}

} // verus!
