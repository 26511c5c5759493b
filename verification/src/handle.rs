//! Ownership rules for the front-end handles of one completion cell.
//!
//! Every handle the application holds owns a reference to the user callback.
//! The one handle passed into the callback's own invocation does not: if it
//! did, the callback would hold a reference to itself and the cycle would
//! keep the object alive past its last application-held owner. These rules
//! decide which handles may be cloned and which handle, on destruction, must
//! stop the engine-side object.
use vstd::prelude::*;

verus! {

/// The ownership role of one front-end handle.
#[derive(Clone, Copy, Debug, PartialEq, Eq, Structural)]
pub struct HandleRole {
    owns_callback: bool,
}

impl HandleRole {
    /// Whether this handle owns a reference to the user callback.
    pub closed spec fn owns_callback(self) -> bool {
        self.owns_callback
    }

    /// The role of a handle held by the application.
    pub fn application() -> (r: HandleRole)
        ensures
            r.owns_callback(),
    {
        HandleRole { owns_callback: true }
    }

    /// The role of the single handle passed into the callback's own
    /// invocation.
    pub fn in_callback() -> (r: HandleRole)
        ensures
            !r.owns_callback(),
    {
        HandleRole { owns_callback: false }
    }

    /// The cloning rule: cloning an application-held handle always succeeds
    /// and yields another application-held handle (itself clonable again);
    /// cloning the in-callback handle always fails, so no second owner of
    /// the callback can ever be minted from inside the callback.
    pub fn try_clone(&self) -> (r: Option<HandleRole>)
        ensures
            self.owns_callback() <==> r is Some,
            r matches Some(c) ==> c.owns_callback(),
    {
        if self.owns_callback {
            Some(HandleRole { owns_callback: true })
        } else {
            None
        }
    }
}

/// The teardown rule: the handle being destroyed must synchronously stop the
/// engine-side object exactly when it owns the callback and is its unique
/// remaining owner. Stopping blocks until any in-flight completion callback
/// has returned and no further one can start; it must be done before the
/// shared cell's own teardown frees the handle, and never under the cell's
/// lock, which the in-flight callback itself needs in order to finish.
pub fn must_stop_on_drop(owns_callback: bool, is_unique_owner: bool) -> (r: bool)
    ensures
        r <==> (owns_callback && is_unique_owner),
{
    owns_callback && is_unique_owner
}

} // verus!
