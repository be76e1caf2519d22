//! The state capsule: one value of the caller's choosing, moved out of the
//! old module by its capture call and into the new module by its restore call.

use vstd::prelude::*;

verus! {

/// Carries one application state value across an unload/reload boundary.
/// A capsule is moved, never copied, and is consumed by `coerce`.
pub struct OpaqueState<T> {
    value: T,
}

impl<T> OpaqueState<T> {
    /// The capsule that holds `value`.
    pub closed spec fn wrapping(value: T) -> OpaqueState<T> {
        OpaqueState { value }
    }

    /// The value held by the capsule.
    pub closed spec fn contents(&self) -> T {
        self.value
    }

    /// Wraps `obj` in a capsule.
    pub fn new(obj: T) -> (r: OpaqueState<T>)
        ensures
            r == OpaqueState::wrapping(obj),
    {
        OpaqueState { value: obj }
    }

    /// Consumes the capsule and hands back the value it holds.
    pub fn coerce(opaque_state: OpaqueState<T>) -> (r: T)
        ensures
            r == opaque_state.contents(),
    {
        opaque_state.value
    }
}

/// Unwrapping a freshly wrapped value gives that same value back, whatever
/// its type, nested and composite values included.
pub proof fn lemma_round_trip<T>(value: T)
    ensures
        OpaqueState::wrapping(value).contents() == value,
{
}

} // verus!
