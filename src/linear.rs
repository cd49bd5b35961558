use vstd::prelude::*;

verus! {

/// Linear interpolator: the identity timing function, `f(t) = t`.
#[derive(Clone, Copy, Debug, PartialEq, Eq)]
pub struct Linear;

impl Linear {
    /// Progress at time `t`: `t` itself, unchanged, whatever its type.
    pub fn calculate<T>(&self, t: T) -> (r: T)
        ensures
            r == t,
    {
        t
    }
}

} // verus!
