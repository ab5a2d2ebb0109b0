//! Conversions shared by the cyclic value types.

use vstd::prelude::*;

verus! {

/// Construction of a cyclic value from an integer of any size, by reducing
/// the integer modulo the length of the cycle.
pub trait FromMod<T>: Sized {
    /// The element of the cycle that `value` reduces to.
    spec fn mod_spec(value: T) -> Self;

    fn from_mod(value: T) -> (r: Self)
        ensures
            r == Self::mod_spec(value),
    ;
}

} // verus!
