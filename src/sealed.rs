use vstd::prelude::*;

verus! {

/// Marker that only the handle types of this crate carry: it keeps `Database` from being
/// implemented outside the crate while leaving its methods callable by anyone.
pub trait Sealed {

}

} // verus!
