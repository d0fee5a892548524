use vstd::prelude::*;

verus! {

/// An account record whose size is fixed: `space` is the number of bytes to
/// allocate for it, the eight-byte type tag included.
pub trait FixedSpace {
    fn space() -> usize;
}

} // verus!
