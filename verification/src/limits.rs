use vstd::prelude::*;

verus! {

/// Number of machine-word slots in the inline buffer.
pub const NWORDS: usize = 3;

/// Byte size of the inline word buffer: a payload type is stored inline
/// exactly when its size does not exceed this many bytes.
pub open spec fn size_limit() -> nat {
    vstd::layout::size_of::<[usize; NWORDS]>()
}

/// Decides, from the static size of `T` alone, whether a value of type `T`
/// is stored inline in the word buffer or behind a heap allocation.
/// This is the only branch point of the whole container: it is a per-type,
/// compile-time-fixed property, never a per-instance decision.
pub fn should_inline<T>() -> (r: bool)
    ensures
        r == (vstd::layout::size_of::<T>() <= size_limit()),
{
    core::mem::size_of::<T>() <= core::mem::size_of::<[usize; NWORDS]>()
}

} // verus!
