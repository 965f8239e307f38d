use vstd::prelude::*;

verus! {

/// An account that an instruction creates, with the bump seed of its address.
pub struct Empty<T> {
    pub account: T,
    pub bump: Option<u8>,
}

/// A value that handlers read and update in place.
pub struct Mutable<T> {
    value: T,
}

/// Where a possibly negative index points in a collection of `len` items:
/// a positive index stands for itself, any other counts back from the end.
pub open spec fn wrapped_index_spec(len: int, index: int) -> int {
    if index > 0 {
        index
    } else {
        index + len
    }
}

/// Shared arithmetic of both `wrapped_index` methods.
fn wrap_index(len: usize, index: i128) -> (position: usize)
    requires
        0 <= wrapped_index_spec(len as int, index as int) <= usize::MAX,
    ensures
        position as int == wrapped_index_spec(len as int, index as int),
{
    if index > 0 {
        index as usize
    } else {
        let shifted: i128 = index + len as i128;
        shifted as usize
    }
}

impl<T> Mutable<T> {
    /// The value held.
    pub closed spec fn view(&self) -> T {
        self.value
    }

    /// Holds `obj`.
    pub fn new(obj: T) -> (cell: Self)
        ensures
            cell.view() == obj,
    {
        Mutable { value: obj }
    }

    /// Reads the value held.
    pub fn borrow(&self) -> (value: &T)
        ensures
            *value == self.view(),
    {
        &self.value
    }
}

impl<T: Clone> Mutable<Vec<T>> {
    /// Turns `index` into a position in the vector: a positive index is kept,
    /// zero or a negative one is added to the length.
    pub fn wrapped_index(&self, index: i128) -> (position: usize)
        requires
            0 <= wrapped_index_spec(self.view().len() as int, index as int) <= usize::MAX,
        ensures
            position as int == wrapped_index_spec(self.view().len() as int, index as int),
    {
        wrap_index(self.value.len(), index)
    }
}

impl<T: Clone, const N: usize> Mutable<[T; N]> {
    /// Turns `index` into a position in the array: a positive index is kept,
    /// zero or a negative one is added to the length.
    pub fn wrapped_index(&self, index: i128) -> (position: usize)
        requires
            0 <= wrapped_index_spec(N as int, index as int) <= usize::MAX,
        ensures
            position as int == wrapped_index_spec(N as int, index as int),
    {
        wrap_index(N, index)
    }
}

} // verus!
