use vstd::prelude::*;

verus! {

/// A flat attribute buffer of a geometry: `item_size` consecutive values
/// make up one item.
#[derive(Clone, Debug)]
pub struct BufferAttrib<T> {
    pub array: Vec<T>,
    pub item_size: usize,
}

} // verus!
