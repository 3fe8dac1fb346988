//! The calls this crate makes into code that is not verified here. Each
//! function below is believed on its contract.

use crate::render::{group, is_byte_image, referents, DrawTextureOperation};
use itertools::Itertools;
use std::collections::HashMap;
use std::rc::Rc;
use vstd::prelude::*;

verus! {

/// `Rc::clone`: a second handle to the same shared value.
#[verifier::external_body]
pub(crate) fn share<T>(handle: &Rc<T>) -> (shared: Rc<T>)
    ensures
        shared == *handle,
{
    Rc::clone(handle)
}

/// `Itertools::into_group_map_by` over the operations, keyed by draw-order
/// index. The map has a key for exactly the indices that some operation
/// carries, and under each key the operations that carry it, in the order in
/// which they stand in `operations`.
#[verifier::external_body]
pub(crate) fn group_by_index<'a, C>(operations: &'a Vec<DrawTextureOperation<C>>) -> (groups:
    HashMap<u16, Vec<&'a DrawTextureOperation<C>>>)
    ensures
        forall|index: u16| #[trigger]
            groups@.contains_key(index) <==> group(operations@, index).len() > 0,
        forall|index: u16| #[trigger]
            groups@.contains_key(index) ==> referents(groups@[index]@) == group(
                operations@,
                index,
            ),
{
    operations.iter().into_group_map_by(|operation| operation.index)
}

/// `Itertools::sorted` over the keys of `groups`: every key once, in
/// ascending order.
#[verifier::external_body]
pub(crate) fn ascending_keys<V>(groups: &HashMap<u16, V>) -> (keys: Vec<u16>)
    ensures
        forall|i: int, j: int| 0 <= i < j < keys.len() ==> keys[i] < keys[j],
        forall|index: u16| keys@.contains(index) <==> groups@.contains_key(index),
{
    groups.keys().copied().sorted().collect()
}

/// `bytemuck::cast_slice` from 16-bit indices to bytes: the indices as they
/// lie in memory, two bytes for each, in the byte order of the machine.
#[verifier::external_body]
pub(crate) fn index_bytes(indices: &[u16]) -> (bytes: Vec<u8>)
    ensures
        is_byte_image(bytes@, indices@),
{
    bytemuck::cast_slice::<u16, u8>(indices).to_vec()
}

} // verus!
