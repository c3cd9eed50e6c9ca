//! The fixed-capacity list of resolved keys, held in a `heapless::Vec`.
use vstd::prelude::*;

use crate::keymap::Key;
use crate::BUTTONS;

verus! {

#[verifier::external_type_specification]
#[verifier::external_body]
#[verifier::reject_recursive_types(Elem)]
pub struct ExHeaplessVec<Elem, const CAP: usize>(heapless::Vec<Elem, CAP>);

/// The keys that a list holds, in order.
pub uninterp spec fn key_list(v: heapless::Vec<Key, BUTTONS>) -> Seq<Key>;

/// Relies on `heapless::Vec::new`: the list starts empty.
#[verifier::external_body]
pub(crate) fn key_list_new() -> (r: heapless::Vec<Key, BUTTONS>)
    ensures
        key_list(r) == Seq::<Key>::empty(),
{
    heapless::Vec::new()
}

/// Relies on `heapless::Vec::push`: below the capacity the key is appended,
/// at the capacity it is handed back and the list is unchanged.
#[verifier::external_body]
pub(crate) fn key_list_push(v: &mut heapless::Vec<Key, BUTTONS>, k: Key) -> (r: Result<(), Key>)
    ensures
        key_list(*old(v)).len() < BUTTONS ==> r is Ok && key_list(*final(v))
            == key_list(*old(v)).push(k),
        key_list(*old(v)).len() >= BUTTONS ==> r is Err && r->Err_0 == k && key_list(*final(v))
            == key_list(*old(v)),
{
    v.push(k)
}

/// Relies on `heapless::Vec::as_slice`: its length is the number of keys,
/// never more than the capacity.
#[verifier::external_body]
pub(crate) fn key_list_len(v: &heapless::Vec<Key, BUTTONS>) -> (r: usize)
    ensures
        r == key_list(*v).len(),
        r <= BUTTONS,
{
    v.as_slice().len()
}

/// Relies on `heapless::Vec::as_slice`: element `i` of the slice is the
/// `i`-th key.
#[verifier::external_body]
pub(crate) fn key_list_get(v: &heapless::Vec<Key, BUTTONS>, i: usize) -> (r: Key)
    requires
        i < key_list(*v).len(),
    ensures
        r == key_list(*v)[i as int],
{
    v.as_slice()[i]
}

} // verus!
