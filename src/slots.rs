//! The slot array of a library lives in a `once_cell::sync::OnceCell`; these
//! are the cell operations the cache relies on.

use once_cell::sync::OnceCell;
use vstd::prelude::*;

verus! {

#[verifier::external_type_specification]
#[verifier::external_body]
#[verifier::reject_recursive_types(T)]
pub struct ExOnceCell<T>(OnceCell<T>);

/// What `OnceCell::set` hands back: the value itself when the cell was full.
pub type SetResult = Result<(), Vec<usize>>;

/// The slot array a cell holds, if it has been set.
pub uninterp spec fn slot_array_of(c: OnceCell<Vec<usize>>) -> Option<Seq<usize>>;

/// Relies on `OnceCell::new`: the new cell is empty.
#[verifier::external_body]
pub(crate) fn new_slot_cell() -> (r: OnceCell<Vec<usize>>)
    ensures
        slot_array_of(r) is None,
{
    OnceCell::new()
}

/// Relies on `OnceCell::get`: the value held, or `None` when the cell is
/// empty.
#[verifier::external_body]
pub(crate) fn slot_array(c: &OnceCell<Vec<usize>>) -> (r: Option<&Vec<usize>>)
    ensures
        r is None <==> slot_array_of(*c) is None,
        r is Some ==> slot_array_of(*c) == Some(r.unwrap()@),
{
    c.get()
}

/// Relies on `OnceCell::set`: an empty cell takes the value and `Ok` comes
/// back; a full cell is left as it is and the value comes back in `Err`.
#[verifier::external_body]
pub(crate) fn set_slot_array(c: &mut OnceCell<Vec<usize>>, v: Vec<usize>) -> (r: SetResult)
    ensures
        slot_array_of(*old(c)) is None ==> r is Ok,
        slot_array_of(*old(c)) is None ==> slot_array_of(*final(c)) == Some(v@),
        slot_array_of(*old(c)) is Some ==> r == SetResult::Err(v),
        slot_array_of(*old(c)) is Some ==> slot_array_of(*final(c)) == slot_array_of(*old(c)),
{
    c.set(v)
}

/// Relies on `OnceCell::take`: the value held comes out and the cell is left
/// empty.
#[verifier::external_body]
pub(crate) fn take_slot_array(c: &mut OnceCell<Vec<usize>>) -> (r: Option<Vec<usize>>)
    ensures
        r is None <==> slot_array_of(*old(c)) is None,
        r is Some ==> slot_array_of(*old(c)) == Some(r.unwrap()@),
        slot_array_of(*final(c)) is None,
{
    c.take()
}

} // verus!
