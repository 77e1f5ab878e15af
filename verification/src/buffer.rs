//! Bounded response buffer for descriptor assembly, backed by
//! `heapless::Vec<u8, 64>`: a fixed-capacity, stack-allocated vector, the
//! same bound the EP0 hardware buffer has. The buffer is reached only
//! through the trusted items below; everything built on them is verified.

use vstd::prelude::*;

verus! {

/// The bytes a response buffer holds, in order.
pub uninterp spec fn response_buffer_bytes(b: heapless::Vec<u8, 64>) -> Seq<u8>;

#[verifier::external_type_specification]
#[verifier::external_body]
#[verifier::reject_recursive_types(T)]
pub struct ExHeaplessVec<T, const N: usize>(heapless::Vec<T, N>);

/// Relies on `heapless::Vec::new`: a fresh vector is empty.
#[verifier::external_body]
pub(crate) fn response_buffer_new() -> (r: heapless::Vec<u8, 64>)
    ensures
        response_buffer_bytes(r) == Seq::<u8>::empty(),
{
    heapless::Vec::new()
}

/// Relies on `heapless::Vec::extend_from_slice`: when the slice fits in the
/// remaining capacity it is appended whole, in order, and `Ok` is returned;
/// otherwise nothing is modified and `Err` is returned.
#[verifier::external_body]
pub(crate) fn response_buffer_extend(b: &mut heapless::Vec<u8, 64>, s: &[u8]) -> (r: Result<
    (),
    (),
>)
    ensures
        r is Ok <==> response_buffer_bytes(*old(b)).len() + s@.len() <= 64,
        r is Ok ==> response_buffer_bytes(*final(b)) == response_buffer_bytes(*old(b)) + s@,
        r is Err ==> response_buffer_bytes(*final(b)) == response_buffer_bytes(*old(b)),
{
    b.extend_from_slice(s)
}

/// Relies on `heapless::Vec::as_slice`: the slice holds exactly the vector's
/// elements, in order.
#[verifier::external_body]
pub(crate) fn response_buffer_to_vec(b: &heapless::Vec<u8, 64>) -> (r: Vec<u8>)
    ensures
        r@ == response_buffer_bytes(*b),
{
    b.as_slice().to_vec()
}

} // verus!
