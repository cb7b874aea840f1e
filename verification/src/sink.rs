//! The bounded outbound buffer: a fixed-capacity byte vector from the
//! `heapless` crate, used to assemble one outbound message.
//!
//! The buffer type is opaque to verification; its contents are named by
//! [`sink_bytes`], and the trusted wrappers below state, over that name,
//! what the crate's operations do: a fresh buffer is empty, and extending
//! appends exactly the given bytes or — when they would not fit the
//! capacity of 384 — fails without modifying anything.

use vstd::prelude::*;

verus! {

/// The fixed-capacity vector type of the `heapless` crate.
#[verifier::external_type_specification]
#[verifier::external_body]
#[verifier::reject_recursive_types(T)]
pub struct ExHeaplessVec<T, const N: usize>(heapless::Vec<T, N>);

/// The bytes a message buffer holds, in order.
pub uninterp spec fn sink_bytes(v: heapless::Vec<u8, 384>) -> Seq<u8>;

/// Relies on `heapless::Vec::new`: a fresh vector is empty.
#[verifier::external_body]
pub(crate) fn sink_new() -> (r: heapless::Vec<u8, 384>)
    ensures
        sink_bytes(r) == Seq::<u8>::empty(),
{
    heapless::Vec::new()
}

/// Relies on `heapless::Vec::extend_from_slice`: when the bytes fit the
/// capacity they are appended in order, and when they do not fit the
/// vector is left unmodified and an error is returned.
#[verifier::external_body]
pub(crate) fn sink_extend(v: &mut heapless::Vec<u8, 384>, data: &[u8]) -> (r: Result<(), ()>)
    ensures
        r == (if sink_bytes(*old(v)).len() + data@.len() <= 384 {
            Ok::<(), ()>(())
        } else {
            Err::<(), ()>(())
        }),
        sink_bytes(*final(v)) == (if sink_bytes(*old(v)).len() + data@.len() <= 384 {
            sink_bytes(*old(v)) + data@
        } else {
            sink_bytes(*old(v))
        }),
{
    v.extend_from_slice(data)
}

/// Relies on `heapless::Vec::as_slice`: the slice is the vector's
/// contents.
#[verifier::external_body]
pub(crate) fn sink_to_vec(v: &heapless::Vec<u8, 384>) -> (r: Vec<u8>)
    ensures
        r@ == sink_bytes(*v),
{
    v.as_slice().to_vec()
}

} // verus!
