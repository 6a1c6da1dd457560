//! What the driver reads of a buffer: its bytes and where they lie.

use vstd::prelude::*;
use as_slice::AsSlice;

verus! {

/// Calls `as_slice::AsSlice::as_slice` on the boxed slice. The outside
/// crate's impl for `[T]` returns the slice it is given, so the bytes that
/// come back are the buffer's own.
#[verifier::external_body]
pub(crate) fn bytes_of(buffer: &Box<[u8]>) -> (bytes: &[u8])
    ensures
        bytes@ == buffer@,
{
    AsSlice::as_slice(&**buffer)
}

/// Calls `<[u8]>::as_ptr` and narrows the pointer to the 32 bits of an
/// address register. Where the bytes lie is the allocator's choice, so the
/// contract claims nothing of the result.
#[verifier::external_body]
pub(crate) fn address_of(bytes: &[u8]) -> (address: u32) {
    bytes.as_ptr() as usize as u32
}

} // verus!
