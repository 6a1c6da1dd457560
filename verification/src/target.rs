//! Peripheral endpoints and the request lines that reach them.

use vstd::prelude::*;

verus! {

/// A peripheral endpoint that channel `C` can serve.
///
/// Which endpoint may be paired with which channel, and through which
/// request line, is fixed by the chip: a pair exists exactly where this
/// trait is implemented, so a pairing that the chip lacks does not compile.
pub trait Target<C> {
    /// The request line that routes this endpoint to the channel.
    const REQUEST: u8;
}

} // verus!
