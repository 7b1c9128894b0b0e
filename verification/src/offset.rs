//! Tape offsets.

use vstd::prelude::*;
use vstd::std_specs::convert::FromSpecImpl;

verus! {

/// A tape offset.
///
/// An offset is a position on a tape, in bytes from its start, together with
/// the number of the session that the position was taken in. It is redeemed
/// through a runner, which hands out an address only where the offset leads to
/// the start of an operation of the runner's own tape. An operation keeps an
/// offset as the two words that it is made of. Offsets can be converted to
/// `usize` through the `From` trait.
#[derive(Clone, Copy, Debug, PartialEq, Eq, Structural)]
pub struct Offset {
    /// The position, in bytes from the start of the tape.
    pub value: usize,
    /// The number of the session that the position was taken in.
    pub session: usize,
}

impl From<Offset> for usize {
    fn from(offset: Offset) -> (value: usize) {
        offset.value
    }
}

impl FromSpecImpl<Offset> for usize {
    open spec fn obeys_from_spec() -> bool {
        true
    }

    open spec fn from_spec(offset: Offset) -> usize {
        offset.value
    }
}

} // verus!
