use vstd::prelude::*;

verus! {

/// A participant's identity: an opaque 256-bit account address, supplied by
/// the host and never interpreted by the engine. It is held as two 128-bit
/// halves so that equality on it is plain structural equality.
#[derive(Clone, Copy, PartialEq, Eq, Structural, Debug)]
pub struct User {
    pub hi: u128,
    pub lo: u128,
}

} // verus!
