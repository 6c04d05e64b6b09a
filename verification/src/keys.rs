//! The process-wide token-signing secret.

use vstd::prelude::*;
use vstd::slice::slice_to_vec;

verus! {

/// The symmetric secret that tokens are signed and checked with.
///
/// It holds the raw secret bytes; the signing and the verification side are
/// both derived from these bytes at each use. The view of a `Keys` value is
/// the byte sequence itself, so a contract can say under which secret a
/// token was produced. The value is built once at startup and never changed.
pub struct Keys {
    secret: Vec<u8>,
}

impl View for Keys {
    type V = Seq<u8>;

    closed spec fn view(&self) -> Seq<u8> {
        self.secret@
    }
}

impl Keys {
    /// Build the key pair from the configured secret bytes.
    pub fn new(secret: &[u8]) -> (r: Keys)
        ensures
            r@ == secret@,
    {
        Keys { secret: slice_to_vec(secret) }
    }

    /// The raw secret bytes, for the signing and verifying wrappers.
    pub(crate) fn secret_bytes(&self) -> (r: &[u8])
        ensures
            r@ == self@,
    {
        self.secret.as_slice()
    }
}

} // verus!
