//! The values that the protocol carries, and the interfaces of hints.

use vstd::prelude::*;
use crate::error::OracleError;

verus! {

/// A 32-byte identifier of a preimage. The protocol gives it no inner structure.
pub type PreimageKey = [u8; 32];

/// The bytes that a preimage key stands for; may be empty.
pub type Preimage = Vec<u8>;

/// A value that can act as a hint: it renders to the text that tells the host which
/// preimages to prepare.
pub trait Hint {
    /// The text that the value renders to.
    spec fn rendered(&self) -> Seq<char>;

    /// Renders the hint.
    fn hint(&self) -> (r: String)
        ensures
            r@ == self.rendered(),
    ;
}

impl Hint for String {
    /// A string is its own hint.
    open spec fn rendered(&self) -> Seq<char> {
        self@
    }

    fn hint(&self) -> (r: String) {
        self.clone()
    }
}

/// Something that hints can be written to. A program that runs where the host already
/// holds every preimage may implement it as a no-op.
pub trait Hinter {
    /// Passes `hint` to the preimage oracle service.
    fn hint<H: Hint>(&mut self, hint: H) -> Result<(), OracleError>;
}

} // verus!
