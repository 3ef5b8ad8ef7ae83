//! Plain-word digest values used as cryptographic trust anchors.

use vstd::prelude::*;

verus! {

/// Number of 32-bit words in a digest.
pub const DIGEST_WORDS: usize = 8;

/// A 256-bit digest held as eight 32-bit words, in the word order of the
/// proving backend. Control identifiers and control roots are digests.
#[derive(Clone, Copy, Debug, PartialEq, Eq, Hash)]
pub struct Digest {
    pub words: [u32; 8],
}

impl View for Digest {
    type V = Seq<u32>;

    open spec fn view(&self) -> Seq<u32> {
        self.words@
    }
}

impl Digest {
    /// Builds a digest from its eight words.
    pub fn new(words: [u32; 8]) -> (r: Digest)
        ensures
            r@ == words@,
    {
        Digest { words }
    }

    /// Hands the digest out as its eight words.
    pub fn as_words(&self) -> (r: &[u32; 8])
        ensures
            r@ == self@,
    {
        &self.words
    }
}

} // verus!
