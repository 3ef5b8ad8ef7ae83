//! Interchange artifacts: opaque proof objects, inline or stored.

use vstd::prelude::*;

verus! {

/// An opaque proof object, either held in memory as bytes or referenced by
/// the location it was persisted under. An artifact is never mutated after
/// creation: every transformation produces a new artifact.
#[derive(Clone, Debug, PartialEq, Eq)]
pub enum Artifact {
    /// The artifact's bytes, held in memory.
    Inline(Vec<u8>),
    /// The location of the artifact's bytes in the artifact store.
    Referenced(Vec<u8>),
}

impl Artifact {
    /// Wraps in-memory bytes as an artifact.
    pub fn inline(bytes: Vec<u8>) -> (r: Artifact)
        ensures
            r == Artifact::Inline(bytes),
    {
        Artifact::Inline(bytes)
    }

    /// Wraps a store location as an artifact.
    pub fn referenced(location: Vec<u8>) -> (r: Artifact)
        ensures
            r == Artifact::Referenced(location),
    {
        Artifact::Referenced(location)
    }

    /// True when the artifact's bytes are held in memory.
    pub fn is_inline(&self) -> (r: bool)
        ensures
            r == (self is Inline),
    {
        match self {
            Artifact::Inline(_) => true,
            Artifact::Referenced(_) => false,
        }
    }

    /// The artifact's bytes, when held in memory.
    pub fn inline_bytes(&self) -> (r: Option<&Vec<u8>>)
        ensures
            match r {
                Some(b) => self matches Artifact::Inline(bytes) && b == &bytes,
                None => self is Referenced,
            },
    {
        match self {
            Artifact::Inline(bytes) => Some(bytes),
            Artifact::Referenced(_) => None,
        }
    }

    /// The artifact's store location, when it stands for persisted bytes.
    pub fn location(&self) -> (r: Option<&Vec<u8>>)
        ensures
            match r {
                Some(l) => self matches Artifact::Referenced(loc) && l == &loc,
                None => self is Inline,
            },
    {
        match self {
            Artifact::Inline(_) => None,
            Artifact::Referenced(loc) => Some(loc),
        }
    }

    /// Materializes the artifact to in-memory bytes. An inline artifact hands
    /// its own bytes back and ignores `fetched`; a referenced artifact takes
    /// `fetched`, the bytes read back from the store under its location, which
    /// the caller must supply for it.
    pub fn materialize(self, fetched: Option<Vec<u8>>) -> (r: Result<Vec<u8>, Artifact>)
        ensures
            match self {
                Artifact::Inline(bytes) => r == Result::<Vec<u8>, Artifact>::Ok(bytes),
                Artifact::Referenced(loc) => match fetched {
                    Some(bytes) => r == Result::<Vec<u8>, Artifact>::Ok(bytes),
                    None => r == Result::<Vec<u8>, Artifact>::Err(Artifact::Referenced(loc)),
                },
            },
    {
        match self {
            Artifact::Inline(bytes) => Ok(bytes),
            Artifact::Referenced(loc) => match fetched {
                Some(bytes) => Ok(bytes),
                None => Err(Artifact::Referenced(loc)),
            },
        }
    }
}

} // verus!
