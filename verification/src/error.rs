//! The ways in which a sector update fails.
use vstd::prelude::*;

verus! {

/// Why a sector update ended without a result.
#[derive(Debug)]
pub enum UpdateError {
    /// A step outside this library failed: a file that was not read, an encoding or a proof that
    /// was not made.
    Outside(anyhow::Error),
    /// The cached roots of the sector cannot be read from the bytes of their file.
    MalformedPAux(Box<bincode::ErrorKind>),
    /// The cached tree places of the sector cannot be read from the bytes of their file.
    MalformedTAux(Box<bincode::ErrorKind>),
    /// No tree over the new data has one leaf per node of the sector.
    TreeDLen(anyhow::Error),
    /// No base tree over the new replica has its share of the nodes as leafs.
    TreeRLastLen(anyhow::Error),
    /// The bytes of a commitment are not those of a tree node.
    Domain(anyhow::Error),
    /// The bytes of a succinct proof are not the circuit proofs of its partitions.
    MalformedProof(anyhow::Error),
    /// The commitment to the new data is all zero.
    ZeroCommD,
    /// The commitment to the new replica is all zero.
    ZeroCommR,
    /// The root of the tree over the new replica is all zero.
    ZeroCommRLast,
    /// The pieces do not make up the data that was encoded.
    PiecesMismatch,
    /// The proof of one partition does not hold.
    InvalidVanillaProof,
    /// The proofs of all partitions do not hold together.
    InvalidVanillaProofs,
}

impl UpdateError {
    /// The text that describes a failure found by this library; `None` for one that carries the
    /// error of an outside step.
    pub open spec fn message_text(self) -> Option<Seq<char>> {
        match self {
            UpdateError::ZeroCommD => Some("Invalid all zero commitment (comm_d)"@),
            UpdateError::ZeroCommR => Some("Invalid all zero commitment (comm_r)"@),
            UpdateError::ZeroCommRLast => Some("Invalid all zero commitment (comm_r)"@),
            UpdateError::PiecesMismatch => Some("pieces and comm_d do not match"@),
            UpdateError::InvalidVanillaProof => Some("vanilla proof is invalid"@),
            UpdateError::InvalidVanillaProofs => Some("vanilla proofs are invalid"@),
            _ => None,
        }
    }

    /// Describes a failure found by this library.
    pub fn message(&self) -> (text: Option<&'static str>)
        ensures
            match text {
                Some(text) => self.message_text() == Some(text@),
                None => self.message_text() is None,
            },
    {
        match self {
            UpdateError::ZeroCommD => Some("Invalid all zero commitment (comm_d)"),
            UpdateError::ZeroCommR => Some("Invalid all zero commitment (comm_r)"),
            UpdateError::ZeroCommRLast => Some("Invalid all zero commitment (comm_r)"),
            UpdateError::PiecesMismatch => Some("pieces and comm_d do not match"),
            UpdateError::InvalidVanillaProof => Some("vanilla proof is invalid"),
            UpdateError::InvalidVanillaProofs => Some("vanilla proofs are invalid"),
            _ => None,
        }
    }
}

} // verus!
