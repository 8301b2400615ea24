//! The serialized form of a succinct proof: its circuit proofs, one after the other.
use vstd::prelude::*;

verus! {

/// The number of bytes of a circuit proof: two points of 48 bytes, and one of 96 between them.
pub const CIRCUIT_PROOF_SIZE: usize = 192;

/// The number of circuit proofs for the partitions of a proof; one where none are named.
pub open spec fn proof_count(partitions: Option<usize>) -> nat {
    match partitions {
        Some(partitions) => partitions as nat,
        None => 1,
    }
}

/// The first `count` runs of bytes that are each as long as a circuit proof.
pub open spec fn proof_runs(bytes: Seq<u8>, count: nat) -> Seq<Seq<u8>> {
    Seq::new(
        count,
        |i: int| bytes.subrange(CIRCUIT_PROOF_SIZE * i, CIRCUIT_PROOF_SIZE * (i + 1)),
    )
}

/// The part of `bytes` that `count` circuit proofs are read from. What follows it is ignored.
pub open spec fn proof_part(bytes: Seq<u8>, count: nat) -> Seq<u8> {
    bytes.subrange(0, CIRCUIT_PROOF_SIZE * count)
}

/// The bytes are `proofs`, one after the other.
pub open spec fn is_proofs_written(bytes: Seq<u8>, proofs: Seq<Seq<u8>>) -> bool {
    &&& bytes.len() == CIRCUIT_PROOF_SIZE * proofs.len()
    &&& proofs == proof_runs(bytes, proofs.len())
}

/// Proofs are written in one way.
pub proof fn law_proofs_have_one_form(proofs: Seq<Seq<u8>>, a: Seq<u8>, b: Seq<u8>)
    requires
        is_proofs_written(a, proofs),
        is_proofs_written(b, proofs),
    ensures
        a == b,
{
    assert forall|k: int| 0 <= k < a.len() implies a[k] == b[k] by {
        let i = k / 192;
        let j = k % 192;
        assert(0 <= i < proofs.len());
        assert(proofs[i] == a.subrange(192 * i, 192 * (i + 1)));
        assert(proofs[i] == b.subrange(192 * i, 192 * (i + 1)));
        assert(a.subrange(192 * i, 192 * (i + 1))[j] == a[k]);
        assert(b.subrange(192 * i, 192 * (i + 1))[j] == b[k]);
    }
    assert(a =~= b);
}

} // verus!
