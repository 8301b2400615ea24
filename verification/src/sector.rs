//! The supported sector sizes, and what a vanilla update proof takes from them.
use vstd::arithmetic::logarithm::log;
use vstd::arithmetic::power2::pow2;
use vstd::prelude::*;

use crate::types::PublicParams;

verus! {

/// The sizes in bytes of the sectors that can be updated: 1, 2, 4, 8, 16 and 32 KiB, 8, 16 and
/// 512 MiB, 32 and 64 GiB.
pub open spec fn is_supported_sector_size(sector_bytes: u64) -> bool {
    ||| sector_bytes == 0x400
    ||| sector_bytes == 0x800
    ||| sector_bytes == 0x1000
    ||| sector_bytes == 0x2000
    ||| sector_bytes == 0x4000
    ||| sector_bytes == 0x8000
    ||| sector_bytes == 0x80_0000
    ||| sector_bytes == 0x100_0000
    ||| sector_bytes == 0x2000_0000
    ||| sector_bytes == 0x8_0000_0000
    ||| sector_bytes == 0x10_0000_0000
}

/// The number of partitions of a sector of `nodes` nodes: 1 up to 8 KiB, 2 up to 32 KiB, 4 up to
/// 16 MiB, else 16.
pub open spec fn partition_count(nodes: int) -> int {
    if nodes <= 0x100 {
        1
    } else if nodes <= 0x400 {
        2
    } else if nodes <= 0x8_0000 {
        4
    } else {
        16
    }
}

/// The number of challenges per partition: 10 up to 16 MiB, else 86.
pub open spec fn challenge_count(nodes: int) -> int {
    if nodes <= 0x8_0000 {
        10
    } else {
        86
    }
}

/// The number of apex leafs per partition: 8 up to 8 KiB, else 128.
pub open spec fn apex_leaf_count(nodes: int) -> int {
    if nodes <= 0x100 {
        8
    } else {
        128
    }
}

/// The parameters of a vanilla update proof for a sector of `sector_bytes` bytes. Every bit
/// length is the binary logarithm of the number that it belongs to.
pub open spec fn sector_params(sector_bytes: u64) -> PublicParams {
    let nodes = sector_bytes as int / 32;
    PublicParams {
        sector_nodes: nodes as usize,
        challenge_count: challenge_count(nodes) as usize,
        challenge_bit_len: log(2, nodes) as usize,
        partition_count: partition_count(nodes) as usize,
        partition_bit_len: log(2, partition_count(nodes)) as usize,
        apex_leaf_count: apex_leaf_count(nodes) as usize,
        apex_leaf_bit_len: log(2, apex_leaf_count(nodes)) as usize,
    }
}

/// The parameters of a sector fit together: every count is the power of two that its bit length
/// says, and the partitions with their apex trees make up no more than the tree over the data.
pub proof fn law_sector_params_fit_together(sector_bytes: u64)
    requires
        is_supported_sector_size(sector_bytes),
        sector_bytes <= usize::MAX,
    ensures
        ({
            let params = sector_params(sector_bytes);
            &&& params.sector_nodes * 32 == sector_bytes
            &&& params.sector_nodes == pow2(params.challenge_bit_len as nat)
            &&& params.partition_count == pow2(params.partition_bit_len as nat)
            &&& params.apex_leaf_count == pow2(params.apex_leaf_bit_len as nat)
            &&& params.partition_bit_len + params.apex_leaf_bit_len <= params.challenge_bit_len
        }),
{
    let nodes = sector_bytes as int / 32;
    vstd::arithmetic::power2::lemma2_to64();
    lemma_log2(1, 0);
    lemma_log2(2, 1);
    lemma_log2(4, 2);
    lemma_log2(16, 4);
    lemma_log2(8, 3);
    lemma_log2(128, 7);
    if sector_bytes == 0x400 {
        lemma_log2(nodes, 5);
    } else if sector_bytes == 0x800 {
        lemma_log2(nodes, 6);
    } else if sector_bytes == 0x1000 {
        lemma_log2(nodes, 7);
    } else if sector_bytes == 0x2000 {
        lemma_log2(nodes, 8);
    } else if sector_bytes == 0x4000 {
        lemma_log2(nodes, 9);
    } else if sector_bytes == 0x8000 {
        lemma_log2(nodes, 10);
    } else if sector_bytes == 0x80_0000 {
        lemma_log2(nodes, 18);
    } else if sector_bytes == 0x100_0000 {
        lemma_log2(nodes, 19);
    } else if sector_bytes == 0x2000_0000 {
        lemma_log2(nodes, 24);
    } else if sector_bytes == 0x8_0000_0000 {
        lemma_log2(nodes, 30);
    } else {
        lemma_log2(nodes, 31);
    }
}

/// The binary logarithm of a power of two.
proof fn lemma_log2(n: int, e: nat)
    requires
        n == pow2(e),
    ensures
        log(2, n) == e,
{
    vstd::arithmetic::power::lemma_pow_positive(2, e);
    vstd::arithmetic::logarithm::lemma_log_pow(2, e);
}

} // verus!
