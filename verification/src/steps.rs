//! What each operation asks for and hands to its steps: field by field, in terms of what the
//! operation was given.
use std::path::PathBuf;

use storage_proofs_core::multi_proof::MultiProof;
use vstd::arithmetic::power::pow;
use vstd::arithmetic::power2::{is_pow2, pow2};
use vstd::prelude::*;

use crate::cache::{get_new_configs_from_t_aux_old, get_p_aux, get_t_aux, p_aux_from_read,
    t_aux_from_read, CacheRead};
use crate::data::{decode_from, encode_into, remove_encoded_data, DecodeAwaitingPAux, DecodeCall,
    EncodeAwaitingCommitments, EncodeAwaitingPAux, EncodeAwaitingPieces, EncodeAwaitingTAux,
    EncodeCall, EncodedCommitments, RemoveAwaitingPAux, RemoveCall, VerifyPiecesCall};
use crate::error::UpdateError;
use crate::laws::UpdateStatement;
use crate::outcome::AwaitingOutcome;
use crate::outside::{are_proofs, circuit_proofs_in, t_aux_of, verifying_key_of, VerifyingKey};
use crate::partition::{generate_partition_proofs, generate_single_partition_proof,
    verify_partition_proofs, verify_single_partition_proof, PartitionSettings,
    PartitionsAwaitingVerdict, SingleAwaitingVerdict};
use crate::proving::{ProveAwaitingPAux, ProveAwaitingTAux, ProveCall, VerifyCall};
use crate::sector::law_sector_params_fit_together;
use crate::succinct::{empty_sector_update_proof, generate_empty_sector_update_proof, set_up,
    verify_empty_sector_update_proof, SuccinctAwaitingKey};
use crate::tree_len::{is_tree, law_full_tree_len, law_tree_len_is_bounded,
    law_tree_len_is_row_total, row_total, tree_len};
use crate::types::{Commitment, CompoundParams, EmptySectorUpdateEncoded, EmptySectorUpdateProof,
    PersistentAux, PublicParams, SectorUpdateConfig, SetupParams, StoreConfig, TemporaryAux,
    TreeShape};

verus! {

/// The cache files that are asked for.
pub proof fn law_cache_files_are_in_the_cache(
    cache_path: PathBuf,
    p_aux: CacheRead,
    t_aux: CacheRead,
)
    requires
        call_ensures(get_p_aux, (&cache_path,), p_aux),
        call_ensures(get_t_aux, (&cache_path,), t_aux),
    ensures
        p_aux.dir == cache_path,
        p_aux.name@ == "p_aux"@,
        t_aux.dir == cache_path,
        t_aux.name@ == "t_aux"@,
{
}

/// The roots of a sector are the first two runs of 32 bytes in their file, and fewer bytes are no
/// roots.
pub proof fn law_roots_are_the_first_bytes(
    read: Result<Vec<u8>, anyhow::Error>,
    p_aux: Result<PersistentAux, UpdateError>,
)
    requires
        call_ensures(p_aux_from_read, (read,), p_aux),
    ensures
        match read {
            Err(error) => p_aux matches Err(e) && e == UpdateError::Outside(error),
            Ok(bytes) => if bytes@.len() < 64 {
                p_aux matches Err(UpdateError::MalformedPAux(_))
            } else {
                &&& p_aux matches Ok(p_aux)
                &&& forall|i: int| 0 <= i < 32 ==> p_aux.comm_c@[i] == bytes@[i]
                &&& forall|i: int| 0 <= i < 32 ==> p_aux.comm_r_last@[i] == bytes@[32 + i]
            },
        },
{
    if let (Ok(bytes), Ok(p_aux)) = (read, p_aux) {
        assert(p_aux.comm_c@ == bytes@.subrange(0, 32));
        assert(p_aux.comm_r_last@ == bytes@.subrange(32, 64));
    }
}

/// Every place in a file comes back as it was stored.
pub proof fn law_places_come_back_as_stored(
    read: Result<Vec<u8>, anyhow::Error>,
    t_aux: Result<TemporaryAux, UpdateError>,
)
    requires
        call_ensures(t_aux_from_read, (read,), t_aux),
    ensures
        match read {
            Err(error) => t_aux matches Err(e) && e == UpdateError::Outside(error),
            Ok(bytes) => match t_aux_of(bytes@, usize::BITS) {
                None => t_aux matches Err(UpdateError::MalformedTAux(_)),
                Some(stored) => {
                    &&& t_aux matches Ok(t_aux)
                    &&& t_aux.tree_d_config.path@ == stored.tree_d_config.path
                    &&& t_aux.tree_d_config.id@ == stored.tree_d_config.id
                    &&& t_aux.tree_d_config.size == stored.tree_d_config.size
                    &&& t_aux.tree_d_config.rows_to_discard
                        == stored.tree_d_config.rows_to_discard
                    &&& t_aux.tree_r_last_config.path@ == stored.tree_r_last_config.path
                    &&& t_aux.tree_r_last_config.id@ == stored.tree_r_last_config.id
                    &&& t_aux.tree_r_last_config.size == stored.tree_r_last_config.size
                    &&& t_aux.tree_r_last_config.rows_to_discard
                        == stored.tree_r_last_config.rows_to_discard
                    &&& t_aux.tree_c_config.path@ == stored.tree_c_config.path
                    &&& t_aux.tree_c_config.id@ == stored.tree_c_config.id
                    &&& t_aux.tree_c_config.size == stored.tree_c_config.size
                    &&& t_aux.tree_c_config.rows_to_discard
                        == stored.tree_c_config.rows_to_discard
                    &&& t_aux.labels@.len() == stored.labels.len()
                    &&& forall|i: int|
                        #![trigger t_aux.labels@[i]]
                        0 <= i < stored.labels.len() ==> {
                            &&& t_aux.labels@[i].path@ == stored.labels[i].path
                            &&& t_aux.labels@[i].id@ == stored.labels[i].id
                            &&& t_aux.labels@[i].size == stored.labels[i].size
                            &&& t_aux.labels@[i].rows_to_discard
                                == stored.labels[i].rows_to_discard
                        }
                },
            },
        },
{
    if let (Ok(bytes), Ok(t_aux)) = (read, t_aux) {
        assert(t_aux_of(bytes@, usize::BITS) == Some(t_aux@));
        assert forall|i: int| 0 <= i < t_aux.labels@.len() implies t_aux@.labels[i]
            == #[trigger] t_aux.labels@[i]@ by {}
    }
}

/// The base trees of a shape are as many as its top level has sub-trees, times those that each
/// sub-tree joins; a level that is not there joins one.
pub proof fn law_base_trees_are_counted(shape: TreeShape, count: usize)
    requires
        shape.top_tree_arity > 0 ==> shape.sub_tree_arity > 0,
        shape.top_tree_arity * shape.sub_tree_arity <= usize::MAX,
        call_ensures(TreeShape::get_base_tree_count, (&shape,), count),
    ensures
        call_requires(TreeShape::get_base_tree_count, (&shape,)),
        count == (if shape.top_tree_arity == 0 {
            1
        } else {
            shape.top_tree_arity as int
        }) * (if shape.sub_tree_arity == 0 {
            1
        } else {
            shape.sub_tree_arity as int
        }),
        count > 0,
{
    lemma_shares(0, shape);
}

/// What a shape says of `nodes` nodes.
proof fn lemma_shares(nodes: usize, shape: TreeShape)
    requires
        shape.top_tree_arity > 0 ==> shape.sub_tree_arity > 0,
        shape.top_tree_arity * shape.sub_tree_arity <= usize::MAX,
    ensures
        ({
            let nodes = nodes as int;
            let count = (if shape.top_tree_arity == 0 {
                1
            } else {
                shape.top_tree_arity as int
            }) * (if shape.sub_tree_arity == 0 {
                1
            } else {
                shape.sub_tree_arity as int
            });
            let leafs = nodes / count;
            &&& count > 0
            &&& count == shape.base_tree_count()
            &&& shape.valid()
            &&& 0 <= leafs <= nodes
            &&& leafs * count <= nodes < leafs * count + count
        }),
{
    let top = if shape.top_tree_arity == 0 {
        1
    } else {
        shape.top_tree_arity as int
    };
    let sub = if shape.sub_tree_arity == 0 {
        1
    } else {
        shape.sub_tree_arity as int
    };
    let count = top * sub;
    assert(count > 0) by (nonlinear_arith)
        requires
            top > 0,
            sub > 0,
            count == top * sub,
    ;
    let n = nodes as int;
    let leafs = n / count;
    assert(0 <= leafs <= n && leafs * count <= n < leafs * count + count) by (nonlinear_arith)
        requires
            count > 0,
            n >= 0,
            leafs == n / count,
    ;
}

/// What the size of a tree comes to.
proof fn lemma_tree_size(leafs: nat, branches: nat)
    requires
        2 * leafs <= usize::MAX,
    ensures
        is_pow2(2),
        is_tree(leafs, branches) ==> {
            &&& tree_len(leafs, branches) == row_total(leafs, branches)
            &&& leafs <= tree_len(leafs, branches) <= usize::MAX
        },
{
    reveal_with_fuel(is_pow2, 3);
    if is_tree(leafs, branches) {
        law_tree_len_is_row_total(leafs, branches);
        law_tree_len_is_bounded(leafs, branches);
    }
}

/// The trees of a sector, for the laws below.
proof fn lemma_trees(nodes: usize, shape: TreeShape)
    requires
        nodes <= usize::MAX / 2,
        shape.top_tree_arity > 0 ==> shape.sub_tree_arity > 0,
        shape.top_tree_arity * shape.sub_tree_arity <= usize::MAX,
    ensures
        ({
            let nodes = nodes as int;
            let count = (if shape.top_tree_arity == 0 {
                1
            } else {
                shape.top_tree_arity as int
            }) * (if shape.sub_tree_arity == 0 {
                1
            } else {
                shape.sub_tree_arity as int
            });
            let leafs = nodes / count;
            &&& count > 0
            &&& count == shape.base_tree_count()
            &&& shape.valid()
            &&& 0 <= leafs <= nodes
            &&& leafs * count <= nodes < leafs * count + count
            &&& is_tree(nodes as nat, 2) <==> nodes >= 2 && is_pow2(nodes)
            &&& is_tree(leafs as nat, shape.arity as nat) ==> {
                &&& tree_len(leafs as nat, shape.arity as nat) == row_total(
                    leafs as nat,
                    shape.arity as nat,
                )
                &&& leafs <= tree_len(leafs as nat, shape.arity as nat) <= usize::MAX
            }
        }),
{
    lemma_shares(nodes, shape);
    let count = shape.base_tree_count();
    lemma_tree_size(nodes as nat, 2);
    lemma_tree_size((nodes as int / count) as nat, shape.arity as nat);
}

/// The base trees over a replica share the nodes of the sector. Where there are such trees, each
/// has its share as leafs, and the rows above them; the tree over the data has every node as a
/// leaf. Both go to the new cache, under their own names, and keep the rows that the sector's own
/// trees discard.
pub proof fn law_base_trees_share_the_nodes(
    t_aux_old: TemporaryAux,
    new_cache_path: PathBuf,
    nodes_count: usize,
    shape: TreeShape,
    configs: Result<(StoreConfig, StoreConfig), UpdateError>,
)
    requires
        nodes_count <= usize::MAX / 2,
        shape.top_tree_arity > 0 ==> shape.sub_tree_arity > 0,
        shape.top_tree_arity * shape.sub_tree_arity <= usize::MAX,
        call_ensures(
            get_new_configs_from_t_aux_old,
            (&t_aux_old, &new_cache_path, nodes_count, &shape),
            configs,
        ),
    ensures
        call_requires(
            get_new_configs_from_t_aux_old,
            (&t_aux_old, &new_cache_path, nodes_count, &shape),
        ),
        ({
            let nodes = nodes_count as int;
            let count = (if shape.top_tree_arity == 0 {
                1
            } else {
                shape.top_tree_arity as int
            }) * (if shape.sub_tree_arity == 0 {
                1
            } else {
                shape.sub_tree_arity as int
            });
            let leafs = nodes / count;
            let arity = shape.arity as int;
            &&& leafs * count <= nodes < leafs * count + count
            &&& nodes % count == 0 ==> leafs * count == nodes
            &&& if nodes < 2 || !is_pow2(nodes) {
                configs matches Err(UpdateError::TreeDLen(_))
            } else if leafs < arity || !is_pow2(arity) || (arity == 2 && !is_pow2(leafs)) {
                configs matches Err(UpdateError::TreeRLastLen(_))
            } else {
                &&& configs matches Ok((d, r))
                &&& d.path == new_cache_path
                &&& d.id@ == "tree-d"@
                &&& d.size matches Some(size) && size == 2 * nodes - 1
                &&& d.rows_to_discard == t_aux_old.tree_d_config.rows_to_discard
                &&& r.path == new_cache_path
                &&& r.id@ == "tree-r-last"@
                &&& r.size matches Some(size) && size == row_total(
                    leafs as nat,
                    arity as nat,
                )
                &&& r.rows_to_discard == t_aux_old.tree_r_last_config.rows_to_discard
                &&& r.size matches Some(size) && leafs <= size < 2 * leafs
                &&& arity == 1 ==> r.size == Some(leafs as usize)
                &&& arity >= 2 && leafs < arity * arity ==> (r.size matches Some(size) && size
                    == leafs + leafs / arity)
            }
        }),
{
    lemma_trees(nodes_count, shape);
    let count = shape.base_tree_count();
    let n = nodes_count as int;
    let leafs = n / count;
    let arity = shape.arity as int;
    vstd::arithmetic::div_mod::lemma_fundamental_div_mod(n, count);
    assert(leafs * count == count * leafs) by (nonlinear_arith);
    if is_tree(leafs as nat, arity as nat) {
        law_tree_len_is_bounded(leafs as nat, arity as nat);
        if arity >= 2 && leafs < arity * arity {
            lemma_two_rows(leafs as nat, arity as nat);
        }
    }
}

/// A tree with few leafs has two rows.
proof fn lemma_two_rows(leafs: nat, branches: nat)
    requires
        2 <= branches <= leafs < branches * branches,
    ensures
        row_total(leafs, branches) == leafs + leafs / branches,
{
    let above = leafs / branches;
    assert(0 < above < branches) by (nonlinear_arith)
        requires
            above == leafs / branches,
            2 <= branches <= leafs < branches * branches,
    ;
    assert(above / branches == 0) by (nonlinear_arith)
        requires
            0 < above < branches,
    ;
    assert(row_total(0, branches) == 0);
    assert(row_total(above, branches) == above + row_total(above / branches, branches));
    assert(row_total(leafs, branches) == leafs + row_total(above, branches));
}

/// The tree over a replica is its leafs and, above them, the tree that has a leaf for each full
/// group of them: so the sizes of two sectors' trees are related, whose base trees have the leafs
/// of two rows that follow each other.
pub proof fn law_replica_trees_grow_by_rows(
    t_aux: TemporaryAux,
    cache_path: PathBuf,
    nodes: usize,
    nodes_above: usize,
    shape: TreeShape,
    trees: (StoreConfig, StoreConfig),
    trees_above: (StoreConfig, StoreConfig),
)
    requires
        nodes <= usize::MAX / 2,
        shape.top_tree_arity > 0 ==> shape.sub_tree_arity > 0,
        shape.top_tree_arity * shape.sub_tree_arity <= usize::MAX,
        nodes_above <= nodes,
        shape.arity >= 2,
        call_ensures(
            get_new_configs_from_t_aux_old,
            (&t_aux, &cache_path, nodes, &shape),
            Ok::<(StoreConfig, StoreConfig), UpdateError>(trees),
        ),
        call_ensures(
            get_new_configs_from_t_aux_old,
            (&t_aux, &cache_path, nodes_above, &shape),
            Ok::<(StoreConfig, StoreConfig), UpdateError>(trees_above),
        ),
        nodes_above == nodes / shape.arity,
    ensures
        ({
            let nodes = nodes as int;
            let count = (if shape.top_tree_arity == 0 {
                1
            } else {
                shape.top_tree_arity as int
            }) * (if shape.sub_tree_arity == 0 {
                1
            } else {
                shape.sub_tree_arity as int
            });
            let leafs = nodes / count;
            &&& trees.1.size matches Some(size)
            &&& trees_above.1.size matches Some(size_above)
            &&& size == leafs + size_above
        }),
{
    lemma_trees(nodes, shape);
    lemma_trees(nodes_above, shape);
    let count = shape.base_tree_count();
    let n = nodes as int;
    let arity = shape.arity as int;
    vstd::arithmetic::div_mod::lemma_div_denominator(n, arity, count);
    vstd::arithmetic::div_mod::lemma_div_denominator(n, count, arity);
    assert(arity * count == count * arity) by (nonlinear_arith);
    let leafs = (n / count) as nat;
    assert((n / arity) / count == (n / count) / arity);
    assert(row_total(leafs, arity as nat) == leafs + row_total(
        leafs / (arity as nat),
        arity as nat,
    ));
}

/// A full tree over a replica has the nodes of the geometric sum of its rows.
pub proof fn law_full_replica_trees(
    t_aux: TemporaryAux,
    cache_path: PathBuf,
    nodes: usize,
    shape: TreeShape,
    height: nat,
    trees: (StoreConfig, StoreConfig),
)
    requires
        nodes <= usize::MAX / 2,
        shape.top_tree_arity > 0 ==> shape.sub_tree_arity > 0,
        shape.top_tree_arity * shape.sub_tree_arity <= usize::MAX,
        shape.arity >= 2,
        nodes == pow(shape.arity as int, height) * (if shape.top_tree_arity == 0 {
            1
        } else {
            shape.top_tree_arity as int
        }) * (if shape.sub_tree_arity == 0 {
            1
        } else {
            shape.sub_tree_arity as int
        }),
        call_ensures(
            get_new_configs_from_t_aux_old,
            (&t_aux, &cache_path, nodes, &shape),
            Ok::<(StoreConfig, StoreConfig), UpdateError>(trees),
        ),
    ensures
        trees.1.size matches Some(size) && (shape.arity - 1) * size == shape.arity * pow(
            shape.arity as int,
            height,
        ) - 1,
{
    lemma_trees(nodes, shape);
    let count = shape.base_tree_count();
    let leafs = pow(shape.arity as int, height);
    let top = if shape.top_tree_arity == 0 {
        1
    } else {
        shape.top_tree_arity as int
    };
    let sub = if shape.sub_tree_arity == 0 {
        1
    } else {
        shape.sub_tree_arity as int
    };
    assert(leafs * top * sub == count * leafs) by (nonlinear_arith)
        requires
            count == top * sub,
    ;
    vstd::arithmetic::div_mod::lemma_div_multiples_vanish(leafs, count);
    assert(nodes as int / count == leafs);
    law_full_tree_len(shape.arity as nat, height);
}

/// An encoding first asks for the roots, then for the tree places, both in the cache of the sector
/// key.
pub proof fn law_encoding_reads_the_cache_of_the_sector_key<P>(
    config: SectorUpdateConfig,
    shape: TreeShape,
    new_replica_path: PathBuf,
    new_cache_path: PathBuf,
    sector_key_path: PathBuf,
    sector_key_cache_path: PathBuf,
    staged_data_path: PathBuf,
    pieces: P,
    start: (EncodeAwaitingPAux<P>, CacheRead),
    read: Result<Vec<u8>, anyhow::Error>,
    next: Result<(EncodeAwaitingTAux<P>, CacheRead), UpdateError>,
)
    requires
        config.nodes_count <= usize::MAX / 2,
        shape.top_tree_arity > 0 ==> shape.sub_tree_arity > 0,
        shape.top_tree_arity * shape.sub_tree_arity <= usize::MAX,
        call_ensures(
            encode_into::<P>,
            (
                config,
                shape,
                &new_replica_path,
                &new_cache_path,
                &sector_key_path,
                &sector_key_cache_path,
                &staged_data_path,
                pieces,
            ),
            start,
        ),
        call_ensures(EncodeAwaitingPAux::<P>::p_aux_read, (start.0, read), next),
    ensures
        call_requires(
            encode_into::<P>,
            (
                config,
                shape,
                &new_replica_path,
                &new_cache_path,
                &sector_key_path,
                &sector_key_cache_path,
                &staged_data_path,
                pieces,
            ),
        ),
        start.1.dir == sector_key_cache_path,
        start.1.name@ == "p_aux"@,
        match read {
            Err(error) => next matches Err(e) && e == UpdateError::Outside(error),
            Ok(bytes) => if bytes@.len() < 64 {
                next matches Err(UpdateError::MalformedPAux(_))
            } else {
                &&& next matches Ok((_, read))
                &&& read.dir == sector_key_cache_path
                &&& read.name@ == "t_aux"@
            },
        },
{
    lemma_shares(config.nodes_count, shape);
}

/// The encoding step is given the nodes and the high bits of the configuration, the roots in the
/// file, the paths of the request, and the places of trees over the nodes of the sector.
pub proof fn law_encoding_step_is_given_the_sector<P>(
    config: SectorUpdateConfig,
    shape: TreeShape,
    new_replica_path: PathBuf,
    new_cache_path: PathBuf,
    sector_key_path: PathBuf,
    sector_key_cache_path: PathBuf,
    staged_data_path: PathBuf,
    pieces: P,
    start: (EncodeAwaitingPAux<P>, CacheRead),
    p_aux_file: Vec<u8>,
    middle: (EncodeAwaitingTAux<P>, CacheRead),
    read: Result<Vec<u8>, anyhow::Error>,
    t_aux: Result<TemporaryAux, UpdateError>,
    next: Result<(EncodeAwaitingCommitments<P>, EncodeCall), UpdateError>,
)
    requires
        config.nodes_count <= usize::MAX / 2,
        shape.top_tree_arity > 0 ==> shape.sub_tree_arity > 0,
        shape.top_tree_arity * shape.sub_tree_arity <= usize::MAX,
        call_ensures(
            encode_into::<P>,
            (
                config,
                shape,
                &new_replica_path,
                &new_cache_path,
                &sector_key_path,
                &sector_key_cache_path,
                &staged_data_path,
                pieces,
            ),
            start,
        ),
        call_ensures(
            EncodeAwaitingPAux::<P>::p_aux_read,
            (start.0, Ok::<Vec<u8>, anyhow::Error>(p_aux_file)),
            Ok::<(EncodeAwaitingTAux<P>, CacheRead), UpdateError>(middle),
        ),
        call_ensures(t_aux_from_read, (read,), t_aux),
        call_ensures(EncodeAwaitingTAux::<P>::t_aux_read, (middle.0, read), next),
    ensures
        match read {
            Err(error) => next matches Err(e) && e == UpdateError::Outside(error),
            Ok(_) => match t_aux {
                Err(_) => next matches Err(UpdateError::MalformedTAux(_)),
                Ok(t_aux) => {
                    let nodes = config.nodes_count as int;
                    let count = (if shape.top_tree_arity == 0 {
                        1
                    } else {
                        shape.top_tree_arity as int
                    }) * (if shape.sub_tree_arity == 0 {
                        1
                    } else {
                        shape.sub_tree_arity as int
                    });
                    let leafs = nodes / count;
                    let arity = shape.arity as int;
                    if nodes < 2 || !is_pow2(nodes) {
                        next matches Err(UpdateError::TreeDLen(_))
                    } else if leafs < arity || !is_pow2(arity) || arity == 2 && !is_pow2(leafs) {
                        next matches Err(UpdateError::TreeRLastLen(_))
                    } else {
                        match next {
                            Err(_) => false,
                            Ok((_, call)) => {
                                let d = call.tree_d_new_config;
                                let r = call.tree_r_last_new_config;
                                &&& call.nodes_count == config.nodes_count
                                &&& call.h == config.h_select
                                &&& call.comm_c@ == p_aux_file@.subrange(0, 32)
                                &&& call.comm_r_last@ == p_aux_file@.subrange(32, 64)
                                &&& call.new_replica_path == new_replica_path
                                &&& call.new_cache_path == new_cache_path
                                &&& call.sector_key_path == sector_key_path
                                &&& call.sector_key_cache_path == sector_key_cache_path
                                &&& call.staged_data_path == staged_data_path
                                &&& d.path == new_cache_path
                                &&& d.id@ == "tree-d"@
                                &&& d.size matches Some(size) && size == 2 * nodes - 1
                                &&& d.rows_to_discard == t_aux.tree_d_config.rows_to_discard
                                &&& r.path == new_cache_path
                                &&& r.id@ == "tree-r-last"@
                                &&& r.size matches Some(size) && size == row_total(
                                    leafs as nat,
                                    arity as nat,
                                )
                                &&& r.rows_to_discard == t_aux.tree_r_last_config.rows_to_discard
                            },
                        }
                    }
                },
            },
        },
{
    lemma_trees(config.nodes_count, shape);
}

/// The piece check is given the commitment to what was encoded, and the pieces and the sector size
/// of the request. The encoding ends with the commitments that the encoding step gave, if each of
/// them has a byte that is not zero and the pieces match; else with the first of these that fails.
pub proof fn law_encoding_ends_with_its_commitments<P>(
    config: SectorUpdateConfig,
    shape: TreeShape,
    new_replica_path: PathBuf,
    new_cache_path: PathBuf,
    sector_key_path: PathBuf,
    sector_key_cache_path: PathBuf,
    staged_data_path: PathBuf,
    pieces: P,
    start: (EncodeAwaitingPAux<P>, CacheRead),
    p_aux_file: Vec<u8>,
    middle: (EncodeAwaitingTAux<P>, CacheRead),
    t_aux_file: Vec<u8>,
    end: (EncodeAwaitingCommitments<P>, EncodeCall),
    outcome: Result<EncodedCommitments, anyhow::Error>,
    checked: Result<(EncodeAwaitingPieces, VerifyPiecesCall<P>), UpdateError>,
    pieces_match: Result<bool, anyhow::Error>,
    result: Result<EmptySectorUpdateEncoded, UpdateError>,
)
    requires
        call_ensures(
            encode_into::<P>,
            (
                config,
                shape,
                &new_replica_path,
                &new_cache_path,
                &sector_key_path,
                &sector_key_cache_path,
                &staged_data_path,
                pieces,
            ),
            start,
        ),
        call_ensures(
            EncodeAwaitingPAux::<P>::p_aux_read,
            (start.0, Ok::<Vec<u8>, anyhow::Error>(p_aux_file)),
            Ok::<(EncodeAwaitingTAux<P>, CacheRead), UpdateError>(middle),
        ),
        call_ensures(
            EncodeAwaitingTAux::<P>::t_aux_read,
            (middle.0, Ok::<Vec<u8>, anyhow::Error>(t_aux_file)),
            Ok::<(EncodeAwaitingCommitments<P>, EncodeCall), UpdateError>(end),
        ),
        call_ensures(EncodeAwaitingCommitments::<P>::encoded, (end.0, outcome), checked),
        checked matches Ok((stage, _)) ==> call_ensures(
            EncodeAwaitingPieces::pieces_verified,
            (stage, pieces_match),
            result,
        ),
        checked matches Err(error) ==> result == Err::<EmptySectorUpdateEncoded, UpdateError>(
            error,
        ),
    ensures
        checked matches Ok((_, call)) ==> {
            &&& outcome matches Ok(commitments)
            &&& call.comm_d == commitments.comm_d
            &&& call.pieces == pieces
            &&& call.sector_size == config.sector_size
        },
        match outcome {
            Err(error) => result matches Err(e) && e == UpdateError::Outside(error),
            Ok(commitments) => {
                if !(exists|i: int| 0 <= i < 32 && commitments.comm_d@[i] != 0) {
                    result matches Err(UpdateError::ZeroCommD)
                } else if !(exists|i: int| 0 <= i < 32 && commitments.comm_r@[i] != 0) {
                    result matches Err(UpdateError::ZeroCommR)
                } else if !(exists|i: int| 0 <= i < 32 && commitments.comm_r_last@[i] != 0) {
                    result matches Err(UpdateError::ZeroCommRLast)
                } else {
                    match pieces_match {
                        Err(error) => result matches Err(e) && e == UpdateError::Outside(error),
                        Ok(false) => result matches Err(UpdateError::PiecesMismatch),
                        Ok(true) => {
                            &&& result matches Ok(encoded)
                            &&& encoded.comm_r_new == commitments.comm_r
                            &&& encoded.comm_r_last_new == commitments.comm_r_last
                            &&& encoded.comm_d_new == commitments.comm_d
                        },
                    }
                }
            },
        },
{
}

/// A decoding reads the roots in the cache of the sector key, and its step is given the nodes and
/// the high bits of the configuration, these roots, and the paths and the commitment of the
/// request.
pub proof fn law_decoding_step_is_given_the_sector(
    config: SectorUpdateConfig,
    out_data_path: PathBuf,
    replica_path: PathBuf,
    sector_key_path: PathBuf,
    sector_key_cache_path: PathBuf,
    comm_d_new: Commitment,
    start: (DecodeAwaitingPAux, CacheRead),
    read: Result<Vec<u8>, anyhow::Error>,
    next: Result<(AwaitingOutcome, DecodeCall), UpdateError>,
)
    requires
        call_ensures(
            decode_from,
            (
                config,
                &out_data_path,
                &replica_path,
                &sector_key_path,
                &sector_key_cache_path,
                comm_d_new,
            ),
            start,
        ),
        call_ensures(DecodeAwaitingPAux::p_aux_read, (start.0, read), next),
    ensures
        call_requires(
            decode_from,
            (
                config,
                &out_data_path,
                &replica_path,
                &sector_key_path,
                &sector_key_cache_path,
                comm_d_new,
            ),
        ),
        start.1.dir == sector_key_cache_path,
        start.1.name@ == "p_aux"@,
        match read {
            Err(error) => next matches Err(e) && e == UpdateError::Outside(error),
            Ok(bytes) => if bytes@.len() < 64 {
                next matches Err(UpdateError::MalformedPAux(_))
            } else {
                &&& next matches Ok((_, call))
                &&& call.nodes_count == config.nodes_count
                &&& call.h == config.h_select
                &&& call.comm_c@ == bytes@.subrange(0, 32)
                &&& call.comm_r_last@ == bytes@.subrange(32, 64)
                &&& call.out_data_path == out_data_path
                &&& call.replica_path == replica_path
                &&& call.sector_key_path == sector_key_path
                &&& call.sector_key_cache_path == sector_key_cache_path
                &&& call.comm_d_new == comm_d_new
            },
        },
{
}

/// A removal reads the roots in the cache of the replica, and its step is given the nodes and the
/// high bits of the configuration, these roots, and the paths and the commitment of the request.
pub proof fn law_removal_step_is_given_the_sector(
    config: SectorUpdateConfig,
    sector_key_path: PathBuf,
    sector_key_cache_path: PathBuf,
    replica_path: PathBuf,
    replica_cache_path: PathBuf,
    data_path: PathBuf,
    comm_d_new: Commitment,
    start: (RemoveAwaitingPAux, CacheRead),
    read: Result<Vec<u8>, anyhow::Error>,
    next: Result<(AwaitingOutcome, RemoveCall), UpdateError>,
)
    requires
        call_ensures(
            remove_encoded_data,
            (
                config,
                &sector_key_path,
                &sector_key_cache_path,
                &replica_path,
                &replica_cache_path,
                &data_path,
                comm_d_new,
            ),
            start,
        ),
        call_ensures(RemoveAwaitingPAux::p_aux_read, (start.0, read), next),
    ensures
        call_requires(
            remove_encoded_data,
            (
                config,
                &sector_key_path,
                &sector_key_cache_path,
                &replica_path,
                &replica_cache_path,
                &data_path,
                comm_d_new,
            ),
        ),
        start.1.dir == replica_cache_path,
        start.1.name@ == "p_aux"@,
        match read {
            Err(error) => next matches Err(e) && e == UpdateError::Outside(error),
            Ok(bytes) => if bytes@.len() < 64 {
                next matches Err(UpdateError::MalformedPAux(_))
            } else {
                &&& next matches Ok((_, call))
                &&& call.nodes_count == config.nodes_count
                &&& call.h == config.h_select
                &&& call.comm_c@ == bytes@.subrange(0, 32)
                &&& call.comm_r_last@ == bytes@.subrange(32, 64)
                &&& call.sector_key_path == sector_key_path
                &&& call.sector_key_cache_path == sector_key_cache_path
                &&& call.replica_path == replica_path
                &&& call.replica_cache_path == replica_cache_path
                &&& call.data_path == data_path
                &&& call.comm_d_new == comm_d_new
            },
        },
{
}

/// The tree over a sector key that a removal makes goes to the cache of the key, and keeps the rows
/// that the tree in the cache of the replica discards.
pub proof fn law_removal_places_the_tree_over_the_sector_key(
    call: RemoveCall,
    shape: TreeShape,
    request: CacheRead,
    read: Result<Vec<u8>, anyhow::Error>,
    t_aux: Result<TemporaryAux, UpdateError>,
    config: Result<StoreConfig, UpdateError>,
)
    requires
        call.nodes_count <= usize::MAX / 2,
        shape.top_tree_arity > 0 ==> shape.sub_tree_arity > 0,
        shape.top_tree_arity * shape.sub_tree_arity <= usize::MAX,
        call_ensures(RemoveCall::t_aux_request, (&call,), request),
        call_ensures(t_aux_from_read, (read,), t_aux),
        call_ensures(RemoveCall::tree_r_last_config, (&call, &shape, read), config),
    ensures
        call_requires(RemoveCall::tree_r_last_config, (&call, &shape, read)),
        request.dir == call.replica_cache_path,
        request.name@ == "t_aux"@,
        match read {
            Err(error) => config matches Err(e) && e == UpdateError::Outside(error),
            Ok(_) => match t_aux {
                Err(_) => config matches Err(UpdateError::MalformedTAux(_)),
                Ok(t_aux) => {
                    let nodes = call.nodes_count as int;
                    let count = (if shape.top_tree_arity == 0 {
                        1
                    } else {
                        shape.top_tree_arity as int
                    }) * (if shape.sub_tree_arity == 0 {
                        1
                    } else {
                        shape.sub_tree_arity as int
                    });
                    let leafs = nodes / count;
                    let arity = shape.arity as int;
                    if nodes < 2 || !is_pow2(nodes) {
                        config matches Err(UpdateError::TreeDLen(_))
                    } else if leafs < arity || !is_pow2(arity) || arity == 2 && !is_pow2(leafs) {
                        config matches Err(UpdateError::TreeRLastLen(_))
                    } else {
                        &&& config matches Ok(config)
                        &&& config.path == call.sector_key_cache_path
                        &&& config.id@ == "tree-r-last"@
                        &&& config.size matches Some(size) && size == row_total(
                            leafs as nat,
                            arity as nat,
                        )
                        &&& config.rows_to_discard == t_aux.tree_r_last_config.rows_to_discard
                    }
                },
            },
        },
{
    lemma_trees(call.nodes_count, shape);
}

/// The proving step of one partition is given the commitments and the high bits of the
/// request, the root in the file, the sector's own replica tree as its file records it, and the
/// places of trees over the nodes of the sector in the cache of the replica.
pub proof fn law_single_prover_is_given_the_update(
    statement: UpdateStatement,
    started: Result<(ProveAwaitingPAux<PublicParams>, CacheRead), UpdateError>,
    start: (ProveAwaitingPAux<PublicParams>, CacheRead),
    p_aux_file: Vec<u8>,
    middle: (ProveAwaitingTAux<PublicParams>, CacheRead),
    read: Result<Vec<u8>, anyhow::Error>,
    t_aux: Result<TemporaryAux, UpdateError>,
    next: Result<(AwaitingOutcome, ProveCall<PublicParams>), UpdateError>,
)
    requires
        ({
            ||| statement.config.sector_size == 0x400
            ||| statement.config.sector_size == 0x800
            ||| statement.config.sector_size == 0x1000
            ||| statement.config.sector_size == 0x2000
            ||| statement.config.sector_size == 0x4000
            ||| statement.config.sector_size == 0x8000
            ||| statement.config.sector_size == 0x80_0000
            ||| statement.config.sector_size == 0x100_0000
            ||| statement.config.sector_size == 0x2000_0000
            ||| statement.config.sector_size == 0x8_0000_0000
            ||| statement.config.sector_size == 0x10_0000_0000
        }),
        statement.config.sector_size <= usize::MAX,
        statement.config.nodes_count <= usize::MAX / 2,
        statement.shape.top_tree_arity > 0 ==> statement.shape.sub_tree_arity > 0,
        statement.shape.top_tree_arity * statement.shape.sub_tree_arity <= usize::MAX,
        call_ensures(
            generate_single_partition_proof,
            (
                statement.config,
                statement.shape,
                statement.comm_r_old,
                statement.comm_r_new,
                statement.comm_d_new,
                &statement.sector_key_path,
                &statement.sector_key_cache_path,
                &statement.replica_path,
                &statement.replica_cache_path,
            ),
            started,
        ),
        started matches Ok(stage) ==> start == stage,
        call_ensures(
            ProveAwaitingPAux::<PublicParams>::p_aux_read,
            (start.0, Ok::<Vec<u8>, anyhow::Error>(p_aux_file)),
            Ok::<(ProveAwaitingTAux<PublicParams>, CacheRead), UpdateError>(middle),
        ),
        call_ensures(t_aux_from_read, (read,), t_aux),
        call_ensures(ProveAwaitingTAux::<PublicParams>::t_aux_read, (middle.0, read), next),
    ensures
        call_requires(
            generate_single_partition_proof,
            (
                statement.config,
                statement.shape,
                statement.comm_r_old,
                statement.comm_r_new,
                statement.comm_d_new,
                &statement.sector_key_path,
                &statement.sector_key_cache_path,
                &statement.replica_path,
                &statement.replica_cache_path,
            ),
        ),
        started is Ok,
        start.1.dir == statement.sector_key_cache_path,
        start.1.name@ == "p_aux"@,
        p_aux_file@.len() >= 64,
        middle.1.dir == statement.sector_key_cache_path,
        middle.1.name@ == "t_aux"@,
        match read {
            Err(error) => next matches Err(e) && e == UpdateError::Outside(error),
            Ok(_) => match t_aux {
                Err(_) => next matches Err(UpdateError::MalformedTAux(_)),
                Ok(t_aux) => {
                    let nodes = statement.config.nodes_count as int;
                    let count = (if statement.shape.top_tree_arity == 0 {
                        1
                    } else {
                        statement.shape.top_tree_arity as int
                    }) * (if statement.shape.sub_tree_arity == 0 {
                        1
                    } else {
                        statement.shape.sub_tree_arity as int
                    });
                    let leafs = nodes / count;
                    let arity = statement.shape.arity as int;
                    if nodes < 2 || !is_pow2(nodes) {
                        next matches Err(UpdateError::TreeDLen(_))
                    } else if leafs < arity || !is_pow2(arity) || arity == 2 && !is_pow2(leafs) {
                        next matches Err(UpdateError::TreeRLastLen(_))
                    } else {
                        match next {
                            Err(_) => false,
                            Ok((_, call)) => {
                                let public = call.public_inputs;
                                let private = call.private_inputs;
                                let old = private.tree_r_old_config;
                                let d = private.tree_d_new_config;
                                let r = private.tree_r_new_config;
                                let params = call.settings;
                                let size_in_bytes = statement.config.sector_size;
                                &&& public.k == 0
                                &&& public.h == statement.config.h_select
                                &&& public.comm_r_old@ == statement.comm_r_old@
                                &&& public.comm_r_new@ == statement.comm_r_new@
                                &&& public.comm_d_new@ == statement.comm_d_new@
                                &&& private.comm_c@ == p_aux_file@.subrange(0, 32)
                                &&& old.path@ == t_aux.tree_r_last_config.path@
                                &&& old.id@ == t_aux.tree_r_last_config.id@
                                &&& old.size == t_aux.tree_r_last_config.size
                                &&& old.rows_to_discard
                                    == t_aux.tree_r_last_config.rows_to_discard
                                &&& private.old_replica_path == statement.sector_key_path
                                &&& private.replica_path == statement.replica_path
                                &&& d.path == statement.replica_cache_path
                                &&& d.id@ == "tree-d"@
                                &&& d.size matches Some(size) && size == 2 * nodes - 1
                                &&& d.rows_to_discard == t_aux.tree_d_config.rows_to_discard
                                &&& r.path == statement.replica_cache_path
                                &&& r.id@ == "tree-r-last"@
                                &&& r.size matches Some(size) && size == row_total(
                                    leafs as nat,
                                    arity as nat,
                                )
                                &&& r.rows_to_discard == t_aux.tree_r_last_config.rows_to_discard
                                &&& params.sector_nodes * 32 == size_in_bytes
                                &&& params.sector_nodes == pow2(params.challenge_bit_len as nat)
                                &&& params.partition_count == pow2(params.partition_bit_len as nat)
                                &&& params.apex_leaf_count == pow2(params.apex_leaf_bit_len as nat)
                                &&& params.challenge_count == (if size_in_bytes <= 0x100_0000 {
                                    10int
                                } else {
                                    86int
                                })
                                &&& params.apex_leaf_count == (if size_in_bytes <= 0x2000 {
                                    8int
                                } else {
                                    128int
                                })
                                &&& params.partition_count == (if size_in_bytes <= 0x2000 {
                                    1int
                                } else if size_in_bytes <= 0x8000 {
                                    2
                                } else if size_in_bytes <= 0x100_0000 {
                                    4
                                } else {
                                    16
                                })
                            },
                        }
                    }
                },
            },
        },
{
    lemma_trees(statement.config.nodes_count, statement.shape);
    law_sector_params_fit_together(statement.config.sector_size);
}

/// The proving step of all partitions is given the commitments and the high bits of the
/// request, the root in the file, the sector's own replica tree as its file records it, and the
/// places of trees over the nodes of the sector in the cache of the replica.
pub proof fn law_partitions_prover_is_given_the_update(
    statement: UpdateStatement,
    started: Result<(ProveAwaitingPAux<PartitionSettings>, CacheRead), UpdateError>,
    start: (ProveAwaitingPAux<PartitionSettings>, CacheRead),
    p_aux_file: Vec<u8>,
    middle: (ProveAwaitingTAux<PartitionSettings>, CacheRead),
    read: Result<Vec<u8>, anyhow::Error>,
    t_aux: Result<TemporaryAux, UpdateError>,
    next: Result<(AwaitingOutcome, ProveCall<PartitionSettings>), UpdateError>,
)
    requires
        ({
            ||| statement.config.sector_size == 0x400
            ||| statement.config.sector_size == 0x800
            ||| statement.config.sector_size == 0x1000
            ||| statement.config.sector_size == 0x2000
            ||| statement.config.sector_size == 0x4000
            ||| statement.config.sector_size == 0x8000
            ||| statement.config.sector_size == 0x80_0000
            ||| statement.config.sector_size == 0x100_0000
            ||| statement.config.sector_size == 0x2000_0000
            ||| statement.config.sector_size == 0x8_0000_0000
            ||| statement.config.sector_size == 0x10_0000_0000
        }),
        statement.config.sector_size <= usize::MAX,
        statement.config.nodes_count <= usize::MAX / 2,
        statement.shape.top_tree_arity > 0 ==> statement.shape.sub_tree_arity > 0,
        statement.shape.top_tree_arity * statement.shape.sub_tree_arity <= usize::MAX,
        call_ensures(
            generate_partition_proofs,
            (
                statement.config,
                statement.shape,
                statement.comm_r_old,
                statement.comm_r_new,
                statement.comm_d_new,
                &statement.sector_key_path,
                &statement.sector_key_cache_path,
                &statement.replica_path,
                &statement.replica_cache_path,
            ),
            started,
        ),
        started matches Ok(stage) ==> start == stage,
        call_ensures(
            ProveAwaitingPAux::<PartitionSettings>::p_aux_read,
            (start.0, Ok::<Vec<u8>, anyhow::Error>(p_aux_file)),
            Ok::<(ProveAwaitingTAux<PartitionSettings>, CacheRead), UpdateError>(middle),
        ),
        call_ensures(t_aux_from_read, (read,), t_aux),
        call_ensures(ProveAwaitingTAux::<PartitionSettings>::t_aux_read, (middle.0, read), next),
    ensures
        call_requires(
            generate_partition_proofs,
            (
                statement.config,
                statement.shape,
                statement.comm_r_old,
                statement.comm_r_new,
                statement.comm_d_new,
                &statement.sector_key_path,
                &statement.sector_key_cache_path,
                &statement.replica_path,
                &statement.replica_cache_path,
            ),
        ),
        started is Ok,
        start.1.dir == statement.sector_key_cache_path,
        start.1.name@ == "p_aux"@,
        p_aux_file@.len() >= 64,
        middle.1.dir == statement.sector_key_cache_path,
        middle.1.name@ == "t_aux"@,
        match read {
            Err(error) => next matches Err(e) && e == UpdateError::Outside(error),
            Ok(_) => match t_aux {
                Err(_) => next matches Err(UpdateError::MalformedTAux(_)),
                Ok(t_aux) => {
                    let nodes = statement.config.nodes_count as int;
                    let count = (if statement.shape.top_tree_arity == 0 {
                        1
                    } else {
                        statement.shape.top_tree_arity as int
                    }) * (if statement.shape.sub_tree_arity == 0 {
                        1
                    } else {
                        statement.shape.sub_tree_arity as int
                    });
                    let leafs = nodes / count;
                    let arity = statement.shape.arity as int;
                    if nodes < 2 || !is_pow2(nodes) {
                        next matches Err(UpdateError::TreeDLen(_))
                    } else if leafs < arity || !is_pow2(arity) || arity == 2 && !is_pow2(leafs) {
                        next matches Err(UpdateError::TreeRLastLen(_))
                    } else {
                        match next {
                            Err(_) => false,
                            Ok((_, call)) => {
                                let public = call.public_inputs;
                                let private = call.private_inputs;
                                let old = private.tree_r_old_config;
                                let d = private.tree_d_new_config;
                                let r = private.tree_r_new_config;
                                let params = call.settings.public_params;
                                let size_in_bytes = statement.config.sector_size;
                                &&& public.k == statement.config.update_partitions
                                &&& public.h == statement.config.h_select
                                &&& public.comm_r_old@ == statement.comm_r_old@
                                &&& public.comm_r_new@ == statement.comm_r_new@
                                &&& public.comm_d_new@ == statement.comm_d_new@
                                &&& private.comm_c@ == p_aux_file@.subrange(0, 32)
                                &&& old.path@ == t_aux.tree_r_last_config.path@
                                &&& old.id@ == t_aux.tree_r_last_config.id@
                                &&& old.size == t_aux.tree_r_last_config.size
                                &&& old.rows_to_discard
                                    == t_aux.tree_r_last_config.rows_to_discard
                                &&& private.old_replica_path == statement.sector_key_path
                                &&& private.replica_path == statement.replica_path
                                &&& d.path == statement.replica_cache_path
                                &&& d.id@ == "tree-d"@
                                &&& d.size matches Some(size) && size == 2 * nodes - 1
                                &&& d.rows_to_discard == t_aux.tree_d_config.rows_to_discard
                                &&& r.path == statement.replica_cache_path
                                &&& r.id@ == "tree-r-last"@
                                &&& r.size matches Some(size) && size == row_total(
                                    leafs as nat,
                                    arity as nat,
                                )
                                &&& r.rows_to_discard == t_aux.tree_r_last_config.rows_to_discard
                                &&& params.sector_nodes * 32 == size_in_bytes
                                &&& params.sector_nodes == pow2(params.challenge_bit_len as nat)
                                &&& params.partition_count == pow2(params.partition_bit_len as nat)
                                &&& params.apex_leaf_count == pow2(params.apex_leaf_bit_len as nat)
                                &&& params.challenge_count == (if size_in_bytes <= 0x100_0000 {
                                    10int
                                } else {
                                    86int
                                })
                                &&& params.apex_leaf_count == (if size_in_bytes <= 0x2000 {
                                    8int
                                } else {
                                    128int
                                })
                                &&& params.partition_count == (if size_in_bytes <= 0x2000 {
                                    1int
                                } else if size_in_bytes <= 0x8000 {
                                    2
                                } else if size_in_bytes <= 0x100_0000 {
                                    4
                                } else {
                                    16
                                })
                                &&& call.settings.partitions == statement.config.update_partitions
                            },
                        }
                    }
                },
            },
        },
{
    lemma_trees(statement.config.nodes_count, statement.shape);
    law_sector_params_fit_together(statement.config.sector_size);
}

/// The proving step of a succinct proof is given the commitments and the high bits of the
/// request, the root in the file, the sector's own replica tree as its file records it, and the
/// places of trees over the nodes of the sector in the cache of the replica.
pub proof fn law_succinct_prover_is_given_the_update(
    statement: UpdateStatement,
    started: Result<(ProveAwaitingPAux<SetupParams>, CacheRead), UpdateError>,
    start: (ProveAwaitingPAux<SetupParams>, CacheRead),
    p_aux_file: Vec<u8>,
    middle: (ProveAwaitingTAux<SetupParams>, CacheRead),
    read: Result<Vec<u8>, anyhow::Error>,
    t_aux: Result<TemporaryAux, UpdateError>,
    next: Result<(AwaitingOutcome, ProveCall<SetupParams>), UpdateError>,
)
    requires
        statement.config.nodes_count <= usize::MAX / 2,
        statement.shape.top_tree_arity > 0 ==> statement.shape.sub_tree_arity > 0,
        statement.shape.top_tree_arity * statement.shape.sub_tree_arity <= usize::MAX,
        call_ensures(
            generate_empty_sector_update_proof,
            (
                statement.config,
                statement.shape,
                statement.comm_r_old,
                statement.comm_r_new,
                statement.comm_d_new,
                &statement.sector_key_path,
                &statement.sector_key_cache_path,
                &statement.replica_path,
                &statement.replica_cache_path,
            ),
            started,
        ),
        started matches Ok(stage) ==> start == stage,
        call_ensures(
            ProveAwaitingPAux::<SetupParams>::p_aux_read,
            (start.0, Ok::<Vec<u8>, anyhow::Error>(p_aux_file)),
            Ok::<(ProveAwaitingTAux<SetupParams>, CacheRead), UpdateError>(middle),
        ),
        call_ensures(t_aux_from_read, (read,), t_aux),
        call_ensures(ProveAwaitingTAux::<SetupParams>::t_aux_read, (middle.0, read), next),
    ensures
        call_requires(
            generate_empty_sector_update_proof,
            (
                statement.config,
                statement.shape,
                statement.comm_r_old,
                statement.comm_r_new,
                statement.comm_d_new,
                &statement.sector_key_path,
                &statement.sector_key_cache_path,
                &statement.replica_path,
                &statement.replica_cache_path,
            ),
        ),
        started is Ok,
        start.1.dir == statement.sector_key_cache_path,
        start.1.name@ == "p_aux"@,
        p_aux_file@.len() >= 64,
        middle.1.dir == statement.sector_key_cache_path,
        middle.1.name@ == "t_aux"@,
        match read {
            Err(error) => next matches Err(e) && e == UpdateError::Outside(error),
            Ok(_) => match t_aux {
                Err(_) => next matches Err(UpdateError::MalformedTAux(_)),
                Ok(t_aux) => {
                    let nodes = statement.config.nodes_count as int;
                    let count = (if statement.shape.top_tree_arity == 0 {
                        1
                    } else {
                        statement.shape.top_tree_arity as int
                    }) * (if statement.shape.sub_tree_arity == 0 {
                        1
                    } else {
                        statement.shape.sub_tree_arity as int
                    });
                    let leafs = nodes / count;
                    let arity = statement.shape.arity as int;
                    if nodes < 2 || !is_pow2(nodes) {
                        next matches Err(UpdateError::TreeDLen(_))
                    } else if leafs < arity || !is_pow2(arity) || arity == 2 && !is_pow2(leafs) {
                        next matches Err(UpdateError::TreeRLastLen(_))
                    } else {
                        match next {
                            Err(_) => false,
                            Ok((_, call)) => {
                                let public = call.public_inputs;
                                let private = call.private_inputs;
                                let old = private.tree_r_old_config;
                                let d = private.tree_d_new_config;
                                let r = private.tree_r_new_config;
                                &&& public.k == statement.config.update_partitions
                                &&& public.h == statement.config.h_select
                                &&& public.comm_r_old@ == statement.comm_r_old@
                                &&& public.comm_r_new@ == statement.comm_r_new@
                                &&& public.comm_d_new@ == statement.comm_d_new@
                                &&& private.comm_c@ == p_aux_file@.subrange(0, 32)
                                &&& old.path@ == t_aux.tree_r_last_config.path@
                                &&& old.id@ == t_aux.tree_r_last_config.id@
                                &&& old.size == t_aux.tree_r_last_config.size
                                &&& old.rows_to_discard
                                    == t_aux.tree_r_last_config.rows_to_discard
                                &&& private.old_replica_path == statement.sector_key_path
                                &&& private.replica_path == statement.replica_path
                                &&& d.path == statement.replica_cache_path
                                &&& d.id@ == "tree-d"@
                                &&& d.size matches Some(size) && size == 2 * nodes - 1
                                &&& d.rows_to_discard == t_aux.tree_d_config.rows_to_discard
                                &&& r.path == statement.replica_cache_path
                                &&& r.id@ == "tree-r-last"@
                                &&& r.size matches Some(size) && size == row_total(
                                    leafs as nat,
                                    arity as nat,
                                )
                                &&& r.rows_to_discard == t_aux.tree_r_last_config.rows_to_discard
                                &&& call.settings.sector_bytes == statement.config.sector_size
                                &&& call.settings.partitions == Some(
                                    statement.config.update_partitions,
                                )
                                &&& call.settings.priority
                            },
                        }
                    }
                },
            },
        },
{
    lemma_trees(statement.config.nodes_count, statement.shape);
}

/// A prover takes the roots from any file of at least 64 bytes, and from no other.
pub proof fn law_provers_need_the_roots<S>(
    stage: ProveAwaitingPAux<S>,
    read: Result<Vec<u8>, anyhow::Error>,
    next: Result<(ProveAwaitingTAux<S>, CacheRead), UpdateError>,
)
    requires
        call_ensures(ProveAwaitingPAux::<S>::p_aux_read, (stage, read), next),
    ensures
        match read {
            Err(error) => next matches Err(e) && e == UpdateError::Outside(error),
            Ok(bytes) => if bytes@.len() < 64 {
                next matches Err(UpdateError::MalformedPAux(_))
            } else {
                next is Ok
            },
        },
{
}

/// Setting the proof system up keeps the inputs of the proving step and what the setup names, and
/// makes the vanilla parameters of the sector size.
pub proof fn law_setup_makes_the_parameters_of_the_sector(
    call: ProveCall<SetupParams>,
    next: Result<ProveCall<CompoundParams>, UpdateError>,
)
    requires
        ({
            ||| call.settings.sector_bytes == 0x400
            ||| call.settings.sector_bytes == 0x800
            ||| call.settings.sector_bytes == 0x1000
            ||| call.settings.sector_bytes == 0x2000
            ||| call.settings.sector_bytes == 0x4000
            ||| call.settings.sector_bytes == 0x8000
            ||| call.settings.sector_bytes == 0x80_0000
            ||| call.settings.sector_bytes == 0x100_0000
            ||| call.settings.sector_bytes == 0x2000_0000
            ||| call.settings.sector_bytes == 0x8_0000_0000
            ||| call.settings.sector_bytes == 0x10_0000_0000
        }),
        call.settings.sector_bytes <= usize::MAX,
        call_ensures(set_up, (call,), next),
    ensures
        call_requires(set_up, (call,)),
        match next {
            Err(_) => false,
            Ok(next) => {
                let params = next.settings.vanilla_params;
                let size_in_bytes = call.settings.sector_bytes;
                &&& next.public_inputs == call.public_inputs
                &&& next.private_inputs == call.private_inputs
                &&& next.settings.partitions == call.settings.partitions
                &&& next.settings.priority == call.settings.priority
                &&& params.sector_nodes * 32 == size_in_bytes
                &&& params.sector_nodes == pow2(params.challenge_bit_len as nat)
                &&& params.partition_count == pow2(params.partition_bit_len as nat)
                &&& params.apex_leaf_count == pow2(params.apex_leaf_bit_len as nat)
                &&& params.challenge_count == (if size_in_bytes <= 0x100_0000 {
                    10int
                } else {
                    86int
                })
                &&& params.apex_leaf_count == (if size_in_bytes <= 0x2000 {
                    8int
                } else {
                    128int
                })
                &&& params.partition_count == (if size_in_bytes <= 0x2000 {
                    1int
                } else if size_in_bytes <= 0x8000 {
                    2
                } else if size_in_bytes <= 0x100_0000 {
                    4
                } else {
                    16
                })
            },
        },
{
    law_sector_params_fit_together(call.settings.sector_bytes);
}

/// The verifying step of one partition is given the commitments and the high bits of the
/// request, the proof as it came, and the vanilla parameters of the sector size.
pub proof fn law_single_verifier_is_given_the_update<P>(
    config: SectorUpdateConfig,
    proof: P,
    comm_r_old: Commitment,
    comm_r_new: Commitment,
    comm_d_new: Commitment,
    next: Result<(SingleAwaitingVerdict, VerifyCall<PublicParams, P>), UpdateError>,
)
    requires
        ({
            ||| config.sector_size == 0x400
            ||| config.sector_size == 0x800
            ||| config.sector_size == 0x1000
            ||| config.sector_size == 0x2000
            ||| config.sector_size == 0x4000
            ||| config.sector_size == 0x8000
            ||| config.sector_size == 0x80_0000
            ||| config.sector_size == 0x100_0000
            ||| config.sector_size == 0x2000_0000
            ||| config.sector_size == 0x8_0000_0000
            ||| config.sector_size == 0x10_0000_0000
        }),
        config.sector_size <= usize::MAX,
        call_ensures(
            verify_single_partition_proof::<P>,
            (config, proof, comm_r_old, comm_r_new, comm_d_new),
            next,
        ),
    ensures
        call_requires(
            verify_single_partition_proof::<P>,
            (config, proof, comm_r_old, comm_r_new, comm_d_new),
        ),
        ({
            &&& next matches Ok((_, call))
            &&& call.proof == proof
            &&& call.public_inputs.k == 0
            &&& call.public_inputs.h == config.h_select
            &&& call.public_inputs.comm_r_old@ == comm_r_old@
            &&& call.public_inputs.comm_r_new@ == comm_r_new@
            &&& call.public_inputs.comm_d_new@ == comm_d_new@
            &&& call.settings.sector_nodes * 32 == config.sector_size
            &&& call.settings.sector_nodes == pow2(call.settings.challenge_bit_len as nat)
            &&& call.settings.partition_count == pow2(call.settings.partition_bit_len as nat)
            &&& call.settings.apex_leaf_count == pow2(call.settings.apex_leaf_bit_len as nat)
            &&& call.settings.challenge_count == (if config.sector_size <= 0x100_0000 {
                10int
            } else {
                86int
            })
            &&& call.settings.apex_leaf_count == (if config.sector_size <= 0x2000 {
                8int
            } else {
                128int
            })
            &&& call.settings.partition_count == (if config.sector_size <= 0x2000 {
                1int
            } else if config.sector_size <= 0x8000 {
                2
            } else if config.sector_size <= 0x100_0000 {
                4
            } else {
                16
            })
        }),
{
    law_sector_params_fit_together(config.sector_size);
}

/// The verifying step of all partitions is given the commitments and the high bits of the
/// request, the proof as it came, and the vanilla parameters of the sector size.
pub proof fn law_partitions_verifier_is_given_the_update<P>(
    config: SectorUpdateConfig,
    proofs: Vec<P>,
    comm_r_old: Commitment,
    comm_r_new: Commitment,
    comm_d_new: Commitment,
    next: Result<(PartitionsAwaitingVerdict, VerifyCall<PublicParams, Vec<P>>), UpdateError>,
)
    requires
        ({
            ||| config.sector_size == 0x400
            ||| config.sector_size == 0x800
            ||| config.sector_size == 0x1000
            ||| config.sector_size == 0x2000
            ||| config.sector_size == 0x4000
            ||| config.sector_size == 0x8000
            ||| config.sector_size == 0x80_0000
            ||| config.sector_size == 0x100_0000
            ||| config.sector_size == 0x2000_0000
            ||| config.sector_size == 0x8_0000_0000
            ||| config.sector_size == 0x10_0000_0000
        }),
        config.sector_size <= usize::MAX,
        call_ensures(
            verify_partition_proofs::<P>,
            (config, proofs, comm_r_old, comm_r_new, comm_d_new),
            next,
        ),
    ensures
        call_requires(
            verify_partition_proofs::<P>,
            (config, proofs, comm_r_old, comm_r_new, comm_d_new),
        ),
        ({
            &&& next matches Ok((_, call))
            &&& call.proof == proofs
            &&& call.public_inputs.k == config.update_partitions
            &&& call.public_inputs.h == config.h_select
            &&& call.public_inputs.comm_r_old@ == comm_r_old@
            &&& call.public_inputs.comm_r_new@ == comm_r_new@
            &&& call.public_inputs.comm_d_new@ == comm_d_new@
            &&& call.settings.sector_nodes * 32 == config.sector_size
            &&& call.settings.sector_nodes == pow2(call.settings.challenge_bit_len as nat)
            &&& call.settings.partition_count == pow2(call.settings.partition_bit_len as nat)
            &&& call.settings.apex_leaf_count == pow2(call.settings.apex_leaf_bit_len as nat)
            &&& call.settings.challenge_count == (if config.sector_size <= 0x100_0000 {
                10int
            } else {
                86int
            })
            &&& call.settings.apex_leaf_count == (if config.sector_size <= 0x2000 {
                8int
            } else {
                128int
            })
            &&& call.settings.partition_count == (if config.sector_size <= 0x2000 {
                1int
            } else if config.sector_size <= 0x8000 {
                2
            } else if config.sector_size <= 0x100_0000 {
                4
            } else {
                16
            })
        }),
{
    law_sector_params_fit_together(config.sector_size);
}

/// The verifying step of a succinct proof is given the commitments and the high bits of the
/// request, the key, the parameters of the sector, and one circuit proof for each of its
/// partitions: the runs of 192 bytes that the proof begins with.
pub proof fn law_succinct_verifier_is_given_the_update<'a, 'k>(
    config: SectorUpdateConfig,
    proof_bytes: &'a [u8],
    comm_r_old: Commitment,
    comm_r_new: Commitment,
    comm_d_new: Commitment,
    started: Result<SuccinctAwaitingKey<'a>, UpdateError>,
    stage: SuccinctAwaitingKey<'a>,
    key: Result<&'k VerifyingKey, anyhow::Error>,
    next: Result<(AwaitingOutcome, VerifyCall<CompoundParams, MultiProof<'k>>), UpdateError>,
)
    requires
        ({
            ||| config.sector_size == 0x400
            ||| config.sector_size == 0x800
            ||| config.sector_size == 0x1000
            ||| config.sector_size == 0x2000
            ||| config.sector_size == 0x4000
            ||| config.sector_size == 0x8000
            ||| config.sector_size == 0x80_0000
            ||| config.sector_size == 0x100_0000
            ||| config.sector_size == 0x2000_0000
            ||| config.sector_size == 0x8_0000_0000
            ||| config.sector_size == 0x10_0000_0000
        }),
        config.sector_size <= usize::MAX,
        call_ensures(
            verify_empty_sector_update_proof,
            (config, proof_bytes, comm_r_old, comm_r_new, comm_d_new),
            started,
        ),
        started matches Ok(first) ==> stage == first,
        key is Ok ==> proof_bytes@.len() >= 192 * config.update_partitions,
        call_ensures(SuccinctAwaitingKey::<'a>::key_read, (stage, key), next),
    ensures
        call_requires(
            verify_empty_sector_update_proof,
            (config, proof_bytes, comm_r_old, comm_r_new, comm_d_new),
        ),
        started is Ok,
        call_requires(SuccinctAwaitingKey::<'a>::key_read, (stage, key)),
        match key {
            Err(error) => next matches Err(e) && e == UpdateError::Outside(error),
            Ok(key) => {
                let count = config.update_partitions as int;
                if !are_proofs(proof_bytes@.subrange(0, 192 * count), count as nat) {
                    next matches Err(UpdateError::MalformedProof(_))
                } else {
                    let params = next->Ok_0.1.settings.vanilla_params;
                    &&& next matches Ok((_, call))
                    &&& circuit_proofs_in(call.proof).len() == count
                    &&& forall|i: int|
                        0 <= i < count ==> #[trigger] circuit_proofs_in(call.proof)[i]
                            == proof_bytes@.subrange(192 * i, 192 * i + 192)
                    &&& verifying_key_of(call.proof) == *key
                    &&& call.public_inputs.k == config.update_partitions
                    &&& call.public_inputs.h == config.h_select
                    &&& call.public_inputs.comm_r_old@ == comm_r_old@
                    &&& call.public_inputs.comm_r_new@ == comm_r_new@
                    &&& call.public_inputs.comm_d_new@ == comm_d_new@
                    &&& call.settings.partitions == Some(config.update_partitions)
                    &&& call.settings.priority
                    &&& params.sector_nodes * 32 == config.sector_size
                    &&& params.sector_nodes == pow2(params.challenge_bit_len as nat)
                    &&& params.partition_count == pow2(params.partition_bit_len as nat)
                    &&& params.apex_leaf_count == pow2(params.apex_leaf_bit_len as nat)
                    &&& params.challenge_count == (if config.sector_size <= 0x100_0000 {
                        10int
                    } else {
                        86int
                    })
                    &&& params.apex_leaf_count == (if config.sector_size <= 0x2000 {
                        8int
                    } else {
                        128int
                    })
                    &&& params.partition_count == (if config.sector_size <= 0x2000 {
                        1int
                    } else if config.sector_size <= 0x8000 {
                        2
                    } else if config.sector_size <= 0x100_0000 {
                        4
                    } else {
                        16
                    })
                }
            },
        },
{
    law_sector_params_fit_together(config.sector_size);
    let count = config.update_partitions as int;
    if let (Ok(_), Ok((_, call))) = (key, next) {
        let part = proof_bytes@.subrange(0, 192 * count);
        assert forall|i: int| 0 <= i < count implies #[trigger] circuit_proofs_in(call.proof)[i]
            == proof_bytes@.subrange(192 * i, 192 * i + 192) by {
            assert(circuit_proofs_in(call.proof)[i] == part.subrange(192 * i, 192 * (i + 1)));
            assert(part.subrange(192 * i, 192 * (i + 1)) =~= proof_bytes@.subrange(
                192 * i,
                192 * i + 192,
            ));
        }
    }
}

/// A succinct proof is what was made: its circuit proofs in their order, 192 bytes each, and
/// nothing else.
pub proof fn law_succinct_proof_is_its_circuit_proofs(
    made: Result<MultiProof<'_>, anyhow::Error>,
    proof: Result<EmptySectorUpdateProof, UpdateError>,
)
    requires
        call_ensures(empty_sector_update_proof, (made,), proof),
    ensures
        match made {
            Err(error) => proof matches Err(e) && e == UpdateError::Outside(error),
            Ok(made) => {
                &&& proof matches Ok(proof)
                &&& proof.0@.len() == 192 * circuit_proofs_in(made).len()
                &&& forall|i: int|
                    0 <= i < circuit_proofs_in(made).len() ==> #[trigger] circuit_proofs_in(made)[i]
                        == proof.0@.subrange(192 * i, 192 * i + 192)
            },
        },
{
    if let (Ok(made), Ok(proof)) = (made, proof) {
        let proofs = circuit_proofs_in(made);
        assert forall|i: int| 0 <= i < proofs.len() implies #[trigger] proofs[i]
            == proof.0@.subrange(192 * i, 192 * i + 192) by {
            assert(proofs[i] == proof.0@.subrange(192 * i, 192 * (i + 1)));
        }
    }
}

/// The circuit proofs that were read are verified as they are, for the commitments and the high
/// bits of the request.
pub proof fn law_read_proofs_are_verified_as_they_are<'a, 'k>(
    config: SectorUpdateConfig,
    proof_bytes: &'a [u8],
    comm_r_old: Commitment,
    comm_r_new: Commitment,
    comm_d_new: Commitment,
    stage: SuccinctAwaitingKey<'a>,
    proofs: Result<MultiProof<'k>, anyhow::Error>,
    next: Result<(AwaitingOutcome, VerifyCall<CompoundParams, MultiProof<'k>>), UpdateError>,
)
    requires
        call_ensures(
            verify_empty_sector_update_proof,
            (config, proof_bytes, comm_r_old, comm_r_new, comm_d_new),
            Ok::<SuccinctAwaitingKey<'a>, UpdateError>(stage),
        ),
        call_ensures(SuccinctAwaitingKey::<'a>::proofs_read, (stage, proofs), next),
    ensures
        match proofs {
            Err(error) => next matches Err(e) && e == UpdateError::MalformedProof(error),
            Ok(proofs) => {
                &&& next matches Ok((_, call))
                &&& call.proof == proofs
                &&& call.public_inputs.k == config.update_partitions
                &&& call.public_inputs.h == config.h_select
                &&& call.public_inputs.comm_r_old@ == comm_r_old@
                &&& call.public_inputs.comm_r_new@ == comm_r_new@
                &&& call.public_inputs.comm_d_new@ == comm_d_new@
                &&& call.settings.partitions == Some(config.update_partitions)
            },
        },
{
}

/// What the last step of an operation gives is what the operation ends with; but a vanilla proof
/// that does not hold is an error.
pub proof fn law_outcomes_are_answered<T>(
    last: AwaitingOutcome,
    outcome: Result<T, anyhow::Error>,
    result: Result<T, UpdateError>,
    single: SingleAwaitingVerdict,
    partitions: PartitionsAwaitingVerdict,
    verdict: Result<bool, anyhow::Error>,
    single_valid: Result<bool, UpdateError>,
    partitions_valid: Result<bool, UpdateError>,
)
    requires
        call_ensures(AwaitingOutcome::finished::<T>, (last, outcome), result),
        call_ensures(SingleAwaitingVerdict::verified, (single, verdict), single_valid),
        call_ensures(
            PartitionsAwaitingVerdict::verified,
            (partitions, verdict),
            partitions_valid,
        ),
    ensures
        outcome is Ok <==> result is Ok,
        outcome matches Ok(value) ==> result->Ok_0 == value,
        outcome matches Err(error) ==> result->Err_0 == UpdateError::Outside(error),
        single_valid is Ok <==> verdict == Ok::<bool, anyhow::Error>(true),
        partitions_valid is Ok <==> verdict == Ok::<bool, anyhow::Error>(true),
        single_valid is Ok ==> single_valid->Ok_0,
        partitions_valid is Ok ==> partitions_valid->Ok_0,
        verdict matches Err(error) ==> {
            &&& single_valid->Err_0 == UpdateError::Outside(error)
            &&& partitions_valid->Err_0 == UpdateError::Outside(error)
        },
        verdict == Ok::<bool, anyhow::Error>(false) ==> {
            &&& single_valid->Err_0 is InvalidVanillaProof
            &&& partitions_valid->Err_0 is InvalidVanillaProofs
        },
{
}

/// Every failure that the library finds by itself has its text, and no other has one.
pub proof fn law_failures_have_their_texts(error: UpdateError, text: Option<&'static str>)
    requires
        call_ensures(UpdateError::message, (&error,), text),
    ensures
        error is ZeroCommD ==> {
            &&& text matches Some(t)
            &&& t@ == "Invalid all zero commitment (comm_d)"@
        },
        error is ZeroCommR ==> {
            &&& text matches Some(t)
            &&& t@ == "Invalid all zero commitment (comm_r)"@
        },
        error is ZeroCommRLast ==> {
            &&& text matches Some(t)
            &&& t@ == "Invalid all zero commitment (comm_r)"@
        },
        error is PiecesMismatch ==> {
            &&& text matches Some(t)
            &&& t@ == "pieces and comm_d do not match"@
        },
        error is InvalidVanillaProof ==> {
            &&& text matches Some(t)
            &&& t@ == "vanilla proof is invalid"@
        },
        error is InvalidVanillaProofs ==> {
            &&& text matches Some(t)
            &&& t@ == "vanilla proofs are invalid"@
        },
        text is Some <==> {
            ||| error is ZeroCommD
            ||| error is ZeroCommR
            ||| error is ZeroCommRLast
            ||| error is PiecesMismatch
            ||| error is InvalidVanillaProof
            ||| error is InvalidVanillaProofs
        },
{
}

} // verus!
