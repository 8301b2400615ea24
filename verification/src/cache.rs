//! What an update reads from the cache of a sector, and where its new trees go.
use std::path::PathBuf;
use vstd::prelude::*;

use crate::error::UpdateError;
use crate::outside::{cache_key_to_string, deserialize_p_aux, deserialize_t_aux,
    get_merkle_tree_len, p_aux_of, store_config_from_config, t_aux_of, tree_d_arity};
use crate::tree_len::{is_tree, tree_len};
use crate::types::{PersistentAux, StoreConfig, StoreConfigView, TemporaryAux, TemporaryAuxView,
    TreeShape};

verus! {

/// An entry of a sector's cache directory.
#[derive(Clone, Copy, Debug, PartialEq, Eq, Structural)]
pub enum CacheKey {
    /// The roots that outlive sealing.
    PAux,
    /// The places of the trees.
    TAux,
    /// The tree over the data.
    CommDTree,
    /// The tree over the replica.
    CommRLastTree,
}

impl CacheKey {
    /// The name of the entry.
    pub open spec fn name(self) -> Seq<char> {
        match self {
            CacheKey::PAux => "p_aux"@,
            CacheKey::TAux => "t_aux"@,
            CacheKey::CommDTree => "tree-d"@,
            CacheKey::CommRLastTree => "tree-r-last"@,
        }
    }
}

/// The request to read the file `name` in the directory `dir`.
#[derive(Debug)]
pub struct CacheRead {
    pub dir: PathBuf,
    pub name: String,
}

impl CacheRead {
    /// The entry `key` of the directory `dir` is asked for.
    pub open spec fn asks_for(self, dir: PathBuf, key: CacheKey) -> bool {
        &&& self.dir == dir
        &&& self.name@ == key.name()
    }
}

/// Asks for the roots of the sector whose cache is at `cache_path`.
pub fn get_p_aux(cache_path: &PathBuf) -> (read: CacheRead)
    ensures
        read.asks_for(*cache_path, CacheKey::PAux),
{
    CacheRead { dir: cache_path.clone(), name: cache_key_to_string(CacheKey::PAux) }
}

/// Takes the roots from what was read.
pub fn p_aux_from_read(read: Result<Vec<u8>, anyhow::Error>) -> (p_aux: Result<
    PersistentAux,
    UpdateError,
>)
    ensures
        match read {
            Err(error) => p_aux == Err::<PersistentAux, UpdateError>(UpdateError::Outside(error)),
            Ok(bytes) => match p_aux_of(bytes@) {
                None => p_aux matches Err(UpdateError::MalformedPAux(_)),
                Some(aux) => p_aux matches Ok(p_aux) && p_aux@ == aux,
            },
        },
{
    match read {
        Err(error) => Err(UpdateError::Outside(error)),
        Ok(bytes) => match deserialize_p_aux(bytes.as_slice()) {
            Err(error) => Err(UpdateError::MalformedPAux(error)),
            Ok(p_aux) => Ok(p_aux),
        },
    }
}

/// Asks for the tree places of the sector whose cache is at `cache_path`.
pub fn get_t_aux(cache_path: &PathBuf) -> (read: CacheRead)
    ensures
        read.asks_for(*cache_path, CacheKey::TAux),
{
    CacheRead { dir: cache_path.clone(), name: cache_key_to_string(CacheKey::TAux) }
}

/// Takes the tree places from what was read.
pub fn t_aux_from_read(read: Result<Vec<u8>, anyhow::Error>) -> (t_aux: Result<
    TemporaryAux,
    UpdateError,
>)
    ensures
        match read {
            Err(error) => t_aux == Err::<TemporaryAux, UpdateError>(UpdateError::Outside(error)),
            Ok(bytes) => match t_aux_of(bytes@, usize::BITS) {
                None => t_aux matches Err(UpdateError::MalformedTAux(_)),
                Some(aux) => t_aux matches Ok(t_aux) && t_aux@ == aux,
            },
        },
{
    match read {
        Err(error) => Err(UpdateError::Outside(error)),
        Ok(bytes) => match deserialize_t_aux(bytes.as_slice()) {
            Err(error) => Err(UpdateError::MalformedTAux(error)),
            Ok(t_aux) => Ok(t_aux),
        },
    }
}

/// The number of leafs of each base tree over a replica of `nodes_count` nodes.
pub open spec fn base_tree_leafs(nodes_count: usize, shape: TreeShape) -> nat {
    (nodes_count as int / shape.base_tree_count()) as nat
}

/// A tree over the new data has one leaf per node.
pub open spec fn has_tree_d(nodes_count: usize) -> bool {
    is_tree(nodes_count as nat, 2)
}

/// Each base tree over the new replica has its share of the nodes as leafs.
pub open spec fn has_tree_r_last(nodes_count: usize, shape: TreeShape) -> bool {
    is_tree(base_tree_leafs(nodes_count, shape), shape.arity as nat)
}

/// The place of the tree over the new data: in the new cache, with as many rows discarded as the
/// sector's own tree has.
pub open spec fn new_tree_d_config(
    t_aux_old: TemporaryAuxView,
    new_cache_path: PathBuf,
    nodes_count: usize,
) -> StoreConfigView {
    StoreConfigView {
        path: new_cache_path,
        id: CacheKey::CommDTree.name(),
        size: Some(tree_len(nodes_count as nat, 2) as usize),
        rows_to_discard: t_aux_old.tree_d_config.rows_to_discard,
    }
}

/// The place of the tree over the new replica: in the new cache, with as many rows discarded as
/// the sector's own tree has.
pub open spec fn new_tree_r_last_config(
    t_aux_old: TemporaryAuxView,
    new_cache_path: PathBuf,
    nodes_count: usize,
    shape: TreeShape,
) -> StoreConfigView {
    StoreConfigView {
        path: new_cache_path,
        id: CacheKey::CommRLastTree.name(),
        size: Some(
            tree_len(base_tree_leafs(nodes_count, shape), shape.arity as nat) as usize,
        ),
        rows_to_discard: t_aux_old.tree_r_last_config.rows_to_discard,
    }
}

/// Places the trees over the new data and over the new replica in `new_cache_path`. They keep
/// what the sector's own trees were made with (the rows that are discarded), rather than take the
/// default. Returns the place of the data tree, and that of the replica tree.
pub fn get_new_configs_from_t_aux_old(
    t_aux_old: &TemporaryAux,
    new_cache_path: &PathBuf,
    nodes_count: usize,
    shape: &TreeShape,
) -> (configs: Result<(StoreConfig, StoreConfig), UpdateError>)
    requires
        nodes_count <= usize::MAX / 2,
        shape.valid(),
    ensures
        !has_tree_d(nodes_count) ==> configs matches Err(UpdateError::TreeDLen(_)),
        has_tree_d(nodes_count) && !has_tree_r_last(nodes_count, *shape) ==> configs matches Err(
            UpdateError::TreeRLastLen(_),
        ),
        has_tree_d(nodes_count) && has_tree_r_last(nodes_count, *shape) ==> {
            &&& configs matches Ok((tree_d, tree_r_last))
            &&& tree_d@ == new_tree_d_config(t_aux_old@, *new_cache_path, nodes_count)
            &&& tree_r_last@ == new_tree_r_last_config(
                t_aux_old@,
                *new_cache_path,
                nodes_count,
                *shape,
            )
        },
{
    let tree_d_config = t_aux_old.tree_d_config.at_cache_path(new_cache_path);
    let tree_r_last_config = t_aux_old.tree_r_last_config.at_cache_path(new_cache_path);

    let tree_count: usize = shape.get_base_tree_count();
    let base_tree_nodes_count: usize = nodes_count / tree_count;
    assert(base_tree_nodes_count <= nodes_count) by (nonlinear_arith)
        requires
            base_tree_nodes_count == nodes_count / tree_count,
            tree_count > 0,
    ;

    let tree_d_len: usize = match get_merkle_tree_len(nodes_count, tree_d_arity()) {
        Ok(len) => len,
        Err(error) => return Err(UpdateError::TreeDLen(error)),
    };
    let tree_d_new_config = store_config_from_config(
        &tree_d_config,
        cache_key_to_string(CacheKey::CommDTree),
        Some(tree_d_len),
    );

    let tree_r_last_len: usize = match get_merkle_tree_len(base_tree_nodes_count, shape.arity) {
        Ok(len) => len,
        Err(error) => return Err(UpdateError::TreeRLastLen(error)),
    };
    let tree_r_last_new_config = store_config_from_config(
        &tree_r_last_config,
        cache_key_to_string(CacheKey::CommRLastTree),
        Some(tree_r_last_len),
    );

    Ok((tree_d_new_config, tree_r_last_new_config))
}

} // verus!
