//! The values that the sector-update operations work on.
use std::path::PathBuf;
use vstd::prelude::*;

verus! {

/// A 32-byte commitment, as it is published on chain.
pub type Commitment = [u8; 32];

/// Every byte of `commitment` is zero.
pub open spec fn is_all_zero(commitment: Seq<u8>) -> bool {
    forall|i: int| 0 <= i < commitment.len() ==> commitment[i] == 0
}

/// What a sector update needs to know about the sector.
#[derive(Clone, Copy, Debug, PartialEq, Eq, Structural)]
pub struct SectorUpdateConfig {
    /// The sector size in bytes.
    pub sector_size: u64,
    /// The sector size in 32-byte nodes.
    pub nodes_count: usize,
    /// The number of partitions of an update proof.
    pub update_partitions: usize,
    /// The number of high bits that are taken from each challenge.
    pub h_select: usize,
}

/// The arities of the tree over a replica, from the base trees upwards. An arity of zero stands
/// for a level that the tree does not have.
#[derive(Clone, Copy, Debug, PartialEq, Eq, Structural)]
pub struct TreeShape {
    pub arity: usize,
    pub sub_tree_arity: usize,
    pub top_tree_arity: usize,
}

impl TreeShape {
    /// The number of base trees below the levels that join them.
    pub open spec fn base_tree_count(self) -> int {
        if self.top_tree_arity > 0 {
            self.top_tree_arity * self.sub_tree_arity
        } else if self.sub_tree_arity > 0 {
            self.sub_tree_arity as int
        } else {
            1
        }
    }

    /// A top level stands on a sub-tree level, and the base trees can be counted.
    pub open spec fn valid(self) -> bool {
        &&& self.top_tree_arity > 0 ==> self.sub_tree_arity > 0
        &&& self.base_tree_count() <= usize::MAX
    }

    /// Counts the base trees.
    pub fn get_base_tree_count(&self) -> (count: usize)
        requires
            self.valid(),
        ensures
            count == self.base_tree_count(),
            count > 0,
    {
        if self.top_tree_arity > 0 {
            proof {
                let top: int = self.top_tree_arity as int;
                let sub: int = self.sub_tree_arity as int;
                assert(top * sub > 0) by (nonlinear_arith)
                    requires
                        top > 0,
                        sub > 0,
                ;
            }
            self.top_tree_arity * self.sub_tree_arity
        } else if self.sub_tree_arity > 0 {
            self.sub_tree_arity
        } else {
            1
        }
    }
}

/// The roots that a sealed sector keeps in its cache.
#[derive(Clone, Copy, Debug, PartialEq, Eq)]
pub struct PersistentAux {
    pub comm_c: Commitment,
    pub comm_r_last: Commitment,
}

/// The bytes of a [`PersistentAux`].
pub struct PersistentAuxView {
    pub comm_c: Seq<u8>,
    pub comm_r_last: Seq<u8>,
}

impl View for PersistentAux {
    type V = PersistentAuxView;

    open spec fn view(&self) -> PersistentAuxView {
        PersistentAuxView { comm_c: self.comm_c@, comm_r_last: self.comm_r_last@ }
    }
}

/// The place of a stored tree, as a cache file records it.
#[derive(Debug)]
pub struct StoredConfig {
    pub path: String,
    pub id: String,
    pub size: Option<usize>,
    pub rows_to_discard: usize,
}

/// The content of a [`StoredConfig`].
pub struct StoredConfigView {
    pub path: Seq<char>,
    pub id: Seq<char>,
    pub size: Option<usize>,
    pub rows_to_discard: usize,
}

impl View for StoredConfig {
    type V = StoredConfigView;

    open spec fn view(&self) -> StoredConfigView {
        StoredConfigView {
            path: self.path@,
            id: self.id@,
            size: self.size,
            rows_to_discard: self.rows_to_discard,
        }
    }
}

impl StoredConfig {
    /// The same tree, placed in the directory `cache_path`.
    pub fn at_cache_path(&self, cache_path: &PathBuf) -> (config: StoreConfig)
        ensures
            config.path == *cache_path,
            config.id@ == self.id@,
            config.size == self.size,
            config.rows_to_discard == self.rows_to_discard,
    {
        StoreConfig {
            path: cache_path.clone(),
            id: self.id.clone(),
            size: self.size,
            rows_to_discard: self.rows_to_discard,
        }
    }
}

/// The place of a stored tree in a given directory.
#[derive(Debug)]
pub struct StoreConfig {
    pub path: PathBuf,
    pub id: String,
    pub size: Option<usize>,
    pub rows_to_discard: usize,
}

/// The content of a [`StoreConfig`].
pub struct StoreConfigView {
    pub path: PathBuf,
    pub id: Seq<char>,
    pub size: Option<usize>,
    pub rows_to_discard: usize,
}

impl View for StoreConfig {
    type V = StoreConfigView;

    open spec fn view(&self) -> StoreConfigView {
        StoreConfigView {
            path: self.path,
            id: self.id@,
            size: self.size,
            rows_to_discard: self.rows_to_discard,
        }
    }
}

/// The places of what sealing a sector leaves behind: the labels of each layer, and the trees over
/// the data, over the replica and over the columns.
#[derive(Debug)]
pub struct TemporaryAux {
    pub labels: Vec<StoredConfig>,
    pub tree_d_config: StoredConfig,
    pub tree_r_last_config: StoredConfig,
    pub tree_c_config: StoredConfig,
}

/// The content of a [`TemporaryAux`].
pub struct TemporaryAuxView {
    pub labels: Seq<StoredConfigView>,
    pub tree_d_config: StoredConfigView,
    pub tree_r_last_config: StoredConfigView,
    pub tree_c_config: StoredConfigView,
}

impl View for TemporaryAux {
    type V = TemporaryAuxView;

    open spec fn view(&self) -> TemporaryAuxView {
        TemporaryAuxView {
            labels: self.labels@.map_values(|label: StoredConfig| label@),
            tree_d_config: self.tree_d_config@,
            tree_r_last_config: self.tree_r_last_config@,
            tree_c_config: self.tree_c_config@,
        }
    }
}

/// The parameters of a vanilla update proof. They depend on the sector size alone.
#[derive(Clone, Copy, Debug, PartialEq, Eq, Structural)]
pub struct PublicParams {
    pub sector_nodes: usize,
    pub challenge_count: usize,
    pub challenge_bit_len: usize,
    pub partition_count: usize,
    pub partition_bit_len: usize,
    pub apex_leaf_count: usize,
    pub apex_leaf_bit_len: usize,
}

/// What an update proof is a proof of.
#[derive(Clone, Copy, Debug, PartialEq, Eq)]
pub struct PublicInputs {
    pub k: usize,
    pub comm_r_old: Commitment,
    pub comm_d_new: Commitment,
    pub comm_r_new: Commitment,
    pub h: usize,
}

/// The content of a [`PublicInputs`].
pub struct PublicInputsView {
    pub k: usize,
    pub comm_r_old: Seq<u8>,
    pub comm_d_new: Seq<u8>,
    pub comm_r_new: Seq<u8>,
    pub h: usize,
}

impl View for PublicInputs {
    type V = PublicInputsView;

    open spec fn view(&self) -> PublicInputsView {
        PublicInputsView {
            k: self.k,
            comm_r_old: self.comm_r_old@,
            comm_d_new: self.comm_d_new@,
            comm_r_new: self.comm_r_new@,
            h: self.h,
        }
    }
}

/// What a prover knows beyond the public inputs: where the trees and the replicas are.
#[derive(Debug)]
pub struct PrivateInputs {
    pub comm_c: Commitment,
    pub tree_r_old_config: StoredConfig,
    pub old_replica_path: PathBuf,
    pub tree_d_new_config: StoreConfig,
    pub tree_r_new_config: StoreConfig,
    pub replica_path: PathBuf,
}

/// The content of a [`PrivateInputs`].
pub struct PrivateInputsView {
    pub comm_c: Seq<u8>,
    pub tree_r_old_config: StoredConfigView,
    pub old_replica_path: PathBuf,
    pub tree_d_new_config: StoreConfigView,
    pub tree_r_new_config: StoreConfigView,
    pub replica_path: PathBuf,
}

impl View for PrivateInputs {
    type V = PrivateInputsView;

    open spec fn view(&self) -> PrivateInputsView {
        PrivateInputsView {
            comm_c: self.comm_c@,
            tree_r_old_config: self.tree_r_old_config@,
            old_replica_path: self.old_replica_path,
            tree_d_new_config: self.tree_d_new_config@,
            tree_r_new_config: self.tree_r_new_config@,
            replica_path: self.replica_path,
        }
    }
}

/// The setup of a succinct update proof.
#[derive(Clone, Copy, Debug, PartialEq, Eq, Structural)]
pub struct SetupParams {
    /// The sector size in bytes.
    pub sector_bytes: u64,
    /// The number of partitions that are proved.
    pub partitions: Option<usize>,
    /// Whether the proof is computed ahead of other work.
    pub priority: bool,
}

/// The parameters of a succinct update proof.
#[derive(Clone, Copy, Debug, PartialEq, Eq, Structural)]
pub struct CompoundParams {
    /// The parameters of the vanilla proofs that it stands for.
    pub vanilla_params: PublicParams,
    /// The number of partitions that are proved.
    pub partitions: Option<usize>,
    /// Whether the proof is computed ahead of other work.
    pub priority: bool,
}

/// The commitments of a replica that data was encoded into.
#[derive(Clone, Copy, Debug, PartialEq, Eq)]
pub struct EmptySectorUpdateEncoded {
    pub comm_r_new: Commitment,
    pub comm_r_last_new: Commitment,
    pub comm_d_new: Commitment,
}

/// A succinct update proof in its serialized form.
#[derive(Debug, PartialEq, Eq)]
pub struct EmptySectorUpdateProof(pub Vec<u8>);

} // verus!
