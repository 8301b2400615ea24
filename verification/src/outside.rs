//! The outside crates, as far as the library calls them: each item states what is relied on.
use std::path::PathBuf;
use std::sync::Arc;

use bellperson::groth16::PreparedVerifyingKey;
use blstrs::Bls12;
use filecoin_hashers::poseidon::PoseidonDomain;
use filecoin_hashers::sha256::{Sha256Domain, Sha256Hasher};
use filecoin_hashers::Domain;
use generic_array::typenum::Unsigned;
use merkletree::merkle::Element;
use storage_proofs_core::compound_proof::{self, CompoundProof};
use storage_proofs_core::multi_proof::MultiProof;
use storage_proofs_update::constants::{TreeDArity, TreeRBaseTree};
use storage_proofs_update::EmptySectorUpdateCompound;
use vstd::prelude::*;

use crate::cache::CacheKey;
use crate::proof_bytes::{is_proofs_written, proof_count, proof_runs, CIRCUIT_PROOF_SIZE};
use crate::sector::{is_supported_sector_size, sector_params};
use crate::tree_len::{is_tree, tree_len};
use crate::types::{CompoundParams, PersistentAux, PersistentAuxView, PublicParams, SetupParams,
    StoreConfig, StoredConfig, TemporaryAux, TemporaryAuxView};

verus! {

/// `std::path::PathBuf`, carried from the caller to the step that opens the path.
#[verifier::external_type_specification]
#[verifier::external_body]
pub struct ExPathBuf(std::path::PathBuf);

/// `anyhow::Error`, the error of the proof crates and of the caller's steps.
#[verifier::external_type_specification]
#[verifier::external_body]
pub struct ExAnyhowError(anyhow::Error);

/// `bincode::ErrorKind`, the reason why bytes were not decoded.
#[verifier::external_type_specification]
#[verifier::external_body]
pub struct ExBincodeErrorKind(bincode::ErrorKind);

/// `storage_proofs_core::multi_proof::MultiProof`, the circuit proofs of all partitions, held with
/// the key that they are to be verified with.
#[verifier::external_type_specification]
#[verifier::external_body]
pub struct ExMultiProof<'a>(storage_proofs_core::multi_proof::MultiProof<'a>);

/// A `bellperson::groth16::PreparedVerifyingKey` over `blstrs::Bls12`, carried from the caller to
/// the proofs that are verified with it. It is held here because its own declaration would need
/// the pairing trait that bounds its engine.
#[verifier::external_body]
pub struct VerifyingKey {
    pub key: Arc<PreparedVerifyingKey<Bls12>>,
}

/// `PathBuf::clone` gives the same path.
pub assume_specification[ <PathBuf as Clone>::clone ](path: &PathBuf) -> (copy: PathBuf)
    ensures
        copy == *path,
;

/// The cached roots in the bytes of their file: two runs of 32 bytes, in the order of the fields.
/// Whatever follows them is ignored, and nothing else is asked of them.
pub open spec fn p_aux_of(bytes: Seq<u8>) -> Option<PersistentAuxView> {
    if bytes.len() >= 64 {
        Some(
            PersistentAuxView {
                comm_c: bytes.subrange(0, 32),
                comm_r_last: bytes.subrange(32, 64),
            },
        )
    } else {
        None
    }
}

/// `bincode::deserialize` at `storage_proofs_porep::stacked::PersistentAux<PoseidonDomain>`. Each
/// of its two fields is a newtype over `[u8; 32]`, which bincode writes as its bytes with nothing
/// around them; the function takes bytes that follow the value, and fails on fewer than 64.
#[verifier::external_body]
pub(crate) fn deserialize_p_aux(bytes: &[u8]) -> (aux: Result<
    PersistentAux,
    Box<bincode::ErrorKind>,
>)
    ensures
        match aux {
            Ok(aux) => p_aux_of(bytes@) == Some(aux@),
            Err(_) => p_aux_of(bytes@) is None,
        },
{
    let aux: storage_proofs_porep::stacked::PersistentAux<PoseidonDomain> = bincode::deserialize(
        bytes,
    )?;
    let mut comm_c: [u8; 32] = [0; 32];
    let mut comm_r_last: [u8; 32] = [0; 32];
    aux.comm_c.copy_to_slice(&mut comm_c);
    aux.comm_r_last.copy_to_slice(&mut comm_r_last);
    Ok(PersistentAux { comm_c, comm_r_last })
}

/// The places in the bytes of their file, as decoded where a pointer has `pointer_bits`
/// bits; `None` for bytes that are not such a file.
pub uninterp spec fn t_aux_of(bytes: Seq<u8>, pointer_bits: u32) -> Option<TemporaryAuxView>;

/// `bincode::deserialize` at `storage_proofs_porep::stacked::TemporaryAux`. The tree type of the
/// sector occurs there only as a marker that takes no bytes, so the same bytes give the same
/// value for all of them. Every field comes back as it was stored: a decoded path was text in the
/// file, and is handed on as that text. What the bytes have to look like is left unsaid.
#[verifier::external_body]
pub(crate) fn deserialize_t_aux(bytes: &[u8]) -> (aux: Result<
    TemporaryAux,
    Box<bincode::ErrorKind>,
>)
    ensures
        match aux {
            Ok(aux) => t_aux_of(bytes@, usize::BITS) == Some(aux@),
            Err(_) => t_aux_of(bytes@, usize::BITS) is None,
        },
{
    let aux: storage_proofs_porep::stacked::TemporaryAux<TreeRBaseTree, Sha256Hasher> =
        bincode::deserialize(bytes)?;
    let stored = |config: merkletree::store::StoreConfig| StoredConfig {
        path: config.path.to_string_lossy().into_owned(),
        id: config.id,
        size: config.size,
        rows_to_discard: config.rows_to_discard,
    };
    Ok(TemporaryAux {
        labels: aux.labels.labels.into_iter().map(stored).collect(),
        tree_d_config: stored(aux.tree_d_config),
        tree_r_last_config: stored(aux.tree_r_last_config),
        tree_c_config: stored(aux.tree_c_config),
    })
}

/// `storage_proofs_core::cache_key::CacheKey`, written by its `Display`.
#[verifier::external_body]
pub(crate) fn cache_key_to_string(key: CacheKey) -> (name: String)
    ensures
        name@ == key.name(),
{
    match key {
        CacheKey::PAux => storage_proofs_core::cache_key::CacheKey::PAux,
        CacheKey::TAux => storage_proofs_core::cache_key::CacheKey::TAux,
        CacheKey::CommDTree => storage_proofs_core::cache_key::CacheKey::CommDTree,
        CacheKey::CommRLastTree => storage_proofs_core::cache_key::CacheKey::CommRLastTree,
    }.to_string()
}

/// `storage_proofs_update::constants::TreeDArity` as a number: the data tree is binary.
#[verifier::external_body]
pub(crate) fn tree_d_arity() -> (arity: usize)
    ensures
        arity == 2,
{
    TreeDArity::to_usize()
}

/// `merkletree::merkle::get_merkle_tree_len`: the number of nodes of a tree with `leafs` leafs
/// and `branches` children per node, or an error where there is no such tree. The bound keeps its
/// arithmetic from overflowing.
#[verifier::external_body]
pub(crate) fn get_merkle_tree_len(leafs: usize, branches: usize) -> (len: Result<
    usize,
    anyhow::Error,
>)
    requires
        leafs <= usize::MAX / 2,
    ensures
        match len {
            Ok(len) => is_tree(leafs as nat, branches as nat) && len == tree_len(
                leafs as nat,
                branches as nat,
            ),
            Err(_) => !is_tree(leafs as nat, branches as nat),
        },
{
    merkletree::merkle::get_merkle_tree_len(leafs, branches)
}

/// `merkletree::store::StoreConfig::from_config`: the place and the discarded rows of `config`,
/// under the name `id`, with `size` where it is given.
#[verifier::external_body]
pub(crate) fn store_config_from_config(config: &StoreConfig, id: String, size: Option<usize>) -> (
result: StoreConfig)
    ensures
        result.path == config.path,
        result.id@ == id@,
        result.size == (if size is Some {
            size
        } else {
            config.size
        }),
        result.rows_to_discard == config.rows_to_discard,
{
    let config = merkletree::store::StoreConfig {
        path: config.path.clone(),
        id: config.id.clone(),
        size: config.size,
        rows_to_discard: config.rows_to_discard,
    };
    let made = merkletree::store::StoreConfig::from_config(&config, id, size);
    StoreConfig {
        path: made.path,
        id: made.id,
        size: made.size,
        rows_to_discard: made.rows_to_discard,
    }
}

/// `Domain::try_from_bytes` of `PoseidonDomain`, a node of the replica tree, and `write_bytes`,
/// which gives back the bytes that it holds. It takes any 32 bytes as they are, in the field or
/// not, and fails on any other number of bytes.
#[verifier::external_body]
pub(crate) fn tree_r_domain_try_from_bytes(raw: &[u8]) -> (domain: Result<[u8; 32], anyhow::Error>)
    ensures
        match domain {
            Ok(domain) => raw@.len() == 32 && domain@ == raw@,
            Err(_) => raw@.len() != 32,
        },
{
    let mut bytes: [u8; 32] = [0; 32];
    PoseidonDomain::try_from_bytes(raw)?.write_bytes(&mut bytes)?;
    Ok(bytes)
}

/// `Domain::try_from_bytes` of `Sha256Domain`, a node of the data tree, and `write_bytes`, which
/// gives back the bytes that it holds. It takes any 32 bytes as they are, in the field or not,
/// and fails on any other number of bytes.
#[verifier::external_body]
pub(crate) fn tree_d_domain_try_from_bytes(raw: &[u8]) -> (domain: Result<[u8; 32], anyhow::Error>)
    ensures
        match domain {
            Ok(domain) => raw@.len() == 32 && domain@ == raw@,
            Err(_) => raw@.len() != 32,
        },
{
    let mut bytes: [u8; 32] = [0; 32];
    Sha256Domain::try_from_bytes(raw)?.write_bytes(&mut bytes)?;
    Ok(bytes)
}

/// `storage_proofs_update::PublicParams::from_sector_size`. It panics on a sector size that is
/// not supported, or that the machine cannot address.
#[verifier::external_body]
pub(crate) fn public_params_from_sector_size(sector_bytes: u64) -> (params: PublicParams)
    requires
        is_supported_sector_size(sector_bytes),
        sector_bytes <= usize::MAX,
    ensures
        params == sector_params(sector_bytes),
{
    let params = storage_proofs_update::PublicParams::from_sector_size(sector_bytes);
    PublicParams {
        sector_nodes: params.sector_nodes,
        challenge_count: params.challenge_count,
        challenge_bit_len: params.challenge_bit_len,
        partition_count: params.partition_count,
        partition_bit_len: params.partition_bit_len,
        apex_leaf_count: params.apex_leaf_count,
        apex_leaf_bit_len: params.apex_leaf_bit_len,
    }
}

/// `CompoundProof::setup` of `storage_proofs_update::EmptySectorUpdateCompound`. It makes the
/// vanilla parameters from the sector size, which are the same for every tree type, and hands the
/// rest on; it panics where `PublicParams::from_sector_size` does, and does not fail otherwise.
#[verifier::external_body]
pub(crate) fn compound_setup(setup: &SetupParams) -> (params: Result<CompoundParams, anyhow::Error>)
    requires
        is_supported_sector_size(setup.sector_bytes),
        setup.sector_bytes <= usize::MAX,
    ensures
        params matches Ok(params) && params == (CompoundParams {
            vanilla_params: sector_params(setup.sector_bytes),
            partitions: setup.partitions,
            priority: setup.priority,
        }),
{
    let SetupParams { sector_bytes, partitions, priority } = *setup;
    let vanilla_params = storage_proofs_update::SetupParams { sector_bytes };
    let setup = compound_proof::SetupParams { vanilla_params, partitions, priority };
    let made = EmptySectorUpdateCompound::<TreeRBaseTree>::setup(&setup)?;
    let params = made.vanilla_params;
    let vanilla_params = PublicParams {
        sector_nodes: params.sector_nodes, challenge_count: params.challenge_count,
        challenge_bit_len: params.challenge_bit_len, partition_count: params.partition_count,
        partition_bit_len: params.partition_bit_len, apex_leaf_count: params.apex_leaf_count,
        apex_leaf_bit_len: params.apex_leaf_bit_len,
    };
    Ok(CompoundParams { vanilla_params, partitions: made.partitions, priority: made.priority })
}

/// The circuit proofs that a `MultiProof` holds, in their order: each as the 192 bytes of its three
/// curve points in compressed form.
pub uninterp spec fn circuit_proofs_in(multi_proof: MultiProof<'_>) -> Seq<Seq<u8>>;

/// The key that a `MultiProof` was made with.
pub uninterp spec fn verifying_key_of(multi_proof: MultiProof<'_>) -> VerifyingKey;

/// The bytes are `count` circuit proofs: every point of them is in compressed form, on its curve,
/// in its group, and not at infinity.
pub uninterp spec fn are_proofs(bytes: Seq<u8>, count: nat) -> bool;

/// `MultiProof::new_from_bytes`: reads as many circuit proofs as there are partitions, or one
/// where none are named, and keeps the key. A point that is read has no other compressed form, so
/// each proof is the run of bytes that it was read from. The function panics on too few bytes, and
/// asserts in debug builds that there are not too many. Which points are read is left unsaid.
#[verifier::external_body]
pub(crate) fn multi_proof_from_bytes<'a>(
    partitions: Option<usize>,
    proof_bytes: &[u8],
    verifying_key: &'a VerifyingKey,
) -> (multi_proof: Result<MultiProof<'a>, anyhow::Error>)
    requires
        proof_bytes@.len() == CIRCUIT_PROOF_SIZE * proof_count(partitions),
    ensures
        match multi_proof {
            Ok(multi_proof) => {
                &&& are_proofs(proof_bytes@, proof_count(partitions))
                &&& circuit_proofs_in(multi_proof) == proof_runs(
                    proof_bytes@,
                    proof_count(partitions),
                )
                &&& verifying_key_of(multi_proof) == *verifying_key
            },
            Err(_) => !are_proofs(proof_bytes@, proof_count(partitions)),
        },
{
    MultiProof::new_from_bytes(partitions, proof_bytes, &verifying_key.key)
}

/// `MultiProof::to_vec`: the circuit proofs, one after the other. It writes into a vector, which
/// grows as needed, and does not fail.
#[verifier::external_body]
pub(crate) fn multi_proof_to_vec(multi_proof: &MultiProof<'_>) -> (bytes: Result<
    Vec<u8>,
    anyhow::Error,
>)
    ensures
        bytes matches Ok(bytes) && is_proofs_written(bytes@, circuit_proofs_in(*multi_proof)),
{
    multi_proof.to_vec()
}

} // verus!
