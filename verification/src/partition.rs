//! Vanilla proofs of a sector update, of one partition or of all of them.
use std::path::PathBuf;
use vstd::prelude::*;

use crate::cache::{CacheKey, CacheRead};
use crate::error::UpdateError;
use crate::outside::public_params_from_sector_size;
use crate::proving::{public_inputs, public_inputs_of, start_proving, ProveAwaitingPAux,
    ProveRequest, VerifyCall};
use crate::sector::{is_supported_sector_size, sector_params};
use crate::types::{Commitment, PublicParams, SectorUpdateConfig, TreeShape};

verus! {

/// What the proofs of all partitions are set up with.
#[derive(Clone, Copy, Debug, PartialEq, Eq, Structural)]
pub struct PartitionSettings {
    pub public_params: PublicParams,
    pub partitions: usize,
}

/// Proves an update for the first partition.
pub fn generate_single_partition_proof(
    config: SectorUpdateConfig,
    shape: TreeShape,
    comm_r_old: Commitment,
    comm_r_new: Commitment,
    comm_d_new: Commitment,
    sector_key_path: &PathBuf,
    sector_key_cache_path: &PathBuf,
    replica_path: &PathBuf,
    replica_cache_path: &PathBuf,
) -> (next: Result<(ProveAwaitingPAux<PublicParams>, CacheRead), UpdateError>)
    requires
        is_supported_sector_size(config.sector_size),
        config.sector_size <= usize::MAX,
        config.nodes_count <= usize::MAX / 2,
        shape.valid(),
    ensures
        next matches Ok((stage, read)) && {
            &&& stage.request() == (ProveRequest {
                config,
                shape,
                sector_key_path: *sector_key_path,
                sector_key_cache_path: *sector_key_cache_path,
                replica_path: *replica_path,
                replica_cache_path: *replica_cache_path,
            })
            &&& stage.settings() == sector_params(config.sector_size)
            &&& stage.public_inputs()@ == public_inputs_of(
                config,
                0,
                comm_r_old,
                comm_r_new,
                comm_d_new,
            )
            &&& read.asks_for(*sector_key_cache_path, CacheKey::PAux)
        },
{
    let public_inputs = match public_inputs(&config, 0, &comm_r_old, &comm_r_new, &comm_d_new) {
        Ok(inputs) => inputs,
        Err(error) => return Err(error),
    };
    let public_params = public_params_from_sector_size(config.sector_size);
    let request = ProveRequest {
        config,
        shape,
        sector_key_path: sector_key_path.clone(),
        sector_key_cache_path: sector_key_cache_path.clone(),
        replica_path: replica_path.clone(),
        replica_cache_path: replica_cache_path.clone(),
    };
    Ok(start_proving(request, public_params, public_inputs))
}

/// The last stage of the check of one partition's proof.
pub struct SingleAwaitingVerdict {}

/// Checks the proof of an update for the first partition.
pub fn verify_single_partition_proof<P>(
    config: SectorUpdateConfig,
    proof: P,
    comm_r_old: Commitment,
    comm_r_new: Commitment,
    comm_d_new: Commitment,
) -> (next: Result<(SingleAwaitingVerdict, VerifyCall<PublicParams, P>), UpdateError>)
    requires
        is_supported_sector_size(config.sector_size),
        config.sector_size <= usize::MAX,
    ensures
        next matches Ok((_, call)) && {
            &&& call.settings == sector_params(config.sector_size)
            &&& call.public_inputs@ == public_inputs_of(
                config,
                0,
                comm_r_old,
                comm_r_new,
                comm_d_new,
            )
            &&& call.proof == proof
        },
{
    let public_inputs = match public_inputs(&config, 0, &comm_r_old, &comm_r_new, &comm_d_new) {
        Ok(inputs) => inputs,
        Err(error) => return Err(error),
    };
    let settings = public_params_from_sector_size(config.sector_size);
    Ok((SingleAwaitingVerdict {  }, VerifyCall { settings, public_inputs, proof }))
}

impl SingleAwaitingVerdict {
    /// Ends the check. A proof that does not hold is an error.
    pub fn verified(self, verdict: Result<bool, anyhow::Error>) -> (valid: Result<
        bool,
        UpdateError,
    >)
        ensures
            match verdict {
                Err(error) => valid matches Err(e) && e == UpdateError::Outside(error),
                Ok(false) => valid matches Err(UpdateError::InvalidVanillaProof),
                Ok(true) => valid == Ok::<bool, UpdateError>(true),
            },
    {
        match verdict {
            Err(error) => Err(UpdateError::Outside(error)),
            Ok(valid) => if valid {
                Ok(valid)
            } else {
                Err(UpdateError::InvalidVanillaProof)
            },
        }
    }
}

/// Proves an update for all partitions.
pub fn generate_partition_proofs(
    config: SectorUpdateConfig,
    shape: TreeShape,
    comm_r_old: Commitment,
    comm_r_new: Commitment,
    comm_d_new: Commitment,
    sector_key_path: &PathBuf,
    sector_key_cache_path: &PathBuf,
    replica_path: &PathBuf,
    replica_cache_path: &PathBuf,
) -> (next: Result<(ProveAwaitingPAux<PartitionSettings>, CacheRead), UpdateError>)
    requires
        is_supported_sector_size(config.sector_size),
        config.sector_size <= usize::MAX,
        config.nodes_count <= usize::MAX / 2,
        shape.valid(),
    ensures
        next matches Ok((stage, read)) && {
            &&& stage.request() == (ProveRequest {
                config,
                shape,
                sector_key_path: *sector_key_path,
                sector_key_cache_path: *sector_key_cache_path,
                replica_path: *replica_path,
                replica_cache_path: *replica_cache_path,
            })
            &&& stage.settings() == (PartitionSettings {
                public_params: sector_params(config.sector_size),
                partitions: config.update_partitions,
            })
            &&& stage.public_inputs()@ == public_inputs_of(
                config,
                config.update_partitions,
                comm_r_old,
                comm_r_new,
                comm_d_new,
            )
            &&& read.asks_for(*sector_key_cache_path, CacheKey::PAux)
        },
{
    let public_inputs = match public_inputs(
        &config,
        config.update_partitions,
        &comm_r_old,
        &comm_r_new,
        &comm_d_new,
    ) {
        Ok(inputs) => inputs,
        Err(error) => return Err(error),
    };
    let settings = PartitionSettings {
        public_params: public_params_from_sector_size(config.sector_size),
        partitions: config.update_partitions,
    };
    let request = ProveRequest {
        config,
        shape,
        sector_key_path: sector_key_path.clone(),
        sector_key_cache_path: sector_key_cache_path.clone(),
        replica_path: replica_path.clone(),
        replica_cache_path: replica_cache_path.clone(),
    };
    Ok(start_proving(request, settings, public_inputs))
}

/// The last stage of the check of all partitions' proofs.
pub struct PartitionsAwaitingVerdict {}

/// Checks the proofs of an update for all partitions.
pub fn verify_partition_proofs<P>(
    config: SectorUpdateConfig,
    proofs: Vec<P>,
    comm_r_old: Commitment,
    comm_r_new: Commitment,
    comm_d_new: Commitment,
) -> (next: Result<(PartitionsAwaitingVerdict, VerifyCall<PublicParams, Vec<P>>), UpdateError>)
    requires
        is_supported_sector_size(config.sector_size),
        config.sector_size <= usize::MAX,
    ensures
        next matches Ok((_, call)) && {
            &&& call.settings == sector_params(config.sector_size)
            &&& call.public_inputs@ == public_inputs_of(
                config,
                config.update_partitions,
                comm_r_old,
                comm_r_new,
                comm_d_new,
            )
            &&& call.proof == proofs
        },
{
    let public_inputs = match public_inputs(
        &config,
        config.update_partitions,
        &comm_r_old,
        &comm_r_new,
        &comm_d_new,
    ) {
        Ok(inputs) => inputs,
        Err(error) => return Err(error),
    };
    let settings = public_params_from_sector_size(config.sector_size);
    Ok((PartitionsAwaitingVerdict {  }, VerifyCall { settings, public_inputs, proof: proofs }))
}

impl PartitionsAwaitingVerdict {
    /// Ends the check. Proofs that do not hold are an error.
    pub fn verified(self, verdict: Result<bool, anyhow::Error>) -> (valid: Result<
        bool,
        UpdateError,
    >)
        ensures
            match verdict {
                Err(error) => valid matches Err(e) && e == UpdateError::Outside(error),
                Ok(false) => valid matches Err(UpdateError::InvalidVanillaProofs),
                Ok(true) => valid == Ok::<bool, UpdateError>(true),
            },
    {
        match verdict {
            Err(error) => Err(UpdateError::Outside(error)),
            Ok(valid) => if valid {
                Ok(valid)
            } else {
                Err(UpdateError::InvalidVanillaProofs)
            },
        }
    }
}

} // verus!
