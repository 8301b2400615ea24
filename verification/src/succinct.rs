//! Succinct proofs of a sector update.
use std::path::PathBuf;

use storage_proofs_core::multi_proof::MultiProof;
use vstd::prelude::*;
use vstd::slice::slice_subrange;

use crate::cache::{CacheKey, CacheRead};
use crate::error::UpdateError;
use crate::outcome::AwaitingOutcome;
use crate::outside::{are_proofs, circuit_proofs_in, compound_setup, multi_proof_from_bytes,
    multi_proof_to_vec, verifying_key_of, VerifyingKey};
use crate::proof_bytes::{is_proofs_written, proof_count, proof_part, proof_runs, CIRCUIT_PROOF_SIZE};
use crate::proving::{public_inputs, public_inputs_of, start_proving, ProveAwaitingPAux, ProveCall,
    ProveRequest, VerifyCall};
use crate::sector::{is_supported_sector_size, sector_params};
use crate::types::{Commitment, CompoundParams, EmptySectorUpdateProof, SectorUpdateConfig,
    PublicInputs, SetupParams, TreeShape};

verus! {

/// The setup of a succinct proof: over all partitions of the sector, with priority.
pub open spec fn setup_params_of(config: SectorUpdateConfig) -> SetupParams {
    SetupParams {
        sector_bytes: config.sector_size,
        partitions: Some(config.update_partitions),
        priority: true,
    }
}

/// Makes the setup of a succinct proof.
fn setup_params(config: &SectorUpdateConfig) -> (params: SetupParams)
    ensures
        params == setup_params_of(*config),
{
    SetupParams {
        sector_bytes: config.sector_size,
        partitions: Some(config.update_partitions),
        priority: true,
    }
}

/// The parameters that a setup leads to: those of the vanilla proofs follow from the sector size.
pub open spec fn compound_params_of(setup: SetupParams) -> CompoundParams {
    CompoundParams {
        vanilla_params: sector_params(setup.sector_bytes),
        partitions: setup.partitions,
        priority: setup.priority,
    }
}

/// Proves an update succinctly. Once the caches are read, [`set_up`] makes the parameters of the
/// proof; the proving step proves with them, and [`empty_sector_update_proof`] serializes what it
/// made.
pub fn generate_empty_sector_update_proof(
    config: SectorUpdateConfig,
    shape: TreeShape,
    comm_r_old: Commitment,
    comm_r_new: Commitment,
    comm_d_new: Commitment,
    sector_key_path: &PathBuf,
    sector_key_cache_path: &PathBuf,
    replica_path: &PathBuf,
    replica_cache_path: &PathBuf,
) -> (next: Result<(ProveAwaitingPAux<SetupParams>, CacheRead), UpdateError>)
    requires
        config.nodes_count <= usize::MAX / 2,
        shape.valid(),
    ensures
        next matches Ok((stage, read)) && {
            &&& stage.request() == (ProveRequest {
                config,
                shape,
                sector_key_path: *sector_key_path,
                sector_key_cache_path: *sector_key_cache_path,
                replica_path: *replica_path,
                replica_cache_path: *replica_cache_path,
            })
            &&& stage.settings() == setup_params_of(config)
            &&& stage.public_inputs()@ == public_inputs_of(
                config,
                config.update_partitions,
                comm_r_old,
                comm_r_new,
                comm_d_new,
            )
            &&& read.asks_for(*sector_key_cache_path, CacheKey::PAux)
        },
{
    let public_inputs = match public_inputs(
        &config,
        config.update_partitions,
        &comm_r_old,
        &comm_r_new,
        &comm_d_new,
    ) {
        Ok(inputs) => inputs,
        Err(error) => return Err(error),
    };
    let request = ProveRequest {
        config,
        shape,
        sector_key_path: sector_key_path.clone(),
        sector_key_cache_path: sector_key_cache_path.clone(),
        replica_path: replica_path.clone(),
        replica_cache_path: replica_cache_path.clone(),
    };
    let settings = setup_params(&config);
    Ok(start_proving(request, settings, public_inputs))
}

/// Sets the proof system up for a proving step, which is otherwise left as it is.
pub fn set_up(call: ProveCall<SetupParams>) -> (next: Result<
    ProveCall<CompoundParams>,
    UpdateError,
>)
    requires
        is_supported_sector_size(call.settings.sector_bytes),
        call.settings.sector_bytes <= usize::MAX,
    ensures
        next matches Ok(next) && {
            &&& next.settings == compound_params_of(call.settings)
            &&& next.public_inputs == call.public_inputs
            &&& next.private_inputs == call.private_inputs
        },
{
    let ProveCall { settings, public_inputs, private_inputs } = call;
    match compound_setup(&settings) {
        Ok(settings) => Ok(ProveCall { settings, public_inputs, private_inputs }),
        Err(error) => Err(UpdateError::Outside(error)),
    }
}

/// Ends the making of a succinct proof: with the circuit proofs that were made, one after the
/// other.
pub fn empty_sector_update_proof(made: Result<MultiProof<'_>, anyhow::Error>) -> (proof: Result<
    EmptySectorUpdateProof,
    UpdateError,
>)
    ensures
        match made {
            Err(error) => proof matches Err(e) && e == UpdateError::Outside(error),
            Ok(multi_proof) => {
                &&& proof matches Ok(proof)
                &&& is_proofs_written(proof.0@, circuit_proofs_in(multi_proof))
            },
        },
{
    match made {
        Err(error) => Err(UpdateError::Outside(error)),
        Ok(multi_proof) => match multi_proof_to_vec(&multi_proof) {
            Err(error) => Err(UpdateError::Outside(error)),
            Ok(bytes) => Ok(EmptySectorUpdateProof(bytes)),
        },
    }
}

/// A check of a succinct proof that waits for the verifying key.
pub struct SuccinctAwaitingKey<'a> {
    settings: CompoundParams,
    public_inputs: PublicInputs,
    proof_bytes: &'a [u8],
}

/// Checks a succinct proof. The verifying key comes first.
pub fn verify_empty_sector_update_proof<'a>(
    config: SectorUpdateConfig,
    proof_bytes: &'a [u8],
    comm_r_old: Commitment,
    comm_r_new: Commitment,
    comm_d_new: Commitment,
) -> (next: Result<SuccinctAwaitingKey<'a>, UpdateError>)
    requires
        is_supported_sector_size(config.sector_size),
        config.sector_size <= usize::MAX,
    ensures
        next matches Ok(stage) && {
            &&& stage.settings() == compound_params_of(setup_params_of(config))
            &&& stage.public_inputs()@ == public_inputs_of(
                config,
                config.update_partitions,
                comm_r_old,
                comm_r_new,
                comm_d_new,
            )
            &&& stage.proof_bytes() == proof_bytes@
        },
{
    let public_inputs = match public_inputs(
        &config,
        config.update_partitions,
        &comm_r_old,
        &comm_r_new,
        &comm_d_new,
    ) {
        Ok(inputs) => inputs,
        Err(error) => return Err(error),
    };
    let settings = match compound_setup(&setup_params(&config)) {
        Ok(params) => params,
        Err(error) => return Err(UpdateError::Outside(error)),
    };
    Ok(SuccinctAwaitingKey { settings, public_inputs, proof_bytes })
}

impl<'a> SuccinctAwaitingKey<'a> {
    pub closed spec fn settings(self) -> CompoundParams {
        self.settings
    }

    pub closed spec fn public_inputs(self) -> PublicInputs {
        self.public_inputs
    }

    pub closed spec fn proof_bytes(self) -> Seq<u8> {
        self.proof_bytes@
    }

    /// The number of circuit proofs that the bytes are read as.
    pub open spec fn proof_count(self) -> nat {
        proof_count(self.settings().partitions)
    }

    /// Takes the key, reads the circuit proofs of all partitions from the bytes, and asks for
    /// their verification with the key. Bytes that follow the proofs are ignored.
    pub fn key_read<'k>(self, key: Result<&'k VerifyingKey, anyhow::Error>) -> (next: Result<
        (AwaitingOutcome, VerifyCall<CompoundParams, MultiProof<'k>>),
        UpdateError,
    >)
        requires
            key is Ok ==> self.proof_bytes().len() >= CIRCUIT_PROOF_SIZE * self.proof_count(),
        ensures
            match key {
                Err(error) => next matches Err(e) && e == UpdateError::Outside(error),
                Ok(key) => {
                    let count = self.proof_count();
                    let part = proof_part(self.proof_bytes(), count);
                    if !are_proofs(part, count) {
                        next matches Err(UpdateError::MalformedProof(_))
                    } else {
                        &&& next matches Ok((_, call))
                        &&& call.settings == self.settings()
                        &&& call.public_inputs == self.public_inputs()
                        &&& circuit_proofs_in(call.proof) == proof_runs(part, count)
                        &&& verifying_key_of(call.proof) == *key
                    }
                },
            },
    {
        match key {
            Err(error) => Err(UpdateError::Outside(error)),
            Ok(key) => {
                let partitions = self.settings.partitions;
                let count: usize = match partitions {
                    Some(partitions) => partitions,
                    None => 1,
                };
                assert(CIRCUIT_PROOF_SIZE * count <= self.proof_bytes.len());
                let part = slice_subrange(self.proof_bytes, 0, CIRCUIT_PROOF_SIZE * count);
                self.proofs_read(multi_proof_from_bytes(partitions, part, key))
            },
        }
    }

    /// Takes the circuit proofs that the bytes were read as, and asks for their verification. The
    /// verdict ends the check as it is: a proof that does not hold is no error.
    pub fn proofs_read<'k>(self, proofs: Result<MultiProof<'k>, anyhow::Error>) -> (next: Result<
        (AwaitingOutcome, VerifyCall<CompoundParams, MultiProof<'k>>),
        UpdateError,
    >)
        ensures
            match proofs {
                Err(error) => next matches Err(e) && e == UpdateError::MalformedProof(error),
                Ok(proofs) => {
                    &&& next matches Ok((_, call))
                    &&& call.settings == self.settings()
                    &&& call.public_inputs == self.public_inputs()
                    &&& call.proof == proofs
                },
            },
    {
        match proofs {
            Err(error) => Err(UpdateError::MalformedProof(error)),
            Ok(proof) => {
                let SuccinctAwaitingKey { settings, public_inputs, .. } = self;
                Ok((AwaitingOutcome {  }, VerifyCall { settings, public_inputs, proof }))
            },
        }
    }
}

} // verus!
