//! What holds across the operations.
use std::path::PathBuf;

use storage_proofs_core::multi_proof::MultiProof;
use vstd::prelude::*;

use crate::cache::{get_new_configs_from_t_aux_old, CacheRead};
use crate::data::{decode_from, encode_into, remove_encoded_data, DecodeAwaitingPAux, DecodeCall,
    EncodeAwaitingCommitments, EncodeAwaitingPAux, EncodeAwaitingPieces, EncodeAwaitingTAux,
    EncodeCall, EncodedCommitments, RemoveAwaitingPAux, RemoveCall, VerifyPiecesCall};
use crate::error::UpdateError;
use crate::outcome::AwaitingOutcome;
use crate::outside::{are_proofs, circuit_proofs_in, verifying_key_of, VerifyingKey};
use crate::partition::{generate_partition_proofs, generate_single_partition_proof,
    verify_partition_proofs, verify_single_partition_proof, PartitionSettings,
    PartitionsAwaitingVerdict, SingleAwaitingVerdict};
use crate::proof_bytes::{law_proofs_have_one_form, proof_part, CIRCUIT_PROOF_SIZE};
use crate::proving::{ProveAwaitingPAux, ProveAwaitingTAux, ProveCall, VerifyCall};
use crate::succinct::{empty_sector_update_proof, generate_empty_sector_update_proof, set_up,
    verify_empty_sector_update_proof, SuccinctAwaitingKey};
use crate::types::{is_all_zero, Commitment, CompoundParams, EmptySectorUpdateEncoded,
    EmptySectorUpdateProof, PublicParams, SectorUpdateConfig, SetupParams, StoreConfig,
    TemporaryAux, TreeShape};

verus! {

/// The outcomes of an encoding up to its encoding step.
pub struct EncodeRun<P> {
    pub config: SectorUpdateConfig,
    pub shape: TreeShape,
    pub new_replica_path: PathBuf,
    pub new_cache_path: PathBuf,
    pub sector_key_path: PathBuf,
    pub sector_key_cache_path: PathBuf,
    pub staged_data_path: PathBuf,
    pub pieces: P,
    pub p_aux_file: Vec<u8>,
    pub t_aux_file: Vec<u8>,
    pub start: (EncodeAwaitingPAux<P>, CacheRead),
    pub middle: (EncodeAwaitingTAux<P>, CacheRead),
    pub end: (EncodeAwaitingCommitments<P>, EncodeCall),
}

impl<P> EncodeRun<P> {
    /// Each outcome is one that the operation can have.
    pub open spec fn occurs(self) -> bool {
        &&& call_ensures(
            encode_into::<P>,
            (
                self.config,
                self.shape,
                &self.new_replica_path,
                &self.new_cache_path,
                &self.sector_key_path,
                &self.sector_key_cache_path,
                &self.staged_data_path,
                self.pieces,
            ),
            self.start,
        )
        &&& call_ensures(
            EncodeAwaitingPAux::<P>::p_aux_read,
            (self.start.0, Ok::<Vec<u8>, anyhow::Error>(self.p_aux_file)),
            Ok::<(EncodeAwaitingTAux<P>, CacheRead), UpdateError>(self.middle),
        )
        &&& call_ensures(
            EncodeAwaitingTAux::<P>::t_aux_read,
            (self.middle.0, Ok::<Vec<u8>, anyhow::Error>(self.t_aux_file)),
            Ok::<(EncodeAwaitingCommitments<P>, EncodeCall), UpdateError>(self.end),
        )
    }

    /// The encoding step gave `commitments`, and the encoding ended with `encoded`.
    pub open spec fn ends_with(
        self,
        commitments: EncodedCommitments,
        checked: (EncodeAwaitingPieces, VerifyPiecesCall<P>),
        encoded: EmptySectorUpdateEncoded,
    ) -> bool {
        &&& call_ensures(
            EncodeAwaitingCommitments::<P>::encoded,
            (self.end.0, Ok::<EncodedCommitments, anyhow::Error>(commitments)),
            Ok::<(EncodeAwaitingPieces, VerifyPiecesCall<P>), UpdateError>(checked),
        )
        &&& call_ensures(
            EncodeAwaitingPieces::pieces_verified,
            (checked.0, Ok::<bool, anyhow::Error>(true)),
            Ok::<EmptySectorUpdateEncoded, UpdateError>(encoded),
        )
    }
}

/// The outcomes of a decoding up to its decoding step.
pub struct DecodeRun {
    pub config: SectorUpdateConfig,
    pub out_data_path: PathBuf,
    pub replica_path: PathBuf,
    pub sector_key_path: PathBuf,
    pub sector_key_cache_path: PathBuf,
    pub comm_d_new: Commitment,
    pub p_aux_file: Vec<u8>,
    pub start: (DecodeAwaitingPAux, CacheRead),
    pub end: (AwaitingOutcome, DecodeCall),
}

impl DecodeRun {
    /// Each outcome is one that the operation can have.
    pub open spec fn occurs(self) -> bool {
        &&& call_ensures(
            decode_from,
            (
                self.config,
                &self.out_data_path,
                &self.replica_path,
                &self.sector_key_path,
                &self.sector_key_cache_path,
                self.comm_d_new,
            ),
            self.start,
        )
        &&& call_ensures(
            DecodeAwaitingPAux::p_aux_read,
            (self.start.0, Ok::<Vec<u8>, anyhow::Error>(self.p_aux_file)),
            Ok::<(AwaitingOutcome, DecodeCall), UpdateError>(self.end),
        )
    }
}

/// Decoding reverses what encoding did: where both have the same configuration and read the same
/// roots, and the decoding is given the replica, the sector key and the commitment of the encoding,
/// the decoding step is given just what the encoding step was given to encode nodes with and what
/// it made of them.
pub proof fn law_decoding_has_the_parameters_of_encoding<P>(
    encode: EncodeRun<P>,
    commitments: EncodedCommitments,
    checked: (EncodeAwaitingPieces, VerifyPiecesCall<P>),
    encoded: EmptySectorUpdateEncoded,
    decode: DecodeRun,
)
    requires
        encode.occurs(),
        encode.ends_with(commitments, checked, encoded),
        decode.occurs(),
        decode.config == encode.config,
        decode.p_aux_file@ == encode.p_aux_file@,
        decode.replica_path == encode.new_replica_path,
        decode.sector_key_path == encode.sector_key_path,
        decode.sector_key_cache_path == encode.sector_key_cache_path,
        decode.comm_d_new == encoded.comm_d_new,
    ensures
        decode.end.1.parameters() == encode.end.1.parameters(),
        decode.end.1.nodes_count == encode.end.1.nodes_count,
        decode.end.1.comm_c@ == encode.end.1.comm_c@,
        decode.end.1.comm_r_last@ == encode.end.1.comm_r_last@,
        decode.end.1.h == encode.end.1.h,
        decode.end.1.comm_d_new == commitments.comm_d,
        decode.end.1.replica_path == encode.end.1.new_replica_path,
        decode.end.1.sector_key_path == encode.end.1.sector_key_path,
        decode.end.1.sector_key_cache_path == encode.end.1.sector_key_cache_path,
        decode.end.1.out_data_path == decode.out_data_path,
{
}

/// The outcomes of a removal up to its removal step.
pub struct RemoveRun {
    pub config: SectorUpdateConfig,
    pub sector_key_path: PathBuf,
    pub sector_key_cache_path: PathBuf,
    pub replica_path: PathBuf,
    pub replica_cache_path: PathBuf,
    pub data_path: PathBuf,
    pub comm_d_new: Commitment,
    pub p_aux_file: Vec<u8>,
    pub start: (RemoveAwaitingPAux, CacheRead),
    pub end: (AwaitingOutcome, RemoveCall),
}

impl RemoveRun {
    /// Each outcome is one that the operation can have.
    pub open spec fn occurs(self) -> bool {
        &&& call_ensures(
            remove_encoded_data,
            (
                self.config,
                &self.sector_key_path,
                &self.sector_key_cache_path,
                &self.replica_path,
                &self.replica_cache_path,
                &self.data_path,
                self.comm_d_new,
            ),
            self.start,
        )
        &&& call_ensures(
            RemoveAwaitingPAux::p_aux_read,
            (self.start.0, Ok::<Vec<u8>, anyhow::Error>(self.p_aux_file)),
            Ok::<(AwaitingOutcome, RemoveCall), UpdateError>(self.end),
        )
    }
}

/// Removing data reverses what encoding did: where both have the same configuration, the roots in
/// the cache of the replica are those in the cache of the sector key, and the removal is given the
/// replica, the data and the commitment of the encoding, the removal step is given just what the
/// encoding step was given to encode nodes with and what it made of them.
pub proof fn law_removal_has_the_parameters_of_encoding<P>(
    encode: EncodeRun<P>,
    commitments: EncodedCommitments,
    checked: (EncodeAwaitingPieces, VerifyPiecesCall<P>),
    encoded: EmptySectorUpdateEncoded,
    remove: RemoveRun,
)
    requires
        encode.occurs(),
        encode.ends_with(commitments, checked, encoded),
        remove.occurs(),
        remove.config == encode.config,
        remove.p_aux_file@ == encode.p_aux_file@,
        remove.replica_path == encode.new_replica_path,
        remove.data_path == encode.staged_data_path,
        remove.comm_d_new == encoded.comm_d_new,
    ensures
        remove.end.1.parameters() == encode.end.1.parameters(),
        remove.end.1.nodes_count == encode.end.1.nodes_count,
        remove.end.1.comm_c@ == encode.end.1.comm_c@,
        remove.end.1.comm_r_last@ == encode.end.1.comm_r_last@,
        remove.end.1.h == encode.end.1.h,
        remove.end.1.comm_d_new == commitments.comm_d,
        remove.end.1.replica_path == encode.end.1.new_replica_path,
        remove.end.1.data_path == encode.end.1.staged_data_path,
        remove.end.1.replica_cache_path == remove.replica_cache_path,
        remove.end.1.sector_key_path == remove.sector_key_path,
        remove.end.1.sector_key_cache_path == remove.sector_key_cache_path,
{
}

/// An encoding that got as far as its commitments ends with just these, and with none that is all
/// zero; and it does so if none is all zero and the pieces match.
pub proof fn law_encoding_ends_with_what_was_encoded<P>(
    stage: EncodeAwaitingCommitments<P>,
    commitments: EncodedCommitments,
    checked: Result<(EncodeAwaitingPieces, VerifyPiecesCall<P>), UpdateError>,
    pieces_match: Result<bool, anyhow::Error>,
    result: Result<EmptySectorUpdateEncoded, UpdateError>,
)
    requires
        call_ensures(
            EncodeAwaitingCommitments::<P>::encoded,
            (stage, Ok::<EncodedCommitments, anyhow::Error>(commitments)),
            checked,
        ),
        checked matches Ok((stage, _)) ==> call_ensures(
            EncodeAwaitingPieces::pieces_verified,
            (stage, pieces_match),
            result,
        ),
        checked matches Err(error) ==> result == Err::<EmptySectorUpdateEncoded, UpdateError>(
            error,
        ),
    ensures
        result is Ok <==> {
            &&& !is_all_zero(commitments.comm_d@)
            &&& !is_all_zero(commitments.comm_r@)
            &&& !is_all_zero(commitments.comm_r_last@)
            &&& pieces_match == Ok::<bool, anyhow::Error>(true)
        },
        result matches Ok(encoded) ==> encoded == (EmptySectorUpdateEncoded {
            comm_r_new: commitments.comm_r,
            comm_r_last_new: commitments.comm_r_last,
            comm_d_new: commitments.comm_d,
        }),
{
}

/// The new trees are made with as many discarded rows as the sector's own trees, and are placed
/// in the new cache, wherever the old trees were and whatever their size was.
pub proof fn law_new_trees_keep_the_discarded_rows(
    t_aux_old: TemporaryAux,
    new_cache_path: PathBuf,
    nodes_count: usize,
    shape: TreeShape,
    tree_d: StoreConfig,
    tree_r_last: StoreConfig,
)
    requires
        call_ensures(
            get_new_configs_from_t_aux_old,
            (&t_aux_old, &new_cache_path, nodes_count, &shape),
            Ok::<(StoreConfig, StoreConfig), UpdateError>((tree_d, tree_r_last)),
        ),
    ensures
        tree_d.rows_to_discard == t_aux_old.tree_d_config.rows_to_discard,
        tree_r_last.rows_to_discard == t_aux_old.tree_r_last_config.rows_to_discard,
        tree_d.path == new_cache_path,
        tree_r_last.path == new_cache_path,
        tree_d.size is Some,
        tree_r_last.size is Some,
{
}

/// The outcomes of a prover up to its proving step.
pub struct ProveRun<S> {
    pub p_aux_file: Vec<u8>,
    pub t_aux_file: Vec<u8>,
    pub start: (ProveAwaitingPAux<S>, CacheRead),
    pub middle: (ProveAwaitingTAux<S>, CacheRead),
    pub end: (AwaitingOutcome, ProveCall<S>),
}

impl<S> ProveRun<S> {
    /// Each outcome is one that the stages of the prover can have.
    pub open spec fn occurs(self) -> bool {
        &&& call_ensures(
            ProveAwaitingPAux::<S>::p_aux_read,
            (self.start.0, Ok::<Vec<u8>, anyhow::Error>(self.p_aux_file)),
            Ok::<(ProveAwaitingTAux<S>, CacheRead), UpdateError>(self.middle),
        )
        &&& call_ensures(
            ProveAwaitingTAux::<S>::t_aux_read,
            (self.middle.0, Ok::<Vec<u8>, anyhow::Error>(self.t_aux_file)),
            Ok::<(AwaitingOutcome, ProveCall<S>), UpdateError>(self.end),
        )
    }
}

/// A prover looks for the new trees where the encoding put them, if it is given the cache that
/// the encoding wrote to, and the tree places of the sector are the same.
pub proof fn law_prover_finds_the_encoded_trees<P, S>(encode: EncodeRun<P>, prove: ProveRun<S>)
    requires
        encode.occurs(),
        prove.occurs(),
        prove.start.0.request().config == encode.config,
        prove.start.0.request().shape == encode.shape,
        prove.start.0.request().replica_cache_path == encode.new_cache_path,
        prove.t_aux_file@ == encode.t_aux_file@,
    ensures
        prove.end.1.private_inputs.tree_d_new_config@ == encode.end.1.tree_d_new_config@,
        prove.end.1.private_inputs.tree_d_new_config.path == encode.end.1.tree_d_new_config.path,
        prove.end.1.private_inputs.tree_d_new_config.size == encode.end.1.tree_d_new_config.size,
        prove.end.1.private_inputs.tree_d_new_config.rows_to_discard
            == encode.end.1.tree_d_new_config.rows_to_discard,
        prove.end.1.private_inputs.tree_d_new_config.id@ == encode.end.1.tree_d_new_config.id@,
        prove.end.1.private_inputs.tree_r_new_config@ == encode.end.1.tree_r_last_new_config@,
        prove.end.1.private_inputs.tree_r_new_config.path
            == encode.end.1.tree_r_last_new_config.path,
        prove.end.1.private_inputs.tree_r_new_config.size
            == encode.end.1.tree_r_last_new_config.size,
        prove.end.1.private_inputs.tree_r_new_config.rows_to_discard
            == encode.end.1.tree_r_last_new_config.rows_to_discard,
        prove.end.1.private_inputs.tree_r_new_config.id@ == encode.end.1.tree_r_last_new_config.id@,
{
}

/// The commitments of an update, and the paths that its prover is given.
pub struct UpdateStatement {
    pub config: SectorUpdateConfig,
    pub shape: TreeShape,
    pub comm_r_old: Commitment,
    pub comm_r_new: Commitment,
    pub comm_d_new: Commitment,
    pub sector_key_path: PathBuf,
    pub sector_key_cache_path: PathBuf,
    pub replica_path: PathBuf,
    pub replica_cache_path: PathBuf,
}

impl UpdateStatement {
    /// The outcomes are those of the prover of one partition, on this update.
    pub open spec fn single_proved(self, prove: ProveRun<PublicParams>) -> bool {
        &&& call_ensures(
            generate_single_partition_proof,
            (
                self.config,
                self.shape,
                self.comm_r_old,
                self.comm_r_new,
                self.comm_d_new,
                &self.sector_key_path,
                &self.sector_key_cache_path,
                &self.replica_path,
                &self.replica_cache_path,
            ),
            Ok::<(ProveAwaitingPAux<PublicParams>, CacheRead), UpdateError>(prove.start),
        )
        &&& prove.occurs()
    }

    /// The outcome is that of the verifier of one partition, on this update.
    pub open spec fn single_checked<P>(
        self,
        proof: P,
        verify: (SingleAwaitingVerdict, VerifyCall<PublicParams, P>),
    ) -> bool {
        call_ensures(
            verify_single_partition_proof::<P>,
            (self.config, proof, self.comm_r_old, self.comm_r_new, self.comm_d_new),
            Ok::<(SingleAwaitingVerdict, VerifyCall<PublicParams, P>), UpdateError>(verify),
        )
    }

    /// The outcomes are those of the prover of all partitions, on this update.
    pub open spec fn partitions_proved(self, prove: ProveRun<PartitionSettings>) -> bool {
        &&& call_ensures(
            generate_partition_proofs,
            (
                self.config,
                self.shape,
                self.comm_r_old,
                self.comm_r_new,
                self.comm_d_new,
                &self.sector_key_path,
                &self.sector_key_cache_path,
                &self.replica_path,
                &self.replica_cache_path,
            ),
            Ok::<(ProveAwaitingPAux<PartitionSettings>, CacheRead), UpdateError>(prove.start),
        )
        &&& prove.occurs()
    }

    /// The outcome is that of the verifier of all partitions, on this update.
    pub open spec fn partitions_checked<P>(
        self,
        proofs: Vec<P>,
        verify: (PartitionsAwaitingVerdict, VerifyCall<PublicParams, Vec<P>>),
    ) -> bool {
        call_ensures(
            verify_partition_proofs::<P>,
            (self.config, proofs, self.comm_r_old, self.comm_r_new, self.comm_d_new),
            Ok::<(PartitionsAwaitingVerdict, VerifyCall<PublicParams, Vec<P>>), UpdateError>(
                verify,
            ),
        )
    }

    /// The outcomes are those of the prover of a succinct proof, on this update.
    pub open spec fn succinct_proved(
        self,
        prove: ProveRun<SetupParams>,
        proving: ProveCall<CompoundParams>,
    ) -> bool {
        &&& call_ensures(
            generate_empty_sector_update_proof,
            (
                self.config,
                self.shape,
                self.comm_r_old,
                self.comm_r_new,
                self.comm_d_new,
                &self.sector_key_path,
                &self.sector_key_cache_path,
                &self.replica_path,
                &self.replica_cache_path,
            ),
            Ok::<(ProveAwaitingPAux<SetupParams>, CacheRead), UpdateError>(prove.start),
        )
        &&& prove.occurs()
        &&& call_ensures(
            set_up,
            (prove.end.1,),
            Ok::<ProveCall<CompoundParams>, UpdateError>(proving),
        )
    }

    /// The outcome is that of the verifier of a succinct proof, on this update, up to its key.
    pub open spec fn succinct_checked<'a>(
        self,
        proof_bytes: &'a [u8],
        stage: SuccinctAwaitingKey<'a>,
    ) -> bool {
        call_ensures(
            verify_empty_sector_update_proof,
            (self.config, proof_bytes, self.comm_r_old, self.comm_r_new, self.comm_d_new),
            Ok::<SuccinctAwaitingKey<'a>, UpdateError>(stage),
        )
    }
}

/// The prover and the verifier of one partition speak of the same parameters and the same public
/// inputs, if they are given the same configuration and commitments.
pub proof fn law_single_prover_and_verifier_agree<P>(
    statement: UpdateStatement,
    prove: ProveRun<PublicParams>,
    proof: P,
    verify: (SingleAwaitingVerdict, VerifyCall<PublicParams, P>),
)
    requires
        statement.single_proved(prove),
        statement.single_checked(proof, verify),
    ensures
        verify.1.settings == prove.end.1.settings,
        verify.1.public_inputs.k == prove.end.1.public_inputs.k,
        verify.1.public_inputs.h == prove.end.1.public_inputs.h,
        verify.1.public_inputs@ == prove.end.1.public_inputs@,
        verify.1.proof == proof,
{
}

/// The prover and the verifier of all partitions speak of the same parameters and the same public
/// inputs, if they are given the same configuration and commitments.
pub proof fn law_partitions_prover_and_verifier_agree<P>(
    statement: UpdateStatement,
    prove: ProveRun<PartitionSettings>,
    proofs: Vec<P>,
    verify: (PartitionsAwaitingVerdict, VerifyCall<PublicParams, Vec<P>>),
)
    requires
        statement.partitions_proved(prove),
        statement.partitions_checked(proofs, verify),
    ensures
        verify.1.settings == prove.end.1.settings.public_params,
        verify.1.public_inputs.k == prove.end.1.public_inputs.k,
        verify.1.public_inputs.h == prove.end.1.public_inputs.h,
        verify.1.public_inputs@ == prove.end.1.public_inputs@,
        verify.1.proof == proofs,
{
}

/// The prover and the verifier of a succinct proof speak of the same parameters and the same
/// public inputs, if they are given the same configuration and commitments.
pub proof fn law_succinct_prover_and_verifier_agree<'a, 'k>(
    statement: UpdateStatement,
    prove: ProveRun<SetupParams>,
    proving: ProveCall<CompoundParams>,
    proof_bytes: &'a [u8],
    stage: SuccinctAwaitingKey<'a>,
    key: &'k VerifyingKey,
    verify: (AwaitingOutcome, VerifyCall<CompoundParams, MultiProof<'k>>),
)
    requires
        statement.succinct_proved(prove, proving),
        statement.succinct_checked(proof_bytes, stage),
        call_ensures(
            SuccinctAwaitingKey::<'a>::key_read,
            (stage, Ok::<&'k VerifyingKey, anyhow::Error>(key)),
            Ok::<(AwaitingOutcome, VerifyCall<CompoundParams, MultiProof<'k>>), UpdateError>(
                verify,
            ),
        ),
    ensures
        verify.1.settings == proving.settings,
        verify.1.public_inputs.k == proving.public_inputs.k,
        verify.1.public_inputs.h == proving.public_inputs.h,
        verify.1.public_inputs@ == proving.public_inputs@,
        verifying_key_of(verify.1.proof) == *key,
{
}

/// A proof of one partition passes its check, given that the verifying step accepts the proof that
/// the proving step made where both have the same parameters and the same public inputs.
pub proof fn law_single_proof_passes_if_accepted<P>(
    statement: UpdateStatement,
    prove: ProveRun<PublicParams>,
    made: P,
    proof: P,
    verify: (SingleAwaitingVerdict, VerifyCall<PublicParams, P>),
    verdict: Result<bool, anyhow::Error>,
    valid: Result<bool, UpdateError>,
)
    requires
        statement.single_proved(prove),
        call_ensures(
            AwaitingOutcome::finished::<P>,
            (prove.end.0, Ok::<P, anyhow::Error>(made)),
            Ok::<P, UpdateError>(proof),
        ),
        statement.single_checked(proof, verify),
        ({
            &&& verify.1.settings == prove.end.1.settings
            &&& verify.1.public_inputs@ == prove.end.1.public_inputs@
            &&& verify.1.proof == made
        }) ==> verdict == Ok::<bool, anyhow::Error>(true),
        call_ensures(SingleAwaitingVerdict::verified, (verify.0, verdict), valid),
    ensures
        valid == Ok::<bool, UpdateError>(true),
{
}

/// Proofs of all partitions pass their check, given that the verifying step accepts the proofs that
/// the proving step made where both have the same parameters and the same public inputs.
pub proof fn law_partition_proofs_pass_if_accepted<P>(
    statement: UpdateStatement,
    prove: ProveRun<PartitionSettings>,
    made: Vec<P>,
    proofs: Vec<P>,
    verify: (PartitionsAwaitingVerdict, VerifyCall<PublicParams, Vec<P>>),
    verdict: Result<bool, anyhow::Error>,
    valid: Result<bool, UpdateError>,
)
    requires
        statement.partitions_proved(prove),
        call_ensures(
            AwaitingOutcome::finished::<Vec<P>>,
            (prove.end.0, Ok::<Vec<P>, anyhow::Error>(made)),
            Ok::<Vec<P>, UpdateError>(proofs),
        ),
        statement.partitions_checked(proofs, verify),
        ({
            &&& verify.1.settings == prove.end.1.settings.public_params
            &&& verify.1.public_inputs@ == prove.end.1.public_inputs@
            &&& verify.1.proof == made
        }) ==> verdict == Ok::<bool, anyhow::Error>(true),
        call_ensures(PartitionsAwaitingVerdict::verified, (verify.0, verdict), valid),
    ensures
        valid == Ok::<bool, UpdateError>(true),
{
}

/// A succinct proof passes its check, given that the proving step made one readable circuit proof
/// per partition, that the key was got, and that the verifying step accepts these circuit proofs
/// where both steps have the same parameters and the same public inputs.
pub proof fn law_succinct_proof_passes_if_accepted<'a, 'k>(
    statement: UpdateStatement,
    prove: ProveRun<SetupParams>,
    proving: ProveCall<CompoundParams>,
    made: MultiProof<'_>,
    proof: EmptySectorUpdateProof,
    proof_bytes: &'a [u8],
    stage: SuccinctAwaitingKey<'a>,
    key: &'k VerifyingKey,
    next: Result<(AwaitingOutcome, VerifyCall<CompoundParams, MultiProof<'k>>), UpdateError>,
    verdict: Result<bool, anyhow::Error>,
    result: Result<bool, UpdateError>,
)
    requires
        statement.succinct_proved(prove, proving),
        circuit_proofs_in(made).len() == statement.config.update_partitions,
        call_ensures(
            empty_sector_update_proof,
            (Ok::<MultiProof<'_>, anyhow::Error>(made),),
            Ok::<EmptySectorUpdateProof, UpdateError>(proof),
        ),
        are_proofs(proof.0@, statement.config.update_partitions as nat),
        proof_bytes@ == proof.0@,
        statement.succinct_checked(proof_bytes, stage),
        call_ensures(
            SuccinctAwaitingKey::<'a>::key_read,
            (stage, Ok::<&'k VerifyingKey, anyhow::Error>(key)),
            next,
        ),
        next matches Ok((last, call)) ==> {
            &&& ({
                &&& call.settings == proving.settings
                &&& call.public_inputs@ == proving.public_inputs@
                &&& circuit_proofs_in(call.proof) == circuit_proofs_in(made)
                &&& verifying_key_of(call.proof) == *key
            }) ==> verdict == Ok::<bool, anyhow::Error>(true)
            &&& call_ensures(AwaitingOutcome::finished::<bool>, (last, verdict), result)
        },
        next matches Err(error) ==> result == Err::<bool, UpdateError>(error),
    ensures
        result == Ok::<bool, UpdateError>(true),
{
    assert(proof_part(proof.0@, stage.proof_count()) == proof.0@);
}

/// The check of a succinct proof has a result exactly where the key was got, the bytes begin with
/// as many circuit proofs as the sector has partitions, and the verifying step gave a verdict; and
/// the result is that verdict.
pub proof fn law_succinct_check_ends_with_the_verdict<'a, 'k>(
    config: SectorUpdateConfig,
    comm_r_old: Commitment,
    comm_r_new: Commitment,
    comm_d_new: Commitment,
    proof_bytes: &'a [u8],
    stage: SuccinctAwaitingKey<'a>,
    key: Result<&'k VerifyingKey, anyhow::Error>,
    next: Result<(AwaitingOutcome, VerifyCall<CompoundParams, MultiProof<'k>>), UpdateError>,
    verdict: Result<bool, anyhow::Error>,
    result: Result<bool, UpdateError>,
)
    requires
        call_ensures(
            verify_empty_sector_update_proof,
            (config, proof_bytes, comm_r_old, comm_r_new, comm_d_new),
            Ok::<SuccinctAwaitingKey<'a>, UpdateError>(stage),
        ),
        call_ensures(SuccinctAwaitingKey::<'a>::key_read, (stage, key), next),
        next matches Ok((last, _)) ==> call_ensures(
            AwaitingOutcome::finished::<bool>,
            (last, verdict),
            result,
        ),
        next matches Err(error) ==> result == Err::<bool, UpdateError>(error),
    ensures
        result is Ok <==> {
            &&& key is Ok
            &&& are_proofs(
                proof_part(proof_bytes@, config.update_partitions as nat),
                config.update_partitions as nat,
            )
            &&& verdict is Ok
        },
        result is Ok ==> result->Ok_0 == verdict->Ok_0,
{
}

/// Where the bytes of a succinct proof are read for as many partitions as it was made for, what is
/// read are the circuit proofs that were made.
pub proof fn law_reading_gives_the_proofs_that_were_made<'a, 'k>(
    made: MultiProof<'_>,
    proof: EmptySectorUpdateProof,
    stage: SuccinctAwaitingKey<'a>,
    key: &'k VerifyingKey,
    verify: (AwaitingOutcome, VerifyCall<CompoundParams, MultiProof<'k>>),
)
    requires
        call_ensures(
            empty_sector_update_proof,
            (Ok::<MultiProof<'_>, anyhow::Error>(made),),
            Ok::<EmptySectorUpdateProof, UpdateError>(proof),
        ),
        stage.proof_bytes() == proof.0@,
        stage.proof_count() == circuit_proofs_in(made).len(),
        call_ensures(
            SuccinctAwaitingKey::<'a>::key_read,
            (stage, Ok::<&'k VerifyingKey, anyhow::Error>(key)),
            Ok::<(AwaitingOutcome, VerifyCall<CompoundParams, MultiProof<'k>>), UpdateError>(
                verify,
            ),
        ),
    ensures
        circuit_proofs_in(verify.1.proof) == circuit_proofs_in(made),
{
    assert(proof_part(proof.0@, stage.proof_count()) == proof.0@);
}

/// Circuit proofs that were read from bytes are written as the part that they were read from.
pub proof fn law_writing_gives_the_bytes_that_were_read<'a, 'k>(
    stage: SuccinctAwaitingKey<'a>,
    key: &'k VerifyingKey,
    verify: (AwaitingOutcome, VerifyCall<CompoundParams, MultiProof<'k>>),
    proof: EmptySectorUpdateProof,
)
    requires
        stage.proof_bytes().len() >= CIRCUIT_PROOF_SIZE * stage.proof_count(),
        call_ensures(
            SuccinctAwaitingKey::<'a>::key_read,
            (stage, Ok::<&'k VerifyingKey, anyhow::Error>(key)),
            Ok::<(AwaitingOutcome, VerifyCall<CompoundParams, MultiProof<'k>>), UpdateError>(
                verify,
            ),
        ),
        call_ensures(
            empty_sector_update_proof,
            (Ok::<MultiProof<'k>, anyhow::Error>(verify.1.proof),),
            Ok::<EmptySectorUpdateProof, UpdateError>(proof),
        ),
    ensures
        proof.0@ == proof_part(stage.proof_bytes(), stage.proof_count()),
{
    law_proofs_have_one_form(
        circuit_proofs_in(verify.1.proof),
        proof.0@,
        proof_part(stage.proof_bytes(), stage.proof_count()),
    );
}

/// The three kinds of proof speak of the same update: they have the same vanilla parameters, and
/// their public inputs differ in the partition alone, which is the first for the proof of one
/// partition.
pub proof fn law_proofs_speak_of_the_same_update<P>(
    config: SectorUpdateConfig,
    comm_r_old: Commitment,
    comm_r_new: Commitment,
    comm_d_new: Commitment,
    proof: P,
    proofs: Vec<P>,
    proof_bytes: &[u8],
    single: (SingleAwaitingVerdict, VerifyCall<PublicParams, P>),
    partitions: (PartitionsAwaitingVerdict, VerifyCall<PublicParams, Vec<P>>),
    succinct: SuccinctAwaitingKey<'_>,
)
    requires
        call_ensures(
            verify_single_partition_proof::<P>,
            (config, proof, comm_r_old, comm_r_new, comm_d_new),
            Ok::<(SingleAwaitingVerdict, VerifyCall<PublicParams, P>), UpdateError>(single),
        ),
        call_ensures(
            verify_partition_proofs::<P>,
            (config, proofs, comm_r_old, comm_r_new, comm_d_new),
            Ok::<(PartitionsAwaitingVerdict, VerifyCall<PublicParams, Vec<P>>), UpdateError>(
                partitions,
            ),
        ),
        call_ensures(
            verify_empty_sector_update_proof,
            (config, proof_bytes, comm_r_old, comm_r_new, comm_d_new),
            Ok::<SuccinctAwaitingKey<'_>, UpdateError>(succinct),
        ),
    ensures
        single.1.settings == partitions.1.settings,
        succinct.settings().vanilla_params == partitions.1.settings,
        succinct.public_inputs()@ == partitions.1.public_inputs@,
        single.1.public_inputs.k == 0,
        partitions.1.public_inputs.k == config.update_partitions,
        single.1.public_inputs.comm_r_old@ == partitions.1.public_inputs.comm_r_old@,
        single.1.public_inputs.comm_d_new@ == partitions.1.public_inputs.comm_d_new@,
        single.1.public_inputs.comm_r_new@ == partitions.1.public_inputs.comm_r_new@,
        single.1.public_inputs.h == partitions.1.public_inputs.h,
{
}

/// A check of vanilla proofs, of one partition or of all of them, does not end with `false`.
pub proof fn law_vanilla_checks_do_not_end_with_false(
    single: SingleAwaitingVerdict,
    partitions: PartitionsAwaitingVerdict,
    verdict: Result<bool, anyhow::Error>,
    single_valid: Result<bool, UpdateError>,
    partitions_valid: Result<bool, UpdateError>,
)
    requires
        call_ensures(SingleAwaitingVerdict::verified, (single, verdict), single_valid),
        call_ensures(
            PartitionsAwaitingVerdict::verified,
            (partitions, verdict),
            partitions_valid,
        ),
    ensures
        single_valid != Ok::<bool, UpdateError>(false),
        partitions_valid != Ok::<bool, UpdateError>(false),
        single_valid is Ok <==> verdict == Ok::<bool, anyhow::Error>(true),
        partitions_valid is Ok <==> verdict == Ok::<bool, anyhow::Error>(true),
{
}

} // verus!
