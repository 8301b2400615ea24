//! What every update proof starts from: its public inputs, and the stages in which a prover
//! gathers its private inputs.
use std::path::PathBuf;
use vstd::prelude::*;

use crate::cache::{get_new_configs_from_t_aux_old, get_p_aux, get_t_aux, has_tree_d,
    has_tree_r_last, new_tree_d_config, new_tree_r_last_config, p_aux_from_read, t_aux_from_read,
    CacheKey, CacheRead};
use crate::error::UpdateError;
use crate::outcome::AwaitingOutcome;
use crate::outside::{p_aux_of, t_aux_of, tree_d_domain_try_from_bytes,
    tree_r_domain_try_from_bytes};
use crate::types::{Commitment, PersistentAux, PersistentAuxView, PrivateInputs, PrivateInputsView,
    PublicInputs, PublicInputsView, SectorUpdateConfig, TemporaryAuxView, TreeShape};

verus! {

/// The public inputs of a proof for partition `k`: the commitments as they were given, and the
/// number of high bits that the sector is configured with.
pub open spec fn public_inputs_of(
    config: SectorUpdateConfig,
    k: usize,
    comm_r_old: Commitment,
    comm_r_new: Commitment,
    comm_d_new: Commitment,
) -> PublicInputsView {
    PublicInputsView {
        k,
        comm_r_old: comm_r_old@,
        comm_d_new: comm_d_new@,
        comm_r_new: comm_r_new@,
        h: config.h_select,
    }
}

/// Makes the public inputs of a proof for partition `k`. Every commitment can be read as a tree
/// node, so this does not fail.
pub(crate) fn public_inputs(
    config: &SectorUpdateConfig,
    k: usize,
    comm_r_old: &Commitment,
    comm_r_new: &Commitment,
    comm_d_new: &Commitment,
) -> (inputs: Result<PublicInputs, UpdateError>)
    ensures
        inputs matches Ok(inputs) && inputs@ == public_inputs_of(
            *config,
            k,
            *comm_r_old,
            *comm_r_new,
            *comm_d_new,
        ),
{
    let comm_r_old_safe = match tree_r_domain_try_from_bytes(comm_r_old) {
        Ok(node) => node,
        Err(error) => return Err(UpdateError::Domain(error)),
    };
    let comm_r_new_safe = match tree_r_domain_try_from_bytes(comm_r_new) {
        Ok(node) => node,
        Err(error) => return Err(UpdateError::Domain(error)),
    };
    let comm_d_new_safe = match tree_d_domain_try_from_bytes(comm_d_new) {
        Ok(node) => node,
        Err(error) => return Err(UpdateError::Domain(error)),
    };
    Ok(
        PublicInputs {
            k,
            comm_r_old: comm_r_old_safe,
            comm_d_new: comm_d_new_safe,
            comm_r_new: comm_r_new_safe,
            h: config.h_select,
        },
    )
}

/// A request to prove an update: the sector key that the update started from, and the replica
/// that it led to.
pub struct ProveRequest {
    pub config: SectorUpdateConfig,
    pub shape: TreeShape,
    pub sector_key_path: PathBuf,
    pub sector_key_cache_path: PathBuf,
    pub replica_path: PathBuf,
    pub replica_cache_path: PathBuf,
}

impl ProveRequest {
    /// The nodes and the base trees can be counted.
    pub open spec fn valid(self) -> bool {
        &&& self.config.nodes_count <= usize::MAX / 2
        &&& self.shape.valid()
    }
}

/// The private inputs of a proof, given what is in the cache of the sector key. The tree over the
/// sector key stays where its cache says; the trees over the new data and the new replica are in
/// the cache of the replica.
pub open spec fn private_inputs_of(
    request: ProveRequest,
    p_aux: PersistentAuxView,
    t_aux: TemporaryAuxView,
) -> PrivateInputsView {
    PrivateInputsView {
        comm_c: p_aux.comm_c,
        tree_r_old_config: t_aux.tree_r_last_config,
        old_replica_path: request.sector_key_path,
        tree_d_new_config: new_tree_d_config(
            t_aux,
            request.replica_cache_path,
            request.config.nodes_count,
        ),
        tree_r_new_config: new_tree_r_last_config(
            t_aux,
            request.replica_cache_path,
            request.config.nodes_count,
            request.shape,
        ),
        replica_path: request.replica_path,
    }
}

/// The proving step: what it is given. `S` is what one kind of proof is set up with.
pub struct ProveCall<S> {
    pub settings: S,
    pub public_inputs: PublicInputs,
    pub private_inputs: PrivateInputs,
}

/// The verifying step: what it is given. `S` is what one kind of proof is set up with, and `P` is
/// the proof; this library does not look into it.
pub struct VerifyCall<S, P> {
    pub settings: S,
    pub public_inputs: PublicInputs,
    pub proof: P,
}

/// A prover that waits for the roots of the sector.
pub struct ProveAwaitingPAux<S> {
    request: ProveRequest,
    settings: S,
    public_inputs: PublicInputs,
}

/// A prover that waits for the tree places of the sector.
pub struct ProveAwaitingTAux<S> {
    request: ProveRequest,
    settings: S,
    public_inputs: PublicInputs,
    p_aux: PersistentAux,
}

/// Starts a prover, which first asks for the roots in the cache of the sector key.
pub(crate) fn start_proving<S>(request: ProveRequest, settings: S, public_inputs: PublicInputs) -> (
next: (ProveAwaitingPAux<S>, CacheRead))
    requires
        request.valid(),
    ensures
        next.0.request() == request,
        next.0.settings() == settings,
        next.0.public_inputs() == public_inputs,
        next.1.asks_for(request.sector_key_cache_path, CacheKey::PAux),
{
    let read = get_p_aux(&request.sector_key_cache_path);
    (ProveAwaitingPAux { request, settings, public_inputs }, read)
}

impl<S> ProveAwaitingPAux<S> {
    #[verifier::type_invariant]
    spec fn inv(self) -> bool {
        self.request.valid()
    }

    pub closed spec fn request(self) -> ProveRequest {
        self.request
    }

    pub closed spec fn settings(self) -> S {
        self.settings
    }

    pub closed spec fn public_inputs(self) -> PublicInputs {
        self.public_inputs
    }

    /// Takes the roots, and asks for the tree places, from the cache of the sector key.
    pub fn p_aux_read(self, read: Result<Vec<u8>, anyhow::Error>) -> (next: Result<
        (ProveAwaitingTAux<S>, CacheRead),
        UpdateError,
    >)
        ensures
            match read {
                Err(error) => next matches Err(e) && e == UpdateError::Outside(error),
                Ok(bytes) => match p_aux_of(bytes@) {
                    None => next matches Err(UpdateError::MalformedPAux(_)),
                    Some(p_aux) => {
                        &&& next matches Ok((stage, read))
                        &&& stage.request() == self.request()
                        &&& stage.settings() == self.settings()
                        &&& stage.public_inputs() == self.public_inputs()
                        &&& stage.p_aux()@ == p_aux
                        &&& read.asks_for(
                            self.request().sector_key_cache_path,
                            CacheKey::TAux,
                        )
                    },
                },
            },
    {
        proof {
            use_type_invariant(&self);
        }
        let ProveAwaitingPAux { request, settings, public_inputs } = self;
        match p_aux_from_read(read) {
            Err(error) => Err(error),
            Ok(p_aux) => {
                let read = get_t_aux(&request.sector_key_cache_path);
                Ok((ProveAwaitingTAux { request, settings, public_inputs, p_aux }, read))
            },
        }
    }
}

impl<S> ProveAwaitingTAux<S> {
    #[verifier::type_invariant]
    spec fn inv(self) -> bool {
        self.request.valid()
    }

    pub closed spec fn request(self) -> ProveRequest {
        self.request
    }

    pub closed spec fn settings(self) -> S {
        self.settings
    }

    pub closed spec fn public_inputs(self) -> PublicInputs {
        self.public_inputs
    }

    pub closed spec fn p_aux(self) -> PersistentAux {
        self.p_aux
    }

    /// Takes the tree places, and asks for the proof.
    pub fn t_aux_read(self, read: Result<Vec<u8>, anyhow::Error>) -> (next: Result<
        (AwaitingOutcome, ProveCall<S>),
        UpdateError,
    >)
        ensures
            match read {
                Err(error) => next matches Err(e) && e == UpdateError::Outside(error),
                Ok(bytes) => match t_aux_of(bytes@, usize::BITS) {
                    None => next matches Err(UpdateError::MalformedTAux(_)),
                    Some(t_aux) => {
                        let request = self.request();
                        let nodes_count = request.config.nodes_count;
                        if !has_tree_d(nodes_count) {
                            next matches Err(UpdateError::TreeDLen(_))
                        } else if !has_tree_r_last(nodes_count, request.shape) {
                            next matches Err(UpdateError::TreeRLastLen(_))
                        } else {
                            &&& next matches Ok((_, call))
                            &&& call.settings == self.settings()
                            &&& call.public_inputs == self.public_inputs()
                            &&& call.private_inputs@ == private_inputs_of(
                                request,
                                self.p_aux()@,
                                t_aux,
                            )
                        }
                    },
                },
            },
    {
        proof {
            use_type_invariant(&self);
        }
        let ProveAwaitingTAux { request, settings, public_inputs, p_aux } = self;
        let t_aux = match t_aux_from_read(read) {
            Err(error) => return Err(error),
            Ok(t_aux) => t_aux,
        };
        let (tree_d_new_config, tree_r_new_config) = match get_new_configs_from_t_aux_old(
            &t_aux,
            &request.replica_cache_path,
            request.config.nodes_count,
            &request.shape,
        ) {
            Err(error) => return Err(error),
            Ok(configs) => configs,
        };
        let private_inputs = PrivateInputs {
            comm_c: p_aux.comm_c,
            tree_r_old_config: t_aux.tree_r_last_config,
            old_replica_path: request.sector_key_path,
            tree_d_new_config,
            tree_r_new_config,
            replica_path: request.replica_path,
        };
        Ok((AwaitingOutcome {  }, ProveCall { settings, public_inputs, private_inputs }))
    }
}

} // verus!
