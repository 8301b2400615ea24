//! Putting data into a sector, and taking it out again.
//!
//! Each operation goes in stages. A stage says which outside step comes next, and takes what that
//! step gave to the stage after it, or to the end of the operation.
use std::path::PathBuf;
use vstd::prelude::*;

use crate::cache::{get_new_configs_from_t_aux_old, get_p_aux, get_t_aux, has_tree_d,
    has_tree_r_last, new_tree_d_config, new_tree_r_last_config, p_aux_from_read, t_aux_from_read,
    CacheKey, CacheRead};
use crate::error::UpdateError;
use crate::outcome::AwaitingOutcome;
use crate::outside::{p_aux_of, t_aux_of, tree_r_domain_try_from_bytes};
use crate::types::{is_all_zero, Commitment, EmptySectorUpdateEncoded, PersistentAux,
    PersistentAuxView, SectorUpdateConfig, StoreConfig, TreeShape};

verus! {

/// What the encoding of a node depends on, besides the node and the new data as a whole.
pub struct CodingParameters {
    pub nodes_count: usize,
    pub comm_c: Seq<u8>,
    pub comm_sector_key: Seq<u8>,
    pub h: usize,
}

/// The coding parameters of a sector, given the roots in its cache.
pub open spec fn coding_parameters(
    config: SectorUpdateConfig,
    p_aux: PersistentAuxView,
) -> CodingParameters {
    CodingParameters {
        nodes_count: config.nodes_count,
        comm_c: p_aux.comm_c,
        comm_sector_key: p_aux.comm_r_last,
        h: config.h_select,
    }
}

/// Tells whether every byte is zero.
fn all_zero(commitment: &Commitment) -> (zero: bool)
    ensures
        zero == is_all_zero(commitment@),
{
    let mut i: usize = 0;
    while i < 32
        invariant
            i <= 32,
            forall|j: int| 0 <= j < i ==> commitment@[j] == 0,
        decreases 32 - i,
    {
        if commitment[i] != 0 {
            return false;
        }
        i += 1;
    }
    true
}

/// Reads a root of the sector as a node of the replica tree.
fn tree_r_node(root: &Commitment) -> (node: Result<Commitment, UpdateError>)
    ensures
        node matches Ok(node) && node@ == root@,
{
    match tree_r_domain_try_from_bytes(root) {
        Ok(node) => Ok(node),
        Err(error) => Err(UpdateError::Domain(error)),
    }
}

/// A request to encode data into a replica. The pieces are for the check that follows the
/// encoding; this library does not look into them.
pub struct EncodeRequest<P> {
    pub config: SectorUpdateConfig,
    pub shape: TreeShape,
    pub new_replica_path: PathBuf,
    pub new_cache_path: PathBuf,
    pub sector_key_path: PathBuf,
    pub sector_key_cache_path: PathBuf,
    pub staged_data_path: PathBuf,
    pub pieces: P,
}

impl<P> EncodeRequest<P> {
    /// The nodes and the base trees can be counted.
    pub open spec fn valid(self) -> bool {
        &&& self.config.nodes_count <= usize::MAX / 2
        &&& self.shape.valid()
    }
}

/// The encoding step: what it is given.
pub struct EncodeCall {
    pub nodes_count: usize,
    pub tree_d_new_config: StoreConfig,
    pub tree_r_last_new_config: StoreConfig,
    pub comm_c: Commitment,
    pub comm_r_last: Commitment,
    pub new_replica_path: PathBuf,
    pub new_cache_path: PathBuf,
    pub sector_key_path: PathBuf,
    pub sector_key_cache_path: PathBuf,
    pub staged_data_path: PathBuf,
    pub h: usize,
}

impl EncodeCall {
    pub open spec fn parameters(self) -> CodingParameters {
        CodingParameters {
            nodes_count: self.nodes_count,
            comm_c: self.comm_c@,
            comm_sector_key: self.comm_r_last@,
            h: self.h,
        }
    }
}

/// The commitments that the encoding step gives.
#[derive(Clone, Copy, Debug, PartialEq, Eq)]
pub struct EncodedCommitments {
    pub comm_r: Commitment,
    pub comm_r_last: Commitment,
    pub comm_d: Commitment,
}

/// The piece check: whether `pieces` make up data with the commitment `comm_d`, in a sector of
/// `sector_size` bytes.
pub struct VerifyPiecesCall<P> {
    pub comm_d: Commitment,
    pub pieces: P,
    pub sector_size: u64,
}

/// An encoding that waits for the roots of the sector.
pub struct EncodeAwaitingPAux<P> {
    request: EncodeRequest<P>,
}

/// An encoding that waits for the tree places of the sector.
pub struct EncodeAwaitingTAux<P> {
    request: EncodeRequest<P>,
    p_aux: PersistentAux,
}

/// An encoding that waits for the commitments to what was encoded.
pub struct EncodeAwaitingCommitments<P> {
    pieces: P,
    sector_size: u64,
}

/// An encoding that waits for the piece check. None of its commitments is all zero.
pub struct EncodeAwaitingPieces {
    encoded: EmptySectorUpdateEncoded,
}

/// Encodes data into an existing replica. The replica and its cache are only read; what is
/// encoded goes to `new_replica_path` and `new_cache_path`. The roots of the sector come first,
/// from the cache of its key.
pub fn encode_into<P>(
    config: SectorUpdateConfig,
    shape: TreeShape,
    new_replica_path: &PathBuf,
    new_cache_path: &PathBuf,
    sector_key_path: &PathBuf,
    sector_key_cache_path: &PathBuf,
    staged_data_path: &PathBuf,
    pieces: P,
) -> (next: (EncodeAwaitingPAux<P>, CacheRead))
    requires
        config.nodes_count <= usize::MAX / 2,
        shape.valid(),
    ensures
        next.0.request() == (EncodeRequest {
            config,
            shape,
            new_replica_path: *new_replica_path,
            new_cache_path: *new_cache_path,
            sector_key_path: *sector_key_path,
            sector_key_cache_path: *sector_key_cache_path,
            staged_data_path: *staged_data_path,
            pieces,
        }),
        next.1.asks_for(*sector_key_cache_path, CacheKey::PAux),
{
    let read = get_p_aux(sector_key_cache_path);
    let request = EncodeRequest {
        config,
        shape,
        new_replica_path: new_replica_path.clone(),
        new_cache_path: new_cache_path.clone(),
        sector_key_path: sector_key_path.clone(),
        sector_key_cache_path: sector_key_cache_path.clone(),
        staged_data_path: staged_data_path.clone(),
        pieces,
    };
    (EncodeAwaitingPAux { request }, read)
}

impl<P> EncodeAwaitingPAux<P> {
    #[verifier::type_invariant]
    spec fn inv(self) -> bool {
        self.request.valid()
    }

    pub closed spec fn request(self) -> EncodeRequest<P> {
        self.request
    }

    /// Takes the roots, and asks for the tree places, from the cache of the sector key.
    pub fn p_aux_read(self, read: Result<Vec<u8>, anyhow::Error>) -> (next: Result<
        (EncodeAwaitingTAux<P>, CacheRead),
        UpdateError,
    >)
        ensures
            match read {
                Err(error) => next matches Err(e) && e == UpdateError::Outside(error),
                Ok(bytes) => match p_aux_of(bytes@) {
                    None => next matches Err(UpdateError::MalformedPAux(_)),
                    Some(p_aux) => {
                        &&& next matches Ok((stage, read))
                        &&& stage.request() == self.request()
                        &&& stage.p_aux()@ == p_aux
                        &&& read.asks_for(
                            self.request().sector_key_cache_path,
                            CacheKey::TAux,
                        )
                    },
                },
            },
    {
        proof {
            use_type_invariant(&self);
        }
        match p_aux_from_read(read) {
            Err(error) => Err(error),
            Ok(p_aux) => {
                let read = get_t_aux(&self.request.sector_key_cache_path);
                Ok((EncodeAwaitingTAux { request: self.request, p_aux }, read))
            },
        }
    }
}

impl<P> EncodeAwaitingTAux<P> {
    #[verifier::type_invariant]
    spec fn inv(self) -> bool {
        self.request.valid()
    }

    pub closed spec fn request(self) -> EncodeRequest<P> {
        self.request
    }

    pub closed spec fn p_aux(self) -> PersistentAux {
        self.p_aux
    }

    /// Takes the tree places, and asks for the encoding: with the trees of the new data and of
    /// the new replica placed in the new cache.
    pub fn t_aux_read(self, read: Result<Vec<u8>, anyhow::Error>) -> (next: Result<
        (EncodeAwaitingCommitments<P>, EncodeCall),
        UpdateError,
    >)
        ensures
            match read {
                Err(error) => next matches Err(e) && e == UpdateError::Outside(error),
                Ok(bytes) => match t_aux_of(bytes@, usize::BITS) {
                    None => next matches Err(UpdateError::MalformedTAux(_)),
                    Some(t_aux) => {
                        let request = self.request();
                        let nodes_count = request.config.nodes_count;
                        if !has_tree_d(nodes_count) {
                            next matches Err(UpdateError::TreeDLen(_))
                        } else if !has_tree_r_last(nodes_count, request.shape) {
                            next matches Err(UpdateError::TreeRLastLen(_))
                        } else {
                            &&& next matches Ok((stage, call))
                            &&& stage.pieces() == request.pieces
                            &&& stage.sector_size() == request.config.sector_size
                            &&& call.parameters() == coding_parameters(
                                request.config,
                                self.p_aux()@,
                            )
                            &&& call.tree_d_new_config@ == new_tree_d_config(
                                t_aux,
                                request.new_cache_path,
                                nodes_count,
                            )
                            &&& call.tree_r_last_new_config@ == new_tree_r_last_config(
                                t_aux,
                                request.new_cache_path,
                                nodes_count,
                                request.shape,
                            )
                            &&& call.new_replica_path == request.new_replica_path
                            &&& call.new_cache_path == request.new_cache_path
                            &&& call.sector_key_path == request.sector_key_path
                            &&& call.sector_key_cache_path == request.sector_key_cache_path
                            &&& call.staged_data_path == request.staged_data_path
                        }
                    },
                },
            },
    {
        proof {
            use_type_invariant(&self);
        }
        let EncodeAwaitingTAux { request, p_aux } = self;
        let t_aux = match t_aux_from_read(read) {
            Err(error) => return Err(error),
            Ok(t_aux) => t_aux,
        };
        let (tree_d_new_config, tree_r_last_new_config) = match get_new_configs_from_t_aux_old(
            &t_aux,
            &request.new_cache_path,
            request.config.nodes_count,
            &request.shape,
        ) {
            Err(error) => return Err(error),
            Ok(configs) => configs,
        };
        let comm_c = match tree_r_node(&p_aux.comm_c) {
            Err(error) => return Err(error),
            Ok(node) => node,
        };
        let comm_r_last = match tree_r_node(&p_aux.comm_r_last) {
            Err(error) => return Err(error),
            Ok(node) => node,
        };
        let call = EncodeCall {
            nodes_count: request.config.nodes_count,
            tree_d_new_config,
            tree_r_last_new_config,
            comm_c,
            comm_r_last,
            new_replica_path: request.new_replica_path,
            new_cache_path: request.new_cache_path,
            sector_key_path: request.sector_key_path,
            sector_key_cache_path: request.sector_key_cache_path,
            staged_data_path: request.staged_data_path,
            h: request.config.h_select,
        };
        let stage = EncodeAwaitingCommitments {
            pieces: request.pieces,
            sector_size: request.config.sector_size,
        };
        Ok((stage, call))
    }
}

impl<P> EncodeAwaitingCommitments<P> {
    pub closed spec fn pieces(self) -> P {
        self.pieces
    }

    pub closed spec fn sector_size(self) -> u64 {
        self.sector_size
    }

    /// Takes the commitments, refuses the first that is all zero, and asks for the piece check.
    pub fn encoded(self, encoded: Result<EncodedCommitments, anyhow::Error>) -> (next: Result<
        (EncodeAwaitingPieces, VerifyPiecesCall<P>),
        UpdateError,
    >)
        ensures
            match encoded {
                Err(error) => next matches Err(e) && e == UpdateError::Outside(error),
                Ok(commitments) => {
                    if is_all_zero(commitments.comm_d@) {
                        next matches Err(UpdateError::ZeroCommD)
                    } else if is_all_zero(commitments.comm_r@) {
                        next matches Err(UpdateError::ZeroCommR)
                    } else if is_all_zero(commitments.comm_r_last@) {
                        next matches Err(UpdateError::ZeroCommRLast)
                    } else {
                        &&& next matches Ok((stage, call))
                        &&& stage.encoded() == (EmptySectorUpdateEncoded {
                            comm_r_new: commitments.comm_r,
                            comm_r_last_new: commitments.comm_r_last,
                            comm_d_new: commitments.comm_d,
                        })
                        &&& call.comm_d == commitments.comm_d
                        &&& call.pieces == self.pieces()
                        &&& call.sector_size == self.sector_size()
                    }
                },
            },
    {
        let commitments = match encoded {
            Err(error) => return Err(UpdateError::Outside(error)),
            Ok(commitments) => commitments,
        };
        if all_zero(&commitments.comm_d) {
            return Err(UpdateError::ZeroCommD);
        }
        if all_zero(&commitments.comm_r) {
            return Err(UpdateError::ZeroCommR);
        }
        if all_zero(&commitments.comm_r_last) {
            return Err(UpdateError::ZeroCommRLast);
        }
        let encoded = EmptySectorUpdateEncoded {
            comm_r_new: commitments.comm_r,
            comm_r_last_new: commitments.comm_r_last,
            comm_d_new: commitments.comm_d,
        };
        let call = VerifyPiecesCall {
            comm_d: commitments.comm_d,
            pieces: self.pieces,
            sector_size: self.sector_size,
        };
        Ok((EncodeAwaitingPieces { encoded }, call))
    }
}

impl EncodeAwaitingPieces {
    #[verifier::type_invariant]
    spec fn inv(self) -> bool {
        &&& !is_all_zero(self.encoded.comm_r_new@)
        &&& !is_all_zero(self.encoded.comm_r_last_new@)
        &&& !is_all_zero(self.encoded.comm_d_new@)
    }

    pub closed spec fn encoded(self) -> EmptySectorUpdateEncoded {
        self.encoded
    }

    /// Ends the encoding: with its commitments where the pieces match.
    pub fn pieces_verified(self, verified: Result<bool, anyhow::Error>) -> (result: Result<
        EmptySectorUpdateEncoded,
        UpdateError,
    >)
        ensures
            match verified {
                Err(error) => result matches Err(e) && e == UpdateError::Outside(error),
                Ok(false) => result matches Err(UpdateError::PiecesMismatch),
                Ok(true) => result matches Ok(encoded) && encoded == self.encoded(),
            },
            result matches Ok(encoded) ==> {
                &&& !is_all_zero(encoded.comm_r_new@)
                &&& !is_all_zero(encoded.comm_r_last_new@)
                &&& !is_all_zero(encoded.comm_d_new@)
            },
    {
        proof {
            use_type_invariant(&self);
        }
        match verified {
            Err(error) => Err(UpdateError::Outside(error)),
            Ok(verified) => if verified {
                Ok(self.encoded)
            } else {
                Err(UpdateError::PiecesMismatch)
            },
        }
    }
}

/// A request to decode the data of a replica.
pub struct DecodeRequest {
    pub config: SectorUpdateConfig,
    pub out_data_path: PathBuf,
    pub replica_path: PathBuf,
    pub sector_key_path: PathBuf,
    pub sector_key_cache_path: PathBuf,
    pub comm_d_new: Commitment,
}

/// The decoding step: what it is given.
pub struct DecodeCall {
    pub nodes_count: usize,
    pub out_data_path: PathBuf,
    pub replica_path: PathBuf,
    pub sector_key_path: PathBuf,
    pub sector_key_cache_path: PathBuf,
    pub comm_c: Commitment,
    pub comm_d_new: Commitment,
    pub comm_r_last: Commitment,
    pub h: usize,
}

impl DecodeCall {
    pub open spec fn parameters(self) -> CodingParameters {
        CodingParameters {
            nodes_count: self.nodes_count,
            comm_c: self.comm_c@,
            comm_sector_key: self.comm_r_last@,
            h: self.h,
        }
    }
}

/// A decoding that waits for the roots of the sector.
pub struct DecodeAwaitingPAux {
    request: DecodeRequest,
}

/// Reverses the encoding, and puts the data into `out_data_path`. The roots of the sector come
/// first, from the cache of its key.
pub fn decode_from(
    config: SectorUpdateConfig,
    out_data_path: &PathBuf,
    replica_path: &PathBuf,
    sector_key_path: &PathBuf,
    sector_key_cache_path: &PathBuf,
    comm_d_new: Commitment,
) -> (next: (DecodeAwaitingPAux, CacheRead))
    ensures
        next.0.request() == (DecodeRequest {
            config,
            out_data_path: *out_data_path,
            replica_path: *replica_path,
            sector_key_path: *sector_key_path,
            sector_key_cache_path: *sector_key_cache_path,
            comm_d_new,
        }),
        next.1.asks_for(*sector_key_cache_path, CacheKey::PAux),
{
    let read = get_p_aux(sector_key_cache_path);
    let request = DecodeRequest {
        config,
        out_data_path: out_data_path.clone(),
        replica_path: replica_path.clone(),
        sector_key_path: sector_key_path.clone(),
        sector_key_cache_path: sector_key_cache_path.clone(),
        comm_d_new,
    };
    (DecodeAwaitingPAux { request }, read)
}

impl DecodeAwaitingPAux {
    pub closed spec fn request(self) -> DecodeRequest {
        self.request
    }

    /// Takes the roots, and asks for the decoding.
    pub fn p_aux_read(self, read: Result<Vec<u8>, anyhow::Error>) -> (next: Result<
        (AwaitingOutcome, DecodeCall),
        UpdateError,
    >)
        ensures
            match read {
                Err(error) => next matches Err(e) && e == UpdateError::Outside(error),
                Ok(bytes) => match p_aux_of(bytes@) {
                    None => next matches Err(UpdateError::MalformedPAux(_)),
                    Some(p_aux) => {
                        let request = self.request();
                        &&& next matches Ok((_, call))
                        &&& call.parameters() == coding_parameters(request.config, p_aux)
                        &&& call.comm_d_new == request.comm_d_new
                        &&& call.out_data_path == request.out_data_path
                        &&& call.replica_path == request.replica_path
                        &&& call.sector_key_path == request.sector_key_path
                        &&& call.sector_key_cache_path == request.sector_key_cache_path
                    },
                },
            },
    {
        let DecodeAwaitingPAux { request } = self;
        let p_aux = match p_aux_from_read(read) {
            Err(error) => return Err(error),
            Ok(p_aux) => p_aux,
        };
        let comm_c = match tree_r_node(&p_aux.comm_c) {
            Err(error) => return Err(error),
            Ok(node) => node,
        };
        let comm_r_last = match tree_r_node(&p_aux.comm_r_last) {
            Err(error) => return Err(error),
            Ok(node) => node,
        };
        let call = DecodeCall {
            nodes_count: request.config.nodes_count,
            out_data_path: request.out_data_path,
            replica_path: request.replica_path,
            sector_key_path: request.sector_key_path,
            sector_key_cache_path: request.sector_key_cache_path,
            comm_c,
            comm_d_new: request.comm_d_new,
            comm_r_last,
            h: request.config.h_select,
        };
        Ok((AwaitingOutcome {  }, call))
    }
}

/// A request to take encoded data out of a replica.
pub struct RemoveRequest {
    pub config: SectorUpdateConfig,
    pub sector_key_path: PathBuf,
    pub sector_key_cache_path: PathBuf,
    pub replica_path: PathBuf,
    pub replica_cache_path: PathBuf,
    pub data_path: PathBuf,
    pub comm_d_new: Commitment,
}

/// The removal step: what it is given.
pub struct RemoveCall {
    pub nodes_count: usize,
    pub sector_key_path: PathBuf,
    pub sector_key_cache_path: PathBuf,
    pub replica_path: PathBuf,
    pub replica_cache_path: PathBuf,
    pub data_path: PathBuf,
    pub comm_c: Commitment,
    pub comm_d_new: Commitment,
    pub comm_r_last: Commitment,
    pub h: usize,
}

impl RemoveCall {
    pub open spec fn parameters(self) -> CodingParameters {
        CodingParameters {
            nodes_count: self.nodes_count,
            comm_c: self.comm_c@,
            comm_sector_key: self.comm_r_last@,
            h: self.h,
        }
    }

    /// Asks for the tree places in the cache of the replica, for [`Self::tree_r_last_config`].
    pub fn t_aux_request(&self) -> (read: CacheRead)
        ensures
            read.asks_for(self.replica_cache_path, CacheKey::TAux),
    {
        get_t_aux(&self.replica_cache_path)
    }

    /// Places the tree over the sector key, which the removal makes along with the key: in the
    /// cache of the key, with as many rows discarded as the tree that the replica came with.
    pub fn tree_r_last_config(
        &self,
        shape: &TreeShape,
        read: Result<Vec<u8>, anyhow::Error>,
    ) -> (config: Result<StoreConfig, UpdateError>)
        requires
            self.nodes_count <= usize::MAX / 2,
            shape.valid(),
        ensures
            match read {
                Err(error) => config matches Err(e) && e == UpdateError::Outside(error),
                Ok(bytes) => match t_aux_of(bytes@, usize::BITS) {
                    None => config matches Err(UpdateError::MalformedTAux(_)),
                    Some(t_aux) => {
                        if !has_tree_d(self.nodes_count) {
                            config matches Err(UpdateError::TreeDLen(_))
                        } else if !has_tree_r_last(self.nodes_count, *shape) {
                            config matches Err(UpdateError::TreeRLastLen(_))
                        } else {
                            config matches Ok(config) && config@ == new_tree_r_last_config(
                                t_aux,
                                self.sector_key_cache_path,
                                self.nodes_count,
                                *shape,
                            )
                        }
                    },
                },
            },
    {
        let t_aux = match t_aux_from_read(read) {
            Err(error) => return Err(error),
            Ok(t_aux) => t_aux,
        };
        match get_new_configs_from_t_aux_old(
            &t_aux,
            &self.sector_key_cache_path,
            self.nodes_count,
            shape,
        ) {
            Err(error) => Err(error),
            Ok((_, tree_r_last_config)) => Ok(tree_r_last_config),
        }
    }
}

/// A removal that waits for the roots of the sector.
pub struct RemoveAwaitingPAux {
    request: RemoveRequest,
}

/// Removes encoded data, and puts the sector key into `sector_key_path`. The roots of the sector
/// come first, from the cache of the replica: the sector key is what is being made.
pub fn remove_encoded_data(
    config: SectorUpdateConfig,
    sector_key_path: &PathBuf,
    sector_key_cache_path: &PathBuf,
    replica_path: &PathBuf,
    replica_cache_path: &PathBuf,
    data_path: &PathBuf,
    comm_d_new: Commitment,
) -> (next: (RemoveAwaitingPAux, CacheRead))
    ensures
        next.0.request() == (RemoveRequest {
            config,
            sector_key_path: *sector_key_path,
            sector_key_cache_path: *sector_key_cache_path,
            replica_path: *replica_path,
            replica_cache_path: *replica_cache_path,
            data_path: *data_path,
            comm_d_new,
        }),
        next.1.asks_for(*replica_cache_path, CacheKey::PAux),
{
    let read = get_p_aux(replica_cache_path);
    let request = RemoveRequest {
        config,
        sector_key_path: sector_key_path.clone(),
        sector_key_cache_path: sector_key_cache_path.clone(),
        replica_path: replica_path.clone(),
        replica_cache_path: replica_cache_path.clone(),
        data_path: data_path.clone(),
        comm_d_new,
    };
    (RemoveAwaitingPAux { request }, read)
}

impl RemoveAwaitingPAux {
    pub closed spec fn request(self) -> RemoveRequest {
        self.request
    }

    /// Takes the roots, and asks for the removal.
    pub fn p_aux_read(self, read: Result<Vec<u8>, anyhow::Error>) -> (next: Result<
        (AwaitingOutcome, RemoveCall),
        UpdateError,
    >)
        ensures
            match read {
                Err(error) => next matches Err(e) && e == UpdateError::Outside(error),
                Ok(bytes) => match p_aux_of(bytes@) {
                    None => next matches Err(UpdateError::MalformedPAux(_)),
                    Some(p_aux) => {
                        let request = self.request();
                        &&& next matches Ok((_, call))
                        &&& call.parameters() == coding_parameters(request.config, p_aux)
                        &&& call.comm_d_new == request.comm_d_new
                        &&& call.sector_key_path == request.sector_key_path
                        &&& call.sector_key_cache_path == request.sector_key_cache_path
                        &&& call.replica_path == request.replica_path
                        &&& call.replica_cache_path == request.replica_cache_path
                        &&& call.data_path == request.data_path
                    },
                },
            },
    {
        let RemoveAwaitingPAux { request } = self;
        let p_aux = match p_aux_from_read(read) {
            Err(error) => return Err(error),
            Ok(p_aux) => p_aux,
        };
        let comm_c = match tree_r_node(&p_aux.comm_c) {
            Err(error) => return Err(error),
            Ok(node) => node,
        };
        let comm_r_last = match tree_r_node(&p_aux.comm_r_last) {
            Err(error) => return Err(error),
            Ok(node) => node,
        };
        let call = RemoveCall {
            nodes_count: request.config.nodes_count,
            sector_key_path: request.sector_key_path,
            sector_key_cache_path: request.sector_key_cache_path,
            replica_path: request.replica_path,
            replica_cache_path: request.replica_cache_path,
            data_path: request.data_path,
            comm_c,
            comm_d_new: request.comm_d_new,
            comm_r_last,
            h: request.config.h_select,
        };
        Ok((AwaitingOutcome {  }, call))
    }
}

} // verus!
