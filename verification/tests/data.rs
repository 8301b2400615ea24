//! Encoding, decoding and removing data.
use std::marker::PhantomData;
use std::path::PathBuf;

use filecoin_hashers::sha256::Sha256Hasher;
use storage_proofs_update::constants::TreeRBaseTree;

use sector_update::cache::CacheRead;
use sector_update::data::{
    decode_from, encode_into, remove_encoded_data, EncodeAwaitingCommitments, EncodeAwaitingPAux,
    EncodedCommitments,
};
use sector_update::error::UpdateError;
use sector_update::types::{SectorUpdateConfig, TreeShape};

const SHAPE: TreeShape = TreeShape { arity: 8, sub_tree_arity: 0, top_tree_arity: 0 };

fn config() -> SectorUpdateConfig {
    SectorUpdateConfig { sector_size: 2048, nodes_count: 64, update_partitions: 1, h_select: 1 }
}

fn path(name: &str) -> PathBuf {
    PathBuf::from(name)
}

fn p_aux_file() -> Vec<u8> {
    let mut bytes = vec![1; 32];
    bytes.extend_from_slice(&[2; 32]);
    bytes
}

fn t_aux_file() -> Vec<u8> {
    let place = |id: &str, rows: usize| merkletree::store::StoreConfig {
        path: path("/old"),
        id: id.to_string(),
        size: Some(11),
        rows_to_discard: rows,
    };
    let aux = storage_proofs_porep::stacked::TemporaryAux::<TreeRBaseTree, Sha256Hasher> {
        labels: storage_proofs_porep::stacked::Labels::new(vec![]),
        tree_d_config: place("tree-d", 4),
        tree_r_last_config: place("tree-r-last", 2),
        tree_c_config: place("tree-c", 0),
        _g: PhantomData,
    };
    bincode::serialize(&aux).unwrap()
}

fn start(config: SectorUpdateConfig) -> (EncodeAwaitingPAux<&'static str>, CacheRead) {
    encode_into(
        config,
        SHAPE,
        &path("/new_replica"),
        &path("/new_cache"),
        &path("/key"),
        &path("/key_cache"),
        &path("/staged"),
        "pieces",
    )
}

fn at_commitments() -> EncodeAwaitingCommitments<&'static str> {
    let (stage, _) = start(config());
    let (stage, _) = stage.p_aux_read(Ok(p_aux_file())).ok().unwrap();
    let (stage, _) = stage.t_aux_read(Ok(t_aux_file())).ok().unwrap();
    stage
}

fn commitments() -> EncodedCommitments {
    EncodedCommitments { comm_r: [3; 32], comm_r_last: [4; 32], comm_d: [5; 32] }
}

#[test]
fn encoding_goes_through() {
    let (stage, read) = start(config());
    assert_eq!((read.dir, read.name.as_str()), (path("/key_cache"), "p_aux"));

    let (stage, read) = stage.p_aux_read(Ok(p_aux_file())).ok().unwrap();
    assert_eq!((read.dir, read.name.as_str()), (path("/key_cache"), "t_aux"));

    let (stage, call) = stage.t_aux_read(Ok(t_aux_file())).ok().unwrap();
    assert_eq!(call.nodes_count, 64);
    assert_eq!(call.h, 1);
    assert_eq!(call.comm_c, [1; 32]);
    assert_eq!(call.comm_r_last, [2; 32]);
    assert_eq!(call.new_replica_path, path("/new_replica"));
    assert_eq!(call.new_cache_path, path("/new_cache"));
    assert_eq!(call.sector_key_path, path("/key"));
    assert_eq!(call.sector_key_cache_path, path("/key_cache"));
    assert_eq!(call.staged_data_path, path("/staged"));
    assert_eq!(call.tree_d_new_config.path, path("/new_cache"));
    assert_eq!(call.tree_d_new_config.size, Some(127));
    assert_eq!(call.tree_d_new_config.rows_to_discard, 4);
    assert_eq!(call.tree_r_last_new_config.path, path("/new_cache"));
    assert_eq!(call.tree_r_last_new_config.size, Some(73));
    assert_eq!(call.tree_r_last_new_config.rows_to_discard, 2);

    let (stage, check) = stage.encoded(Ok(commitments())).ok().unwrap();
    assert_eq!(check.comm_d, [5; 32]);
    assert_eq!(check.pieces, "pieces");
    assert_eq!(check.sector_size, 2048);

    let encoded = stage.pieces_verified(Ok(true)).unwrap();
    assert_eq!(encoded.comm_r_new, [3; 32]);
    assert_eq!(encoded.comm_r_last_new, [4; 32]);
    assert_eq!(encoded.comm_d_new, [5; 32]);
}

#[test]
fn encoding_stops_at_unread_caches() {
    let (stage, _) = start(config());
    match stage.p_aux_read(Err(anyhow::Error::msg("gone"))) {
        Err(UpdateError::Outside(error)) => assert_eq!(error.to_string(), "gone"),
        _ => panic!("expected the read failure"),
    }
    let (stage, _) = start(config());
    assert!(matches!(stage.p_aux_read(Ok(vec![0; 10])), Err(UpdateError::MalformedPAux(_))));

    let (stage, _) = start(config());
    let (stage, _) = stage.p_aux_read(Ok(p_aux_file())).ok().unwrap();
    match stage.t_aux_read(Err(anyhow::Error::msg("gone"))) {
        Err(UpdateError::Outside(error)) => assert_eq!(error.to_string(), "gone"),
        _ => panic!("expected the read failure"),
    }
    let (stage, _) = start(config());
    let (stage, _) = stage.p_aux_read(Ok(p_aux_file())).ok().unwrap();
    assert!(matches!(stage.t_aux_read(Ok(vec![0; 10])), Err(UpdateError::MalformedTAux(_))));
}

#[test]
fn encoding_stops_where_there_are_no_trees() {
    let (stage, _) = start(SectorUpdateConfig { nodes_count: 63, ..config() });
    let (stage, _) = stage.p_aux_read(Ok(p_aux_file())).ok().unwrap();
    assert!(matches!(stage.t_aux_read(Ok(t_aux_file())), Err(UpdateError::TreeDLen(_))));

    let (stage, _) = start(SectorUpdateConfig { nodes_count: 4, ..config() });
    let (stage, _) = stage.p_aux_read(Ok(p_aux_file())).ok().unwrap();
    assert!(matches!(stage.t_aux_read(Ok(t_aux_file())), Err(UpdateError::TreeRLastLen(_))));
}

#[test]
fn encoding_refuses_zero_commitments_in_order() {
    let zero = EncodedCommitments { comm_r: [0; 32], comm_r_last: [0; 32], comm_d: [0; 32] };
    assert!(matches!(at_commitments().encoded(Ok(zero)), Err(UpdateError::ZeroCommD)));
    let zero = EncodedCommitments { comm_d: [5; 32], ..zero };
    assert!(matches!(at_commitments().encoded(Ok(zero)), Err(UpdateError::ZeroCommR)));
    let zero = EncodedCommitments { comm_r: [5; 32], ..zero };
    assert!(matches!(at_commitments().encoded(Ok(zero)), Err(UpdateError::ZeroCommRLast)));
}

#[test]
fn one_byte_makes_a_commitment() {
    let mut commitment = [0; 32];
    commitment[31] = 1;
    let made = EncodedCommitments { comm_r: commitment, comm_r_last: commitment, comm_d: commitment };
    assert!(at_commitments().encoded(Ok(made)).is_ok());
}

#[test]
fn encoding_hands_on_the_failure_of_its_steps() {
    match at_commitments().encoded(Err(anyhow::Error::msg("disk full"))) {
        Err(UpdateError::Outside(error)) => assert_eq!(error.to_string(), "disk full"),
        _ => panic!("expected the failure of the step"),
    }
    let (stage, _) = at_commitments().encoded(Ok(commitments())).ok().unwrap();
    match stage.pieces_verified(Err(anyhow::Error::msg("bad piece"))) {
        Err(UpdateError::Outside(error)) => assert_eq!(error.to_string(), "bad piece"),
        _ => panic!("expected the failure of the step"),
    }
}

#[test]
fn encoding_refuses_other_pieces() {
    let (stage, _) = at_commitments().encoded(Ok(commitments())).ok().unwrap();
    assert!(matches!(stage.pieces_verified(Ok(false)), Err(UpdateError::PiecesMismatch)));
}

#[test]
fn decoding_has_the_parameters_of_encoding() {
    let (stage, read) = decode_from(
        config(),
        &path("/out"),
        &path("/replica"),
        &path("/key"),
        &path("/key_cache"),
        [5; 32],
    );
    assert_eq!((read.dir, read.name.as_str()), (path("/key_cache"), "p_aux"));
    let (stage, call) = stage.p_aux_read(Ok(p_aux_file())).ok().unwrap();

    let (encode, _) = start(config());
    let (encode, _) = encode.p_aux_read(Ok(p_aux_file())).ok().unwrap();
    let (_, encode_call) = encode.t_aux_read(Ok(t_aux_file())).ok().unwrap();
    assert_eq!(call.nodes_count, encode_call.nodes_count);
    assert_eq!(call.comm_c, encode_call.comm_c);
    assert_eq!(call.comm_r_last, encode_call.comm_r_last);
    assert_eq!(call.h, encode_call.h);

    assert_eq!(call.comm_d_new, [5; 32]);
    assert_eq!(call.out_data_path, path("/out"));
    assert_eq!(call.replica_path, path("/replica"));
    assert_eq!(call.sector_key_path, path("/key"));
    assert_eq!(call.sector_key_cache_path, path("/key_cache"));
    assert!(stage.finished(Ok(())).is_ok());
}

#[test]
fn decoding_hands_on_failures() {
    let begin = || {
        decode_from(config(), &path("/o"), &path("/r"), &path("/k"), &path("/c"), [5; 32]).0
    };
    assert!(matches!(begin().p_aux_read(Ok(vec![])), Err(UpdateError::MalformedPAux(_))));
    assert!(matches!(
        begin().p_aux_read(Err(anyhow::Error::msg("gone"))),
        Err(UpdateError::Outside(_))
    ));
    let (stage, _) = begin().p_aux_read(Ok(p_aux_file())).ok().unwrap();
    match stage.finished::<()>(Err(anyhow::Error::msg("no space"))) {
        Err(UpdateError::Outside(error)) => assert_eq!(error.to_string(), "no space"),
        _ => panic!("expected the failure of the step"),
    }
}

#[test]
fn removal_reads_the_cache_of_the_replica() {
    let (stage, read) = remove_encoded_data(
        config(),
        &path("/key"),
        &path("/key_cache"),
        &path("/replica"),
        &path("/replica_cache"),
        &path("/data"),
        [6; 32],
    );
    assert_eq!((read.dir, read.name.as_str()), (path("/replica_cache"), "p_aux"));
    let (stage, call) = stage.p_aux_read(Ok(p_aux_file())).ok().unwrap();
    assert_eq!(call.nodes_count, 64);
    assert_eq!(call.h, 1);
    assert_eq!(call.comm_c, [1; 32]);
    assert_eq!(call.comm_r_last, [2; 32]);
    assert_eq!(call.comm_d_new, [6; 32]);
    assert_eq!(call.sector_key_path, path("/key"));
    assert_eq!(call.sector_key_cache_path, path("/key_cache"));
    assert_eq!(call.replica_path, path("/replica"));
    assert_eq!(call.replica_cache_path, path("/replica_cache"));
    assert_eq!(call.data_path, path("/data"));
    assert!(stage.finished(Ok(())).is_ok());
}

#[test]
fn removal_places_the_tree_over_the_sector_key() {
    let call = |nodes_count: usize| {
        let (stage, _) = remove_encoded_data(
            SectorUpdateConfig { nodes_count, ..config() },
            &path("/key"),
            &path("/key_cache"),
            &path("/replica"),
            &path("/replica_cache"),
            &path("/data"),
            [6; 32],
        );
        stage.p_aux_read(Ok(p_aux_file())).ok().unwrap().1
    };
    let read = call(64).t_aux_request();
    assert_eq!((read.dir, read.name.as_str()), (path("/replica_cache"), "t_aux"));

    let place = call(64).tree_r_last_config(&SHAPE, Ok(t_aux_file())).unwrap();
    assert_eq!(place.path, path("/key_cache"));
    assert_eq!(place.id, "tree-r-last");
    assert_eq!(place.size, Some(73));
    assert_eq!(place.rows_to_discard, 2);

    match call(64).tree_r_last_config(&SHAPE, Err(anyhow::Error::msg("gone"))) {
        Err(UpdateError::Outside(error)) => assert_eq!(error.to_string(), "gone"),
        _ => panic!("expected the read failure"),
    }
    assert!(matches!(
        call(64).tree_r_last_config(&SHAPE, Ok(vec![])),
        Err(UpdateError::MalformedTAux(_))
    ));
    assert!(matches!(
        call(63).tree_r_last_config(&SHAPE, Ok(t_aux_file())),
        Err(UpdateError::TreeDLen(_))
    ));
    assert!(matches!(
        call(4).tree_r_last_config(&SHAPE, Ok(t_aux_file())),
        Err(UpdateError::TreeRLastLen(_))
    ));
}

#[test]
fn failures_are_described() {
    assert_eq!(UpdateError::ZeroCommD.message(), Some("Invalid all zero commitment (comm_d)"));
    assert_eq!(UpdateError::ZeroCommR.message(), Some("Invalid all zero commitment (comm_r)"));
    assert_eq!(UpdateError::ZeroCommRLast.message(), Some("Invalid all zero commitment (comm_r)"));
    assert_eq!(UpdateError::PiecesMismatch.message(), Some("pieces and comm_d do not match"));
    assert_eq!(UpdateError::InvalidVanillaProof.message(), Some("vanilla proof is invalid"));
    assert_eq!(UpdateError::InvalidVanillaProofs.message(), Some("vanilla proofs are invalid"));
    assert_eq!(UpdateError::Outside(anyhow::Error::msg("other")).message(), None);
}
