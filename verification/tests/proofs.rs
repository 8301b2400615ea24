//! Proofs of an update, and their checks.
use std::marker::PhantomData;
use std::path::PathBuf;
use std::sync::Arc;

use bellperson::groth16::prepare_verifying_key;
use blstrs::{Bls12, G1Affine, G2Affine};
use filecoin_hashers::sha256::Sha256Hasher;
use storage_proofs_core::multi_proof::MultiProof;
use storage_proofs_update::constants::TreeRBaseTree;

use sector_update::data::encode_into;
use sector_update::error::UpdateError;
use sector_update::outside::VerifyingKey;
use sector_update::partition::{
    generate_partition_proofs, generate_single_partition_proof, verify_partition_proofs,
    verify_single_partition_proof,
};
use sector_update::proof_bytes::CIRCUIT_PROOF_SIZE;
use sector_update::proving::{ProveAwaitingPAux, ProveCall};
use sector_update::succinct::{
    empty_sector_update_proof, generate_empty_sector_update_proof, set_up,
    verify_empty_sector_update_proof,
};
use sector_update::types::{SectorUpdateConfig, TreeShape};

const SHAPE: TreeShape = TreeShape { arity: 8, sub_tree_arity: 8, top_tree_arity: 2 };
const R_OLD: [u8; 32] = [7; 32];
const R_NEW: [u8; 32] = [255; 32];
const D_NEW: [u8; 32] = [9; 32];

fn config() -> SectorUpdateConfig {
    SectorUpdateConfig { sector_size: 32768, nodes_count: 1024, update_partitions: 2, h_select: 1 }
}

fn path(name: &str) -> PathBuf {
    PathBuf::from(name)
}

fn p_aux_file() -> Vec<u8> {
    let mut bytes = vec![1; 32];
    bytes.extend_from_slice(&[2; 32]);
    bytes
}

fn t_aux_file() -> Vec<u8> {
    let place = |id: &str, rows: usize| merkletree::store::StoreConfig {
        path: path("/old"),
        id: id.to_string(),
        size: Some(73),
        rows_to_discard: rows,
    };
    let aux = storage_proofs_porep::stacked::TemporaryAux::<TreeRBaseTree, Sha256Hasher> {
        labels: storage_proofs_porep::stacked::Labels::new(vec![place("layer-1", 0)]),
        tree_d_config: place("tree-d", 4),
        tree_r_last_config: place("tree-r-last", 2),
        tree_c_config: place("tree-c", 0),
        _g: PhantomData,
    };
    bincode::serialize(&aux).unwrap()
}

/// The generators of the two groups, in compressed form.
const G1: [u8; 48] = [
    0x97, 0xf1, 0xd3, 0xa7, 0x31, 0x97, 0xd7, 0x94, 0x26, 0x95, 0x63, 0x8c, 0x4f, 0xa9, 0xac, 0x0f,
    0xc3, 0x68, 0x8c, 0x4f, 0x97, 0x74, 0xb9, 0x05, 0xa1, 0x4e, 0x3a, 0x3f, 0x17, 0x1b, 0xac, 0x58,
    0x6c, 0x55, 0xe8, 0x3f, 0xf9, 0x7a, 0x1a, 0xef, 0xfb, 0x3a, 0xf0, 0x0a, 0xdb, 0x22, 0xc6, 0xbb,
];
const G2: [u8; 96] = [
    0x93, 0xe0, 0x2b, 0x60, 0x52, 0x71, 0x9f, 0x60, 0x7d, 0xac, 0xd3, 0xa0, 0x88, 0x27, 0x4f, 0x65,
    0x59, 0x6b, 0xd0, 0xd0, 0x99, 0x20, 0xb6, 0x1a, 0xb5, 0xda, 0x61, 0xbb, 0xdc, 0x7f, 0x50, 0x49,
    0x33, 0x4c, 0xf1, 0x12, 0x13, 0x94, 0x5d, 0x57, 0xe5, 0xac, 0x7d, 0x05, 0x5d, 0x04, 0x2b, 0x7e,
    0x02, 0x4a, 0xa2, 0xb2, 0xf0, 0x8f, 0x0a, 0x91, 0x26, 0x08, 0x05, 0x27, 0x2d, 0xc5, 0x10, 0x51,
    0xc6, 0xe4, 0x7a, 0xd4, 0xfa, 0x40, 0x3b, 0x02, 0xb4, 0x51, 0x0b, 0x64, 0x7a, 0xe3, 0xd1, 0x77,
    0x0b, 0xac, 0x03, 0x26, 0xa8, 0x05, 0xbb, 0xef, 0xd4, 0x80, 0x56, 0xc8, 0xc1, 0x21, 0xbd, 0xb8,
];

fn g1() -> G1Affine {
    G1Affine::from_compressed(&G1).unwrap()
}

fn g2() -> G2Affine {
    G2Affine::from_compressed(&G2).unwrap()
}

/// The bytes of two circuit proofs that differ in every point.
fn two_proofs() -> Vec<u8> {
    let mut bytes = vec![];
    bytes.extend_from_slice(&g1().to_compressed());
    bytes.extend_from_slice(&g2().to_compressed());
    bytes.extend_from_slice(&(-g1()).to_compressed());
    bytes.extend_from_slice(&(-g1()).to_compressed());
    bytes.extend_from_slice(&(-g2()).to_compressed());
    bytes.extend_from_slice(&g1().to_compressed());
    bytes
}

fn key() -> VerifyingKey {
    let key = prepare_verifying_key::<Bls12>(&bellperson::groth16::VerifyingKey {
        alpha_g1: g1(),
        beta_g1: g1(),
        beta_g2: g2(),
        gamma_g2: g2(),
        delta_g1: g1(),
        delta_g2: g2(),
        ic: vec![g1()],
    });
    VerifyingKey { key: Arc::new(key) }
}

fn finish<S>(stage: ProveAwaitingPAux<S>) -> ProveCall<S> {
    let (stage, read) = stage.p_aux_read(Ok(p_aux_file())).ok().unwrap();
    assert_eq!((read.dir, read.name.as_str()), (path("/key_cache"), "t_aux"));
    let (stage, call) = stage.t_aux_read(Ok(t_aux_file())).ok().unwrap();
    assert_eq!(stage.finished(Ok("proof")).unwrap(), "proof");

    assert_eq!(call.public_inputs.comm_r_old, R_OLD);
    assert_eq!(call.public_inputs.comm_r_new, R_NEW);
    assert_eq!(call.public_inputs.comm_d_new, D_NEW);
    assert_eq!(call.public_inputs.h, 1);

    let private = &call.private_inputs;
    assert_eq!(private.comm_c, [1; 32]);
    assert_eq!(private.old_replica_path, path("/key"));
    assert_eq!(private.replica_path, path("/replica"));
    assert_eq!(private.tree_r_old_config.path, "/old");
    assert_eq!(private.tree_r_old_config.id, "tree-r-last");
    assert_eq!(private.tree_r_old_config.size, Some(73));
    assert_eq!(private.tree_r_old_config.rows_to_discard, 2);
    assert_eq!(private.tree_d_new_config.path, path("/replica_cache"));
    assert_eq!(private.tree_d_new_config.id, "tree-d");
    assert_eq!(private.tree_d_new_config.size, Some(2047));
    assert_eq!(private.tree_d_new_config.rows_to_discard, 4);
    assert_eq!(private.tree_r_new_config.path, path("/replica_cache"));
    assert_eq!(private.tree_r_new_config.id, "tree-r-last");
    assert_eq!(private.tree_r_new_config.size, Some(73));
    assert_eq!(private.tree_r_new_config.rows_to_discard, 2);
    call
}

fn prove_single() -> ProveCall<sector_update::types::PublicParams> {
    let (stage, read) = generate_single_partition_proof(
        config(), SHAPE, R_OLD, R_NEW, D_NEW,
        &path("/key"), &path("/key_cache"), &path("/replica"), &path("/replica_cache"),
    )
    .ok()
    .unwrap();
    assert_eq!((read.dir, read.name.as_str()), (path("/key_cache"), "p_aux"));
    finish(stage)
}

fn start_succinct() -> ProveAwaitingPAux<sector_update::types::SetupParams> {
    generate_empty_sector_update_proof(
        config(), SHAPE, R_OLD, R_NEW, D_NEW,
        &path("/key"), &path("/key_cache"), &path("/replica"), &path("/replica_cache"),
    )
    .ok()
    .unwrap()
    .0
}

#[test]
fn parameters_follow_from_the_sector_size() {
    let mut sizes: Vec<u64> = vec![];
    for nodes in storage_proofs_update::constants::ALLOWED_SECTOR_SIZES {
        sizes.push((nodes as u64) << 5);
    }
    assert_eq!(sizes.len(), 11);
    for sector_size in sizes {
        let config = SectorUpdateConfig { sector_size, ..config() };
        let (_, call) = verify_single_partition_proof(config, (), R_OLD, R_NEW, D_NEW).ok().unwrap();
        let real = storage_proofs_update::PublicParams::from_sector_size(sector_size);
        assert_eq!(call.settings.sector_nodes, real.sector_nodes);
        assert_eq!(call.settings.challenge_count, real.challenge_count);
        assert_eq!(call.settings.challenge_bit_len, real.challenge_bit_len);
        assert_eq!(call.settings.partition_count, real.partition_count);
        assert_eq!(call.settings.partition_bit_len, real.partition_bit_len);
        assert_eq!(call.settings.apex_leaf_count, real.apex_leaf_count);
        assert_eq!(call.settings.apex_leaf_bit_len, real.apex_leaf_bit_len);
    }
}

#[test]
fn parameters_of_known_sectors() {
    let settings = |sector_size: u64| {
        let config = SectorUpdateConfig { sector_size, ..config() };
        let (_, call) = verify_single_partition_proof(config, (), R_OLD, R_NEW, D_NEW).ok().unwrap();
        call.settings
    };
    let small = settings(1 << 11);
    assert_eq!(small.sector_nodes, 64);
    assert_eq!(small.challenge_count, 10);
    assert_eq!(small.challenge_bit_len, 6);
    assert_eq!(small.partition_count, 1);
    assert_eq!(small.partition_bit_len, 0);
    assert_eq!(small.apex_leaf_count, 8);
    assert_eq!(small.apex_leaf_bit_len, 3);
    let large = settings(1 << 35);
    assert_eq!(large.sector_nodes, 1 << 30);
    assert_eq!(large.challenge_count, 86);
    assert_eq!(large.challenge_bit_len, 30);
    assert_eq!(large.partition_count, 16);
    assert_eq!(large.partition_bit_len, 4);
    assert_eq!(large.apex_leaf_count, 128);
    assert_eq!(large.apex_leaf_bit_len, 7);
}

#[test]
fn single_prover_and_verifier_agree() {
    let prove = prove_single();
    assert_eq!(prove.public_inputs.k, 0);
    assert_eq!(prove.settings.sector_nodes, 1024);
    assert_eq!(prove.settings.partition_count, 2);

    let (_, verify) =
        verify_single_partition_proof(config(), "proof", R_OLD, R_NEW, D_NEW).ok().unwrap();
    assert_eq!(verify.settings, prove.settings);
    assert_eq!(verify.public_inputs, prove.public_inputs);
    assert_eq!(verify.proof, "proof");
}

#[test]
fn partitions_prover_and_verifier_agree() {
    let (stage, _) = generate_partition_proofs(
        config(), SHAPE, R_OLD, R_NEW, D_NEW,
        &path("/key"), &path("/key_cache"), &path("/replica"), &path("/replica_cache"),
    )
    .ok()
    .unwrap();
    let prove = finish(stage);
    assert_eq!(prove.public_inputs.k, 2);
    assert_eq!(prove.settings.partitions, 2);

    let (_, verify) =
        verify_partition_proofs(config(), vec!["a", "b"], R_OLD, R_NEW, D_NEW).ok().unwrap();
    assert_eq!(verify.settings, prove.settings.public_params);
    assert_eq!(verify.public_inputs, prove.public_inputs);
    assert_eq!(verify.proof, vec!["a", "b"]);
}

#[test]
fn succinct_prover_and_verifier_agree() {
    let prove = finish(start_succinct());
    assert_eq!(prove.public_inputs.k, 2);
    assert_eq!(prove.settings.sector_bytes, 32768);
    assert_eq!(prove.settings.partitions, Some(2));
    assert!(prove.settings.priority);

    let public_inputs = prove.public_inputs;
    let proving = set_up(prove).ok().unwrap();
    assert_eq!(proving.public_inputs, public_inputs);
    assert_eq!(proving.private_inputs.replica_path, path("/replica"));
    assert_eq!(proving.settings.vanilla_params, prove_single().settings);
    assert_eq!(proving.settings.vanilla_params.sector_nodes, 1024);
    assert_eq!(proving.settings.partitions, Some(2));
    assert!(proving.settings.priority);

    let bytes = two_proofs();
    let held = key();
    let stage =
        verify_empty_sector_update_proof(config(), &bytes, R_OLD, R_NEW, D_NEW).ok().unwrap();
    let (stage, verify) = stage.key_read(Ok(&held)).ok().unwrap();
    assert_eq!(verify.settings, proving.settings);
    assert_eq!(verify.public_inputs, proving.public_inputs);
    assert!(std::ptr::eq(verify.proof.verifying_key, &*held.key));
    assert!(!stage.finished(Ok(false)).unwrap());
}

#[test]
fn prover_stops_at_unread_caches() {
    assert!(matches!(
        start_succinct().p_aux_read(Ok(vec![0; 63])),
        Err(UpdateError::MalformedPAux(_))
    ));
    match start_succinct().p_aux_read(Err(anyhow::Error::msg("gone"))) {
        Err(UpdateError::Outside(error)) => assert_eq!(error.to_string(), "gone"),
        _ => panic!("expected the read failure"),
    }
    let (stage, _) = start_succinct().p_aux_read(Ok(p_aux_file())).ok().unwrap();
    assert!(matches!(stage.t_aux_read(Ok(vec![1; 3])), Err(UpdateError::MalformedTAux(_))));
    let (stage, _) = start_succinct().p_aux_read(Ok(p_aux_file())).ok().unwrap();
    match stage.t_aux_read(Err(anyhow::Error::msg("gone"))) {
        Err(UpdateError::Outside(error)) => assert_eq!(error.to_string(), "gone"),
        _ => panic!("expected the read failure"),
    }
}

#[test]
fn prover_stops_where_there_are_no_trees() {
    let run = |nodes_count: usize| {
        let config = SectorUpdateConfig { nodes_count, ..config() };
        let (stage, _) = generate_partition_proofs(
            config, SHAPE, R_OLD, R_NEW, D_NEW,
            &path("/key"), &path("/key_cache"), &path("/replica"), &path("/replica_cache"),
        )
        .ok()
        .unwrap();
        let (stage, _) = stage.p_aux_read(Ok(p_aux_file())).ok().unwrap();
        stage.t_aux_read(Ok(t_aux_file()))
    };
    assert!(matches!(run(1000), Err(UpdateError::TreeDLen(_))));
    assert!(matches!(run(64), Err(UpdateError::TreeRLastLen(_))));
    assert!(run(128).is_ok());
}

#[test]
fn invalid_vanilla_proofs_are_errors() {
    let single = || {
        verify_single_partition_proof(config(), (), R_OLD, R_NEW, D_NEW).ok().unwrap().0
    };
    assert!(single().verified(Ok(true)).unwrap());
    assert!(matches!(single().verified(Ok(false)), Err(UpdateError::InvalidVanillaProof)));
    match single().verified(Err(anyhow::Error::msg("bad `h`"))) {
        Err(UpdateError::Outside(error)) => assert_eq!(error.to_string(), "bad `h`"),
        _ => panic!("expected the failure of the step"),
    }

    let all = || {
        verify_partition_proofs(config(), vec![()], R_OLD, R_NEW, D_NEW).ok().unwrap().0
    };
    assert!(all().verified(Ok(true)).unwrap());
    assert!(matches!(all().verified(Ok(false)), Err(UpdateError::InvalidVanillaProofs)));
    assert!(matches!(
        all().verified(Err(anyhow::Error::msg("too few"))),
        Err(UpdateError::Outside(_))
    ));
}

#[test]
fn circuit_proofs_are_read_from_their_bytes() {
    let bytes = two_proofs();
    assert_eq!(bytes.len(), 2 * CIRCUIT_PROOF_SIZE);
    let held = key();
    let stage =
        verify_empty_sector_update_proof(config(), &bytes, R_OLD, R_NEW, D_NEW).ok().unwrap();
    let (stage, call) = stage.key_read(Ok(&held)).ok().unwrap();
    let proofs = &call.proof.circuit_proofs;
    assert_eq!(proofs.len(), 2);
    assert_eq!((proofs[0].a, proofs[0].b, proofs[0].c), (g1(), g2(), -g1()));
    assert_eq!((proofs[1].a, proofs[1].b, proofs[1].c), (-g1(), -g2(), g1()));
    assert!(stage.finished(Ok(true)).unwrap());
}

#[test]
fn succinct_check_hands_on_failures() {
    let bytes = two_proofs();
    let held = key();
    let start =
        || verify_empty_sector_update_proof(config(), &bytes, R_OLD, R_NEW, D_NEW).ok().unwrap();
    match start().key_read(Err(anyhow::Error::msg("no key"))) {
        Err(UpdateError::Outside(error)) => assert_eq!(error.to_string(), "no key"),
        _ => panic!("expected the failure of the step"),
    }
    match start().proofs_read(Err(anyhow::Error::msg("no proof"))) {
        Err(UpdateError::MalformedProof(error)) => assert_eq!(error.to_string(), "no proof"),
        _ => panic!("expected the failure to read"),
    }
    let (stage, _) = start().key_read(Ok(&held)).ok().unwrap();
    match stage.finished::<bool>(Err(anyhow::Error::msg("no verdict"))) {
        Err(UpdateError::Outside(error)) => assert_eq!(error.to_string(), "no verdict"),
        _ => panic!("expected the failure of the step"),
    }
}

#[test]
fn bytes_that_are_no_circuit_proofs_are_malformed() {
    let held = key();
    let refused = |bytes: &[u8]| {
        let stage =
            verify_empty_sector_update_proof(config(), bytes, R_OLD, R_NEW, D_NEW).ok().unwrap();
        matches!(stage.key_read(Ok(&held)), Err(UpdateError::MalformedProof(_)))
    };
    assert!(!refused(&two_proofs()));
    assert!(refused(&vec![0; 2 * CIRCUIT_PROOF_SIZE]));
    assert!(refused(&vec![255; 2 * CIRCUIT_PROOF_SIZE]));
    // Each of the points in turn: not compressed, or at infinity.
    for (start, len) in [(0, 48), (48, 96), (144, 48), (192, 48), (240, 96), (336, 48)] {
        let mut bytes = two_proofs();
        bytes[start] &= 0x7f;
        assert!(refused(&bytes));
        let mut bytes = two_proofs();
        for i in start..start + len {
            bytes[i] = 0;
        }
        bytes[start] = 0xc0;
        assert!(refused(&bytes));
    }
}

#[test]
fn bytes_behind_the_circuit_proofs_are_ignored() {
    let mut bytes = two_proofs();
    bytes.extend_from_slice(&[9; 5]);
    let held = key();
    let stage =
        verify_empty_sector_update_proof(config(), &bytes, R_OLD, R_NEW, D_NEW).ok().unwrap();
    let (_, call) = stage.key_read(Ok(&held)).ok().unwrap();
    assert_eq!(empty_sector_update_proof(Ok(call.proof)).unwrap().0, two_proofs());
}

#[test]
fn no_partitions_take_no_bytes() {
    let held = key();
    let none = SectorUpdateConfig { update_partitions: 0, ..config() };
    let stage = verify_empty_sector_update_proof(none, &[], R_OLD, R_NEW, D_NEW).ok().unwrap();
    let (_, call) = stage.key_read(Ok(&held)).ok().unwrap();
    assert!(call.proof.circuit_proofs.is_empty());
}

#[test]
fn succinct_proofs_are_their_circuit_proofs() {
    let held = key();
    let one = SectorUpdateConfig { update_partitions: 1, ..config() };
    let mut bytes = g1().to_compressed().to_vec();
    bytes.extend_from_slice(&g2().to_compressed());
    bytes.extend_from_slice(&g1().to_compressed());
    let stage = verify_empty_sector_update_proof(one, &bytes, R_OLD, R_NEW, D_NEW).ok().unwrap();
    let (_, call) = stage.key_read(Ok(&held)).ok().unwrap();
    let proof = call.proof.circuit_proofs[0].clone();

    let made = MultiProof::new(vec![proof.clone(), proof], &held.key);
    let written = empty_sector_update_proof(Ok(made)).unwrap();
    let mut twice = bytes.clone();
    twice.extend_from_slice(&bytes);
    assert_eq!(written.0, twice);

    let made = MultiProof::new(vec![], &held.key);
    assert!(empty_sector_update_proof(Ok(made)).unwrap().0.is_empty());

    match empty_sector_update_proof(Err(anyhow::Error::msg("no parameters"))) {
        Err(UpdateError::Outside(error)) => assert_eq!(error.to_string(), "no parameters"),
        _ => panic!("expected the failure of the step"),
    }
}

#[test]
fn written_proofs_are_read_again() {
    let bytes = two_proofs();
    let held = key();
    let stage =
        verify_empty_sector_update_proof(config(), &bytes, R_OLD, R_NEW, D_NEW).ok().unwrap();
    let (_, first) = stage.key_read(Ok(&held)).ok().unwrap();
    let circuit_proofs = first.proof.circuit_proofs.clone();
    let written = empty_sector_update_proof(Ok(first.proof)).unwrap();
    assert_eq!(written.0, bytes);

    let stage =
        verify_empty_sector_update_proof(config(), &written.0, R_OLD, R_NEW, D_NEW).ok().unwrap();
    let (_, second) = stage.key_read(Ok(&held)).ok().unwrap();
    assert_eq!(second.proof.circuit_proofs, circuit_proofs);
}

#[test]
fn proofs_speak_of_the_same_update() {
    let (_, single) =
        verify_single_partition_proof(config(), (), R_OLD, R_NEW, D_NEW).ok().unwrap();
    let (_, all) =
        verify_partition_proofs(config(), vec![()], R_OLD, R_NEW, D_NEW).ok().unwrap();
    let bytes = two_proofs();
    let held = key();
    let stage =
        verify_empty_sector_update_proof(config(), &bytes, R_OLD, R_NEW, D_NEW).ok().unwrap();
    let (_, succinct) = stage.key_read(Ok(&held)).ok().unwrap();
    assert_eq!(succinct.public_inputs, all.public_inputs);
    assert_eq!(succinct.settings.vanilla_params, all.settings);
    assert_eq!(single.settings, all.settings);
    assert_eq!(single.public_inputs.k, 0);
    assert_eq!(all.public_inputs.k, 2);
    assert_eq!(single.public_inputs.comm_r_old, R_OLD);
    assert_eq!(all.public_inputs.comm_r_old, R_OLD);
}

#[test]
fn prover_finds_the_encoded_trees() {
    let (stage, _) = encode_into(
        config(), SHAPE,
        &path("/replica"), &path("/replica_cache"), &path("/key"), &path("/key_cache"), &path("/staged"),
        (),
    );
    let (stage, _) = stage.p_aux_read(Ok(p_aux_file())).ok().unwrap();
    let (_, encode) = stage.t_aux_read(Ok(t_aux_file())).ok().unwrap();
    let prove = prove_single();
    let (made, found) = (encode.tree_d_new_config, prove.private_inputs.tree_d_new_config);
    assert_eq!((made.path, made.id, made.size), (found.path, found.id, found.size));
    assert_eq!(made.rows_to_discard, found.rows_to_discard);
    let (made, found) = (encode.tree_r_last_new_config, prove.private_inputs.tree_r_new_config);
    assert_eq!((made.path, made.id, made.size), (found.path, found.id, found.size));
    assert_eq!(made.rows_to_discard, found.rows_to_discard);
}
