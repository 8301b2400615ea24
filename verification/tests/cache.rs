//! Reading the cache of a sector, and placing new trees.
use std::marker::PhantomData;
use std::path::PathBuf;

use filecoin_hashers::poseidon::{PoseidonDomain, PoseidonHasher};
use filecoin_hashers::sha256::Sha256Hasher;
use generic_array::typenum::{U0, U2, U8};
use storage_proofs_core::merkle::{get_base_tree_count, LCTree};
use storage_proofs_update::constants::TreeRBaseTree;

use sector_update::cache::{
    get_new_configs_from_t_aux_old, get_p_aux, get_t_aux, p_aux_from_read, t_aux_from_read,
};
use sector_update::error::UpdateError;
use sector_update::types::{StoredConfig, TemporaryAux, TreeShape};

const BASE: TreeShape = TreeShape { arity: 8, sub_tree_arity: 0, top_tree_arity: 0 };

type RealTAux = storage_proofs_porep::stacked::TemporaryAux<TreeRBaseTree, Sha256Hasher>;

fn real_config(path: &str, id: &str, size: Option<usize>, rows: usize) -> merkletree::store::StoreConfig {
    merkletree::store::StoreConfig {
        path: PathBuf::from(path),
        id: id.to_string(),
        size,
        rows_to_discard: rows,
    }
}

fn real_t_aux() -> RealTAux {
    RealTAux {
        labels: storage_proofs_porep::stacked::Labels::new(vec![
            real_config("/old", "layer-1", Some(64), 0),
            real_config("/old", "layer-2", None, 0),
        ]),
        tree_d_config: real_config("/old/d", "tree-d", Some(127), 3),
        tree_r_last_config: real_config("/old/r", "tree-r-last", None, 2),
        tree_c_config: real_config("/old/c", "tree-c", Some(73), 1),
        _g: PhantomData,
    }
}

fn t_aux() -> TemporaryAux {
    TemporaryAux {
        labels: vec![],
        tree_d_config: StoredConfig {
            path: "/old/d".to_string(),
            id: "some-tree".to_string(),
            size: Some(7),
            rows_to_discard: 5,
        },
        tree_r_last_config: StoredConfig {
            path: "/old/r".to_string(),
            id: "other-tree".to_string(),
            size: None,
            rows_to_discard: 2,
        },
        tree_c_config: StoredConfig {
            path: "/old/c".to_string(),
            id: "column-tree".to_string(),
            size: None,
            rows_to_discard: 9,
        },
    }
}

#[test]
fn cache_files_are_named_after_their_keys() {
    let dir = PathBuf::from("/cache");
    let p = get_p_aux(&dir);
    assert_eq!((p.dir, p.name.as_str()), (dir.clone(), "p_aux"));
    let t = get_t_aux(&dir);
    assert_eq!((t.dir, t.name.as_str()), (dir, "t_aux"));
}

#[test]
fn p_aux_is_two_runs_of_bytes() {
    let mut comm_c = [0u8; 32];
    let mut comm_r_last = [0u8; 32];
    for i in 0..32 {
        comm_c[i] = i as u8;
        comm_r_last[i] = 255 - i as u8;
    }
    let real = storage_proofs_porep::stacked::PersistentAux {
        comm_c: PoseidonDomain::from(comm_c),
        comm_r_last: PoseidonDomain::from(comm_r_last),
    };
    let mut bytes = bincode::serialize(&real).unwrap();
    let mut expected = comm_c.to_vec();
    expected.extend_from_slice(&comm_r_last);
    assert_eq!(bytes, expected);

    let aux = p_aux_from_read(Ok(bytes.clone())).unwrap();
    assert_eq!(aux.comm_c, comm_c);
    assert_eq!(aux.comm_r_last, comm_r_last);

    // What follows is ignored.
    bytes.extend_from_slice(&[9, 9, 9]);
    let aux = p_aux_from_read(Ok(bytes)).unwrap();
    assert_eq!(aux.comm_c, comm_c);
    assert_eq!(aux.comm_r_last, comm_r_last);
}

#[test]
fn p_aux_of_too_few_bytes_is_malformed() {
    assert!(matches!(p_aux_from_read(Ok(vec![1; 63])), Err(UpdateError::MalformedPAux(_))));
    assert!(matches!(p_aux_from_read(Ok(vec![])), Err(UpdateError::MalformedPAux(_))));
    assert!(p_aux_from_read(Ok(vec![255; 64])).is_ok());
}

#[test]
fn unread_files_are_outside_failures() {
    match p_aux_from_read(Err(anyhow::Error::msg("no p_aux"))) {
        Err(UpdateError::Outside(error)) => assert_eq!(error.to_string(), "no p_aux"),
        _ => panic!("expected the read failure"),
    }
    match t_aux_from_read(Err(anyhow::Error::msg("no t_aux"))) {
        Err(UpdateError::Outside(error)) => assert_eq!(error.to_string(), "no t_aux"),
        _ => panic!("expected the read failure"),
    }
}

#[test]
fn t_aux_is_decoded() {
    let bytes = bincode::serialize(&real_t_aux()).unwrap();
    let aux = t_aux_from_read(Ok(bytes)).unwrap();
    assert_eq!(aux.tree_d_config.path, "/old/d");
    assert_eq!(aux.tree_d_config.id, "tree-d");
    assert_eq!(aux.tree_d_config.size, Some(127));
    assert_eq!(aux.tree_d_config.rows_to_discard, 3);
    assert_eq!(aux.tree_r_last_config.path, "/old/r");
    assert_eq!(aux.tree_r_last_config.id, "tree-r-last");
    assert_eq!(aux.tree_r_last_config.size, None);
    assert_eq!(aux.tree_r_last_config.rows_to_discard, 2);
    assert_eq!(aux.tree_c_config.path, "/old/c");
    assert_eq!(aux.tree_c_config.id, "tree-c");
    assert_eq!(aux.tree_c_config.size, Some(73));
    assert_eq!(aux.tree_c_config.rows_to_discard, 1);
    assert_eq!(aux.labels.len(), 2);
    assert_eq!(aux.labels[0].path, "/old");
    assert_eq!(aux.labels[0].id, "layer-1");
    assert_eq!(aux.labels[0].size, Some(64));
    assert_eq!(aux.labels[0].rows_to_discard, 0);
    assert_eq!(aux.labels[1].id, "layer-2");
    assert_eq!(aux.labels[1].size, None);
}

#[test]
fn t_aux_of_another_tree_type_has_the_same_bytes() {
    type Other = LCTree<PoseidonHasher, U8, U8, U2>;
    let config = || real_config("/p", "i", Some(1), 2);
    let other = storage_proofs_porep::stacked::TemporaryAux::<Other, Sha256Hasher> {
        labels: storage_proofs_porep::stacked::Labels::new(vec![config()]),
        tree_d_config: config(),
        tree_r_last_config: config(),
        tree_c_config: config(),
        _g: PhantomData,
    };
    let base = RealTAux {
        labels: storage_proofs_porep::stacked::Labels::new(vec![config()]),
        tree_d_config: config(),
        tree_r_last_config: config(),
        tree_c_config: config(),
        _g: PhantomData,
    };
    let bytes = bincode::serialize(&other).unwrap();
    assert_eq!(bytes, bincode::serialize(&base).unwrap());
    assert_eq!(t_aux_from_read(Ok(bytes)).unwrap().tree_r_last_config.path, "/p");
}

#[test]
fn cut_t_aux_is_malformed() {
    let mut bytes = bincode::serialize(&real_t_aux()).unwrap();
    bytes.pop();
    assert!(matches!(t_aux_from_read(Ok(bytes)), Err(UpdateError::MalformedTAux(_))));
    assert!(matches!(t_aux_from_read(Ok(vec![])), Err(UpdateError::MalformedTAux(_))));
}

#[test]
fn base_trees_are_counted_as_the_tree_types_do() {
    let count = |sub_tree_arity, top_tree_arity| {
        TreeShape { arity: 8, sub_tree_arity, top_tree_arity }.get_base_tree_count()
    };
    assert_eq!(count(0, 0), 1);
    assert_eq!(count(0, 0), get_base_tree_count::<LCTree<PoseidonHasher, U8, U0, U0>>());
    assert_eq!(count(2, 0), 2);
    assert_eq!(count(2, 0), get_base_tree_count::<LCTree<PoseidonHasher, U8, U2, U0>>());
    assert_eq!(count(8, 0), 8);
    assert_eq!(count(8, 0), get_base_tree_count::<LCTree<PoseidonHasher, U8, U8, U0>>());
    assert_eq!(count(8, 2), 16);
    assert_eq!(count(8, 2), get_base_tree_count::<LCTree<PoseidonHasher, U8, U8, U2>>());
}

#[test]
fn new_trees_go_to_the_new_cache() {
    let new = PathBuf::from("/new");
    let (d, r) = get_new_configs_from_t_aux_old(&t_aux(), &new, 64, &BASE).unwrap();
    assert_eq!(d.path, new);
    assert_eq!(d.id, "tree-d");
    assert_eq!(d.size, Some(127));
    assert_eq!(d.rows_to_discard, 5);
    assert_eq!(r.path, new);
    assert_eq!(r.id, "tree-r-last");
    assert_eq!(r.size, Some(73));
    assert_eq!(r.rows_to_discard, 2);
}

#[test]
fn new_trees_are_those_of_the_moved_tree_places() {
    let new = PathBuf::from("/elsewhere");
    let mut moved = real_t_aux();
    moved.set_cache_path(&new);
    let old = t_aux_from_read(Ok(bincode::serialize(&real_t_aux()).unwrap())).unwrap();
    let (d, r) = get_new_configs_from_t_aux_old(&old, &new, 64, &BASE).unwrap();
    let real_d = merkletree::store::StoreConfig::from_config(&moved.tree_d_config, "tree-d", Some(127));
    let real_r =
        merkletree::store::StoreConfig::from_config(&moved.tree_r_last_config, "tree-r-last", Some(73));
    assert_eq!((d.path, d.id, d.size, d.rows_to_discard), (real_d.path, real_d.id, real_d.size, real_d.rows_to_discard));
    assert_eq!((r.path, r.id, r.size, r.rows_to_discard), (real_r.path, real_r.id, real_r.size, real_r.rows_to_discard));
}

#[test]
fn replica_trees_are_split_into_base_trees() {
    let new = PathBuf::from("/new");
    let shape = TreeShape { arity: 8, sub_tree_arity: 8, top_tree_arity: 2 };
    let (d, r) = get_new_configs_from_t_aux_old(&t_aux(), &new, 1024, &shape).unwrap();
    assert_eq!(d.size, Some(2047));
    assert_eq!(r.size, Some(73));
    let shape = TreeShape { arity: 8, sub_tree_arity: 4, top_tree_arity: 0 };
    let (d, r) = get_new_configs_from_t_aux_old(&t_aux(), &new, 32, &shape).unwrap();
    assert_eq!(d.size, Some(63));
    assert_eq!(r.size, Some(9));
}

#[test]
fn trees_with_broken_rows_count_full_groups() {
    // 102 leafs are 12 full groups, which are one full group.
    let new = PathBuf::from("/new");
    let shape = TreeShape { arity: 8, sub_tree_arity: 10, top_tree_arity: 0 };
    let (_, r) = get_new_configs_from_t_aux_old(&t_aux(), &new, 1024, &shape).unwrap();
    assert_eq!(r.size, Some(102 + 12 + 1));
    let shape = TreeShape { arity: 1, sub_tree_arity: 10, top_tree_arity: 0 };
    let (_, r) = get_new_configs_from_t_aux_old(&t_aux(), &new, 1024, &shape).unwrap();
    assert_eq!(r.size, Some(102));
}

#[test]
fn data_tree_needs_a_power_of_two() {
    let new = PathBuf::from("/new");
    for nodes_count in [0, 1, 3, 65, 96] {
        assert!(matches!(
            get_new_configs_from_t_aux_old(&t_aux(), &new, nodes_count, &BASE),
            Err(UpdateError::TreeDLen(_))
        ));
    }
}

#[test]
fn replica_tree_needs_leafs_and_an_arity() {
    let new = PathBuf::from("/new");
    // Fewer leafs than children.
    assert!(matches!(
        get_new_configs_from_t_aux_old(&t_aux(), &new, 4, &BASE),
        Err(UpdateError::TreeRLastLen(_))
    ));
    // Not a power of two.
    for arity in [0, 3, 6] {
        let shape = TreeShape { arity, sub_tree_arity: 0, top_tree_arity: 0 };
        assert!(matches!(
            get_new_configs_from_t_aux_old(&t_aux(), &new, 64, &shape),
            Err(UpdateError::TreeRLastLen(_))
        ));
    }
    // A binary tree over a number of leafs that is no power of two.
    let shape = TreeShape { arity: 2, sub_tree_arity: 10, top_tree_arity: 0 };
    assert!(matches!(
        get_new_configs_from_t_aux_old(&t_aux(), &new, 1024, &shape),
        Err(UpdateError::TreeRLastLen(_))
    ));
}

#[test]
fn largest_sector_has_its_trees() {
    let new = PathBuf::from("/new");
    let shape = TreeShape { arity: 8, sub_tree_arity: 8, top_tree_arity: 2 };
    let nodes: usize = 1 << 31;
    let (d, r) = get_new_configs_from_t_aux_old(&t_aux(), &new, nodes, &shape).unwrap();
    assert_eq!(d.size, Some(2 * nodes - 1));
    let leafs = nodes / 16;
    assert_eq!(r.size, Some((8 * leafs - 1) / 7));
}

#[test]
fn trees_have_fewer_than_twice_their_leafs() {
    let new = PathBuf::from("/new");
    for arity in [1, 2, 4, 8, 16, 32] {
        let shape = TreeShape { arity, sub_tree_arity: 0, top_tree_arity: 0 };
        for exponent in 5..20 {
            let nodes: usize = 1 << exponent;
            let (d, r) = get_new_configs_from_t_aux_old(&t_aux(), &new, nodes, &shape).unwrap();
            assert_eq!(d.size, Some(2 * nodes - 1));
            let len = r.size.unwrap();
            assert!(nodes <= len && len < 2 * nodes);
        }
    }
}
