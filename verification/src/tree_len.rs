//! The number of nodes of a Merkle tree.
use vstd::arithmetic::power::pow;
use vstd::arithmetic::power2::is_pow2;
use vstd::prelude::*;

verus! {

/// The rows of a tree, added up: its leafs, and above each row as many nodes as the row has full
/// groups of `branches` nodes.
pub open spec fn row_total(leafs: nat, branches: nat) -> nat
    decreases leafs,
{
    if leafs == 0 || branches < 2 {
        leafs
    } else {
        proof {
            vstd::arithmetic::div_mod::lemma_div_decreases(leafs as int, branches as int);
        }
        leafs + row_total(leafs / branches, branches)
    }
}

/// There is a tree with `leafs` leafs and `branches` children per node.
pub open spec fn is_tree(leafs: nat, branches: nat) -> bool {
    &&& branches <= leafs
    &&& is_pow2(branches as int)
    &&& branches == 2 ==> is_pow2(leafs as int)
}

/// The number of nodes of the tree with `leafs` leafs and `branches` children per node.
pub open spec fn tree_len(leafs: nat, branches: nat) -> int {
    if branches == 2 {
        2 * leafs - 1
    } else {
        row_total(leafs, branches) as int
    }
}

/// A tree has the nodes of its rows, whatever its arity.
pub proof fn law_tree_len_is_row_total(leafs: nat, branches: nat)
    requires
        is_tree(leafs, branches),
    ensures
        tree_len(leafs, branches) == row_total(leafs, branches),
{
    if branches == 2 {
        lemma_binary_row_total(leafs);
    }
}

/// The rows of a binary tree halve down to one node.
proof fn lemma_binary_row_total(leafs: nat)
    requires
        is_pow2(leafs as int),
    ensures
        row_total(leafs, 2) == 2 * leafs - 1,
    decreases leafs,
{
    reveal(is_pow2);
    if leafs == 1 {
        assert(row_total(0, 2) == 0);
    } else {
        lemma_binary_row_total(leafs / 2);
    }
}

/// A tree has at least its leafs, and fewer than twice as many nodes.
pub proof fn law_tree_len_is_bounded(leafs: nat, branches: nat)
    requires
        is_tree(leafs, branches),
    ensures
        leafs <= tree_len(leafs, branches) < 2 * leafs,
{
    reveal(is_pow2);
    law_tree_len_is_row_total(leafs, branches);
    lemma_row_total_bound(leafs, branches);
}

/// Above a row there are at most half as many nodes.
proof fn lemma_row_total_bound(leafs: nat, branches: nat)
    requires
        leafs > 0,
    ensures
        leafs <= row_total(leafs, branches) < 2 * leafs,
    decreases leafs,
{
    if branches >= 2 {
        let above = leafs / branches;
        assert(2 * above <= leafs) by (nonlinear_arith)
            requires
                above == leafs / branches,
                branches >= 2,
        ;
        if above > 0 {
            lemma_row_total_bound(above, branches);
        }
    }
}

/// Where every row is full, the number of nodes is the geometric sum of the rows: a tree with
/// `branches` to the power of `height` leafs has `(branches * leafs - 1) / (branches - 1)` nodes.
pub proof fn law_full_tree_len(branches: nat, height: nat)
    requires
        branches >= 2,
        is_tree(pow(branches as int, height) as nat, branches),
    ensures
        ({
            let leafs = pow(branches as int, height);
            (branches - 1) * tree_len(leafs as nat, branches) == branches * leafs - 1
        }),
{
    law_tree_len_is_row_total(pow(branches as int, height) as nat, branches);
    lemma_full_row_total(branches, height);
}

/// The rows of a full tree are the powers of its arity.
proof fn lemma_full_row_total(branches: nat, height: nat)
    requires
        branches >= 2,
    ensures
        pow(branches as int, height) > 0,
        (branches - 1) * row_total(pow(branches as int, height) as nat, branches) == branches * pow(
            branches as int,
            height,
        ) - 1,
    decreases height,
{
    let b = branches as int;
    let leafs = pow(b, height);
    vstd::arithmetic::power::lemma_pow_positive(b, height);
    if height == 0 {
        vstd::arithmetic::power::lemma_pow0(b);
        assert(1nat / branches == 0) by (nonlinear_arith)
            requires
                branches >= 2,
        ;
        assert(row_total(0, branches) == 0);
        assert((b - 1) * 1 == b * 1 - 1);
    } else {
        let below = pow(b, (height - 1) as nat);
        lemma_full_row_total(branches, (height - 1) as nat);
        reveal(pow);
        assert(leafs == b * below);
        assert((b * below) / b == below) by (nonlinear_arith)
            requires
                b > 0,
        ;
        let rest = row_total(below as nat, branches) as int;
        assert(row_total(leafs as nat, branches) == leafs + rest);
        assert((b - 1) * (leafs + rest) == b * leafs - 1) by (nonlinear_arith)
            requires
                (b - 1) * rest == b * below - 1,
                leafs == b * below,
        ;
    }
}

} // verus!
