//! Leaf ordering of a hierarchical clustering, as used by hierarchical risk
//! parity: the assets are visited in the order of the dendrogram's leaves.

use vstd::prelude::*;

verus! {

/// Whether a linkage of `n` assets is well formed: the two clusters that row
/// `k` merges were formed before it (asset or earlier merge), and the node
/// numbers stay within `usize`.
pub open spec fn linkage_wf(linkage: Seq<(usize, usize)>, n: nat) -> bool {
    &&& n + linkage.len() <= usize::MAX
    &&& forall|k: int| 0 <= k < linkage.len() ==> (#[trigger] linkage[k]).0 < n + k && linkage[k].1 < n + k
}

/// The assets under a node of the dendrogram, left subtree first.  Nodes below
/// `n` are assets; node `n + k` is the cluster that linkage row `k` forms.
pub open spec fn leaves(linkage: Seq<(usize, usize)>, n: nat, node: nat) -> Seq<usize>
    decreases node,
{
    if node < n {
        seq![node as usize]
    } else if node - n < linkage.len() {
        let (a, b) = linkage[node - n];
        if a < node && b < node {
            leaves(linkage, n, a as nat) + leaves(linkage, n, b as nat)
        } else {
            Seq::empty()
        }
    } else {
        Seq::empty()
    }
}

/// The number of nodes in the subtree under a node.
pub open spec fn subtree_size(linkage: Seq<(usize, usize)>, n: nat, node: nat) -> nat
    decreases node,
{
    if node < n {
        1
    } else if node - n < linkage.len() {
        let (a, b) = linkage[node - n];
        if a < node && b < node {
            1 + subtree_size(linkage, n, a as nat) + subtree_size(linkage, n, b as nat)
        } else {
            1
        }
    } else {
        1
    }
}

/// The assets under the nodes of a stack, top of the stack first.
pub open spec fn stack_leaves(linkage: Seq<(usize, usize)>, n: nat, stack: Seq<usize>) -> Seq<usize>
    decreases stack.len(),
{
    if stack.len() == 0 {
        Seq::empty()
    } else {
        leaves(linkage, n, stack.last() as nat) + stack_leaves(linkage, n, stack.drop_last())
    }
}

/// The work left for a stack: the sizes of the subtrees under its nodes.
pub open spec fn stack_weight(linkage: Seq<(usize, usize)>, n: nat, stack: Seq<usize>) -> nat
    decreases stack.len(),
{
    if stack.len() == 0 {
        0
    } else {
        subtree_size(linkage, n, stack.last() as nat) + stack_weight(linkage, n, stack.drop_last())
    }
}

/// The leaf order of the dendrogram: the assets `0..n` in order when nothing
/// was merged, else the assets under the last merge, left subtree first.
pub open spec fn spec_leaf_order(linkage: Seq<(usize, usize)>, n: nat) -> Seq<usize> {
    if linkage.len() == 0 {
        Seq::new(n, |i: int| i as usize)
    } else {
        leaves(linkage, n, (n + linkage.len() - 1) as nat)
    }
}

/// Orders the assets by the leaves of the dendrogram that `linkage` describes:
/// row `k` of `linkage` names the two clusters merged into node `n + k`.
pub fn quasi_diagonalize(linkage: &Vec<(usize, usize)>, n: usize) -> (order: Vec<usize>)
    requires
        linkage_wf(linkage@, n as nat),
    ensures
        order@ == spec_leaf_order(linkage@, n as nat),
        forall|i: int| 0 <= i < order@.len() ==> order@[i] < n,
{
    if linkage.len() == 0 {
        let mut order: Vec<usize> = Vec::new();
        let mut i: usize = 0;
        while i < n
            invariant
                i <= n,
                order@ == Seq::new(i as nat, |j: int| j as usize),
            decreases n - i,
        {
            order.push(i);
            i = i + 1;
            assert(order@ =~= Seq::new(i as nat, |j: int| j as usize));
        }
        return order;
    }
    let root = n + linkage.len() - 1;
    let mut order: Vec<usize> = Vec::new();
    let mut stack: Vec<usize> = vec![root];
    let ghost lk = linkage@;
    assert(stack_leaves(lk, n as nat, stack@) =~= leaves(lk, n as nat, root as nat)) by {
        assert(stack@.drop_last() =~= Seq::<usize>::empty());
        assert(stack_leaves(lk, n as nat, Seq::<usize>::empty()) == Seq::<usize>::empty());
        assert(stack@.last() == root);
    }
    while stack.len() > 0
        invariant
            lk == linkage@,
            linkage_wf(lk, n as nat),
            order@ + stack_leaves(lk, n as nat, stack@) == leaves(lk, n as nat, root as nat),
            forall|i: int| 0 <= i < order@.len() ==> order@[i] < n,
            forall|i: int| 0 <= i < stack@.len() ==> stack@[i] < n + lk.len(),
        decreases stack_weight(lk, n as nat, stack@),
    {
        let ghost before = stack@;
        let node = stack.pop().unwrap();
        assert(before.drop_last() =~= stack@);
        assert(stack_leaves(lk, n as nat, before) == leaves(lk, n as nat, node as nat) + stack_leaves(lk, n as nat, stack@));
        assert(stack_weight(lk, n as nat, before) == subtree_size(lk, n as nat, node as nat) + stack_weight(lk, n as nat, stack@));
        if node < n {
            let ghost old_order = order@;
            order.push(node);
            assert(leaves(lk, n as nat, node as nat) == seq![node]);
            assert(order@ + stack_leaves(lk, n as nat, stack@) =~= old_order + stack_leaves(lk, n as nat, before));
        } else {
            let link_idx = node - n;
            if link_idx < linkage.len() {
                let (a, b) = linkage[link_idx];
                assert(a < node && b < node);
                let ghost mid = stack@;
                stack.push(b);
                stack.push(a);
                assert(stack@.drop_last() =~= mid.push(b));
                assert(mid.push(b).drop_last() =~= mid);
                assert(stack_leaves(lk, n as nat, mid.push(b)) == leaves(lk, n as nat, b as nat) + stack_leaves(lk, n as nat, mid));
                assert(stack_leaves(lk, n as nat, stack@) == leaves(lk, n as nat, a as nat) + stack_leaves(lk, n as nat, mid.push(b)));
                assert(stack_weight(lk, n as nat, mid.push(b)) == subtree_size(lk, n as nat, b as nat) + stack_weight(lk, n as nat, mid));
                assert(stack_weight(lk, n as nat, stack@) == subtree_size(lk, n as nat, a as nat) + stack_weight(lk, n as nat, mid.push(b)));
                assert(leaves(lk, n as nat, node as nat) == leaves(lk, n as nat, a as nat) + leaves(lk, n as nat, b as nat));
                assert(subtree_size(lk, n as nat, node as nat) == 1 + subtree_size(lk, n as nat, a as nat) + subtree_size(lk, n as nat, b as nat));
                assert(order@ + stack_leaves(lk, n as nat, stack@) =~= leaves(lk, n as nat, root as nat));
            }
        }
    }
    assert(order@ =~= leaves(lk, n as nat, root as nat));
    order
}

/// Whether every cluster is merged at most once and never with itself: the
/// two clusters of a row differ, and no cluster appears in two rows.
pub open spec fn merges_once(linkage: Seq<(usize, usize)>) -> bool {
    &&& forall|k: int| 0 <= k < linkage.len() ==> (#[trigger] linkage[k]).0 != linkage[k].1
    &&& forall|k: int, j: int|
        0 <= k < j < linkage.len() ==> {
            &&& (#[trigger] linkage[k]).0 != (#[trigger] linkage[j]).0
            &&& linkage[k].0 != linkage[j].1
            &&& linkage[k].1 != linkage[j].0
            &&& linkage[k].1 != linkage[j].1
        }
}

/// Whether row `k` merges node `x`.
pub open spec fn merged_by(linkage: Seq<(usize, usize)>, k: int, x: nat) -> bool {
    0 <= k < linkage.len() && (linkage[k].0 == x || linkage[k].1 == x)
}

/// Whether some row merges the node `x`.
pub open spec fn is_merged(linkage: Seq<(usize, usize)>, x: int) -> bool {
    x >= 0 && exists|k: int| #[trigger] merged_by(linkage, k, x as nat)
}

/// Whether node `x` lies in the subtree under node `m`.
pub open spec fn in_subtree(linkage: Seq<(usize, usize)>, n: nat, x: nat, m: nat) -> bool
    decreases m,
{
    x == m || (n <= m && m - n < linkage.len() && linkage[m - n].0 < m && linkage[m - n].1 < m
        && (in_subtree(linkage, n, x, linkage[m - n].0 as nat) || in_subtree(linkage, n, x, linkage[m - n].1 as nat)))
}

proof fn lemma_subtree_below(lk: Seq<(usize, usize)>, n: nat, x: nat, m: nat)
    requires
        in_subtree(lk, n, x, m),
    ensures
        x <= m,
    decreases m,
{
    if x != m {
        let (a, b) = lk[m - n];
        if in_subtree(lk, n, x, a as nat) {
            lemma_subtree_below(lk, n, x, a as nat);
        } else {
            lemma_subtree_below(lk, n, x, b as nat);
        }
    }
}

proof fn lemma_leaves_in_subtree(lk: Seq<(usize, usize)>, n: nat, m: nat, i: usize)
    requires
        linkage_wf(lk, n),
        leaves(lk, n, m).contains(i),
    ensures
        in_subtree(lk, n, i as nat, m),
        i < n,
    decreases m,
{
    if m < n {
        assert(leaves(lk, n, m) == seq![m as usize]);
        assert(leaves(lk, n, m)[0] == i);
    } else if m - n < lk.len() {
        let (a, b) = lk[m - n];
        let la = leaves(lk, n, a as nat);
        let lb = leaves(lk, n, b as nat);
        assert(leaves(lk, n, m) == la + lb);
        let j = choose|j: int| 0 <= j < (la + lb).len() && (la + lb)[j] == i;
        if j < la.len() {
            assert(la[j] == i);
            lemma_leaves_in_subtree(lk, n, a as nat, i);
        } else {
            assert(lb[j - la.len()] == i);
            lemma_leaves_in_subtree(lk, n, b as nat, i);
        }
    } else {
        assert(leaves(lk, n, m).len() == 0);
    }
}

proof fn lemma_subtree_in_leaves(lk: Seq<(usize, usize)>, n: nat, m: nat, i: usize)
    requires
        linkage_wf(lk, n),
        i < n,
        in_subtree(lk, n, i as nat, m),
    ensures
        leaves(lk, n, m).contains(i),
    decreases m,
{
    if m == i {
        assert(leaves(lk, n, m) == seq![m as usize]);
        assert(leaves(lk, n, m)[0] == i);
    } else {
        let (a, b) = lk[m - n];
        let la = leaves(lk, n, a as nat);
        let lb = leaves(lk, n, b as nat);
        assert(leaves(lk, n, m) == la + lb);
        if in_subtree(lk, n, i as nat, a as nat) {
            lemma_subtree_in_leaves(lk, n, a as nat, i);
            let j = choose|j: int| 0 <= j < la.len() && la[j] == i;
            assert((la + lb)[j] == i);
        } else {
            lemma_subtree_in_leaves(lk, n, b as nat, i);
            let j = choose|j: int| 0 <= j < lb.len() && lb[j] == i;
            assert((la + lb)[la.len() + j] == i);
        }
    }
}

proof fn lemma_subtree_trans(lk: Seq<(usize, usize)>, n: nat, x: nat, y: nat, z: nat)
    requires
        in_subtree(lk, n, x, y),
        in_subtree(lk, n, y, z),
    ensures
        in_subtree(lk, n, x, z),
    decreases z,
{
    if y != z {
        let (c, d) = lk[z - n];
        if in_subtree(lk, n, y, c as nat) {
            lemma_subtree_trans(lk, n, x, y, c as nat);
        } else {
            lemma_subtree_trans(lk, n, x, y, d as nat);
        }
    }
}

proof fn lemma_merged_once(lk: Seq<(usize, usize)>, k: int, r: int, x: nat)
    requires
        merges_once(lk),
        merged_by(lk, k, x),
        merged_by(lk, r, x),
    ensures
        k == r,
{
    if k < r {
        assert(lk[k].0 != lk[r].0);
    } else if r < k {
        assert(lk[r].0 != lk[k].0);
    }
}

/// A node below `m` is merged by a row whose node is at most `m`.
proof fn lemma_has_parent(lk: Seq<(usize, usize)>, n: nat, x: nat, m: nat) -> (k: int)
    requires
        linkage_wf(lk, n),
        in_subtree(lk, n, x, m),
        x != m,
    ensures
        merged_by(lk, k, x),
        n + k <= m,
    decreases m,
{
    let r = m - n;
    let (c, d) = lk[r];
    if x == c || x == d {
        r
    } else if in_subtree(lk, n, x, c as nat) {
        lemma_has_parent(lk, n, x, c as nat)
    } else {
        lemma_has_parent(lk, n, x, d as nat)
    }
}

/// The node that merges `x` lies on every path from `x` up to a node above it.
proof fn lemma_parent_in_subtree(lk: Seq<(usize, usize)>, n: nat, k: int, x: nat, m: nat)
    requires
        linkage_wf(lk, n),
        merges_once(lk),
        merged_by(lk, k, x),
        in_subtree(lk, n, x, m),
        x != m,
    ensures
        in_subtree(lk, n, (n + k) as nat, m),
    decreases m,
{
    let r = m - n;
    let (c, d) = lk[r];
    if x == c || x == d {
        assert(merged_by(lk, r, x));
        lemma_merged_once(lk, k, r, x);
    } else if in_subtree(lk, n, x, c as nat) {
        lemma_parent_in_subtree(lk, n, k, x, c as nat);
    } else {
        lemma_parent_in_subtree(lk, n, k, x, d as nat);
    }
}

/// Two nodes above a common node lie on one path: the lower is under the higher.
proof fn lemma_subtree_chain(lk: Seq<(usize, usize)>, n: nat, x: nat, u: nat, v: nat)
    requires
        linkage_wf(lk, n),
        merges_once(lk),
        in_subtree(lk, n, x, u),
        in_subtree(lk, n, x, v),
        u <= v,
    ensures
        in_subtree(lk, n, u, v),
    decreases v - x,
{
    lemma_subtree_below(lk, n, x, u);
    lemma_subtree_below(lk, n, x, v);
    if x != u && x != v {
        let k = lemma_has_parent(lk, n, x, v);
        lemma_parent_in_subtree(lk, n, k, x, u);
        lemma_parent_in_subtree(lk, n, k, x, v);
        lemma_subtree_chain(lk, n, (n + k) as nat, u, v);
    }
}

/// No node lies under both clusters that one row merges.
proof fn lemma_children_disjoint(lk: Seq<(usize, usize)>, n: nat, k: int, i: nat)
    requires
        linkage_wf(lk, n),
        merges_once(lk),
        0 <= k < lk.len(),
    ensures
        !(in_subtree(lk, n, i, lk[k].0 as nat) && in_subtree(lk, n, i, lk[k].1 as nat)),
{
    let (a, b) = lk[k];
    if in_subtree(lk, n, i, a as nat) && in_subtree(lk, n, i, b as nat) {
        assert(a != b);
        let (lo, hi) = if a < b { (a, b) } else { (b, a) };
        lemma_subtree_chain(lk, n, i, lo as nat, hi as nat);
        assert(merged_by(lk, k, lo as nat));
        lemma_parent_in_subtree(lk, n, k, lo as nat, hi as nat);
        lemma_subtree_below(lk, n, (n + k) as nat, hi as nat);
    }
}

proof fn lemma_leaves_unique(lk: Seq<(usize, usize)>, n: nat, m: nat)
    requires
        linkage_wf(lk, n),
        merges_once(lk),
    ensures
        leaves(lk, n, m).no_duplicates(),
    decreases m,
{
    if m >= n && m - n < lk.len() {
        let k = m - n;
        let (a, b) = lk[k];
        let la = leaves(lk, n, a as nat);
        let lb = leaves(lk, n, b as nat);
        lemma_leaves_unique(lk, n, a as nat);
        lemma_leaves_unique(lk, n, b as nat);
        let s = la + lb;
        assert(leaves(lk, n, m) == s);
        assert forall|p: int, q: int| 0 <= p < s.len() && 0 <= q < s.len() && p != q implies s[p] != s[q] by {
            if p < la.len() && q >= la.len() {
                assert(la.contains(s[p]) && s[p] == la[p]);
                assert(lb.contains(s[q]) && s[q] == lb[q - la.len()]);
                if s[p] == s[q] {
                    lemma_leaves_in_subtree(lk, n, a as nat, s[p]);
                    lemma_leaves_in_subtree(lk, n, b as nat, s[p]);
                    lemma_children_disjoint(lk, n, k, s[p] as nat);
                }
            } else if q < la.len() && p >= la.len() {
                assert(la.contains(s[q]) && s[q] == la[q]);
                assert(lb.contains(s[p]) && s[p] == lb[p - la.len()]);
                if s[p] == s[q] {
                    lemma_leaves_in_subtree(lk, n, a as nat, s[q]);
                    lemma_leaves_in_subtree(lk, n, b as nat, s[q]);
                    lemma_children_disjoint(lk, n, k, s[q] as nat);
                }
            } else if p < la.len() {
                assert(s[p] == la[p] && s[q] == la[q]);
            } else {
                assert(s[p] == lb[p - la.len()] && s[q] == lb[q - la.len()]);
            }
        }
    } else if m < n {
        assert(leaves(lk, n, m) == seq![m as usize]);
    } else {
        assert(leaves(lk, n, m).len() == 0);
    }
}

/// The nodes that the rows merge, two per row, in row order.
pub open spec fn merged_nodes(linkage: Seq<(usize, usize)>) -> Seq<int>
    decreases linkage.len(),
{
    if linkage.len() == 0 {
        Seq::empty()
    } else {
        merged_nodes(linkage.drop_last()).push(linkage.last().0 as int).push(linkage.last().1 as int)
    }
}

proof fn lemma_merged_nodes(lk: Seq<(usize, usize)>, n: nat)
    requires
        linkage_wf(lk, n),
        merges_once(lk),
    ensures
        merged_nodes(lk).len() == 2 * lk.len(),
        merged_nodes(lk).no_duplicates(),
        forall|j: int| 0 <= j < merged_nodes(lk).len() ==> is_merged(lk, #[trigger] merged_nodes(lk)[j]),
        forall|j: int| 0 <= j < merged_nodes(lk).len() ==> 0 <= #[trigger] merged_nodes(lk)[j] < n + lk.len() - 1,
    decreases lk.len(),
{
    if lk.len() > 0 {
        let init = lk.drop_last();
        let last = lk.len() - 1;
        assert forall|k: int| 0 <= k < init.len() implies (#[trigger] init[k]).0 < n + k && init[k].1 < n + k by {
            assert(init[k] == lk[k]);
        }
        assert forall|k: int, j: int| 0 <= k < j < init.len() implies {
            &&& (#[trigger] init[k]).0 != (#[trigger] init[j]).0
            &&& init[k].0 != init[j].1
            &&& init[k].1 != init[j].0
            &&& init[k].1 != init[j].1
        } by {
            assert(init[k] == lk[k] && init[j] == lk[j]);
        }
        assert forall|k: int| 0 <= k < init.len() implies (#[trigger] init[k]).0 != init[k].1 by {
            assert(init[k] == lk[k]);
        }
        lemma_merged_nodes(init, n);
        let prev = merged_nodes(init);
        let (a, b) = lk[last];
        let s = merged_nodes(lk);
        assert(s == prev.push(a as int).push(b as int));
        assert forall|j: int| 0 <= j < prev.len() implies #[trigger] prev[j] != a && prev[j] != b by {
            let k = choose|k: int| #[trigger] merged_by(init, k, prev[j] as nat);
            assert(init[k] == lk[k]);
            assert(lk[k].0 != lk[last].0);
        }
        assert forall|j: int| 0 <= j < s.len() implies is_merged(lk, #[trigger] s[j]) by {
            if j < prev.len() {
                assert(s[j] == prev[j]);
                let k = choose|k: int| #[trigger] merged_by(init, k, prev[j] as nat);
                assert(init[k] == lk[k]);
                assert(merged_by(lk, k, s[j] as nat));
            } else if j == prev.len() {
                assert(merged_by(lk, last, s[j] as nat));
            } else {
                assert(merged_by(lk, last, s[j] as nat));
            }
        }
        assert forall|j: int| 0 <= j < s.len() implies 0 <= #[trigger] s[j] < n + lk.len() - 1 by {
            if j < prev.len() {
                assert(s[j] == prev[j]);
            }
        }
        assert forall|p: int, q: int| 0 <= p < s.len() && 0 <= q < s.len() && p != q implies s[p] != s[q] by {
            if p < prev.len() && q < prev.len() {
                assert(s[p] == prev[p] && s[q] == prev[q]);
            } else if p < prev.len() {
                assert(s[p] == prev[p]);
            } else if q < prev.len() {
                assert(s[q] == prev[q]);
            }
        }
    } else {
        assert(merged_nodes(lk).len() == 0);
    }
}

/// With one merge fewer than assets and no cluster merged twice, every node
/// below the last one is merged by some row.
proof fn lemma_every_node_merged(lk: Seq<(usize, usize)>, n: nat, x: nat)
    requires
        linkage_wf(lk, n),
        merges_once(lk),
        lk.len() + 1 == n,
        x < n + lk.len() - 1,
    ensures
        exists|k: int| #[trigger] merged_by(lk, k, x),
{
    lemma_merged_nodes(lk, n);
    let s = merged_nodes(lk);
    let top: int = (2 * lk.len()) as int;
    s.unique_seq_to_set();
    vstd::set_lib::lemma_int_range(0, top);
    let range = vstd::set_lib::set_int_range(0, top);
    assert(s.to_set().subset_of(range)) by {
        assert forall|v: int| s.to_set().contains(v) implies range.contains(v) by {
            let j = choose|j: int| 0 <= j < s.len() && s[j] == v;
        }
    }
    vstd::set_lib::lemma_subset_equality(s.to_set(), range);
    assert(range.contains(x as int));
    assert(s.to_set().contains(x as int));
    let j = choose|j: int| 0 <= j < s.len() && s[j] == x as int;
    let k = choose|k: int| #[trigger] merged_by(lk, k, s[j] as nat);
    assert(merged_by(lk, k, x));
}

/// Every node of a full dendrogram lies under the last merge.
proof fn lemma_under_root(lk: Seq<(usize, usize)>, n: nat, x: nat)
    requires
        linkage_wf(lk, n),
        merges_once(lk),
        lk.len() + 1 == n,
        lk.len() > 0,
        x <= n + lk.len() - 1,
    ensures
        in_subtree(lk, n, x, (n + lk.len() - 1) as nat),
    decreases n + lk.len() - 1 - x,
{
    let root = (n + lk.len() - 1) as nat;
    if x != root {
        lemma_every_node_merged(lk, n, x);
        let k = choose|k: int| #[trigger] merged_by(lk, k, x);
        let p = (n + k) as nat;
        lemma_under_root(lk, n, p);
        assert(in_subtree(lk, n, x, p)) by {
            assert(in_subtree(lk, n, x, x));
        }
        lemma_subtree_trans(lk, n, x, p, root);
    }
}

/// When each of the `n - 1` rows of a linkage merges two clusters formed
/// before it and no cluster is merged twice, the leaf order is a permutation
/// of the assets: each asset `0..n` occurs in it exactly once.
pub proof fn lemma_leaf_order_is_permutation(linkage: Seq<(usize, usize)>, n: nat)
    requires
        linkage_wf(linkage, n),
        merges_once(linkage),
        linkage.len() + 1 == n,
    ensures
        spec_leaf_order(linkage, n).len() == n,
        spec_leaf_order(linkage, n).no_duplicates(),
        forall|i: usize| i < n ==> spec_leaf_order(linkage, n).contains(i),
        forall|j: int| 0 <= j < spec_leaf_order(linkage, n).len() ==> spec_leaf_order(linkage, n)[j] < n,
{
    let o = spec_leaf_order(linkage, n);
    if linkage.len() == 0 {
        assert forall|i: usize| i < n implies o.contains(i) by {
            assert(o[i as int] == i);
        }
    } else {
        let root = (n + linkage.len() - 1) as nat;
        lemma_leaves_unique(linkage, n, root);
        assert forall|i: usize| i < n implies o.contains(i) by {
            lemma_under_root(linkage, n, i as nat);
            lemma_subtree_in_leaves(linkage, n, root, i);
        }
        assert forall|j: int| 0 <= j < o.len() implies o[j] < n by {
            assert(o.contains(o[j]));
            lemma_leaves_in_subtree(linkage, n, root, o[j]);
        }
        let assets = Set::new(|v: usize| v < n);
        assert(o.to_set() =~= assets) by {
            assert forall|v: usize| o.to_set().contains(v) implies assets.contains(v) by {
                let j = choose|j: int| 0 <= j < o.len() && o[j] == v;
            }
        }
        vstd::set_lib::lemma_int_range(0, n as int);
        let range = vstd::set_lib::set_int_range(0, n as int);
        let f = |i: int| i as usize;
        assert(range.map(f) =~= assets) by {
            assert forall|v: usize| assets.contains(v) implies range.map(f).contains(v) by {
                assert(range.contains(v as int) && f(v as int) == v);
            }
        }
        vstd::set_lib::lemma_map_size(range, assets, f);
        o.unique_seq_to_set();
    }
}

} // verus!
