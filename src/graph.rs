//! The host's module graph as an arena: each record is named by its index,
//! and object identity is the comparison of indices or export handles.
use vstd::prelude::*;

verus! {

/// What a record's `parent` relation points at.
#[derive(Debug, Clone, Copy, PartialEq, Eq, Structural)]
pub enum ParentRef {
    /// Undefined or null.
    Absent,
    /// The host's own module wrapper (the module constructor).
    ModuleWrapper,
    /// A record of the graph, by index.
    Node(usize),
    /// Anything else.
    Foreign,
}

/// One loaded module: the handle of its exports object, its parent and the
/// indices of its children.
pub struct ModuleRecord {
    pub exports: u64,
    pub parent: ParentRef,
    pub children: Vec<usize>,
}

/// The loaded modules.
pub struct ModuleGraph {
    pub records: Vec<ModuleRecord>,
}

/// The first record, in depth-first pre-order from `node`, whose exports
/// handle is `target`; the walk goes at most `fuel` records deep, which cuts
/// off cycles.
pub open spec fn find_from(g: Seq<ModuleRecord>, node: usize, target: u64, fuel: nat) -> Option<usize>
    decreases fuel, 0nat,
{
    if fuel == 0 || node >= g.len() {
        None
    } else if g[node as int].exports == target {
        Some(node)
    } else {
        find_among(g, g[node as int].children@, 0, target, (fuel - 1) as nat)
    }
}

/// The first hit of `find_from` among `children[k..]`.
pub open spec fn find_among(g: Seq<ModuleRecord>, children: Seq<usize>, k: int, target: u64, fuel: nat) -> Option<usize>
    decreases fuel, children.len() - k,
{
    if 0 <= k < children.len() {
        match find_from(g, children[k], target, fuel) {
            Some(r) => Some(r),
            None => find_among(g, children, k + 1, target, fuel),
        }
    } else {
        None
    }
}

/// The record resolved as this component's own: the walk from `root` over
/// the whole graph's depth.
pub open spec fn resolve_spec(g: Seq<ModuleRecord>, root: usize, target: u64) -> Option<usize> {
    find_from(g, root, target, g.len())
}

fn find_among_exec(g: &ModuleGraph, node: usize, k: usize, target: u64, fuel: usize) -> (r: Option<usize>)
    requires
        node < g.records@.len(),
        k <= g.records@[node as int].children@.len(),
    ensures
        r == find_among(g.records@, g.records@[node as int].children@, k as int, target, fuel as nat),
    decreases fuel, g.records@[node as int].children@.len() - k,
{
    let children = &g.records[node].children;
    if k < children.len() {
        match find_from_exec(g, children[k], target, fuel) {
            Some(r) => Some(r),
            None => find_among_exec(g, node, k + 1, target, fuel),
        }
    } else {
        None
    }
}

fn find_from_exec(g: &ModuleGraph, node: usize, target: u64, fuel: usize) -> (r: Option<usize>)
    ensures
        r == find_from(g.records@, node, target, fuel as nat),
    decreases fuel, 0nat,
{
    if fuel == 0 || node >= g.records.len() {
        None
    } else if g.records[node].exports == target {
        Some(node)
    } else {
        find_among_exec(g, node, 0, target, fuel - 1)
    }
}

/// Finds the record whose exports object is `exports`, walking child
/// relations depth-first from `root`.
pub fn get_module_object(g: &ModuleGraph, root: usize, exports: u64) -> (r: Option<usize>)
    ensures
        r == resolve_spec(g.records@, root, exports),
        r matches Some(i) ==> i < g.records@.len() && g.records@[i as int].exports == exports,
        (root < g.records@.len() && g.records@[root as int].exports == exports) <==> r == Some(root),
{
    proof {
        lemma_find_sound(g.records@, root, exports, g.records@.len());
    }
    find_from_exec(g, root, exports, g.records.len())
}

/// A record found by the walk holds the exports sought, and the walk ends
/// at its start exactly when the start holds them.
pub proof fn lemma_find_sound(g: Seq<ModuleRecord>, node: usize, target: u64, fuel: nat)
    ensures
        find_from(g, node, target, fuel) matches Some(i) ==> i < g.len() && g[i as int].exports == target,
        (fuel > 0 && node < g.len() && g[node as int].exports == target) <==> find_from(g, node, target, fuel) == Some(node),
    decreases fuel, 0nat,
{
    if fuel > 0 && node < g.len() && g[node as int].exports != target {
        lemma_find_among_sound(g, g[node as int].children@, 0, target, (fuel - 1) as nat);
    }
}

proof fn lemma_find_among_sound(g: Seq<ModuleRecord>, children: Seq<usize>, k: int, target: u64, fuel: nat)
    ensures
        find_among(g, children, k, target, fuel) matches Some(i) ==> i < g.len() && g[i as int].exports == target,
    decreases fuel, children.len() - k,
{
    if 0 <= k < children.len() {
        lemma_find_sound(g, children[k], target, fuel);
        lemma_find_among_sound(g, children, k + 1, target, fuel);
    }
}

} // verus!
