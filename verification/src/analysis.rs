//! The analyses the lints share: loop dependence of an expression, the
//! enclosing loop, and the inter-procedural search for storage operations.

use vstd::prelude::*;
use crate::model::{BodyOp, CallGraph, Enclosing, Expr, LoopKind};
use crate::paths::{env_path, is_env_path, matches_any, matches_any_path, path_matches, table_view};
use crate::text::str_eq;

verus! {

/// Whether `x` occurs in `v`.
pub fn contains_id(v: &Vec<u64>, x: u64) -> (r: bool)
    ensures
        r == v@.contains(x),
{
    let mut i: usize = 0;
    while i < v.len()
        invariant
            i <= v@.len(),
            forall|j: int| 0 <= j < i ==> v@[j] != x,
        decreases v@.len() - i,
    {
        if v[i] == x {
            return true;
        }
        i = i + 1;
    }
    false
}

/// `reads` holds a binding introduced or mutated inside `scope`; when the
/// mutation analysis gave no verdict the answer is "depends".
pub open spec fn reads_loop_state(scope: Enclosing, reads: Seq<u64>) -> bool {
    match scope.mutated {
        None => true,
        Some(mutated) => exists|i: int|
            0 <= i < reads.len() && (scope.bindings@.contains(#[trigger] reads[i])
                || mutated@.contains(reads[i])),
    }
}

/// Whether an expression that reads the locals `reads` reads anything that
/// changes from one iteration of `scope` to the next: a binding introduced
/// inside it (the loop variable, a per-iteration `let`) or one mutated inside
/// it. When the mutation analysis gave no verdict the expression is taken to
/// depend on the loop, so that it stays unreported.
pub fn depends_on_loop_state(scope: &Enclosing, reads: &Vec<u64>) -> (r: bool)
    ensures
        r == reads_loop_state(*scope, reads@),
{
    match &scope.mutated {
        None => true,
        Some(mutated) => {
            let mut i: usize = 0;
            while i < reads.len()
                invariant
                    i <= reads@.len(),
                    scope.mutated == Some(*mutated),
                    forall|j: int|
                        0 <= j < i ==> !(scope.bindings@.contains(#[trigger] reads@[j])
                            || mutated@.contains(reads@[j])),
                decreases reads@.len() - i,
            {
                if contains_id(&scope.bindings, reads[i]) || contains_id(mutated, reads[i]) {
                    assert(scope.bindings@.contains(reads@[i as int]) || mutated@.contains(
                        reads@[i as int],
                    ));
                    return true;
                }
                i = i + 1;
            }
            false
        },
    }
}

/// The loop an expression sits in, when its innermost repeating construct is
/// a loop rather than a closure.
pub open spec fn loop_of(e: Expr) -> Option<Enclosing> {
    match e.enclosing {
        Some(scope) => match scope.kind {
            LoopKind::Loop => Some(scope),
            LoopKind::Closure => None,
        },
        None => None,
    }
}

/// The loop `e` sits directly in. A call inside a closure that a loop calls
/// is not in the loop: the closure may be defined elsewhere, and what it
/// captures is out of reach of the loop-dependence analysis.
pub fn enclosing_loop(e: &Expr) -> (r: Option<&Enclosing>)
    ensures
        match r {
            Some(s) => loop_of(*e) == Some(*s),
            None => loop_of(*e) is None,
        },
{
    match &e.enclosing {
        Some(scope) => match scope.kind {
            LoopKind::Loop => Some(scope),
            LoopKind::Closure => None,
        },
        None => None,
    }
}

/// A body operation that is itself a storage (or target) operation: a method
/// call on a receiver whose type matches `targets`, or `Env::storage()`.
pub open spec fn op_hits(op: BodyOp, targets: Seq<Seq<Seq<char>>>) -> bool {
    match op {
        BodyOp::MethodCall { receiver: Some(p), method } => matches_any(p@, targets) || (
        path_matches(p@, env_path()) && method@ == "storage"@),
        _ => false,
    }
}

/// Function `f` of `g` performs a target operation, directly or through
/// calls at most `depth` levels deep, without revisiting a function of
/// `path` (the call chain being explored). Functions outside the crate,
/// revisits and exhausted depth count as "no".
pub open spec fn reaches(
    g: CallGraph,
    f: usize,
    targets: Seq<Seq<Seq<char>>>,
    depth: nat,
    path: Seq<usize>,
) -> bool
    decreases depth, 0nat,
{
    if f < g.fns@.len() && g.fns@[f as int].local && !path.contains(f) && depth > 0 {
        ops_reach(g, g.fns@[f as int].ops@, targets, (depth - 1) as nat, path.push(f))
    } else {
        false
    }
}

/// One of `ops` is a target operation, or a call of a function that
/// [`reaches`] one within `depth` levels.
pub open spec fn ops_reach(
    g: CallGraph,
    ops: Seq<BodyOp>,
    targets: Seq<Seq<Seq<char>>>,
    depth: nat,
    path: Seq<usize>,
) -> bool
    decreases depth, ops.len(),
{
    if ops.len() == 0 {
        false
    } else {
        ops_reach(g, ops.drop_last(), targets, depth, path) || match ops.last() {
            BodyOp::Call { callee: Some(c) } => reaches(g, c, targets, depth, path),
            op => op_hits(op, targets),
        }
    }
}

proof fn lemma_ops_reach_prefix(
    g: CallGraph,
    ops: Seq<BodyOp>,
    i: int,
    targets: Seq<Seq<Seq<char>>>,
    depth: nat,
    path: Seq<usize>,
)
    requires
        0 <= i <= ops.len(),
        ops_reach(g, ops.take(i), targets, depth, path),
    ensures
        ops_reach(g, ops, targets, depth, path),
    decreases ops.len() - i,
{
    if i < ops.len() {
        assert(ops.take(i + 1).drop_last() =~= ops.take(i));
        lemma_ops_reach_prefix(g, ops, i + 1, targets, depth, path);
    } else {
        assert(ops.take(i) =~= ops);
    }
}

/// Whether function `def` of `graph` (or a function it calls, up to `depth`
/// levels down) performs an operation on a receiver whose type matches
/// `targets`, or calls `Env::storage()`.
///
/// The search errs on the side of "no": functions outside the crate, calls
/// the compiler did not resolve, functions already on the call chain
/// `visited`, and calls below the depth bound are not inspected. `visited` is
/// the chain being explored; it is the same on return as on entry.
pub fn callee_contains_soroban_op(
    graph: &CallGraph,
    def: usize,
    targets: &[&[&str]],
    depth: u32,
    visited: &mut Vec<usize>,
) -> (r: bool)
    ensures
        r == reaches(*graph, def, table_view(targets@), depth as nat, old(visited)@),
        final(visited)@ == old(visited)@,
    decreases depth,
{
    if def >= graph.fns.len() {
        return false;
    }
    if !graph.fns[def].local {
        return false;
    }
    let mut k: usize = 0;
    while k < visited.len()
        invariant
            k <= visited@.len(),
            forall|j: int| 0 <= j < k ==> visited@[j] != def,
        decreases visited@.len() - k,
    {
        if visited[k] == def {
            assert(visited@.contains(def));
            return false;
        }
        k = k + 1;
    }
    if depth == 0 {
        return false;
    }
    let ghost path = visited@;
    visited.push(def);
    let ops = &graph.fns[def].ops;
    let ghost tv = table_view(targets@);
    let mut found = false;
    let mut i: usize = 0;
    while i < ops.len() && !found
        invariant
            i <= ops@.len(),
            depth > 0,
            def < graph.fns@.len(),
            visited@ == path.push(def),
            ops@ == graph.fns@[def as int].ops@,
            tv == table_view(targets@),
            found == ops_reach(*graph, ops@.take(i as int), tv, (depth - 1) as nat, path.push(def)),
        decreases ops@.len() - i,
    {
        proof {
            assert(ops@.take(i + 1).drop_last() =~= ops@.take(i as int));
            assert(ops@.take(i + 1).last() == ops@[i as int]);
        }
        match &ops[i] {
            BodyOp::MethodCall { receiver, method } => {
                if let Some(p) = receiver {
                    if matches_any_path(p.as_str(), targets) {
                        found = true;
                    } else if is_env_path(p.as_str()) && str_eq(method.as_str(), "storage") {
                        found = true;
                    }
                }
            },
            BodyOp::Call { callee } => {
                if let Some(c) = callee {
                    if callee_contains_soroban_op(graph, *c, targets, depth - 1, visited) {
                        found = true;
                    }
                }
            },
        }
        i = i + 1;
    }
    proof {
        if found {
            lemma_ops_reach_prefix(*graph, ops@, i as int, tv, (depth - 1) as nat, path.push(def));
        } else {
            assert(ops@.take(i as int) =~= ops@);
        }
    }
    visited.pop();
    found
}

} // verus!
