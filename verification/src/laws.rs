//! Properties of the library that span several functions or hold of every
//! input, proved over the specifications the functions' contracts use.

use vstd::prelude::*;
use crate::analysis::{ops_reach, reaches, reads_loop_state};
use crate::config::{config_error, first_error, known_level, BudgetConfig};
use crate::lints::{spec_lint_metadata, spec_registered_lints, LintId};
use crate::model::{Block, BodyOp, CallGraph, Expr, ExprKind, Stmt};
use crate::fn_passes::{block_items, last_read, redundant_positions, spec_storage_op, stmt_items};
use crate::passes::{
    ExtendTtlInLoop, HostInLoop, LinearScanInLoop, LoopInvariantStorageAccess, SorobanStorageInLoop,
    StorageKeyConstructionInLoop, UnnecessaryHostFunctionCall,
};
use crate::paths::{env_path, host_object_path, host_types, join_path, join_with, path_matches};
use crate::text::seq_ends_with;
use crate::report::spec_rpc_url;
use crate::unbounded::{any_reads_param, clamped_by_constant, reads_in, reads_param, storage_write, walk, walk_seq, Node, WalkState};

verus! {

/// Every lint registered with the compiler has a row in the registry the
/// command-line tool reads, and every row is registered: the two lists hold
/// the same lints in the same order.
pub proof fn lemma_registered_lints_match_metadata()
    ensures
        spec_registered_lints().len() == spec_lint_metadata().len(),
        forall|i: int|
            0 <= i < spec_registered_lints().len() ==> #[trigger] spec_registered_lints()[i]
                == spec_lint_metadata()[i].0,
{
}

/// Every lint the crate declares is registered with the compiler.
pub proof fn lemma_every_lint_registered(l: LintId)
    ensures
        spec_registered_lints().contains(l),
{
    let r = spec_registered_lints();
    let i: int = match l {
        LintId::SorobanStorageInLoop => 0,
        LintId::LoopInvariantStorageAccess => 1,
        LintId::SorobanInefficientBytesConcat => 2,
        LintId::SorobanRedundantStorageRead => 3,
        LintId::RedundantEnvClone => 4,
        LintId::UnnecessaryHostFunctionCall => 5,
        LintId::HostInLoop => 6,
        LintId::UnnecessaryStringToBytes => 7,
        LintId::ContractCallInLoop => 8,
        LintId::SymbolNewForShortLiteral => 9,
        LintId::UnboundedInputLoop => 10,
        LintId::BytesAppendInLoop => 11,
        LintId::StorageWriteWithoutRead => 12,
        LintId::InefficientBytesConcat => 13,
        LintId::MapInsertInLoop => 14,
        LintId::SignatureVerificationInLoop => 15,
        LintId::StorageKeyConstructionInLoop => 16,
        LintId::VecWhereSliceCouldBeUsed => 17,
        LintId::ExtendTtlInLoop => 18,
        LintId::LinearScanInLoop => 19,
        LintId::PersistentReadWithoutTtlExtension => 20,
        LintId::RequireAuthInLoop => 21,
    };
    assert(r[i] == l);
}

/// The storage-in-loop pass reports only terminal storage operations: a
/// method call other than `get`, `has` and `set` (such as the accessor calls
/// `env.storage()` and `.instance()` of a chain) is never reported by it.
pub proof fn lemma_accessor_calls_not_reported(g: CallGraph, e: Expr)
    requires
        e.kind matches ExprKind::MethodCall { method, .. } && method@ != "get"@ && method@
            != "has"@ && method@ != "set"@,
    ensures
        SorobanStorageInLoop::spec_check(g, e) is None,
{
}

/// No call is reported both by the extend-TTL-in-loop pass and by the
/// storage-in-loop pass: the latter only looks at `get`, `has` and `set`.
pub proof fn lemma_extend_ttl_not_double_reported(g: CallGraph, e: Expr)
    ensures
        !(SorobanStorageInLoop::spec_check(g, e) is Some && ExtendTtlInLoop::spec_check(e) is Some),
{
    reveal_strlit("extend_ttl");
    reveal_strlit("get");
    reveal_strlit("has");
    reveal_strlit("set");
    if let ExprKind::MethodCall { method, .. } = e.kind {
        if method@ == "extend_ttl"@ {
            assert(method@.len() == 10);
            assert("get"@.len() == 3);
        }
    }
}

/// Searching deeper never finds less: an operation reached within `depth`
/// levels of calls is reached within `depth + 1`.
pub proof fn lemma_reaches_monotone(
    g: CallGraph,
    f: usize,
    targets: Seq<Seq<Seq<char>>>,
    depth: nat,
    path: Seq<usize>,
)
    requires
        reaches(g, f, targets, depth, path),
    ensures
        reaches(g, f, targets, depth + 1, path),
    decreases depth, 0nat,
{
    lemma_ops_reach_monotone(
        g,
        g.fns@[f as int].ops@,
        targets,
        (depth - 1) as nat,
        path.push(f),
    );
}

/// [`lemma_reaches_monotone`] for the operations of a body.
pub proof fn lemma_ops_reach_monotone(
    g: CallGraph,
    ops: Seq<BodyOp>,
    targets: Seq<Seq<Seq<char>>>,
    depth: nat,
    path: Seq<usize>,
)
    requires
        ops_reach(g, ops, targets, depth, path),
    ensures
        ops_reach(g, ops, targets, depth + 1, path),
    decreases depth, ops.len(),
{
    if ops.len() > 0 {
        if ops_reach(g, ops.drop_last(), targets, depth, path) {
            lemma_ops_reach_monotone(g, ops.drop_last(), targets, depth, path);
        } else {
            match ops.last() {
                BodyOp::Call { callee: Some(c) } => {
                    lemma_reaches_monotone(g, c, targets, depth, path);
                },
                _ => {},
            }
        }
    }
}

/// A configuration that validates names only known lints, each at level
/// `allow`, `warn` or `deny`.
pub proof fn lemma_validated_entries_are_known(
    c: BudgetConfig,
    path: Seq<char>,
    known: Seq<Seq<char>>,
)
    requires
        config_error(c, path, known) is None,
    ensures
        c.lints matches Some(entries) ==> forall|i: int|
            0 <= i < entries@.len() ==> known.contains(#[trigger] entries@[i].0@) && known_level(
                entries@[i].1@,
            ),
{
    if let Some(entries) = c.lints {
        assert forall|i: int| 0 <= i < entries@.len() implies known.contains(
            #[trigger] entries@[i].0@,
        ) && known_level(entries@[i].1@) by {
            lemma_first_error_prefix(entries@, i + 1, entries@.len() as int, path, known);
        }
    }
}

proof fn lemma_first_error_prefix(
    entries: Seq<(String, String)>,
    m: int,
    n: int,
    path: Seq<char>,
    known: Seq<Seq<char>>,
)
    requires
        0 <= m <= n,
        first_error(entries, n, path, known) is None,
    ensures
        first_error(entries, m, path, known) is None,
    decreases n - m,
{
    if m < n {
        lemma_first_error_prefix(entries, m, n - 1, path, known);
    }
}

/// The walker's state is consistent: the loops reported hold no repetition
/// and there is one reported call per reported loop.
pub open spec fn walk_consistent(st: WalkState) -> bool {
    st.2.no_duplicates() && st.2.len() == st.3.len()
}

/// The unbounded-input-loop walk reports each loop at most once, with
/// exactly one storage call per reported loop.
pub proof fn lemma_walk_reports_loops_once(n: Node, params: Seq<u64>, st: WalkState)
    requires
        walk_consistent(st),
    ensures
        walk_consistent(walk(n, params, st)),
    decreases n,
{
    match n {
        Node::Block { id, stmts, tail } => match tail {
            Some(t) => {
                if let Node::Loop { stmts: body, tail: last, .. } = *t {
                    let inner = (true, Some((id, crate::unbounded::any_reads_param(stmts@, params))), st.2, st.3);
                    let head = walk_seq(stmts@, params, inner);
                    lemma_walk_seq_reports_loops_once(stmts@, params, inner);
                    lemma_walk_seq_reports_loops_once(body@, params, head);
                    if let Some(x) = last {
                        lemma_walk_reports_loops_once(*x, params, walk_seq(body@, params, head));
                    }
                } else {
                    lemma_walk_seq_reports_loops_once(stmts@, params, st);
                    lemma_walk_reports_loops_once(*t, params, walk_seq(stmts@, params, st));
                }
            },
            None => {
                lemma_walk_seq_reports_loops_once(stmts@, params, st);
            },
        },
        Node::Loop { id, stmts, tail } => {
            let inner = (true, Some((id, false)), st.2, st.3);
            lemma_walk_seq_reports_loops_once(stmts@, params, inner);
            if let Some(t) = tail {
                lemma_walk_reports_loops_once(*t, params, walk_seq(stmts@, params, inner));
            }
        },
        Node::MethodCall { id, method, receiver, children } => {
            let marked = match st.1 {
                Some((lid, true)) => if st.0 && crate::unbounded::storage_write(method@, receiver)
                    && !st.2.contains(lid) {
                    (st.0, st.1, st.2.push(lid), st.3.push(id))
                } else {
                    st
                },
                _ => st,
            };
            if let Some((lid, true)) = st.1 {
                if !st.2.contains(lid) {
                    assert(st.2.push(lid).no_duplicates()) by {
                        assert forall|i: int, j: int|
                            0 <= i < st.2.len() + 1 && 0 <= j < st.2.len() + 1 && i != j implies st.2.push(
                                lid,
                            )[i] != st.2.push(lid)[j] by {
                            if i == st.2.len() {
                                assert(st.2[j] != lid);
                            } else if j == st.2.len() {
                                assert(st.2[i] != lid);
                            }
                        }
                    }
                }
            }
            lemma_walk_seq_reports_loops_once(children@, params, marked);
        },
        Node::Local { .. } => {},
        Node::Lit => {},
        Node::Other { children } => {
            lemma_walk_seq_reports_loops_once(children@, params, st);
        },
    }
}

/// [`lemma_walk_reports_loops_once`] for a sequence of nodes.
pub proof fn lemma_walk_seq_reports_loops_once(ns: Seq<Node>, params: Seq<u64>, st: WalkState)
    requires
        walk_consistent(st),
    ensures
        walk_consistent(walk_seq(ns, params, st)),
    decreases ns,
{
    if ns.len() > 0 {
        lemma_walk_seq_reports_loops_once(ns.drop_last(), params, st);
        lemma_walk_reports_loops_once(ns.last(), params, walk_seq(ns.drop_last(), params, st));
    }
}

/// Some node of `n` is a storage write (`set` on a storage accessor).
pub open spec fn writes_storage(n: Node) -> bool
    decreases n,
{
    match n {
        Node::Block { stmts, tail, .. } => any_writes_storage(stmts@) || (tail matches Some(t)
            && writes_storage(*t)),
        Node::Loop { stmts, tail, .. } => any_writes_storage(stmts@) || (tail matches Some(t)
            && writes_storage(*t)),
        Node::MethodCall { method, receiver, children, .. } => storage_write(method@, receiver)
            || any_writes_storage(children@),
        Node::Local { .. } => false,
        Node::Lit => false,
        Node::Other { children } => any_writes_storage(children@),
    }
}

/// Some node of `ns` writes to storage.
pub open spec fn any_writes_storage(ns: Seq<Node>) -> bool
    decreases ns,
{
    if ns.len() == 0 {
        false
    } else {
        any_writes_storage(ns.drop_last()) || writes_storage(ns.last())
    }
}

/// The unbounded-input-loop walk reports nothing in code that writes no
/// storage: reading storage, or calling `env.storage()`, in a loop bounded by
/// a parameter is never reported.
pub proof fn lemma_walk_reports_only_writes(n: Node, params: Seq<u64>, st: WalkState)
    requires
        !writes_storage(n),
    ensures
        walk(n, params, st).2 == st.2,
        walk(n, params, st).3 == st.3,
    decreases n,
{
    match n {
        Node::Block { id, stmts, tail } => match tail {
            Some(t) => {
                if let Node::Loop { stmts: body, tail: last, .. } = *t {
                    let inner = (true, Some((id, any_reads_param(stmts@, params))), st.2, st.3);
                    let head = walk_seq(stmts@, params, inner);
                    assert(!writes_storage(*t));
                    assert(!any_writes_storage(body@));
                    lemma_walk_seq_reports_only_writes(stmts@, params, inner);
                    lemma_walk_seq_reports_only_writes(body@, params, head);
                    if let Some(x) = last {
                        lemma_walk_reports_only_writes(*x, params, walk_seq(body@, params, head));
                    }
                } else {
                    lemma_walk_seq_reports_only_writes(stmts@, params, st);
                    lemma_walk_reports_only_writes(*t, params, walk_seq(stmts@, params, st));
                }
            },
            None => {
                lemma_walk_seq_reports_only_writes(stmts@, params, st);
            },
        },
        Node::Loop { id, stmts, tail } => {
            let inner = (true, Some((id, false)), st.2, st.3);
            lemma_walk_seq_reports_only_writes(stmts@, params, inner);
            if let Some(t) = tail {
                lemma_walk_reports_only_writes(*t, params, walk_seq(stmts@, params, inner));
            }
        },
        Node::MethodCall { children, .. } => {
            lemma_walk_seq_reports_only_writes(children@, params, st);
        },
        Node::Local { .. } => {},
        Node::Lit => {},
        Node::Other { children } => {
            lemma_walk_seq_reports_only_writes(children@, params, st);
        },
    }
}

/// [`lemma_walk_reports_only_writes`] for a sequence of nodes.
pub proof fn lemma_walk_seq_reports_only_writes(ns: Seq<Node>, params: Seq<u64>, st: WalkState)
    requires
        !any_writes_storage(ns),
    ensures
        walk_seq(ns, params, st).2 == st.2,
        walk_seq(ns, params, st).3 == st.3,
    decreases ns,
{
    if ns.len() > 0 {
        lemma_walk_seq_reports_only_writes(ns.drop_last(), params, st);
        lemma_walk_reports_only_writes(ns.last(), params, walk_seq(ns.drop_last(), params, st));
    }
}

/// A parameter read only as the receiver of a clamp by a literal
/// (`p.min(100)`, `p.clamp(0, 100)`) is no untrusted loop bound: such a call
/// whose arguments are literals reads no parameter.
pub proof fn lemma_clamped_bound_is_trusted(n: Node, params: Seq<u64>)
    requires
        n matches Node::MethodCall { method, children, .. } && clamped_by_constant(method@, children@)
            && forall|i: int| 1 <= i < children@.len() ==> #[trigger] children@[i] is Lit,
    ensures
        !reads_param(n, params),
{
    if let Node::MethodCall { children, .. } = n {
        lemma_literals_read_nothing(children@, params);
    }
}

proof fn lemma_literals_read_nothing(ns: Seq<Node>, params: Seq<u64>)
    requires
        forall|i: int| 1 <= i < ns.len() ==> #[trigger] ns[i] is Lit,
    ensures
        !reads_in(ns, 1, params),
    decreases ns.len(),
{
    if ns.len() > 1 {
        assert(ns[ns.len() - 1] is Lit);
        assert(ns.last() == ns[ns.len() - 1]);
        assert(!reads_param(ns.last(), params));
        assert forall|i: int| 1 <= i < ns.drop_last().len() implies #[trigger] ns.drop_last()[i] is Lit by {
            assert(ns.drop_last()[i] == ns[i]);
        }
        lemma_literals_read_nothing(ns.drop_last(), params);
    }
}

/// The item at `i` of `items` is a storage read, and the last storage
/// operation before it is a read of the same accessor type and key: no write
/// and no other read come between them.
pub open spec fn read_repeats_previous(items: Seq<(usize, Expr)>, i: int) -> bool {
    spec_storage_op(items[i].1) matches Some((d, Some(k))) && exists|j: int|
        0 <= j < i && spec_storage_op(#[trigger] items[j].1) == Some((d, Some(k))) && forall|m: int|
            j < m < i ==> (#[trigger] spec_storage_op(items[m].1)) is None
}

/// The positions of `items` increase strictly.
pub open spec fn positions_increase(items: Seq<(usize, Expr)>) -> bool {
    forall|a: int, b: int| 0 <= a < b < items.len() ==> #[trigger] items[a].0 < #[trigger] items[b].0
}

proof fn lemma_last_read_is_last_op(items: Seq<(usize, Expr)>, d: u64, k: Seq<char>)
    ensures
        last_read(items) == Some((d, k)) <==> exists|j: int|
            0 <= j < items.len() && spec_storage_op(#[trigger] items[j].1) == Some((d, Some(k)))
                && forall|m: int| j < m < items.len() ==> (#[trigger] spec_storage_op(items[m].1)) is None,
    decreases items.len(),
{
    if items.len() > 0 {
        let prev = items.drop_last();
        let n = items.len() - 1;
        lemma_last_read_is_last_op(prev, d, k);
        assert(items.last() == items[n]);
        assert forall|m: int| 0 <= m < n implies #[trigger] prev[m] == items[m] by {}
        match spec_storage_op(items[n].1) {
            Some((d2, Some(k2))) => {
                if last_read(items) == Some((d, k)) {
                    assert(spec_storage_op(items[n].1) == Some((d, Some(k))));
                }
                if exists|j: int|
                    0 <= j < items.len() && spec_storage_op(#[trigger] items[j].1) == Some((d, Some(k)))
                        && forall|m: int| j < m < items.len() ==> (#[trigger] spec_storage_op(items[m].1)) is None {
                    let j = choose|j: int|
                        0 <= j < items.len() && spec_storage_op(#[trigger] items[j].1) == Some((d, Some(k)))
                            && forall|m: int| j < m < items.len() ==> (#[trigger] spec_storage_op(items[m].1)) is None;
                    if j < n {
                        assert(spec_storage_op(items[n].1) is None);
                    }
                }
            },
            Some((_, None)) => {
                if exists|j: int|
                    0 <= j < items.len() && spec_storage_op(#[trigger] items[j].1) == Some((d, Some(k)))
                        && forall|m: int| j < m < items.len() ==> (#[trigger] spec_storage_op(items[m].1)) is None {
                    let j = choose|j: int|
                        0 <= j < items.len() && spec_storage_op(#[trigger] items[j].1) == Some((d, Some(k)))
                            && forall|m: int| j < m < items.len() ==> (#[trigger] spec_storage_op(items[m].1)) is None;
                    if j < n {
                        assert(spec_storage_op(items[n].1) is None);
                    }
                }
            },
            None => {
                if last_read(items) == Some((d, k)) {
                    let j = choose|j: int|
                        0 <= j < prev.len() && spec_storage_op(#[trigger] prev[j].1) == Some((d, Some(k)))
                            && forall|m: int| j < m < prev.len() ==> (#[trigger] spec_storage_op(prev[m].1)) is None;
                    assert(spec_storage_op(items[j].1) == Some((d, Some(k))));
                    assert forall|m: int| j < m < items.len() implies (#[trigger] spec_storage_op(items[m].1)) is None by {
                        if m < n {
                            assert(spec_storage_op(prev[m].1) is None);
                        }
                    }
                }
                if exists|j: int|
                    0 <= j < items.len() && spec_storage_op(#[trigger] items[j].1) == Some((d, Some(k)))
                        && forall|m: int| j < m < items.len() ==> (#[trigger] spec_storage_op(items[m].1)) is None {
                    let j = choose|j: int|
                        0 <= j < items.len() && spec_storage_op(#[trigger] items[j].1) == Some((d, Some(k)))
                            && forall|m: int| j < m < items.len() ==> (#[trigger] spec_storage_op(items[m].1)) is None;
                    assert(j < n);
                    assert(spec_storage_op(prev[j].1) == Some((d, Some(k))));
                    assert forall|m: int| j < m < prev.len() implies (#[trigger] spec_storage_op(prev[m].1)) is None by {
                        assert(spec_storage_op(items[m].1) is None);
                    }
                }
            },
        }
    }
}

/// [`lemma_redundant_reads`] for any sequence of items with increasing
/// positions.
pub proof fn lemma_redundant_positions_direct(items: Seq<(usize, Expr)>)
    requires
        positions_increase(items),
    ensures
        forall|p: usize|
            #[trigger] redundant_positions(items).contains(p) <==> exists|i: int|
                0 <= i < items.len() && items[i].0 == p && read_repeats_previous(items, i),
        redundant_positions(items).no_duplicates(),
    decreases items.len(),
{
    if items.len() > 0 {
        let prev = items.drop_last();
        let n = items.len() - 1;
        assert(positions_increase(prev)) by {
            assert forall|a: int, b: int| 0 <= a < b < prev.len() implies #[trigger] prev[a].0 < #[trigger] prev[b].0 by {
                assert(prev[a] == items[a] && prev[b] == items[b]);
            }
        }
        lemma_redundant_positions_direct(prev);
        assert(items.last() == items[n]);
        let rp = redundant_positions(prev);
        // Whether the last item repeats the read before it.
        let last_repeats = spec_storage_op(items[n].1) matches Some((d, Some(k))) && last_read(prev) == Some((d, k));
        if let Some((d, Some(k))) = spec_storage_op(items[n].1) {
            lemma_last_read_is_last_op(prev, d, k);
            if last_read(prev) == Some((d, k)) {
                let j = choose|j: int|
                    0 <= j < prev.len() && spec_storage_op(#[trigger] prev[j].1) == Some((d, Some(k)))
                        && forall|m: int| j < m < prev.len() ==> (#[trigger] spec_storage_op(prev[m].1)) is None;
                assert(prev[j] == items[j]);
                assert forall|m: int| j < m < n implies (#[trigger] spec_storage_op(items[m].1)) is None by {
                    assert(prev[m] == items[m]);
                }
                assert(read_repeats_previous(items, n));
            } else if read_repeats_previous(items, n) {
                let j = choose|j: int|
                    0 <= j < n && spec_storage_op(#[trigger] items[j].1) == Some((d, Some(k))) && forall|m: int|
                        j < m < n ==> (#[trigger] spec_storage_op(items[m].1)) is None;
                assert(prev[j] == items[j]);
                assert forall|m: int| j < m < prev.len() implies (#[trigger] spec_storage_op(prev[m].1)) is None by {
                    assert(prev[m] == items[m]);
                }
            }
        }
        assert(last_repeats == read_repeats_previous(items, n));
        // The earlier items keep their verdict.
        assert forall|i: int| 0 <= i < n implies read_repeats_previous(items, i) == read_repeats_previous(prev, i) by {
            assert(prev[i] == items[i]);
            assert forall|j: int| 0 <= j <= i implies #[trigger] prev[j] == items[j] by {}
            if read_repeats_previous(items, i) {
                if let Some((d, Some(k))) = spec_storage_op(items[i].1) {
                    let j = choose|j: int|
                        0 <= j < i && spec_storage_op(#[trigger] items[j].1) == Some((d, Some(k))) && forall|m: int|
                            j < m < i ==> (#[trigger] spec_storage_op(items[m].1)) is None;
                    assert(spec_storage_op(prev[j].1) == Some((d, Some(k))));
                    assert forall|m: int| j < m < i implies (#[trigger] spec_storage_op(prev[m].1)) is None by {
                        assert(spec_storage_op(items[m].1) is None);
                    }
                }
            }
            if read_repeats_previous(prev, i) {
                if let Some((d, Some(k))) = spec_storage_op(prev[i].1) {
                    let j = choose|j: int|
                        0 <= j < i && spec_storage_op(#[trigger] prev[j].1) == Some((d, Some(k))) && forall|m: int|
                            j < m < i ==> (#[trigger] spec_storage_op(prev[m].1)) is None;
                    assert(spec_storage_op(items[j].1) == Some((d, Some(k))));
                    assert forall|m: int| j < m < i implies (#[trigger] spec_storage_op(items[m].1)) is None by {
                        assert(spec_storage_op(prev[m].1) is None);
                    }
                }
            }
        }
        assert forall|p: usize|
            #[trigger] redundant_positions(items).contains(p) <==> exists|i: int|
                0 <= i < items.len() && items[i].0 == p && read_repeats_previous(items, i) by {
            if redundant_positions(items).contains(p) {
                if rp.contains(p) {
                    let i = choose|i: int| 0 <= i < prev.len() && prev[i].0 == p && read_repeats_previous(prev, i);
                    assert(items[i] == prev[i]);
                } else {
                    assert(last_repeats);
                    assert(redundant_positions(items) == rp.push(items[n].0));
                    let k = choose|k: int| 0 <= k < redundant_positions(items).len() && redundant_positions(items)[k] == p;
                    if k < rp.len() {
                        assert(rp.contains(p));
                    }
                }
            }
            if exists|i: int| 0 <= i < items.len() && items[i].0 == p && read_repeats_previous(items, i) {
                let i = choose|i: int| 0 <= i < items.len() && items[i].0 == p && read_repeats_previous(items, i);
                if i < n {
                    assert(prev[i] == items[i]);
                    assert(rp.contains(p));
                    if last_repeats {
                        let k = choose|k: int| 0 <= k < rp.len() && rp[k] == p;
                        assert(rp.push(items[n].0)[k] == p);
                    }
                } else {
                    assert(redundant_positions(items) == rp.push(items[n].0));
                    assert(redundant_positions(items)[rp.len() as int] == p);
                }
            }
        }
        if last_repeats {
            assert(redundant_positions(items) == rp.push(items[n].0));
            assert forall|a: int| 0 <= a < rp.len() implies #[trigger] rp[a] != items[n].0 by {
                assert(rp.contains(rp[a]));
                let i = choose|i: int| 0 <= i < prev.len() && prev[i].0 == rp[a] && read_repeats_previous(prev, i);
                assert(items[i] == prev[i]);
                assert(items[i].0 < items[n].0);
            }
            assert(rp.push(items[n].0).no_duplicates()) by {
                assert forall|a: int, b: int|
                    0 <= a < rp.len() + 1 && 0 <= b < rp.len() + 1 && a != b implies rp.push(items[n].0)[a]
                    != rp.push(items[n].0)[b] by {
                    if a == rp.len() {
                        assert(rp[b] != items[n].0);
                    } else if b == rp.len() {
                        assert(rp[a] != items[n].0);
                    }
                }
            }
        } else {
            assert(redundant_positions(items) == rp);
        }
    }
}

proof fn lemma_stmt_positions(stmts: Seq<Stmt>)
    requires
        stmts.len() <= usize::MAX,
    ensures
        positions_increase(stmt_items(stmts)),
        forall|i: int| 0 <= i < stmt_items(stmts).len() ==> (#[trigger] stmt_items(stmts)[i]).0 < stmts.len(),
    decreases stmts.len(),
{
    if stmts.len() > 0 {
        let prev = stmts.drop_last();
        lemma_stmt_positions(prev);
        assert(stmts.drop_last() == prev);
        let pi = stmt_items(prev);
        let items = stmt_items(stmts);
        if items != pi {
            let pos = (stmts.len() - 1) as usize;
            assert(pos == stmts.len() - 1);
            assert(items.len() == pi.len() + 1);
            assert(items.drop_last() =~= pi);
            assert(items.last().0 == pos);
            assert forall|i: int| 0 <= i < pi.len() implies #[trigger] items[i] == pi[i] by {
                assert(items.drop_last()[i] == items[i]);
            }
            assert forall|a: int, c: int| 0 <= a < c < items.len() implies #[trigger] items[a].0 < #[trigger] items[c].0 by {
                if c == pi.len() {
                    assert(items[c] == items.last());
                } else {
                    assert(items[a] == pi[a] && items[c] == pi[c]);
                }
            }
            assert forall|i: int| 0 <= i < items.len() implies (#[trigger] items[i]).0 < stmts.len() by {
                if i == pi.len() {
                    assert(items[i] == items.last());
                } else {
                    assert(items[i] == pi[i]);
                }
            }
        }
    }
}

/// The redundant-storage-read pass reports, for a block, exactly the
/// positions of the storage reads (`get`, `has`) among its top-level
/// statements and trailing expression whose last storage operation before
/// them is a read of the same accessor type and key: a `set` in between
/// resets, nested expressions are not looked at, and each read is reported at
/// most once.
pub proof fn lemma_redundant_reads(b: Block)
    requires
        b.stmts@.len() <= usize::MAX,
    ensures
        forall|p: usize|
            #[trigger] redundant_positions(block_items(b)).contains(p) <==> exists|i: int|
                0 <= i < block_items(b).len() && block_items(b)[i].0 == p && read_repeats_previous(block_items(b), i),
        redundant_positions(block_items(b)).no_duplicates(),
{
    lemma_stmt_positions(b.stmts@);
    let si = stmt_items(b.stmts@);
    if let Some(e) = b.tail {
        let items = si.push((b.stmts@.len() as usize, e));
        assert forall|a: int, c: int| 0 <= a < c < items.len() implies #[trigger] items[a].0 < #[trigger] items[c].0 by {
            assert(items[a] == si[a]);
            if c < si.len() {
                assert(items[c] == si[c]);
            }
        }
    }
    lemma_redundant_positions_direct(block_items(b));
}

/// Distinct lints have distinct names, so a name in `budget.toml` or in an
/// `#[allow(..)]` designates one lint.
#[verifier::rlimit(100)]
#[verifier::spinoff_prover]
pub proof fn lemma_lint_names_distinct(a: LintId, b: LintId)
    requires
        a.spec_name() == b.spec_name(),
    ensures
        a == b,
{
    reveal_strlit("soroban_storage_in_loop");
    reveal_strlit("loop_invariant_storage_access");
    reveal_strlit("soroban_inefficient_bytes_concat");
    reveal_strlit("soroban_redundant_storage_read");
    reveal_strlit("redundant_env_clone");
    reveal_strlit("unnecessary_host_function_call");
    reveal_strlit("host_in_loop");
    reveal_strlit("unnecessary_string_to_bytes");
    reveal_strlit("contract_call_in_loop");
    reveal_strlit("symbol_new_for_short_literal");
    reveal_strlit("unbounded_input_loop");
    reveal_strlit("bytes_append_in_loop");
    reveal_strlit("storage_write_without_read");
    reveal_strlit("inefficient_bytes_concat");
    reveal_strlit("map_insert_in_loop");
    reveal_strlit("signature_verification_in_loop");
    reveal_strlit("storage_key_construction_in_loop");
    reveal_strlit("vec_where_slice_could_be_used");
    reveal_strlit("extend_ttl_in_loop");
    reveal_strlit("linear_scan_in_loop");
    reveal_strlit("persistent_read_without_ttl_extension");
    reveal_strlit("require_auth_in_loop");
    match a {
        LintId::SorobanStorageInLoop => {
            assert(b.spec_name() == "soroban_storage_in_loop"@);
        },
        LintId::LoopInvariantStorageAccess => {
            assert(b.spec_name() == "loop_invariant_storage_access"@);
            assert("loop_invariant_storage_access"@[0] != "vec_where_slice_could_be_used"@[0]);
        },
        LintId::SorobanInefficientBytesConcat => {
            assert(b.spec_name() == "soroban_inefficient_bytes_concat"@);
            assert("soroban_inefficient_bytes_concat"@[1] != "storage_key_construction_in_loop"@[1]);
        },
        LintId::SorobanRedundantStorageRead => {
            assert(b.spec_name() == "soroban_redundant_storage_read"@);
            assert("soroban_redundant_storage_read"@[0] != "unnecessary_host_function_call"@[0]);
            assert("soroban_redundant_storage_read"@[1] != "signature_verification_in_loop"@[1]);
        },
        LintId::RedundantEnvClone => {
            assert(b.spec_name() == "redundant_env_clone"@);
            assert("redundant_env_clone"@[0] != "linear_scan_in_loop"@[0]);
        },
        LintId::UnnecessaryHostFunctionCall => {
            assert(b.spec_name() == "unnecessary_host_function_call"@);
            assert("unnecessary_host_function_call"@[0] != "soroban_redundant_storage_read"@[0]);
            assert("unnecessary_host_function_call"@[0] != "signature_verification_in_loop"@[0]);
        },
        LintId::HostInLoop => {
            assert(b.spec_name() == "host_in_loop"@);
        },
        LintId::UnnecessaryStringToBytes => {
            assert(b.spec_name() == "unnecessary_string_to_bytes"@);
        },
        LintId::ContractCallInLoop => {
            assert(b.spec_name() == "contract_call_in_loop"@);
        },
        LintId::SymbolNewForShortLiteral => {
            assert(b.spec_name() == "symbol_new_for_short_literal"@);
        },
        LintId::UnboundedInputLoop => {
            assert(b.spec_name() == "unbounded_input_loop"@);
            assert("unbounded_input_loop"@[0] != "bytes_append_in_loop"@[0]);
            assert("unbounded_input_loop"@[0] != "require_auth_in_loop"@[0]);
        },
        LintId::BytesAppendInLoop => {
            assert(b.spec_name() == "bytes_append_in_loop"@);
            assert("bytes_append_in_loop"@[0] != "unbounded_input_loop"@[0]);
            assert("bytes_append_in_loop"@[0] != "require_auth_in_loop"@[0]);
        },
        LintId::StorageWriteWithoutRead => {
            assert(b.spec_name() == "storage_write_without_read"@);
        },
        LintId::InefficientBytesConcat => {
            assert(b.spec_name() == "inefficient_bytes_concat"@);
        },
        LintId::MapInsertInLoop => {
            assert(b.spec_name() == "map_insert_in_loop"@);
            assert("map_insert_in_loop"@[0] != "extend_ttl_in_loop"@[0]);
        },
        LintId::SignatureVerificationInLoop => {
            assert(b.spec_name() == "signature_verification_in_loop"@);
            assert("signature_verification_in_loop"@[1] != "soroban_redundant_storage_read"@[1]);
            assert("signature_verification_in_loop"@[0] != "unnecessary_host_function_call"@[0]);
        },
        LintId::StorageKeyConstructionInLoop => {
            assert(b.spec_name() == "storage_key_construction_in_loop"@);
            assert("storage_key_construction_in_loop"@[1] != "soroban_inefficient_bytes_concat"@[1]);
        },
        LintId::VecWhereSliceCouldBeUsed => {
            assert(b.spec_name() == "vec_where_slice_could_be_used"@);
            assert("vec_where_slice_could_be_used"@[0] != "loop_invariant_storage_access"@[0]);
        },
        LintId::ExtendTtlInLoop => {
            assert(b.spec_name() == "extend_ttl_in_loop"@);
            assert("extend_ttl_in_loop"@[0] != "map_insert_in_loop"@[0]);
        },
        LintId::LinearScanInLoop => {
            assert(b.spec_name() == "linear_scan_in_loop"@);
            assert("linear_scan_in_loop"@[0] != "redundant_env_clone"@[0]);
        },
        LintId::PersistentReadWithoutTtlExtension => {
            assert(b.spec_name() == "persistent_read_without_ttl_extension"@);
        },
        LintId::RequireAuthInLoop => {
            assert(b.spec_name() == "require_auth_in_loop"@);
            assert("require_auth_in_loop"@[0] != "unbounded_input_loop"@[0]);
            assert("require_auth_in_loop"@[0] != "bytes_append_in_loop"@[0]);
        },
    }
}


/// When `a` and `b` both end `full`, the shorter ends the longer.
pub proof fn lemma_suffixes_nest(full: Seq<char>, a: Seq<char>, b: Seq<char>)
    requires
        seq_ends_with(full, a),
        seq_ends_with(full, b),
        a.len() <= b.len(),
    ensures
        seq_ends_with(b, a),
{
    assert(b.subrange(b.len() - a.len(), b.len() as int) =~= a) by {
        assert forall|i: int| 0 <= i < a.len() implies b.subrange(
            b.len() - a.len(),
            b.len() as int,
        )[i] == a[i] by {
            assert(b[b.len() - a.len() + i] == full[full.len() - a.len() + i]);
        }
    }
}

proof fn lemma_host_object_suffixes()
    ensures
        forall|i: int| 0 <= i < host_types().len() ==> !seq_ends_with(
            join_path(#[trigger] host_types()[i]),
            join_path(host_object_path()),
        ),
        !seq_ends_with(join_path(env_path()), join_path(host_object_path())),
        forall|i: int| 0 <= i < host_types().len() ==> join_path(host_object_path()).len() <= join_path(
            #[trigger] host_types()[i],
        ).len(),
        join_path(host_object_path()).len() <= join_path(env_path()).len(),
{
    reveal_strlit("Bls12_381");
    reveal_strlit("Bn254");
    reveal_strlit("Crypto");
    reveal_strlit("CryptoHazmat");
    reveal_strlit("Deployer");
    reveal_strlit("DeployerWithAddress");
    reveal_strlit("DeployerWithAsset");
    reveal_strlit("Env");
    reveal_strlit("Events");
    reveal_strlit("Host");
    reveal_strlit("Ledger");
    reveal_strlit("Prng");
    reveal_strlit("bls12_381");
    reveal_strlit("bn254");
    reveal_strlit("crypto");
    reveal_strlit("deploy");
    reveal_strlit("events");
    reveal_strlit("host");
    reveal_strlit("ledger");
    reveal_strlit("prng");
    reveal_strlit("soroban_sdk");
    reveal_with_fuel(join_with, 5);
    assert(!seq_ends_with(join_path(seq!["soroban_sdk"@, "ledger"@, "Ledger"@]), join_path(host_object_path()))) by {
        let p = join_path(seq!["soroban_sdk"@, "ledger"@, "Ledger"@]);
        let h = join_path(host_object_path());
        assert(p.len() == 27);
        assert(p[26] == 'r');
        assert(h[9] == 't');
        assert(p.subrange(17, 27)[9] == p[26]);
    }
    assert(!seq_ends_with(join_path(seq!["soroban_sdk"@, "crypto"@, "Crypto"@]), join_path(host_object_path()))) by {
        let p = join_path(seq!["soroban_sdk"@, "crypto"@, "Crypto"@]);
        let h = join_path(host_object_path());
        assert(p.len() == 27);
        assert(p[26] == 'o');
        assert(h[9] == 't');
        assert(p.subrange(17, 27)[9] == p[26]);
    }
    assert(!seq_ends_with(join_path(seq!["soroban_sdk"@, "crypto"@, "CryptoHazmat"@]), join_path(host_object_path()))) by {
        let p = join_path(seq!["soroban_sdk"@, "crypto"@, "CryptoHazmat"@]);
        let h = join_path(host_object_path());
        assert(p.len() == 33);
        assert(p[31] == 'a');
        assert(h[8] == 's');
        assert(p.subrange(23, 33)[8] == p[31]);
    }
    assert(!seq_ends_with(join_path(seq!["soroban_sdk"@, "crypto"@, "bls12_381"@, "Bls12_381"@]), join_path(host_object_path()))) by {
        let p = join_path(seq!["soroban_sdk"@, "crypto"@, "bls12_381"@, "Bls12_381"@]);
        let h = join_path(host_object_path());
        assert(p.len() == 41);
        assert(p[40] == '1');
        assert(h[9] == 't');
        assert(p.subrange(31, 41)[9] == p[40]);
    }
    assert(!seq_ends_with(join_path(seq!["soroban_sdk"@, "crypto"@, "bn254"@, "Bn254"@]), join_path(host_object_path()))) by {
        let p = join_path(seq!["soroban_sdk"@, "crypto"@, "bn254"@, "Bn254"@]);
        let h = join_path(host_object_path());
        assert(p.len() == 33);
        assert(p[32] == '4');
        assert(h[9] == 't');
        assert(p.subrange(23, 33)[9] == p[32]);
    }
    assert(!seq_ends_with(join_path(seq!["soroban_sdk"@, "prng"@, "Prng"@]), join_path(host_object_path()))) by {
        let p = join_path(seq!["soroban_sdk"@, "prng"@, "Prng"@]);
        let h = join_path(host_object_path());
        assert(p.len() == 23);
        assert(p[22] == 'g');
        assert(h[9] == 't');
        assert(p.subrange(13, 23)[9] == p[22]);
    }
    assert(!seq_ends_with(join_path(seq!["soroban_sdk"@, "events"@, "Events"@]), join_path(host_object_path()))) by {
        let p = join_path(seq!["soroban_sdk"@, "events"@, "Events"@]);
        let h = join_path(host_object_path());
        assert(p.len() == 27);
        assert(p[26] == 's');
        assert(h[9] == 't');
        assert(p.subrange(17, 27)[9] == p[26]);
    }
    assert(!seq_ends_with(join_path(seq!["soroban_sdk"@, "deploy"@, "Deployer"@]), join_path(host_object_path()))) by {
        let p = join_path(seq!["soroban_sdk"@, "deploy"@, "Deployer"@]);
        let h = join_path(host_object_path());
        assert(p.len() == 29);
        assert(p[28] == 'r');
        assert(h[9] == 't');
        assert(p.subrange(19, 29)[9] == p[28]);
    }
    assert(!seq_ends_with(join_path(seq!["soroban_sdk"@, "deploy"@, "DeployerWithAddress"@]), join_path(host_object_path()))) by {
        let p = join_path(seq!["soroban_sdk"@, "deploy"@, "DeployerWithAddress"@]);
        let h = join_path(host_object_path());
        assert(p.len() == 40);
        assert(p[39] == 's');
        assert(h[9] == 't');
        assert(p.subrange(30, 40)[9] == p[39]);
    }
    assert(!seq_ends_with(join_path(seq!["soroban_sdk"@, "deploy"@, "DeployerWithAsset"@]), join_path(host_object_path()))) by {
        let p = join_path(seq!["soroban_sdk"@, "deploy"@, "DeployerWithAsset"@]);
        let h = join_path(host_object_path());
        assert(p.len() == 38);
        assert(p[36] == 'e');
        assert(h[8] == 's');
        assert(p.subrange(28, 38)[8] == p[36]);
    }
    assert(!seq_ends_with(join_path(seq!["soroban_sdk"@, "Env"@]), join_path(host_object_path()))) by {
        let p = join_path(seq!["soroban_sdk"@, "Env"@]);
        let h = join_path(host_object_path());
        assert(p.len() == 16);
        assert(p[15] == 'v');
        assert(h[9] == 't');
        assert(p.subrange(6, 16)[9] == p[15]);
    }
}

/// The Host-object pass and the unnecessary-host-call pass never report the
/// same call: no receiver type is both `host::Host` and one of the host
/// accessors or `Env`.
pub proof fn lemma_host_lints_do_not_overlap(e: Expr)
    ensures
        !(HostInLoop::spec_check(e) is Some && UnnecessaryHostFunctionCall::spec_check(e) is Some),
{
    if let ExprKind::MethodCall { receiver, .. } = e.kind {
        if let Some(a) = receiver.adt {
            if path_matches(a.path@, host_object_path()) {
                lemma_host_object_suffixes();
                assert forall|i: int| 0 <= i < host_types().len() implies !path_matches(
                    a.path@,
                    #[trigger] host_types()[i],
                ) by {
                    if path_matches(a.path@, host_types()[i]) {
                        lemma_suffixes_nest(
                            a.path@,
                            join_path(host_object_path()),
                            join_path(host_types()[i]),
                        );
                    }
                }
                if path_matches(a.path@, env_path()) {
                    lemma_suffixes_nest(a.path@, join_path(host_object_path()), join_path(env_path()));
                }
            }
        }
    }
}

/// A trailing `/` on the network address does not change the endpoint the
/// limits are fetched from.
pub proof fn lemma_rpc_url_ignores_trailing_slash(url: Seq<char>)
    requires
        !seq_ends_with(url, seq!['/']),
    ensures
        spec_rpc_url(url.push('/')) == spec_rpc_url(url),
{
    reveal_strlit("soroban/v1/ledger/core");
    reveal_strlit("/soroban/v1/ledger/core");
    let with_slash = url.push('/');
    assert(seq_ends_with(with_slash, seq!['/'])) by {
        assert(with_slash.subrange(with_slash.len() - 1, with_slash.len() as int) =~= seq!['/']);
    }
    assert(with_slash + "soroban/v1/ledger/core"@ =~= url + "/soroban/v1/ledger/core"@);
}

/// Calls that read something a loop changes are passed over by every pass
/// that suggests hoisting out of that loop: hoisting them would change what
/// the program does.
pub proof fn lemma_loop_dependent_calls_not_hoisted(e: Expr)
    requires
        e.enclosing matches Some(scope) && reads_loop_state(scope, e.reads@),
    ensures
        LoopInvariantStorageAccess::spec_check(e) is None,
        UnnecessaryHostFunctionCall::spec_check(e) is None,
        LinearScanInLoop::spec_check(e) is None,
        StorageKeyConstructionInLoop::spec_check(e) is None,
{
}

} // verus!
