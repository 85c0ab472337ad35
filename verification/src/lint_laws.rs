//! What the lints detect, stated over the source text of definition paths
//! and method names rather than over the tables the lints are written with.

use vstd::prelude::*;
use crate::analysis::{op_hits, ops_reach, reaches};
use crate::fn_passes::{
    block_items, persistent_extend, persistent_read, read_pair, redundant_positions, spec_storage_op,
    read_before, storage_def, text_or_empty, unread_writes, write_pair,
};
use crate::laws::{lemma_redundant_reads, read_repeats_previous};
use crate::model::{Adt, Arg, Block, BodyOp, CallGraph, Expr, ExprKind};
use crate::symbols::{short_symbol, symbol_char};
use crate::paths::{env_path, join_path, join_with, matches_any, path_matches, storage_types};
use crate::text::seq_ends_with;

verus! {

/// A definition path names one of the storage accessors: it ends with
/// `soroban_sdk::storage::` and `Storage`, `Instance`, `Persistent` or
/// `Temporary`.
pub open spec fn names_storage_accessor(p: Seq<char>) -> bool {
    ||| seq_ends_with(p, "soroban_sdk::storage::Storage"@)
    ||| seq_ends_with(p, "soroban_sdk::storage::Instance"@)
    ||| seq_ends_with(p, "soroban_sdk::storage::Persistent"@)
    ||| seq_ends_with(p, "soroban_sdk::storage::Temporary"@)
}

proof fn lemma_join3(a: Seq<char>, b: Seq<char>, c: Seq<char>)
    ensures
        join_path(seq![a, b, c]) == a + "::"@ + b + "::"@ + c,
{
    reveal_strlit("::");
    let sep = seq![':', ':'];
    assert("::"@ =~= sep);
    assert(seq![a, b, c].drop_last() =~= seq![a, b]);
    assert(seq![a, b].drop_last() =~= seq![a]);
    assert(join_with(seq![a], sep) == a);
    assert(join_with(seq![a, b], sep) == a + sep + b);
    assert(join_with(seq![a, b, c], sep) == a + sep + b + sep + c);
}

/// The definition paths of the storage accessors, written out.
pub proof fn lemma_storage_paths()
    ensures
        join_path(seq!["soroban_sdk"@, "storage"@, "Storage"@]) == "soroban_sdk::storage::Storage"@,
        join_path(seq!["soroban_sdk"@, "storage"@, "Instance"@]) == "soroban_sdk::storage::Instance"@,
        join_path(seq!["soroban_sdk"@, "storage"@, "Persistent"@]) == "soroban_sdk::storage::Persistent"@,
        join_path(seq!["soroban_sdk"@, "storage"@, "Temporary"@]) == "soroban_sdk::storage::Temporary"@,
        join_path(env_path()) == "soroban_sdk::Env"@,
{
    reveal_strlit("soroban_sdk");
    reveal_strlit("storage");
    reveal_strlit("Storage");
    reveal_strlit("Instance");
    reveal_strlit("Persistent");
    reveal_strlit("Temporary");
    reveal_strlit("Env");
    reveal_strlit("::");
    reveal_strlit("soroban_sdk::storage::Storage");
    reveal_strlit("soroban_sdk::storage::Instance");
    reveal_strlit("soroban_sdk::storage::Persistent");
    reveal_strlit("soroban_sdk::storage::Temporary");
    reveal_strlit("soroban_sdk::Env");
    let s = "soroban_sdk"@;
    let st = "storage"@;
    lemma_join3(s, st, "Storage"@);
    lemma_join3(s, st, "Instance"@);
    lemma_join3(s, st, "Persistent"@);
    lemma_join3(s, st, "Temporary"@);
    assert(s + "::"@ + st + "::"@ + "Storage"@ =~= "soroban_sdk::storage::Storage"@);
    assert(s + "::"@ + st + "::"@ + "Instance"@ =~= "soroban_sdk::storage::Instance"@);
    assert(s + "::"@ + st + "::"@ + "Persistent"@ =~= "soroban_sdk::storage::Persistent"@);
    assert(s + "::"@ + st + "::"@ + "Temporary"@ =~= "soroban_sdk::storage::Temporary"@);
    let sep = seq![':', ':'];
    assert(env_path().drop_last() =~= seq![s]);
    assert(join_with(seq![s], sep) == s);
    assert(join_with(env_path(), sep) == s + sep + "Env"@);
    assert(s + sep + "Env"@ =~= "soroban_sdk::Env"@);
}

/// A definition path is one of the storage accessors' exactly when it ends
/// with one of their full names.
pub proof fn lemma_storage_accessor_paths(p: Seq<char>)
    ensures
        matches_any(p, storage_types()) <==> names_storage_accessor(p),
{
    lemma_storage_paths();
    let t = storage_types();
    if names_storage_accessor(p) {
        if seq_ends_with(p, "soroban_sdk::storage::Storage"@) {
            assert(path_matches(p, t[0]));
        } else if seq_ends_with(p, "soroban_sdk::storage::Instance"@) {
            assert(path_matches(p, t[1]));
        } else if seq_ends_with(p, "soroban_sdk::storage::Persistent"@) {
            assert(path_matches(p, t[2]));
        } else {
            assert(path_matches(p, t[3]));
        }
    }
    if matches_any(p, t) {
        let i = choose|i: int| 0 <= i < t.len() && path_matches(p, #[trigger] t[i]);
        assert(i == 0 || i == 1 || i == 2 || i == 3);
    }
}

/// One operation of a function body leads to a target operation: it is one
/// (a method call on a receiver whose type matches `targets`, or
/// `Env::storage()`), or it calls a function that reaches one within `depth`
/// levels without revisiting `path`.
pub open spec fn op_leads(g: CallGraph, op: BodyOp, targets: Seq<Seq<Seq<char>>>, depth: nat, path: Seq<usize>) -> bool {
    match op {
        BodyOp::Call { callee: Some(c) } => reaches(g, c, targets, depth, path),
        BodyOp::Call { callee: None } => false,
        BodyOp::MethodCall { .. } => op_hits(op, targets),
    }
}

/// A method call is a target operation exactly when its receiver's type
/// path ends with one of the paths of `targets`, or it is `storage()` called
/// on `soroban_sdk::Env`, whatever the method otherwise.
pub proof fn lemma_target_operations(p: String, method: String, targets: Seq<Seq<Seq<char>>>)
    ensures
        op_hits(BodyOp::MethodCall { receiver: Some(p), method }, targets) <==> (
            (exists|i: int| 0 <= i < targets.len() && seq_ends_with(p@, join_path(#[trigger] targets[i])))
            || (seq_ends_with(p@, "soroban_sdk::Env"@) && method@ == "storage"@)),
        op_hits(BodyOp::MethodCall { receiver: None, method }, targets) == false,
{
    lemma_storage_paths();
}

/// The callee search looks at every operation of a body, wherever it
/// stands: a body leads to a target operation exactly when one of its
/// operations does. Adding operations to a body, before or after, never
/// turns a "yes" into a "no".
pub proof fn lemma_callee_search_sees_every_operation(
    g: CallGraph,
    ops: Seq<BodyOp>,
    targets: Seq<Seq<Seq<char>>>,
    depth: nat,
    path: Seq<usize>,
)
    ensures
        ops_reach(g, ops, targets, depth, path) <==> exists|i: int|
            0 <= i < ops.len() && op_leads(g, #[trigger] ops[i], targets, depth, path),
    decreases ops.len(),
{
    if ops.len() > 0 {
        let prev = ops.drop_last();
        let n = ops.len() - 1;
        lemma_callee_search_sees_every_operation(g, prev, targets, depth, path);
        assert(ops.last() == ops[n]);
        assert(ops_reach(g, ops, targets, depth, path) == (ops_reach(g, prev, targets, depth, path)
            || op_leads(g, ops[n], targets, depth, path)));
        if exists|i: int| 0 <= i < ops.len() && op_leads(g, #[trigger] ops[i], targets, depth, path) {
            let i = choose|i: int| 0 <= i < ops.len() && op_leads(g, #[trigger] ops[i], targets, depth, path);
            if i < n {
                assert(prev[i] == ops[i]);
            }
        }
        if ops_reach(g, prev, targets, depth, path) {
            let i = choose|i: int| 0 <= i < prev.len() && op_leads(g, #[trigger] prev[i], targets, depth, path);
            assert(prev[i] == ops[i]);
        }
    }
}

/// A function of the crate, not on the call chain, with depth left, reaches
/// a target operation exactly when one of the operations of its body leads
/// to one with a level less; any other function does not.
pub proof fn lemma_callee_search_of_function(
    g: CallGraph,
    f: usize,
    targets: Seq<Seq<Seq<char>>>,
    depth: nat,
    path: Seq<usize>,
)
    ensures
        reaches(g, f, targets, depth, path) <==> (f < g.fns@.len() && g.fns@[f as int].local && !path.contains(f)
            && depth > 0 && exists|i: int|
            0 <= i < g.fns@[f as int].ops@.len() && op_leads(
                g,
                #[trigger] g.fns@[f as int].ops@[i],
                targets,
                (depth - 1) as nat,
                path.push(f),
            )),
{
    if f < g.fns@.len() && g.fns@[f as int].local && !path.contains(f) && depth > 0 {
        lemma_callee_search_sees_every_operation(g, g.fns@[f as int].ops@, targets, (depth - 1) as nat, path.push(f));
    }
}

/// The redundant-read pass knows the three keyed accessors: a type whose
/// path ends with `soroban_sdk::storage::Instance`, `::Persistent` or
/// `::Temporary` is identified by its definition, any other type by nothing.
pub proof fn lemma_keyed_accessors(ty: Option<Adt>)
    ensures
        storage_def(ty) == (match ty {
            Some(a) => if seq_ends_with(a.path@, "soroban_sdk::storage::Instance"@) || seq_ends_with(
                a.path@,
                "soroban_sdk::storage::Persistent"@,
            ) || seq_ends_with(a.path@, "soroban_sdk::storage::Temporary"@) {
                Some(a.def)
            } else {
                None
            },
            None => None,
        }),
{
    lemma_storage_paths();
}

/// A path names one of the keyed accessors: `Instance`, `Persistent` or
/// `Temporary`.
pub open spec fn names_keyed_accessor(p: Seq<char>) -> bool {
    ||| seq_ends_with(p, "soroban_sdk::storage::Instance"@)
    ||| seq_ends_with(p, "soroban_sdk::storage::Persistent"@)
    ||| seq_ends_with(p, "soroban_sdk::storage::Temporary"@)
}

/// The receiver's type is the keyed accessor of definition `d`.
pub open spec fn keyed_accessor(adt: Option<Adt>, d: u64) -> bool {
    match adt {
        Some(a) => a.def == d && names_keyed_accessor(a.path@),
        None => false,
    }
}

/// The receiver's type is the `Persistent` accessor.
pub open spec fn persistent_accessor(adt: Option<Adt>) -> bool {
    match adt {
        Some(a) => seq_ends_with(a.path@, "soroban_sdk::storage::Persistent"@),
        None => false,
    }
}

/// The receiver's type is one of the storage accessors.
pub open spec fn storage_accessor(adt: Option<Adt>) -> bool {
    match adt {
        Some(a) => names_storage_accessor(a.path@),
        None => false,
    }
}

/// The text of the first argument, one leading borrow removed, when there
/// is one and it is known.
pub open spec fn first_key(args: Seq<Arg>) -> Option<Seq<char>> {
    if args.len() > 0 {
        match args[0].inner_text {
            Some(t) => Some(t@),
            None => None,
        }
    } else {
        None
    }
}

/// `e` is `get(&key)` or `has(&key)` on a keyed accessor (`Instance`,
/// `Persistent` or `Temporary`) of definition `d`, the key's text, one
/// leading borrow removed, being `k`.
pub open spec fn keyed_read(e: Expr, d: u64, k: Seq<char>) -> bool {
    match e.kind {
        ExprKind::MethodCall { method, receiver, args } => (method@ == "get"@ || method@ == "has"@)
            && keyed_accessor(receiver.adt, d) && first_key(args@) == Some(k),
        _ => false,
    }
}

/// `e` calls one of the methods `names` on the `Persistent` accessor.
pub open spec fn persistent_method(e: Expr, names: Seq<Seq<char>>) -> bool {
    match e.kind {
        ExprKind::MethodCall { method, receiver, .. } => names.contains(method@) && persistent_accessor(receiver.adt),
        _ => false,
    }
}

/// A keyed read is a storage read of its accessor and key for the
/// redundant-read pass.
pub proof fn lemma_keyed_read_op(e: Expr, d: u64, k: Seq<char>)
    requires
        keyed_read(e, d, k),
    ensures
        spec_storage_op(e) == Some((d, Some(k))),
{
    reveal_strlit("get");
    reveal_strlit("has");
    reveal_strlit("set");
    if let ExprKind::MethodCall { method, receiver, args } = e.kind {
        lemma_keyed_accessors(receiver.adt);
        assert(storage_def(receiver.adt) == Some(d));
        if method@ == "get"@ {
            assert(method@[0] != "set"@[0]);
        } else {
            assert(method@[0] != "set"@[0]);
        }
        assert(args@.len() > 0);
    }
}

/// Two reads of the same key on the same keyed accessor, one right after
/// the other among a block's top-level expressions, make the second one
/// redundant: the block's check reports its position.
pub proof fn lemma_repeated_read_reported(b: Block, i: int, d: u64, k: Seq<char>)
    requires
        b.stmts@.len() <= usize::MAX,
        0 < i < block_items(b).len(),
        keyed_read(block_items(b)[i - 1].1, d, k),
        keyed_read(block_items(b)[i].1, d, k),
    ensures
        redundant_positions(block_items(b)).contains(block_items(b)[i].0),
{
    let items = block_items(b);
    lemma_keyed_read_op(items[i - 1].1, d, k);
    lemma_keyed_read_op(items[i].1, d, k);
    assert(read_repeats_previous(items, i));
    lemma_redundant_reads(b);
}

/// The TTL lint counts a read or an extension only on the `Persistent`
/// accessor: `get`/`has`, respectively `extend_ttl`, on a receiver whose
/// type path ends with `soroban_sdk::storage::Persistent`. An `extend_ttl`
/// on instance or temporary storage extends no persistent entry.
pub proof fn lemma_persistent_operations(e: Expr)
    ensures
        persistent_extend(e) <==> persistent_method(e, seq!["extend_ttl"@]),
        persistent_read(e) <==> persistent_method(e, seq!["get"@, "has"@]),
{
    lemma_storage_paths();

}

/// The character codes of the characters a short symbol may hold: ASCII
/// digits, upper- and lower-case ASCII letters, and the underscore.
pub open spec fn ascii_word_char(c: char) -> bool {
    let u = c as int;
    (48 <= u <= 57) || (65 <= u <= 90) || (97 <= u <= 122) || u == 95
}

/// A literal fits `symbol_short!` exactly when it has one to nine
/// characters, each an ASCII letter of either case, an ASCII digit or `_`.
pub proof fn lemma_short_symbols(s: Seq<char>)
    ensures
        short_symbol(s) <==> (1 <= s.len() <= 9 && forall|i: int| 0 <= i < s.len() ==> ascii_word_char(#[trigger] s[i])),
{
    assert forall|c: char| symbol_char(c) <==> ascii_word_char(c) by {}
}

/// A storage read, for the write-without-read lint: `get` or `has` with at
/// least one argument on a storage accessor, recorded with the receiver's
/// text and the first argument's text. A `set` with at least two arguments
/// on a storage accessor is a write of its receiver and first argument.
pub proof fn lemma_reads_and_writes(e: Expr)
    ensures
        read_pair(e) == (match e.kind {
            ExprKind::MethodCall { method, receiver, args } => if (method@ == "get"@ || method@ == "has"@)
                && args@.len() > 0 && storage_accessor(receiver.adt) {
                Some((text_or_empty(receiver.text), text_or_empty(args@[0].text)))
            } else {
                None
            },
            _ => None,
        }),
        write_pair(e) == (match e.kind {
            ExprKind::MethodCall { method, receiver, args } => if method@ == "set"@ && args@.len() >= 2
                && storage_accessor(receiver.adt) {
                Some((text_or_empty(receiver.text), text_or_empty(args@[0].text)))
            } else {
                None
            },
            _ => None,
        }),
{
    if let ExprKind::MethodCall { receiver, .. } = e.kind {
        if let Some(a) = receiver.adt {
            lemma_storage_accessor_paths(a.path@);
        }
    }
}

proof fn lemma_unread_writes_members(body: Seq<Expr>, n: int)
    requires
        0 <= n <= body.len(),
        body.len() <= usize::MAX,
    ensures
        forall|p: usize| #[trigger] unread_writes(body, n).contains(p) ==> p < n,
        forall|i: int|
            0 <= i < n ==> (unread_writes(body, n).contains(i as usize) <==> (#[trigger] write_pair(body[i])
                matches Some(w) && !read_before(body, i, w))),
    decreases n,
{
    if n > 0 {
        lemma_unread_writes_members(body, n - 1);
        let prev = unread_writes(body, n - 1);
        let cur = unread_writes(body, n);
        assert(((n - 1) as usize) as int == n - 1);
        if cur != prev {
            assert(cur == prev.push((n - 1) as usize));
            assert forall|p: usize| #[trigger] cur.contains(p) implies p < n by {
                let k = choose|k: int| 0 <= k < cur.len() && cur[k] == p;
                if k < prev.len() {
                    assert(prev.contains(p));
                }
            }
            assert forall|i: int| 0 <= i < n implies (cur.contains(i as usize) <==> (#[trigger] write_pair(body[i])
                matches Some(w) && !read_before(body, i, w))) by {
                if i < n - 1 {
                    if cur.contains(i as usize) {
                        let k = choose|k: int| 0 <= k < cur.len() && cur[k] == i as usize;
                        if k == prev.len() {
                            assert(cur[k] == (n - 1) as usize);
                        } else {
                            assert(prev.contains(i as usize));
                        }
                    }
                    if prev.contains(i as usize) {
                        let k = choose|k: int| 0 <= k < prev.len() && prev[k] == i as usize;
                        assert(cur[k] == i as usize);
                    }
                } else {
                    assert(cur[prev.len() as int] == (n - 1) as usize);
                }
            }
        } else {
            assert forall|i: int| 0 <= i < n implies (cur.contains(i as usize) <==> (#[trigger] write_pair(body[i])
                matches Some(w) && !read_before(body, i, w))) by {
                if i == n - 1 {
                    assert(!prev.contains((n - 1) as usize));
                }
            }
        }
    }
}

/// A storage write preceded, anywhere earlier in the body, by a read
/// (`get` or `has`) of the same receiver and key is not reported.
pub proof fn lemma_write_after_read_not_reported(body: Seq<Expr>, i: int, j: int)
    requires
        body.len() <= usize::MAX,
        0 <= j < i < body.len(),
        write_pair(body[i]) is Some,
        read_pair(body[j]) == write_pair(body[i]),
    ensures
        !unread_writes(body, body.len() as int).contains(i as usize),
{
    lemma_unread_writes_members(body, body.len() as int);
    assert(read_before(body, i, write_pair(body[i])->0));
}

/// A storage write with no earlier read of the same receiver and key is
/// reported, even when such a read comes later.
pub proof fn lemma_write_without_earlier_read_reported(body: Seq<Expr>, i: int)
    requires
        body.len() <= usize::MAX,
        0 <= i < body.len(),
        write_pair(body[i]) is Some,
        forall|j: int| 0 <= j < i ==> #[trigger] read_pair(body[j]) != write_pair(body[i]),
    ensures
        unread_writes(body, body.len() as int).contains(i as usize),
{
    lemma_unread_writes_members(body, body.len() as int);
    if read_before(body, i, write_pair(body[i])->0) {
        let j = choose|j: int| 0 <= j < i && read_pair(#[trigger] body[j]) == Some(write_pair(body[i])->0);
        assert(read_pair(body[j]) != write_pair(body[i]));
    }
}

} // verus!
