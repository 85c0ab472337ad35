use std::collections::HashSet;

use soroban_cost_lints::fn_passes::{
    PersistentReadWithoutTtlExtension, SorobanRedundantStorageRead, StorageOp,
    StorageWriteWithoutRead, VecWhereSliceCouldBeUsed,
};
use soroban_cost_lints::model::{Adt, Arg, Block, Expr, ExprKind, Param, Receiver, Stmt};
use soroban_cost_lints::unbounded::{Node, Pat, UnboundedInputLoop};

fn adt(def: u64, path: &str) -> Option<Adt> {
    Some(Adt { def, path: path.to_string() })
}

fn key(text: &str) -> Arg {
    Arg {
        text: Some(format!("&{text}")),
        inner_text: Some(text.to_string()),
        is_lit: false,
        str_lit: None,
    }
}

fn storage_call(def: u64, path: &str, method: &str, receiver_text: &str, args: Vec<Arg>) -> Expr {
    Expr {
        kind: ExprKind::MethodCall {
            method: method.to_string(),
            receiver: Receiver {
                adt: adt(def, path),
                refs: 0,
                local: None,
                used_after: false,
                text: Some(receiver_text.to_string()),
            },
            args,
        },
        reads: vec![],
        enclosing: None,
    }
}

const PERSISTENT: &str = "soroban_sdk::storage::Persistent";
const INSTANCE: &str = "soroban_sdk::storage::Instance";

fn get(def: u64, path: &str, k: &str) -> Expr {
    storage_call(def, path, "get", "env.storage().persistent()", vec![key(k)])
}

fn set(def: u64, path: &str, k: &str) -> Expr {
    storage_call(def, path, "set", "env.storage().persistent()", vec![key(k), key("v")])
}

fn other() -> Expr {
    Expr { kind: ExprKind::Other, reads: vec![], enclosing: None }
}

#[test]
fn extract_storage_op_kinds() {
    match SorobanRedundantStorageRead::extract_storage_op(&get(7, PERSISTENT, "KEY")) {
        Some(StorageOp::Read { storage_def, key_text }) => {
            assert_eq!(storage_def, 7);
            assert_eq!(key_text, "KEY");
        }
        _ => panic!("expected a read"),
    }
    assert!(matches!(SorobanRedundantStorageRead::extract_storage_op(&set(7, PERSISTENT, "KEY")), Some(StorageOp::Write)));
    assert!(SorobanRedundantStorageRead::extract_storage_op(&get(7, "soroban_sdk::storage::Storage", "KEY")).is_none());
    assert!(SorobanRedundantStorageRead::extract_storage_op(&other()).is_none());
    assert_eq!(SorobanRedundantStorageRead::is_storage_type(&adt(3, INSTANCE)), Some(3));
    assert_eq!(SorobanRedundantStorageRead::is_storage_type(&adt(3, "soroban_sdk::Env")), None);
}

#[test]
fn repeated_read_in_block_is_reported() {
    let block = Block {
        stmts: vec![
            Stmt::Let { init: Some(get(7, PERSISTENT, "KEY")) },
            Stmt::Item,
            Stmt::Semi(other()),
            Stmt::Let { init: Some(get(7, PERSISTENT, "KEY")) },
        ],
        tail: Some(get(7, PERSISTENT, "KEY")),
    };
    assert_eq!(SorobanRedundantStorageRead.check_block(&block), vec![3, 4]);
}

#[test]
fn write_between_reads_resets() {
    let block = Block {
        stmts: vec![
            Stmt::Semi(get(7, PERSISTENT, "KEY")),
            Stmt::Semi(set(7, PERSISTENT, "KEY")),
            Stmt::Semi(get(7, PERSISTENT, "KEY")),
            Stmt::Semi(get(7, PERSISTENT, "OTHER")),
            Stmt::Semi(get(8, INSTANCE, "OTHER")),
            Stmt::Let { init: None },
        ],
        tail: None,
    };
    assert_eq!(SorobanRedundantStorageRead.check_block(&block), Vec::<usize>::new());
}

#[test]
fn write_without_read_is_reported() {
    let body = vec![get(7, PERSISTENT, "A"), set(7, PERSISTENT, "A"), set(7, PERSISTENT, "B")];
    assert_eq!(StorageWriteWithoutRead.check_fn(&body), vec![2]);
    // Only a read before the write counts.
    let body = vec![set(7, PERSISTENT, "C"), get(7, PERSISTENT, "C"), set(7, PERSISTENT, "C")];
    assert_eq!(StorageWriteWithoutRead.check_fn(&body), vec![0]);
}

#[test]
fn storage_write_without_read_lookup_benchmark() {
    const N: usize = 500;

    let reads: HashSet<(String, String)> = (0..N)
        .map(|i| (format!("storage_{}", i % 7), format!("key_{i}")))
        .collect();
    let writes: Vec<(String, String)> = (0..N)
        .map(|i| (format!("storage_{}", i % 7), format!("other_key_{i}")))
        .collect();

    let call = |method: &str, receiver: &str, k: &str| Expr {
        kind: ExprKind::MethodCall {
            method: method.to_string(),
            receiver: Receiver {
                adt: adt(1, INSTANCE),
                refs: 0,
                local: None,
                used_after: false,
                text: Some(receiver.to_string()),
            },
            args: vec![
                Arg { text: Some(k.to_string()), inner_text: None, is_lit: false, str_lit: None },
                Arg { text: Some("v".to_string()), inner_text: None, is_lit: false, str_lit: None },
            ],
        },
        reads: vec![],
        enclosing: None,
    };
    let mut body: Vec<Expr> = reads.iter().map(|(r, k)| call("get", r, k)).collect();
    body.extend(writes.iter().map(|(r, k)| call("set", r, k)));

    let started = std::time::Instant::now();
    let hashset_misses = writes
        .iter()
        .filter(|(receiver, key)| !reads.contains(&(receiver.clone(), key.clone())))
        .count();
    let hashset_elapsed = started.elapsed();

    let started = std::time::Instant::now();
    let lint_misses = StorageWriteWithoutRead.check_fn(&body).len();
    let lint_elapsed = started.elapsed();

    assert_eq!(
        hashset_misses, lint_misses,
        "HashSet and Vec lookups must agree on which writes are missing a read"
    );

    println!(
        "storage_write_without_read_lookup/{N}x{N}: hashset={hashset_elapsed:?} lint={lint_elapsed:?}"
    );
}

#[test]
fn persistent_reads_without_extension() {
    let extend = storage_call(7, PERSISTENT, "extend_ttl", "p", vec![key("A")]);
    let body = vec![get(7, PERSISTENT, "A"), other(), storage_call(7, PERSISTENT, "has", "p", vec![key("B")])];
    assert_eq!(PersistentReadWithoutTtlExtension.check_fn(&body), vec![0, 2]);
    let body = vec![get(7, PERSISTENT, "A"), extend];
    assert_eq!(PersistentReadWithoutTtlExtension.check_fn(&body), Vec::<usize>::new());
    let body = vec![get(8, INSTANCE, "A")];
    assert_eq!(PersistentReadWithoutTtlExtension.check_fn(&body), Vec::<usize>::new());
}

#[test]
fn read_only_vec_params() {
    let p = |binding: Option<u64>, path: &str, refs: usize| Param { binding, adt: adt(0, path), refs };
    let params = vec![
        p(Some(1), "soroban_sdk::Vec", 0),
        p(Some(2), "soroban_sdk::Vec", 1),
        p(Some(3), "soroban_sdk::Vec", 0),
        p(None, "soroban_sdk::Vec", 0),
        p(Some(5), "alloc::vec::Vec", 0),
    ];
    assert_eq!(VecWhereSliceCouldBeUsed.check_fn(&params, &Some(vec![3])), vec![0]);
    assert_eq!(VecWhereSliceCouldBeUsed.check_fn(&params, &None), vec![0, 2]);
}

fn storage_write(id: u64) -> Node {
    storage_node(id, "set", INSTANCE)
}

fn storage_node(id: u64, method: &str, receiver: &str) -> Node {
    Node::MethodCall { id, method: method.to_string(), receiver: Some(receiver.to_string()), children: vec![] }
}

fn param_read(local: u64) -> Node {
    Node::Other { children: vec![Node::Local { local }] }
}

#[test]
fn loop_bounded_by_parameter_with_storage_write() {
    let params = vec![Pat::Binding { id: 10, sub: None }];
    // { let n = count; loop { storage.set(..); storage.set(..) } }
    let body = Node::Block {
        id: 1,
        stmts: vec![param_read(10)],
        tail: Some(Box::new(Node::Loop { id: 2, stmts: vec![storage_write(3), storage_write(6)], tail: None })),
    };
    // The loop's body is inside the bounded loop: its first write is reported.
    assert_eq!(UnboundedInputLoop.check_fn(true, &params, &body), vec![3]);
    // A storage write among the bound statements is inside the bounded loop.
    let body = Node::Block {
        id: 1,
        stmts: vec![param_read(10), storage_write(4), storage_write(5)],
        tail: Some(Box::new(Node::Loop { id: 2, stmts: vec![], tail: None })),
    };
    assert_eq!(UnboundedInputLoop.check_fn(true, &params, &body), vec![4]);
    assert_eq!(UnboundedInputLoop.check_fn(false, &params, &body), Vec::<u64>::new());
    assert_eq!(UnboundedInputLoop.check_fn(true, &vec![Pat::Other { subpats: vec![] }], &body), Vec::<u64>::new());
    let not_param = vec![Pat::Other { subpats: vec![Pat::Binding { id: 11, sub: None }] }];
    assert_eq!(UnboundedInputLoop.check_fn(true, &not_param, &body), Vec::<u64>::new());
}

#[test]
fn bare_loop_has_unknown_bound() {
    let params = vec![Pat::Binding { id: 10, sub: None }];
    // loop { n; storage.set(..) }
    let body = Node::Loop { id: 2, stmts: vec![param_read(10), storage_write(3)], tail: None };
    assert_eq!(UnboundedInputLoop.check_fn(true, &params, &body), Vec::<u64>::new());
}

#[test]
fn loop_without_storage_write_is_not_reported() {
    let params = vec![Pat::Binding { id: 10, sub: None }];
    let env_storage = storage_node(3, "storage", "soroban_sdk::Env");
    let read = storage_node(4, "get", INSTANCE);
    let body = Node::Block {
        id: 1,
        stmts: vec![param_read(10), env_storage],
        tail: Some(Box::new(Node::Loop { id: 2, stmts: vec![read], tail: None })),
    };
    assert_eq!(UnboundedInputLoop.check_fn(true, &params, &body), Vec::<u64>::new());
}

#[test]
fn clamped_bound_is_not_untrusted() {
    let params = vec![Pat::Binding { id: 10, sub: None }];
    let clamp = |method: &str, args: Vec<Node>| {
        let mut children = vec![Node::Local { local: 10 }];
        children.extend(args);
        Node::MethodCall { id: 7, method: method.to_string(), receiver: Some("u32".to_string()), children }
    };
    let looped = |bound: Node| Node::Block {
        id: 1,
        stmts: vec![Node::Other { children: vec![bound] }],
        tail: Some(Box::new(Node::Loop { id: 2, stmts: vec![storage_write(3)], tail: None })),
    };
    // n.min(100) and n.clamp(0, 100): trusted.
    assert_eq!(UnboundedInputLoop.check_fn(true, &params, &looped(clamp("min", vec![Node::Lit]))), Vec::<u64>::new());
    assert_eq!(
        UnboundedInputLoop.check_fn(true, &params, &looped(clamp("clamp", vec![Node::Lit, Node::Lit]))),
        Vec::<u64>::new()
    );
    // n.min(m) with m not a literal, and n.max(100): untrusted.
    assert_eq!(
        UnboundedInputLoop.check_fn(true, &params, &looped(clamp("min", vec![Node::Local { local: 11 }]))),
        vec![3]
    );
    assert_eq!(UnboundedInputLoop.check_fn(true, &params, &looped(clamp("max", vec![Node::Lit]))), vec![3]);
    // n.clamp(m, 100) still reads the parameter m.
    let two = vec![Pat::Binding { id: 10, sub: None }, Pat::Binding { id: 11, sub: None }];
    assert_eq!(
        UnboundedInputLoop.check_fn(true, &two, &looped(clamp("clamp", vec![Node::Local { local: 11 }, Node::Lit]))),
        vec![3]
    );
}

#[test]
fn redundant_read_needs_same_read_as_last_storage_op() {
    // A non-storage statement between two reads of the same key keeps the
    // repeat; a read of another key in between does not; a repeat is
    // reported once, at its own position.
    let block = Block {
        stmts: vec![
            Stmt::Semi(get(7, PERSISTENT, "A")),
            Stmt::Semi(other()),
            Stmt::Let { init: Some(get(7, PERSISTENT, "A")) },
            Stmt::Semi(get(7, PERSISTENT, "B")),
            Stmt::Semi(get(7, PERSISTENT, "A")),
            Stmt::Expr(get(7, PERSISTENT, "A")),
        ],
        tail: Some(get(7, PERSISTENT, "A")),
    };
    assert_eq!(SorobanRedundantStorageRead.check_block(&block), vec![2, 5, 6]);
}
