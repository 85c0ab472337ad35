use soroban_cost_lints::analysis::callee_contains_soroban_op;
use soroban_cost_lints::model::{Adt, BodyOp, CallGraph, Enclosing, Expr, ExprKind, FnNode, LoopKind, Receiver};
use soroban_cost_lints::passes::{ExtendTtlInLoop, HostInLoop, SorobanStorageInLoop, UnnecessaryHostFunctionCall};
use soroban_cost_lints::report::rpc_url_for;

fn call(method: &str, path: &str) -> Expr {
    Expr {
        kind: ExprKind::MethodCall {
            method: method.to_string(),
            receiver: Receiver {
                adt: Some(Adt { def: 0, path: path.to_string() }),
                refs: 0,
                local: None,
                used_after: false,
                text: None,
            },
            args: vec![],
        },
        reads: vec![],
        enclosing: Some(Enclosing { kind: LoopKind::Loop, mutated: Some(vec![]), bindings: vec![] }),
    }
}

#[test]
fn extend_ttl_reported_by_one_pass_only() {
    let g = CallGraph { fns: vec![] };
    let e = call("extend_ttl", "soroban_sdk::storage::Persistent");
    assert!(ExtendTtlInLoop.check_expr(&e).is_some());
    assert!(SorobanStorageInLoop.check_expr(&g, &e).is_none());
    let e = call("set", "soroban_sdk::storage::Persistent");
    assert!(ExtendTtlInLoop.check_expr(&e).is_none());
    assert!(SorobanStorageInLoop.check_expr(&g, &e).is_some());
}

#[test]
fn host_object_and_host_accessor_do_not_overlap() {
    let host = call("sequence", "env::host::Host");
    assert!(HostInLoop.check_expr(&host).is_some());
    assert!(UnnecessaryHostFunctionCall.check_expr(&host).is_none());
    let ledger = call("sequence", "soroban_sdk::ledger::Ledger");
    assert!(HostInLoop.check_expr(&ledger).is_none());
    assert!(UnnecessaryHostFunctionCall.check_expr(&ledger).is_some());
}

#[test]
fn deeper_search_finds_at_least_as_much() {
    // 0 -> 1 -> 2 -> 3, and 3 reads instance storage.
    let chain = |next: usize| FnNode { local: true, ops: vec![BodyOp::Call { callee: Some(next) }] };
    let g = CallGraph {
        fns: vec![
            chain(1),
            chain(2),
            chain(3),
            FnNode {
                local: true,
                ops: vec![BodyOp::MethodCall {
                    receiver: Some("soroban_sdk::storage::Instance".to_string()),
                    method: "get".to_string(),
                }],
            },
        ],
    };
    let table: &[&[&str]] = &[&["soroban_sdk", "storage", "Instance"]];
    let mut visited = Vec::new();
    let found: Vec<bool> = (0..6).map(|d| callee_contains_soroban_op(&g, 0, table, d, &mut visited)).collect();
    assert_eq!(found, vec![false, false, false, false, true, true]);
    assert!(visited.is_empty());
}

#[test]
fn trailing_slash_gives_same_endpoint() {
    assert_eq!(rpc_url_for("https://rpc.example"), rpc_url_for("https://rpc.example/"));
}
