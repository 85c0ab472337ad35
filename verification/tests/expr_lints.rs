use soroban_cost_lints::lints::{Diagnostic, LintId, Note};
use soroban_cost_lints::model::{
    Adt, Arg, BodyOp, CallGraph, Enclosing, Expr, ExprKind, FnNode, LoopKind, Receiver,
};
use soroban_cost_lints::passes::{
    is_bytes_type, is_clamped_by_constant, BytesAppendInLoop, ContractCallInLoop, ExtendTtlInLoop,
    HostInLoop, InefficientBytesConcat, LinearScanInLoop, LoopInvariantStorageAccess,
    MapInsertInLoop, RedundantEnvClone, RequireAuthInLoop, SignatureVerificationInLoop,
    SorobanInefficientBytesConcat, SorobanStorageInLoop, StorageKeyConstructionInLoop,
    SymbolNewForShortLiteral, UnnecessaryHostFunctionCall, UnnecessaryStringToBytes,
};

const ENV: u64 = 1;
const LOOP_VAR: u64 = 2;
const COUNTER: u64 = 3;

fn adt(def: u64, path: &str) -> Option<Adt> {
    Some(Adt { def, path: path.to_string() })
}

fn receiver(path: &str) -> Receiver {
    Receiver { adt: adt(0, path), refs: 0, local: None, used_after: false, text: None }
}

fn arg(text: &str) -> Arg {
    Arg { text: Some(text.to_string()), inner_text: None, is_lit: false, str_lit: None }
}

fn call(method: &str, recv: Receiver, reads: Vec<u64>, enclosing: Option<Enclosing>) -> Expr {
    Expr {
        kind: ExprKind::MethodCall { method: method.to_string(), receiver: recv, args: vec![] },
        reads,
        enclosing,
    }
}

fn for_loop() -> Option<Enclosing> {
    Some(Enclosing { kind: LoopKind::Loop, mutated: Some(vec![]), bindings: vec![LOOP_VAR] })
}

fn while_loop() -> Option<Enclosing> {
    Some(Enclosing { kind: LoopKind::Loop, mutated: Some(vec![COUNTER]), bindings: vec![] })
}

fn closure() -> Option<Enclosing> {
    Some(Enclosing { kind: LoopKind::Closure, mutated: Some(vec![]), bindings: vec![LOOP_VAR] })
}

fn note(d: Option<Diagnostic>) -> Option<Note> {
    d.map(|d| d.note)
}

const INSTANCE: &str = "soroban_sdk::storage::Instance";
const PERSISTENT: &str = "soroban_sdk::storage::Persistent";
const TEMPORARY: &str = "soroban_sdk::storage::Temporary";
const STORAGE: &str = "soroban_sdk::storage::Storage";
const ENV_PATH: &str = "soroban_sdk::Env";
const LEDGER: &str = "soroban_sdk::ledger::Ledger";

fn empty_graph() -> CallGraph {
    CallGraph { fns: vec![] }
}

#[test]
fn storage_set_in_for_loop_is_reported_once_per_chain() {
    let g = empty_graph();
    let mut pass = SorobanStorageInLoop;
    let set = call("set", receiver(INSTANCE), vec![ENV, LOOP_VAR], for_loop());
    assert_eq!(note(pass.check_expr(&g, &set)), Some(Note::StorageWriteInLoop));
    let storage = call("storage", receiver(ENV_PATH), vec![ENV], for_loop());
    assert_eq!(note(pass.check_expr(&g, &storage)), None);
    let instance = call("instance", receiver(STORAGE), vec![ENV], for_loop());
    assert_eq!(note(pass.check_expr(&g, &instance)), None);
}

#[test]
fn storage_reads_in_loops_get_read_advice() {
    let g = empty_graph();
    let mut pass = SorobanStorageInLoop;
    let get = call("get", receiver(PERSISTENT), vec![ENV, COUNTER], while_loop());
    assert_eq!(note(pass.check_expr(&g, &get)), Some(Note::StorageReadInLoop));
    let has = call("has", receiver(TEMPORARY), vec![ENV], for_loop());
    let d = pass.check_expr(&g, &has).unwrap();
    assert_eq!(d.note.message(), "storage operation inside a loop");
    assert_eq!(
        d.note.help(),
        "if the read is loop-invariant, hoist it out of the loop; otherwise batch where possible"
    );
    assert_eq!(d.note.lint(), LintId::SorobanStorageInLoop);
}

#[test]
fn storage_in_repeated_closure_is_reported() {
    let g = empty_graph();
    let mut pass = SorobanStorageInLoop;
    let set = call("set", receiver(INSTANCE), vec![ENV, LOOP_VAR], closure());
    assert_eq!(note(pass.check_expr(&g, &set)), Some(Note::StorageWriteInLoop));
}

#[test]
fn storage_outside_loop_is_not_reported() {
    let g = empty_graph();
    let mut pass = SorobanStorageInLoop;
    let set = call("set", receiver(INSTANCE), vec![ENV], None);
    assert_eq!(note(pass.check_expr(&g, &set)), None);
    let ttl = call("extend_ttl", receiver(INSTANCE), vec![ENV], for_loop());
    assert_eq!(note(pass.check_expr(&g, &ttl)), None);
}

fn helper_graph() -> CallGraph {
    // 0: helper(env) { env.storage().instance().set(..) }
    // 1: outer() { helper() }
    // 2: a() { b() }, 3: b() { c() }, 4: c() { d() }, 5: d() { storage }
    // 6: external fn, 7: recursive() { recursive() }
    let storage_op = || BodyOp::MethodCall { receiver: Some(ENV_PATH.to_string()), method: "storage".to_string() };
    CallGraph {
        fns: vec![
            FnNode { local: true, ops: vec![storage_op()] },
            FnNode { local: true, ops: vec![BodyOp::Call { callee: Some(0) }] },
            FnNode { local: true, ops: vec![BodyOp::Call { callee: Some(3) }] },
            FnNode { local: true, ops: vec![BodyOp::Call { callee: Some(4) }] },
            FnNode { local: true, ops: vec![BodyOp::Call { callee: Some(5) }] },
            FnNode {
                local: true,
                ops: vec![BodyOp::MethodCall { receiver: Some(INSTANCE.to_string()), method: "get".to_string() }],
            },
            FnNode { local: false, ops: vec![storage_op()] },
            FnNode { local: true, ops: vec![BodyOp::Call { callee: Some(7) }, BodyOp::Call { callee: None }] },
        ],
    }
}

fn call_to(f: usize, enclosing: Option<Enclosing>) -> Expr {
    Expr { kind: ExprKind::Call { callee: None, resolved: Some(f), args: vec![] }, reads: vec![], enclosing }
}

#[test]
fn storage_reached_through_calls_within_depth_is_reported() {
    let g = helper_graph();
    let mut pass = SorobanStorageInLoop;
    assert_eq!(note(pass.check_expr(&g, &call_to(0, for_loop()))), Some(Note::StorageInLoopThroughCall));
    assert_eq!(note(pass.check_expr(&g, &call_to(1, for_loop()))), Some(Note::StorageInLoopThroughCall));
    // a -> b -> c -> d: the storage access sits four functions down.
    assert_eq!(note(pass.check_expr(&g, &call_to(3, for_loop()))), Some(Note::StorageInLoopThroughCall));
    assert_eq!(note(pass.check_expr(&g, &call_to(2, for_loop()))), None);
    // Not in a loop, external, recursive without storage, unknown node.
    assert_eq!(note(pass.check_expr(&g, &call_to(0, None))), None);
    assert_eq!(note(pass.check_expr(&g, &call_to(6, for_loop()))), None);
    assert_eq!(note(pass.check_expr(&g, &call_to(7, for_loop()))), None);
    assert_eq!(note(pass.check_expr(&g, &call_to(99, for_loop()))), None);
}

#[test]
fn callee_search_restores_the_visited_chain() {
    let g = helper_graph();
    let mut visited = vec![7usize];
    let table: &[&[&str]] = &[&["soroban_sdk", "storage", "Instance"]];
    assert!(soroban_cost_lints::analysis::callee_contains_soroban_op(&g, 2, table, 4, &mut visited));
    assert_eq!(visited, vec![7]);
    // Already on the chain: not revisited.
    assert!(!soroban_cost_lints::analysis::callee_contains_soroban_op(&g, 7, table, 4, &mut visited));
}

#[test]
fn loop_invariant_storage_access_needs_invariant_operands() {
    let mut pass = LoopInvariantStorageAccess;
    let invariant = call("get", receiver(INSTANCE), vec![ENV], for_loop());
    assert_eq!(note(pass.check_expr(&invariant)), Some(Note::LoopInvariantStorageAccess));
    let storage = call("storage", receiver(ENV_PATH), vec![ENV], for_loop());
    assert_eq!(note(pass.check_expr(&storage)), Some(Note::LoopInvariantStorageAccess));
    let variant = call("get", receiver(INSTANCE), vec![ENV, LOOP_VAR], for_loop());
    assert_eq!(note(pass.check_expr(&variant)), None);
    let mutated = call("get", receiver(INSTANCE), vec![COUNTER], while_loop());
    assert_eq!(note(pass.check_expr(&mutated)), None);
    let unknown = call(
        "get",
        receiver(INSTANCE),
        vec![ENV],
        Some(Enclosing { kind: LoopKind::Loop, mutated: None, bindings: vec![] }),
    );
    assert_eq!(note(pass.check_expr(&unknown)), None);
    let in_closure = call("get", receiver(INSTANCE), vec![ENV], closure());
    assert_eq!(note(pass.check_expr(&in_closure)), None);
}

#[test]
fn host_call_in_loops_is_reported_when_invariant() {
    let mut pass = UnnecessaryHostFunctionCall;
    for enclosing in [for_loop(), while_loop(), closure()] {
        let seq = call("sequence", receiver(LEDGER), vec![ENV], enclosing);
        let d = pass.check_expr(&seq).unwrap();
        assert_eq!(d.note, Note::UnnecessaryHostFunctionCall);
        assert_eq!(d.note.help(), "call this function outside the loop and reuse the result");
    }
    let outside = call("sequence", receiver(LEDGER), vec![ENV], None);
    assert!(pass.check_expr(&outside).is_none());
    let accessor = call("ledger", receiver(ENV_PATH), vec![ENV], for_loop());
    assert!(pass.check_expr(&accessor).is_none());
    let addr = call("current_contract_address", receiver(ENV_PATH), vec![ENV], for_loop());
    assert!(pass.check_expr(&addr).is_some());
    let dependent = call("sequence", receiver(LEDGER), vec![LOOP_VAR], for_loop());
    assert!(pass.check_expr(&dependent).is_none());
}

fn env_clone(refs: usize, local: Option<u64>, used_after: bool) -> Expr {
    Expr {
        kind: ExprKind::MethodCall {
            method: "clone".to_string(),
            receiver: Receiver { adt: adt(0, ENV_PATH), refs, local, used_after, text: None },
            args: vec![],
        },
        reads: vec![],
        enclosing: None,
    }
}

#[test]
fn redundant_env_clone_cases() {
    let mut pass = RedundantEnvClone;
    assert_eq!(note(pass.check_expr(&env_clone(0, Some(ENV), false))), Some(Note::RedundantEnvClone));
    assert_eq!(note(pass.check_expr(&env_clone(1, Some(ENV), false))), None);
    assert_eq!(note(pass.check_expr(&env_clone(0, Some(ENV), true))), None);
    assert_eq!(note(pass.check_expr(&env_clone(0, None, false))), None);
    let other = call("clone", receiver("soroban_sdk::Bytes"), vec![], None);
    assert_eq!(note(pass.check_expr(&other)), None);
}

#[test]
fn host_object_in_loop() {
    let mut pass = HostInLoop;
    assert_eq!(note(pass.check_expr(&call("anything", receiver("env::host::Host"), vec![], for_loop()))), Some(Note::HostInLoop));
    assert_eq!(note(pass.check_expr(&call("anything", receiver("env::host::Host"), vec![], closure()))), None);
    assert_eq!(Note::HostInLoop.message(), "use of Host object inside a loop");
}

#[test]
fn string_to_bytes_anywhere() {
    let mut pass = UnnecessaryStringToBytes;
    assert_eq!(note(pass.check_expr(&call("to_bytes", receiver("soroban_sdk::String"), vec![], None))), Some(Note::UnnecessaryStringToBytes));
    assert_eq!(note(pass.check_expr(&call("to_bytes", receiver("soroban_sdk::Bytes"), vec![], None))), None);
}

#[test]
fn contract_call_in_loop() {
    let mut pass = ContractCallInLoop;
    assert_eq!(note(pass.check_expr(&call("invoke_contract", receiver(ENV_PATH), vec![], for_loop()))), Some(Note::ContractCallInLoop));
    assert_eq!(note(pass.check_expr(&call("invoke_contract", receiver(ENV_PATH), vec![], None))), None);
}

#[test]
fn container_growth_in_loop() {
    let mut pass = BytesAppendInLoop;
    for m in ["append", "push_back", "insert", "extend_from_array"] {
        assert_eq!(note(pass.check_expr(&call(m, receiver("soroban_sdk::Vec"), vec![], for_loop()))), Some(Note::BytesAppendInLoop));
    }
    assert_eq!(note(pass.check_expr(&call("len", receiver("soroban_sdk::Vec"), vec![], for_loop()))), None);
    assert_eq!(note(pass.check_expr(&call("push_back", receiver("std::vec::Vec"), vec![], for_loop()))), None);
}

#[test]
fn bytes_concat_methods_in_loop() {
    let mut pass = SorobanInefficientBytesConcat;
    assert!(pass.check_expr(&call("append", receiver("soroban_sdk::bytes::Bytes"), vec![], for_loop())).is_some());
    assert!(pass.check_expr(&call("push_back", receiver("soroban_sdk::Bytes"), vec![], for_loop())).is_some());
    assert!(pass.check_expr(&call("insert", receiver("soroban_sdk::Bytes"), vec![], for_loop())).is_none());
}

#[test]
fn map_insert_signature_ttl_auth_and_scans() {
    assert!(MapInsertInLoop.check_expr(&call("insert", receiver("soroban_sdk::Map"), vec![], for_loop())).is_some());
    assert!(SignatureVerificationInLoop.check_expr(&call("ed25519_verify", receiver("soroban_sdk::crypto::Crypto"), vec![], for_loop())).is_some());
    assert!(SignatureVerificationInLoop.check_expr(&call("sha256", receiver("soroban_sdk::crypto::Crypto"), vec![], for_loop())).is_none());
    assert!(ExtendTtlInLoop.check_expr(&call("extend_ttl", receiver(PERSISTENT), vec![], while_loop())).is_some());
    assert!(ExtendTtlInLoop.check_expr(&call("extend_ttl", receiver(PERSISTENT), vec![], None)).is_none());
    assert!(RequireAuthInLoop.check_expr(&call("require_auth_for_args", receiver("soroban_sdk::Address"), vec![], for_loop())).is_some());
    assert!(LinearScanInLoop.check_expr(&call("contains", receiver("soroban_sdk::vec::Vec"), vec![ENV], for_loop())).is_some());
    assert!(LinearScanInLoop.check_expr(&call("contains", receiver("soroban_sdk::vec::Vec"), vec![LOOP_VAR], for_loop())).is_none());
    assert_eq!(Note::LinearScanInLoop.message(), "linear scan on collection inside a loop \u{2014} O(n\u{b2}) cost");
}

fn symbol_new(literal: Option<&str>, text: Option<&str>, enclosing: Option<Enclosing>, reads: Vec<u64>) -> Expr {
    Expr {
        kind: ExprKind::Call {
            callee: Some("soroban_sdk::Symbol::new".to_string()),
            resolved: None,
            args: vec![
                arg("&env"),
                Arg {
                    text: text.map(|t| t.to_string()),
                    inner_text: None,
                    is_lit: literal.is_some(),
                    str_lit: literal.map(|l| l.to_string()),
                },
            ],
        },
        reads,
        enclosing,
    }
}

#[test]
fn symbol_new_short_literal_gets_suggestion() {
    let mut pass = SymbolNewForShortLiteral;
    let d = pass.check_expr(&symbol_new(Some("hello"), Some("\"hello\""), None, vec![])).unwrap();
    assert_eq!(d.note, Note::SymbolNewForShortLiteral);
    assert_eq!(d.suggestion.as_deref(), Some("symbol_short!(\"hello\")"));
    let d = pass.check_expr(&symbol_new(Some("a_b_9"), None, None, vec![])).unwrap();
    assert!(d.suggestion.is_none());
    assert!(pass.check_expr(&symbol_new(Some("ten_chars_"), Some("\"ten_chars_\""), None, vec![])).is_none());
    assert!(pass.check_expr(&symbol_new(Some("hi-there"), Some("\"hi-there\""), None, vec![])).is_none());
    assert!(pass.check_expr(&symbol_new(Some(""), Some("\"\""), None, vec![])).is_none());
    assert!(pass.check_expr(&symbol_new(None, Some("name"), None, vec![])).is_none());
}

#[test]
fn symbol_key_construction_in_loop() {
    let mut pass = StorageKeyConstructionInLoop;
    assert_eq!(note(pass.check_expr(&symbol_new(Some("key"), None, for_loop(), vec![ENV]))), Some(Note::StorageKeyConstructionInLoop));
    assert_eq!(note(pass.check_expr(&symbol_new(None, None, for_loop(), vec![ENV, LOOP_VAR]))), None);
    assert_eq!(note(pass.check_expr(&symbol_new(Some("key"), None, None, vec![ENV]))), None);
}

#[test]
fn bytes_addition_in_loop() {
    let mut pass = InefficientBytesConcat;
    let add = |lhs: Option<Adt>, rhs: Option<Adt>, enclosing| Expr { kind: ExprKind::Add { lhs, rhs }, reads: vec![], enclosing };
    assert!(pass.check_expr(&add(adt(0, "soroban_sdk::Bytes"), None, for_loop())).is_some());
    assert!(pass.check_expr(&add(None, adt(0, "soroban_sdk::Bytes"), for_loop())).is_some());
    assert!(pass.check_expr(&add(adt(0, "soroban_sdk::Bytes"), None, None)).is_none());
    assert!(pass.check_expr(&add(adt(0, "u32"), None, for_loop())).is_none());
    assert!(is_bytes_type(&adt(0, "my::soroban_sdk::Bytes")));
    assert!(!is_bytes_type(&None));
}

#[test]
fn clamping_by_literal() {
    let lit = Arg { text: Some("10".to_string()), inner_text: None, is_lit: true, str_lit: None };
    let var = arg("n");
    let e = |method: &str, args: Vec<Arg>| Expr {
        kind: ExprKind::MethodCall { method: method.to_string(), receiver: receiver("u32"), args },
        reads: vec![],
        enclosing: None,
    };
    assert!(is_clamped_by_constant(&e("min", vec![lit.clone_arg()])));
    assert!(!is_clamped_by_constant(&e("min", vec![var.clone_arg()])));
    assert!(is_clamped_by_constant(&e("clamp", vec![var.clone_arg(), lit.clone_arg()])));
    assert!(!is_clamped_by_constant(&e("clamp", vec![lit.clone_arg()])));
    assert!(!is_clamped_by_constant(&e("max", vec![lit.clone_arg()])));
}

trait CloneArg {
    fn clone_arg(&self) -> Arg;
}

impl CloneArg for Arg {
    fn clone_arg(&self) -> Arg {
        Arg { text: self.text.clone(), inner_text: self.inner_text.clone(), is_lit: self.is_lit, str_lit: self.str_lit.clone() }
    }
}
