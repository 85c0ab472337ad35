//! The lints that judge one expression at a time. Each pass is a zero-sized
//! marker with a `check_expr` that decides, from what the compiler resolved
//! for the expression, whether and how to report it.

use vstd::prelude::*;
use vstd::string::*;
use crate::analysis::{
    callee_contains_soroban_op, depends_on_loop_state, enclosing_loop, loop_of, reaches,
    reads_loop_state,
};
use crate::lints::{Diagnostic, Note, plain};
use crate::model::{Adt, CallGraph, Enclosing, Expr, ExprKind, Receiver};
use crate::paths::{
    address_path, bytes_append_methods, bytes_module_bytes_path, bytes_path, collection_types,
    container_types, crypto_hazmat_path, crypto_path, env_host_methods, env_path,
    host_object_path, host_types, is_address_path, is_bytes_append_method,
    is_bytes_module_bytes_path, is_bytes_path, is_collection_type, is_container_type,
    is_crypto_hazmat_path, is_crypto_path, is_env_host_method, is_env_path, is_host_object_path,
    is_host_type, is_linear_scan_method, is_require_auth_method, is_sdk_map_path,
    is_sdk_string_path, is_signature_verification_method, is_storage_type, is_symbol_new_path,
    linear_scan_methods, matches_any, path_matches, require_auth_methods, sdk_map_path,
    sdk_string_path, signature_verification_methods, storage_types, symbol_new_path, table_view,
};
use crate::text::str_eq;
use crate::symbols::{is_valid_short_symbol, short_symbol};

verus! {

/// There is a repeating construct `scope` and the expression reading
/// `reads` reads nothing that changes from one of its iterations to the next.
pub open spec fn invariant_in(scope: Option<Enclosing>, reads: Seq<u64>) -> bool {
    scope matches Some(s) && !reads_loop_state(s, reads)
}

/// The receiver's type, references peeled, matches one of `table`.
pub open spec fn receiver_in(r: Receiver, table: Seq<Seq<Seq<char>>>) -> bool {
    r.adt matches Some(a) && matches_any(a.path@, table)
}

/// The receiver's type, references peeled, ends with the path `segs`.
pub open spec fn receiver_is(r: Receiver, segs: Seq<Seq<char>>) -> bool {
    r.adt matches Some(a) && path_matches(a.path@, segs)
}

/// The receiver's type is a Soroban storage accessor.
fn receiver_is_storage(r: &Receiver) -> (b: bool)
    ensures
        b == receiver_in(*r, storage_types()),
{
    match &r.adt {
        Some(a) => is_storage_type(a.path.as_str()),
        None => false,
    }
}

/// The receiver's type is `soroban_sdk::Env`.
fn receiver_is_env(r: &Receiver) -> (b: bool)
    ensures
        b == receiver_is(*r, env_path()),
{
    match &r.adt {
        Some(a) => is_env_path(a.path.as_str()),
        None => false,
    }
}

/// The maximum call depth of the inter-procedural search: functions further
/// down are not inspected.
pub const MAX_CALL_DEPTH: u32 = 3;

/// Flags storage operations inside a loop or a repeatedly called closure.
pub struct SorobanStorageInLoop;

impl SorobanStorageInLoop {
    /// What the pass reports for `e`: a terminal storage operation (`get`,
    /// `has`, `set`) on a storage accessor inside a loop or repeatedly called
    /// closure, with read or write advice; or a call inside one that reaches
    /// a storage operation through at most [`MAX_CALL_DEPTH`] levels of local
    /// functions.
    pub open spec fn spec_check(g: CallGraph, e: Expr) -> Option<Diagnostic> {
        match e.kind {
            ExprKind::MethodCall { method, receiver, .. } => {
                if (method@ == "get"@ || method@ == "has"@ || method@ == "set"@) && receiver_in(
                    receiver,
                    storage_types(),
                ) && e.enclosing is Some {
                    if method@ == "get"@ || method@ == "has"@ {
                        Some(plain(Note::StorageReadInLoop))
                    } else {
                        Some(plain(Note::StorageWriteInLoop))
                    }
                } else {
                    None
                }
            },
            ExprKind::Call { resolved: Some(f), .. } => {
                if e.enclosing is Some && reaches(
                    g,
                    f,
                    storage_types(),
                    MAX_CALL_DEPTH as nat,
                    Seq::empty(),
                ) {
                    Some(plain(Note::StorageInLoopThroughCall))
                } else {
                    None
                }
            },
            _ => None,
        }
    }

    /// Flags a method call whose receiver is a storage accessor when it sits
    /// inside a loop, and a call inside a loop that reaches storage through
    /// local functions.
    pub fn check_expr(&mut self, graph: &CallGraph, e: &Expr) -> (r: Option<Diagnostic>)
        ensures
            r == Self::spec_check(*graph, *e),
    {
        match &e.kind {
            ExprKind::MethodCall { method, receiver, .. } => {
                let is_read = str_eq(method.as_str(), "get") || str_eq(method.as_str(), "has");
                let is_terminal = is_read || str_eq(method.as_str(), "set");
                if is_terminal && receiver_is_storage(receiver) && e.enclosing.is_some() {
                    if is_read {
                        Some(Diagnostic { note: Note::StorageReadInLoop, suggestion: None })
                    } else {
                        Some(Diagnostic { note: Note::StorageWriteInLoop, suggestion: None })
                    }
                } else {
                    None
                }
            },
            ExprKind::Call { resolved: Some(f), .. } => {
                if e.enclosing.is_some() {
                    let mut visited: Vec<usize> = Vec::new();
                    let table: &[&[&str]] = &[
                        &["soroban_sdk", "storage", "Storage"],
                        &["soroban_sdk", "storage", "Instance"],
                        &["soroban_sdk", "storage", "Persistent"],
                        &["soroban_sdk", "storage", "Temporary"],
                    ];
                    assert(table_view(table@) =~~= storage_types());
                    assert(visited@ =~= Seq::<usize>::empty());
                    if callee_contains_soroban_op(graph, *f, table, MAX_CALL_DEPTH, &mut visited) {
                        return Some(
                            Diagnostic { note: Note::StorageInLoopThroughCall, suggestion: None },
                        );
                    }
                }
                None
            },
            _ => None,
        }
    }
}

/// Flags storage operations inside a loop whose operands do not change from
/// one iteration to the next.
pub struct LoopInvariantStorageAccess;

impl LoopInvariantStorageAccess {
    /// A method call on a storage accessor (or `Env::storage()`) directly in a
    /// loop, reading nothing the loop changes.
    pub open spec fn spec_check(e: Expr) -> Option<Diagnostic> {
        match e.kind {
            ExprKind::MethodCall { method, receiver, .. } => {
                if (receiver_in(receiver, storage_types()) || (receiver_is(receiver, env_path())
                    && method@ == "storage"@)) && invariant_in(loop_of(e), e.reads@) {
                    Some(plain(Note::LoopInvariantStorageAccess))
                } else {
                    None
                }
            },
            _ => None,
        }
    }

    /// Flags a storage method call inside a loop none of whose operands depend
    /// on per-iteration state.
    pub fn check_expr(&mut self, e: &Expr) -> (r: Option<Diagnostic>)
        ensures
            r == Self::spec_check(*e),
    {
        if let ExprKind::MethodCall { method, receiver, .. } = &e.kind {
            let is_storage = receiver_is_storage(receiver) || (receiver_is_env(receiver) && str_eq(
                method.as_str(),
                "storage",
            ));
            if is_storage {
                if let Some(scope) = enclosing_loop(e) {
                    if !depends_on_loop_state(scope, &e.reads) {
                        return Some(
                            Diagnostic { note: Note::LoopInvariantStorageAccess, suggestion: None },
                        );
                    }
                }
            }
        }
        None
    }
}

/// Flags `push_back` and `append` on `soroban_sdk::Bytes` inside a loop.
pub struct SorobanInefficientBytesConcat;

impl SorobanInefficientBytesConcat {
    /// What the pass reports for `e`.
    pub open spec fn spec_check(e: Expr) -> Option<Diagnostic> {
        match e.kind {
            ExprKind::MethodCall { method, receiver, .. } => {
                if (method@ == "push_back"@ || method@ == "append"@) && (receiver_is(receiver, bytes_path()) || receiver_is(receiver, bytes_module_bytes_path())) && loop_of(e) is Some {
                    Some(plain(Note::SorobanInefficientBytesConcat))
                } else {
                    None
                }
            },
            _ => None,
        }
    }

    /// Reports `e` as [`Self::spec_check`] says.
    pub fn check_expr(&mut self, e: &Expr) -> (r: Option<Diagnostic>)
        ensures
            r == Self::spec_check(*e),
    {
        if let ExprKind::MethodCall { method, receiver, .. } = &e.kind {
            if (str_eq(method.as_str(), "push_back") || str_eq(method.as_str(), "append")) && (receiver_is_bytes(receiver) || receiver_is_bytes_module_bytes(receiver)) && enclosing_loop(e).is_some() {
                return Some(Diagnostic { note: Note::SorobanInefficientBytesConcat, suggestion: None });
            }
        }
        None
    }
}

/// Flags a metered host call inside a loop or repeatedly called closure whose
/// result does not change from one iteration to the next.
pub struct UnnecessaryHostFunctionCall;

impl UnnecessaryHostFunctionCall {
    /// What the pass reports for `e`.
    pub open spec fn spec_check(e: Expr) -> Option<Diagnostic> {
        match e.kind {
            ExprKind::MethodCall { method, receiver, .. } => {
                if (receiver_in(receiver, host_types()) || (receiver_is(receiver, env_path()) && env_host_methods().contains(method@))) && invariant_in(e.enclosing, e.reads@) {
                    Some(plain(Note::UnnecessaryHostFunctionCall))
                } else {
                    None
                }
            },
            _ => None,
        }
    }

    /// Reports `e` as [`Self::spec_check`] says.
    pub fn check_expr(&mut self, e: &Expr) -> (r: Option<Diagnostic>)
        ensures
            r == Self::spec_check(*e),
    {
        if let ExprKind::MethodCall { method, receiver, .. } = &e.kind {
            if (receiver_is_host_accessor(receiver) || (receiver_is_env(receiver) && is_env_host_method(method.as_str()))) {
                if let Some(scope) = &e.enclosing {
                    if !depends_on_loop_state(scope, &e.reads) {
                        return Some(Diagnostic { note: Note::UnnecessaryHostFunctionCall, suggestion: None });
                    }
                }
            }
        }
        None
    }
}

/// Flags any method call on a `host::Host` object inside a loop.
pub struct HostInLoop;

impl HostInLoop {
    /// What the pass reports for `e`.
    pub open spec fn spec_check(e: Expr) -> Option<Diagnostic> {
        match e.kind {
            ExprKind::MethodCall { receiver, .. } => {
                if receiver_is(receiver, host_object_path()) && loop_of(e) is Some {
                    Some(plain(Note::HostInLoop))
                } else {
                    None
                }
            },
            _ => None,
        }
    }

    /// Reports `e` as [`Self::spec_check`] says.
    pub fn check_expr(&mut self, e: &Expr) -> (r: Option<Diagnostic>)
        ensures
            r == Self::spec_check(*e),
    {
        if let ExprKind::MethodCall { receiver, .. } = &e.kind {
            if receiver_is_host_object(receiver) && enclosing_loop(e).is_some() {
                return Some(Diagnostic { note: Note::HostInLoop, suggestion: None });
            }
        }
        None
    }
}

/// Flags `to_bytes()` on a `soroban_sdk::String`, a metered conversion.
pub struct UnnecessaryStringToBytes;

impl UnnecessaryStringToBytes {
    /// What the pass reports for `e`.
    pub open spec fn spec_check(e: Expr) -> Option<Diagnostic> {
        match e.kind {
            ExprKind::MethodCall { method, receiver, .. } => {
                if method@ == "to_bytes"@ && receiver_is(receiver, sdk_string_path()) && true {
                    Some(plain(Note::UnnecessaryStringToBytes))
                } else {
                    None
                }
            },
            _ => None,
        }
    }

    /// Reports `e` as [`Self::spec_check`] says.
    pub fn check_expr(&mut self, e: &Expr) -> (r: Option<Diagnostic>)
        ensures
            r == Self::spec_check(*e),
    {
        if let ExprKind::MethodCall { method, receiver, .. } = &e.kind {
            if str_eq(method.as_str(), "to_bytes") && receiver_is_sdk_string(receiver) {
                return Some(Diagnostic { note: Note::UnnecessaryStringToBytes, suggestion: None });
            }
        }
        None
    }
}

/// Flags `Env::invoke_contract` inside a loop.
pub struct ContractCallInLoop;

impl ContractCallInLoop {
    /// What the pass reports for `e`.
    pub open spec fn spec_check(e: Expr) -> Option<Diagnostic> {
        match e.kind {
            ExprKind::MethodCall { method, receiver, .. } => {
                if method@ == "invoke_contract"@ && receiver_is(receiver, env_path()) && loop_of(e) is Some {
                    Some(plain(Note::ContractCallInLoop))
                } else {
                    None
                }
            },
            _ => None,
        }
    }

    /// Reports `e` as [`Self::spec_check`] says.
    pub fn check_expr(&mut self, e: &Expr) -> (r: Option<Diagnostic>)
        ensures
            r == Self::spec_check(*e),
    {
        if let ExprKind::MethodCall { method, receiver, .. } = &e.kind {
            if str_eq(method.as_str(), "invoke_contract") && receiver_is_env(receiver) && enclosing_loop(e).is_some() {
                return Some(Diagnostic { note: Note::ContractCallInLoop, suggestion: None });
            }
        }
        None
    }
}

/// Flags growth methods (`append`, `push_back`, `insert`, `extend_from_array`)
/// on a Soroban container inside a loop.
pub struct BytesAppendInLoop;

impl BytesAppendInLoop {
    /// What the pass reports for `e`.
    pub open spec fn spec_check(e: Expr) -> Option<Diagnostic> {
        match e.kind {
            ExprKind::MethodCall { method, receiver, .. } => {
                if bytes_append_methods().contains(method@) && receiver_in(receiver, container_types()) && loop_of(e) is Some {
                    Some(plain(Note::BytesAppendInLoop))
                } else {
                    None
                }
            },
            _ => None,
        }
    }

    /// Reports `e` as [`Self::spec_check`] says.
    pub fn check_expr(&mut self, e: &Expr) -> (r: Option<Diagnostic>)
        ensures
            r == Self::spec_check(*e),
    {
        if let ExprKind::MethodCall { method, receiver, .. } = &e.kind {
            if is_bytes_append_method(method.as_str()) && receiver_is_container(receiver) && enclosing_loop(e).is_some() {
                return Some(Diagnostic { note: Note::BytesAppendInLoop, suggestion: None });
            }
        }
        None
    }
}

/// Flags `insert` on a `soroban_sdk::Map` inside a loop.
pub struct MapInsertInLoop;

impl MapInsertInLoop {
    /// What the pass reports for `e`.
    pub open spec fn spec_check(e: Expr) -> Option<Diagnostic> {
        match e.kind {
            ExprKind::MethodCall { method, receiver, .. } => {
                if method@ == "insert"@ && receiver_is(receiver, sdk_map_path()) && loop_of(e) is Some {
                    Some(plain(Note::MapInsertInLoop))
                } else {
                    None
                }
            },
            _ => None,
        }
    }

    /// Reports `e` as [`Self::spec_check`] says.
    pub fn check_expr(&mut self, e: &Expr) -> (r: Option<Diagnostic>)
        ensures
            r == Self::spec_check(*e),
    {
        if let ExprKind::MethodCall { method, receiver, .. } = &e.kind {
            if str_eq(method.as_str(), "insert") && receiver_is_sdk_map(receiver) && enclosing_loop(e).is_some() {
                return Some(Diagnostic { note: Note::MapInsertInLoop, suggestion: None });
            }
        }
        None
    }
}

/// Flags signature verification and key recovery on the `Crypto` accessor
/// inside a loop.
pub struct SignatureVerificationInLoop;

impl SignatureVerificationInLoop {
    /// What the pass reports for `e`.
    pub open spec fn spec_check(e: Expr) -> Option<Diagnostic> {
        match e.kind {
            ExprKind::MethodCall { method, receiver, .. } => {
                if signature_verification_methods().contains(method@) && (receiver_is(receiver, crypto_path()) || receiver_is(receiver, crypto_hazmat_path())) && loop_of(e) is Some {
                    Some(plain(Note::SignatureVerificationInLoop))
                } else {
                    None
                }
            },
            _ => None,
        }
    }

    /// Reports `e` as [`Self::spec_check`] says.
    pub fn check_expr(&mut self, e: &Expr) -> (r: Option<Diagnostic>)
        ensures
            r == Self::spec_check(*e),
    {
        if let ExprKind::MethodCall { method, receiver, .. } = &e.kind {
            if is_signature_verification_method(method.as_str()) && (receiver_is_crypto(receiver) || receiver_is_crypto_hazmat(receiver)) && enclosing_loop(e).is_some() {
                return Some(Diagnostic { note: Note::SignatureVerificationInLoop, suggestion: None });
            }
        }
        None
    }
}

/// Flags `extend_ttl` on a storage accessor inside a loop.
pub struct ExtendTtlInLoop;

impl ExtendTtlInLoop {
    /// What the pass reports for `e`.
    pub open spec fn spec_check(e: Expr) -> Option<Diagnostic> {
        match e.kind {
            ExprKind::MethodCall { method, receiver, .. } => {
                if method@ == "extend_ttl"@ && receiver_in(receiver, storage_types()) && loop_of(e) is Some {
                    Some(plain(Note::ExtendTtlInLoop))
                } else {
                    None
                }
            },
            _ => None,
        }
    }

    /// Reports `e` as [`Self::spec_check`] says.
    pub fn check_expr(&mut self, e: &Expr) -> (r: Option<Diagnostic>)
        ensures
            r == Self::spec_check(*e),
    {
        if let ExprKind::MethodCall { method, receiver, .. } = &e.kind {
            if str_eq(method.as_str(), "extend_ttl") && receiver_is_storage(receiver) && enclosing_loop(e).is_some() {
                return Some(Diagnostic { note: Note::ExtendTtlInLoop, suggestion: None });
            }
        }
        None
    }
}

/// Flags a linear scan (`contains`, `position`, `find`) of a Soroban collection
/// inside a loop, when the scan reads nothing the loop changes.
pub struct LinearScanInLoop;

impl LinearScanInLoop {
    /// What the pass reports for `e`.
    pub open spec fn spec_check(e: Expr) -> Option<Diagnostic> {
        match e.kind {
            ExprKind::MethodCall { method, receiver, .. } => {
                if linear_scan_methods().contains(method@) && receiver_in(receiver, collection_types()) && invariant_in(loop_of(e), e.reads@) {
                    Some(plain(Note::LinearScanInLoop))
                } else {
                    None
                }
            },
            _ => None,
        }
    }

    /// Reports `e` as [`Self::spec_check`] says.
    pub fn check_expr(&mut self, e: &Expr) -> (r: Option<Diagnostic>)
        ensures
            r == Self::spec_check(*e),
    {
        if let ExprKind::MethodCall { method, receiver, .. } = &e.kind {
            if is_linear_scan_method(method.as_str()) && receiver_is_collection(receiver) {
                if let Some(scope) = enclosing_loop(e) {
                    if !depends_on_loop_state(scope, &e.reads) {
                        return Some(Diagnostic { note: Note::LinearScanInLoop, suggestion: None });
                    }
                }
            }
        }
        None
    }
}

/// Flags `require_auth` and `require_auth_for_args` on an `Address` inside a loop.
pub struct RequireAuthInLoop;

impl RequireAuthInLoop {
    /// What the pass reports for `e`.
    pub open spec fn spec_check(e: Expr) -> Option<Diagnostic> {
        match e.kind {
            ExprKind::MethodCall { method, receiver, .. } => {
                if require_auth_methods().contains(method@) && receiver_is(receiver, address_path()) && loop_of(e) is Some {
                    Some(plain(Note::RequireAuthInLoop))
                } else {
                    None
                }
            },
            _ => None,
        }
    }

    /// Reports `e` as [`Self::spec_check`] says.
    pub fn check_expr(&mut self, e: &Expr) -> (r: Option<Diagnostic>)
        ensures
            r == Self::spec_check(*e),
    {
        if let ExprKind::MethodCall { method, receiver, .. } = &e.kind {
            if is_require_auth_method(method.as_str()) && receiver_is_address(receiver) && enclosing_loop(e).is_some() {
                return Some(Diagnostic { note: Note::RequireAuthInLoop, suggestion: None });
            }
        }
        None
    }
}

fn receiver_is_bytes(r: &Receiver) -> (b: bool)
    ensures
        b == receiver_is(*r, bytes_path()),
{
    match &r.adt {
        Some(a) => is_bytes_path(a.path.as_str()),
        None => false,
    }
}

fn receiver_is_bytes_module_bytes(r: &Receiver) -> (b: bool)
    ensures
        b == receiver_is(*r, bytes_module_bytes_path()),
{
    match &r.adt {
        Some(a) => is_bytes_module_bytes_path(a.path.as_str()),
        None => false,
    }
}

fn receiver_is_host_object(r: &Receiver) -> (b: bool)
    ensures
        b == receiver_is(*r, host_object_path()),
{
    match &r.adt {
        Some(a) => is_host_object_path(a.path.as_str()),
        None => false,
    }
}

fn receiver_is_sdk_string(r: &Receiver) -> (b: bool)
    ensures
        b == receiver_is(*r, sdk_string_path()),
{
    match &r.adt {
        Some(a) => is_sdk_string_path(a.path.as_str()),
        None => false,
    }
}

fn receiver_is_sdk_map(r: &Receiver) -> (b: bool)
    ensures
        b == receiver_is(*r, sdk_map_path()),
{
    match &r.adt {
        Some(a) => is_sdk_map_path(a.path.as_str()),
        None => false,
    }
}

fn receiver_is_crypto(r: &Receiver) -> (b: bool)
    ensures
        b == receiver_is(*r, crypto_path()),
{
    match &r.adt {
        Some(a) => is_crypto_path(a.path.as_str()),
        None => false,
    }
}

fn receiver_is_crypto_hazmat(r: &Receiver) -> (b: bool)
    ensures
        b == receiver_is(*r, crypto_hazmat_path()),
{
    match &r.adt {
        Some(a) => is_crypto_hazmat_path(a.path.as_str()),
        None => false,
    }
}

fn receiver_is_address(r: &Receiver) -> (b: bool)
    ensures
        b == receiver_is(*r, address_path()),
{
    match &r.adt {
        Some(a) => is_address_path(a.path.as_str()),
        None => false,
    }
}

fn receiver_is_host_accessor(r: &Receiver) -> (b: bool)
    ensures
        b == receiver_in(*r, host_types()),
{
    match &r.adt {
        Some(a) => is_host_type(a.path.as_str()),
        None => false,
    }
}

fn receiver_is_container(r: &Receiver) -> (b: bool)
    ensures
        b == receiver_in(*r, container_types()),
{
    match &r.adt {
        Some(a) => is_container_type(a.path.as_str()),
        None => false,
    }
}

fn receiver_is_collection(r: &Receiver) -> (b: bool)
    ensures
        b == receiver_in(*r, collection_types()),
{
    match &r.adt {
        Some(a) => is_collection_type(a.path.as_str()),
        None => false,
    }
}

/// Flags a redundant `.clone()` of an owned `soroban_sdk::Env`.
pub struct RedundantEnvClone;

impl RedundantEnvClone {
    /// `clone` on an owned (not borrowed) `Env` held in a local binding that
    /// is not used again afterwards. A clone through a reference produces an
    /// owned value and is needed; a receiver that is not a local binding
    /// cannot be judged and is left alone.
    pub open spec fn spec_check(e: Expr) -> Option<Diagnostic> {
        match e.kind {
            ExprKind::MethodCall { method, receiver, .. } => {
                if method@ == "clone"@ && receiver_is(receiver, env_path()) && receiver.refs == 0
                    && receiver.local is Some && !receiver.used_after {
                    Some(plain(Note::RedundantEnvClone))
                } else {
                    None
                }
            },
            _ => None,
        }
    }

    /// Reports `e` as [`Self::spec_check`] says.
    pub fn check_expr(&mut self, e: &Expr) -> (r: Option<Diagnostic>)
        ensures
            r == Self::spec_check(*e),
    {
        if let ExprKind::MethodCall { method, receiver, .. } = &e.kind {
            if str_eq(method.as_str(), "clone") && receiver_is_env(receiver) {
                if receiver.refs > 0 {
                    return None;
                }
                if receiver.local.is_some() {
                    if receiver.used_after {
                        return None;
                    }
                } else {
                    return None;
                }
                return Some(Diagnostic { note: Note::RedundantEnvClone, suggestion: None });
            }
        }
        None
    }
}

/// The callee of a two-argument call resolves to `soroban_sdk::Symbol::new`.
pub open spec fn is_symbol_new_call(e: Expr) -> bool {
    e.kind matches ExprKind::Call { callee: Some(p), args, .. } && args@.len() == 2
        && path_matches(p@, symbol_new_path())
}

fn symbol_new_call(e: &Expr) -> (b: bool)
    ensures
        b == is_symbol_new_call(*e),
{
    if let ExprKind::Call { callee: Some(p), args, .. } = &e.kind {
        args.len() == 2 && is_symbol_new_path(p.as_str())
    } else {
        false
    }
}

/// The replacement `symbol_short!(<literal text>)`.
pub open spec fn symbol_short_text(literal: Seq<char>) -> Seq<char> {
    "symbol_short!("@ + literal + ")"@
}

/// Flags `Symbol::new(&env, "literal")` where the literal is short enough for
/// the compile-time `symbol_short!` macro.
pub struct SymbolNewForShortLiteral;

impl SymbolNewForShortLiteral {
    /// The second argument of a `Symbol::new` call is a string literal that
    /// [`short_symbol`] accepts.
    pub open spec fn fires(e: Expr) -> bool {
        is_symbol_new_call(e) && (e.kind matches ExprKind::Call { args, .. } && args@[1].str_lit
            matches Some(lit) && short_symbol(lit@))
    }

    /// The source text of the literal argument, when it is available.
    pub open spec fn literal_text(e: Expr) -> Option<String> {
        match e.kind {
            ExprKind::Call { args, .. } => args@[1].text,
            _ => None,
        }
    }

    /// Reports `e` when [`Self::fires`], with the machine-applicable
    /// replacement `symbol_short!(<literal>)` when the literal's source text is
    /// available.
    pub fn check_expr(&mut self, e: &Expr) -> (r: Option<Diagnostic>)
        ensures
            Self::fires(*e) <==> r is Some,
            r matches Some(d) ==> {
                &&& d.note == Note::SymbolNewForShortLiteral
                &&& (d.suggestion is Some <==> Self::literal_text(*e) is Some)
                &&& d.suggestion matches Some(s) ==> s@ == symbol_short_text(
                    Self::literal_text(*e)->0@,
                )
            },
    {
        if !symbol_new_call(e) {
            return None;
        }
        if let ExprKind::Call { args, .. } = &e.kind {
            if let Some(lit) = &args[1].str_lit {
                if is_valid_short_symbol(lit.as_str()) {
                    match &args[1].text {
                        Some(snippet) => {
                            let mut suggestion = String::from_str("symbol_short!(");
                            suggestion.append(snippet.as_str());
                            suggestion.append(")");
                            return Some(
                                Diagnostic {
                                    note: Note::SymbolNewForShortLiteral,
                                    suggestion: Some(suggestion),
                                },
                            );
                        },
                        None => {
                            return Some(
                                Diagnostic {
                                    note: Note::SymbolNewForShortLiteral,
                                    suggestion: None,
                                },
                            );
                        },
                    }
                }
            }
        }
        None
    }
}

/// Flags `Symbol::new(&env, key)` inside a loop when the key does not change
/// from one iteration to the next.
pub struct StorageKeyConstructionInLoop;

impl StorageKeyConstructionInLoop {
    /// A `Symbol::new` call directly in a loop, reading nothing the loop changes.
    pub open spec fn spec_check(e: Expr) -> Option<Diagnostic> {
        if is_symbol_new_call(e) && invariant_in(loop_of(e), e.reads@) {
            Some(plain(Note::StorageKeyConstructionInLoop))
        } else {
            None
        }
    }

    /// Reports `e` as [`Self::spec_check`] says.
    pub fn check_expr(&mut self, e: &Expr) -> (r: Option<Diagnostic>)
        ensures
            r == Self::spec_check(*e),
    {
        if symbol_new_call(e) {
            if let Some(scope) = enclosing_loop(e) {
                if !depends_on_loop_state(scope, &e.reads) {
                    return Some(
                        Diagnostic { note: Note::StorageKeyConstructionInLoop, suggestion: None },
                    );
                }
            }
        }
        None
    }
}

/// The type (references not peeled) is `soroban_sdk::Bytes`.
pub open spec fn bytes_type(ty: Option<Adt>) -> bool {
    ty matches Some(a) && path_matches(a.path@, bytes_path())
}

/// Whether the type `ty`, references not peeled, is `soroban_sdk::Bytes`.
pub fn is_bytes_type(ty: &Option<Adt>) -> (r: bool)
    ensures
        r == bytes_type(*ty),
{
    match ty {
        Some(a) => is_bytes_path(a.path.as_str()),
        None => false,
    }
}

/// Flags `a + b` inside a loop when one operand is `soroban_sdk::Bytes`.
pub struct InefficientBytesConcat;

impl InefficientBytesConcat {
    /// An addition with a `Bytes` operand directly in a loop.
    pub open spec fn spec_check(e: Expr) -> Option<Diagnostic> {
        match e.kind {
            ExprKind::Add { lhs, rhs } => {
                if (bytes_type(lhs) || bytes_type(rhs)) && loop_of(e) is Some {
                    Some(plain(Note::InefficientBytesConcat))
                } else {
                    None
                }
            },
            _ => None,
        }
    }

    /// Reports `e` as [`Self::spec_check`] says.
    pub fn check_expr(&mut self, e: &Expr) -> (r: Option<Diagnostic>)
        ensures
            r == Self::spec_check(*e),
    {
        if let ExprKind::Add { lhs, rhs } = &e.kind {
            let is_bytes = is_bytes_type(lhs) || is_bytes_type(rhs);
            let is_in_loop = enclosing_loop(e).is_some();
            if is_bytes && is_in_loop {
                return Some(Diagnostic { note: Note::InefficientBytesConcat, suggestion: None });
            }
        }
        None
    }
}

/// `e` is `x.min(<literal>)` or `x.clamp(_, <literal>)`.
pub open spec fn clamped_by_constant(e: Expr) -> bool {
    match e.kind {
        ExprKind::MethodCall { method, args, .. } => if method@ == "min"@ {
            args@.len() > 0 && args@[0].is_lit
        } else if method@ == "clamp"@ {
            args@.len() >= 2 && args@[args@.len() - 1].is_lit
        } else {
            false
        },
        _ => false,
    }
}

/// Whether `e` clamps a value by a literal constant: `.min(CONST)`, or
/// `.clamp(_, CONST)` with a literal last argument.
pub fn is_clamped_by_constant(e: &Expr) -> (r: bool)
    ensures
        r == clamped_by_constant(*e),
{
    if let ExprKind::MethodCall { method, args, .. } = &e.kind {
        if str_eq(method.as_str(), "min") {
            args.len() > 0 && args[0].is_lit
        } else if str_eq(method.as_str(), "clamp") {
            args.len() >= 2 && args[args.len() - 1].is_lit
        } else {
            false
        }
    } else {
        false
    }
}

} // verus!
