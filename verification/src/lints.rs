//! The lints this crate provides: their names, default levels, descriptions
//! and categories, the registry the command-line tool reads, and the
//! diagnostics the lints emit.

use vstd::prelude::*;

verus! {

/// The level a lint is reported at.
#[derive(PartialEq, Eq, Structural, Clone, Copy, Debug)]
pub enum Level {
    Allow,
    Warn,
    Deny,
}

/// High-level cost category a lint belongs to, used to group diagnostics and
/// `budget.toml` rows.
#[derive(PartialEq, Eq, Structural, Clone, Copy, Debug)]
pub enum LintCategory {
    /// Direct ledger reads and writes through the storage accessors.
    StorageOperations,
    /// Host functions that cross the guest/host boundary and burn CPU budget.
    Compute,
    /// Allocations that grow with input size.
    Memory,
    /// Lifecycle of contract entries: authorisation, deployment, removal.
    EntryLifecycle,
    /// Construction and reuse of `Symbol` values.
    SymbolOperations,
}

/// Every lint declared by this crate.
#[derive(PartialEq, Eq, Structural, Clone, Copy, Debug)]
pub enum LintId {
    SorobanStorageInLoop,
    LoopInvariantStorageAccess,
    SorobanInefficientBytesConcat,
    SorobanRedundantStorageRead,
    RedundantEnvClone,
    UnnecessaryHostFunctionCall,
    HostInLoop,
    UnnecessaryStringToBytes,
    ContractCallInLoop,
    SymbolNewForShortLiteral,
    UnboundedInputLoop,
    BytesAppendInLoop,
    StorageWriteWithoutRead,
    InefficientBytesConcat,
    MapInsertInLoop,
    SignatureVerificationInLoop,
    StorageKeyConstructionInLoop,
    VecWhereSliceCouldBeUsed,
    ExtendTtlInLoop,
    LinearScanInLoop,
    PersistentReadWithoutTtlExtension,
    RequireAuthInLoop,
}

impl LintId {
    /// The lint's name, as written in `#[allow(..)]` and `budget.toml`.
    pub open spec fn spec_name(self) -> Seq<char> {
        match self {
            LintId::SorobanStorageInLoop => "soroban_storage_in_loop"@,
            LintId::LoopInvariantStorageAccess => "loop_invariant_storage_access"@,
            LintId::SorobanInefficientBytesConcat => "soroban_inefficient_bytes_concat"@,
            LintId::SorobanRedundantStorageRead => "soroban_redundant_storage_read"@,
            LintId::RedundantEnvClone => "redundant_env_clone"@,
            LintId::UnnecessaryHostFunctionCall => "unnecessary_host_function_call"@,
            LintId::HostInLoop => "host_in_loop"@,
            LintId::UnnecessaryStringToBytes => "unnecessary_string_to_bytes"@,
            LintId::ContractCallInLoop => "contract_call_in_loop"@,
            LintId::SymbolNewForShortLiteral => "symbol_new_for_short_literal"@,
            LintId::UnboundedInputLoop => "unbounded_input_loop"@,
            LintId::BytesAppendInLoop => "bytes_append_in_loop"@,
            LintId::StorageWriteWithoutRead => "storage_write_without_read"@,
            LintId::InefficientBytesConcat => "inefficient_bytes_concat"@,
            LintId::MapInsertInLoop => "map_insert_in_loop"@,
            LintId::SignatureVerificationInLoop => "signature_verification_in_loop"@,
            LintId::StorageKeyConstructionInLoop => "storage_key_construction_in_loop"@,
            LintId::VecWhereSliceCouldBeUsed => "vec_where_slice_could_be_used"@,
            LintId::ExtendTtlInLoop => "extend_ttl_in_loop"@,
            LintId::LinearScanInLoop => "linear_scan_in_loop"@,
            LintId::PersistentReadWithoutTtlExtension => "persistent_read_without_ttl_extension"@,
            LintId::RequireAuthInLoop => "require_auth_in_loop"@,
        }
    }

    /// The level the lint is reported at unless configured otherwise.
    pub open spec fn spec_default_level(self) -> Level {
        match self {
            LintId::SorobanStorageInLoop => Level::Deny,
            LintId::LoopInvariantStorageAccess => Level::Warn,
            LintId::SorobanInefficientBytesConcat => Level::Warn,
            LintId::SorobanRedundantStorageRead => Level::Warn,
            LintId::RedundantEnvClone => Level::Warn,
            LintId::UnnecessaryHostFunctionCall => Level::Warn,
            LintId::HostInLoop => Level::Warn,
            LintId::UnnecessaryStringToBytes => Level::Warn,
            LintId::ContractCallInLoop => Level::Warn,
            LintId::SymbolNewForShortLiteral => Level::Warn,
            LintId::UnboundedInputLoop => Level::Warn,
            LintId::BytesAppendInLoop => Level::Warn,
            LintId::StorageWriteWithoutRead => Level::Warn,
            LintId::InefficientBytesConcat => Level::Warn,
            LintId::MapInsertInLoop => Level::Warn,
            LintId::SignatureVerificationInLoop => Level::Warn,
            LintId::StorageKeyConstructionInLoop => Level::Warn,
            LintId::VecWhereSliceCouldBeUsed => Level::Warn,
            LintId::ExtendTtlInLoop => Level::Warn,
            LintId::LinearScanInLoop => Level::Warn,
            LintId::PersistentReadWithoutTtlExtension => Level::Warn,
            LintId::RequireAuthInLoop => Level::Warn,
        }
    }

    /// The lint's one-line description.
    pub open spec fn spec_description(self) -> Seq<char> {
        match self {
            LintId::SorobanStorageInLoop => "storage operations inside a loop"@,
            LintId::LoopInvariantStorageAccess => "storage operation inside a loop whose operands are provably loop-invariant"@,
            LintId::SorobanInefficientBytesConcat => "inefficient Bytes concatenation inside a loop"@,
            LintId::SorobanRedundantStorageRead => "multiple sequential reads of the same storage key without modification"@,
            LintId::RedundantEnvClone => "redundant clone on Env object"@,
            LintId::UnnecessaryHostFunctionCall => "unnecessary host function call inside loop"@,
            LintId::HostInLoop => "use of Host object inside a loop"@,
            LintId::UnnecessaryStringToBytes => "unnecessary String to Bytes conversion"@,
            LintId::ContractCallInLoop => "cross-contract invocation inside a loop"@,
            LintId::SymbolNewForShortLiteral => "Symbol::new used with a short literal that could use symbol_short! macro"@,
            LintId::UnboundedInputLoop => "loop bound derived from untrusted input with storage write in body"@,
            LintId::BytesAppendInLoop => "repeatedly growing SDK containers inside loops"@,
            LintId::StorageWriteWithoutRead => "storage write without a corresponding read"@,
            LintId::InefficientBytesConcat => "inefficient bytes concatenation"@,
            LintId::MapInsertInLoop => "Map::insert called inside a loop"@,
            LintId::SignatureVerificationInLoop => "signature verification performed inside a loop"@,
            LintId::StorageKeyConstructionInLoop => "storage key constructed inside a loop body where it could be hoisted"@,
            LintId::VecWhereSliceCouldBeUsed => "soroban_sdk::Vec passed by value where a native Rust slice would suffice"@,
            LintId::ExtendTtlInLoop => "extend_ttl called inside a loop"@,
            LintId::LinearScanInLoop => "linear scan on collection inside a loop \u{2014} O(n\u{b2}) cost"@,
            LintId::PersistentReadWithoutTtlExtension => "persistent storage read without TTL extension \u{2014} archival cost cliff"@,
            LintId::RequireAuthInLoop => "Address::require_auth or require_auth_for_args called inside a loop"@,
        }
    }

    /// The lint's name.
    pub fn name(&self) -> (r: &'static str)
        ensures
            r@ == self.spec_name(),
    {
        match self {
            LintId::SorobanStorageInLoop => "soroban_storage_in_loop",
            LintId::LoopInvariantStorageAccess => "loop_invariant_storage_access",
            LintId::SorobanInefficientBytesConcat => "soroban_inefficient_bytes_concat",
            LintId::SorobanRedundantStorageRead => "soroban_redundant_storage_read",
            LintId::RedundantEnvClone => "redundant_env_clone",
            LintId::UnnecessaryHostFunctionCall => "unnecessary_host_function_call",
            LintId::HostInLoop => "host_in_loop",
            LintId::UnnecessaryStringToBytes => "unnecessary_string_to_bytes",
            LintId::ContractCallInLoop => "contract_call_in_loop",
            LintId::SymbolNewForShortLiteral => "symbol_new_for_short_literal",
            LintId::UnboundedInputLoop => "unbounded_input_loop",
            LintId::BytesAppendInLoop => "bytes_append_in_loop",
            LintId::StorageWriteWithoutRead => "storage_write_without_read",
            LintId::InefficientBytesConcat => "inefficient_bytes_concat",
            LintId::MapInsertInLoop => "map_insert_in_loop",
            LintId::SignatureVerificationInLoop => "signature_verification_in_loop",
            LintId::StorageKeyConstructionInLoop => "storage_key_construction_in_loop",
            LintId::VecWhereSliceCouldBeUsed => "vec_where_slice_could_be_used",
            LintId::ExtendTtlInLoop => "extend_ttl_in_loop",
            LintId::LinearScanInLoop => "linear_scan_in_loop",
            LintId::PersistentReadWithoutTtlExtension => "persistent_read_without_ttl_extension",
            LintId::RequireAuthInLoop => "require_auth_in_loop",
        }
    }

    /// The level the lint is reported at unless configured otherwise.
    pub fn default_level(&self) -> (r: Level)
        ensures
            r == self.spec_default_level(),
    {
        match self {
            LintId::SorobanStorageInLoop => Level::Deny,
            LintId::LoopInvariantStorageAccess => Level::Warn,
            LintId::SorobanInefficientBytesConcat => Level::Warn,
            LintId::SorobanRedundantStorageRead => Level::Warn,
            LintId::RedundantEnvClone => Level::Warn,
            LintId::UnnecessaryHostFunctionCall => Level::Warn,
            LintId::HostInLoop => Level::Warn,
            LintId::UnnecessaryStringToBytes => Level::Warn,
            LintId::ContractCallInLoop => Level::Warn,
            LintId::SymbolNewForShortLiteral => Level::Warn,
            LintId::UnboundedInputLoop => Level::Warn,
            LintId::BytesAppendInLoop => Level::Warn,
            LintId::StorageWriteWithoutRead => Level::Warn,
            LintId::InefficientBytesConcat => Level::Warn,
            LintId::MapInsertInLoop => Level::Warn,
            LintId::SignatureVerificationInLoop => Level::Warn,
            LintId::StorageKeyConstructionInLoop => Level::Warn,
            LintId::VecWhereSliceCouldBeUsed => Level::Warn,
            LintId::ExtendTtlInLoop => Level::Warn,
            LintId::LinearScanInLoop => Level::Warn,
            LintId::PersistentReadWithoutTtlExtension => Level::Warn,
            LintId::RequireAuthInLoop => Level::Warn,
        }
    }

    /// The lint's one-line description.
    pub fn description(&self) -> (r: &'static str)
        ensures
            r@ == self.spec_description(),
    {
        match self {
            LintId::SorobanStorageInLoop => "storage operations inside a loop",
            LintId::LoopInvariantStorageAccess => "storage operation inside a loop whose operands are provably loop-invariant",
            LintId::SorobanInefficientBytesConcat => "inefficient Bytes concatenation inside a loop",
            LintId::SorobanRedundantStorageRead => "multiple sequential reads of the same storage key without modification",
            LintId::RedundantEnvClone => "redundant clone on Env object",
            LintId::UnnecessaryHostFunctionCall => "unnecessary host function call inside loop",
            LintId::HostInLoop => "use of Host object inside a loop",
            LintId::UnnecessaryStringToBytes => "unnecessary String to Bytes conversion",
            LintId::ContractCallInLoop => "cross-contract invocation inside a loop",
            LintId::SymbolNewForShortLiteral => "Symbol::new used with a short literal that could use symbol_short! macro",
            LintId::UnboundedInputLoop => "loop bound derived from untrusted input with storage write in body",
            LintId::BytesAppendInLoop => "repeatedly growing SDK containers inside loops",
            LintId::StorageWriteWithoutRead => "storage write without a corresponding read",
            LintId::InefficientBytesConcat => "inefficient bytes concatenation",
            LintId::MapInsertInLoop => "Map::insert called inside a loop",
            LintId::SignatureVerificationInLoop => "signature verification performed inside a loop",
            LintId::StorageKeyConstructionInLoop => "storage key constructed inside a loop body where it could be hoisted",
            LintId::VecWhereSliceCouldBeUsed => "soroban_sdk::Vec passed by value where a native Rust slice would suffice",
            LintId::ExtendTtlInLoop => "extend_ttl called inside a loop",
            LintId::LinearScanInLoop => "linear scan on collection inside a loop \u{2014} O(n\u{b2}) cost",
            LintId::PersistentReadWithoutTtlExtension => "persistent storage read without TTL extension \u{2014} archival cost cliff",
            LintId::RequireAuthInLoop => "Address::require_auth or require_auth_for_args called inside a loop",
        }
    }
}

/// The message and help text of one kind of diagnostic.
#[derive(PartialEq, Eq, Structural, Clone, Copy, Debug)]
pub enum Note {
    StorageReadInLoop,
    StorageWriteInLoop,
    StorageInLoopThroughCall,
    LoopInvariantStorageAccess,
    SorobanInefficientBytesConcat,
    RedundantStorageRead,
    RedundantEnvClone,
    UnnecessaryHostFunctionCall,
    HostInLoop,
    UnnecessaryStringToBytes,
    ContractCallInLoop,
    SymbolNewForShortLiteral,
    UnboundedInputLoop,
    BytesAppendInLoop,
    StorageWriteWithoutRead,
    InefficientBytesConcat,
    MapInsertInLoop,
    SignatureVerificationInLoop,
    StorageKeyConstructionInLoop,
    VecWhereSliceCouldBeUsed,
    ExtendTtlInLoop,
    LinearScanInLoop,
    PersistentReadWithoutTtlExtension,
    RequireAuthInLoop,
}

impl Note {
    /// The lint that emits this kind of diagnostic.
    pub open spec fn spec_lint(self) -> LintId {
        match self {
            Note::StorageReadInLoop => LintId::SorobanStorageInLoop,
            Note::StorageWriteInLoop => LintId::SorobanStorageInLoop,
            Note::StorageInLoopThroughCall => LintId::SorobanStorageInLoop,
            Note::LoopInvariantStorageAccess => LintId::LoopInvariantStorageAccess,
            Note::SorobanInefficientBytesConcat => LintId::SorobanInefficientBytesConcat,
            Note::RedundantStorageRead => LintId::SorobanRedundantStorageRead,
            Note::RedundantEnvClone => LintId::RedundantEnvClone,
            Note::UnnecessaryHostFunctionCall => LintId::UnnecessaryHostFunctionCall,
            Note::HostInLoop => LintId::HostInLoop,
            Note::UnnecessaryStringToBytes => LintId::UnnecessaryStringToBytes,
            Note::ContractCallInLoop => LintId::ContractCallInLoop,
            Note::SymbolNewForShortLiteral => LintId::SymbolNewForShortLiteral,
            Note::UnboundedInputLoop => LintId::UnboundedInputLoop,
            Note::BytesAppendInLoop => LintId::BytesAppendInLoop,
            Note::StorageWriteWithoutRead => LintId::StorageWriteWithoutRead,
            Note::InefficientBytesConcat => LintId::InefficientBytesConcat,
            Note::MapInsertInLoop => LintId::MapInsertInLoop,
            Note::SignatureVerificationInLoop => LintId::SignatureVerificationInLoop,
            Note::StorageKeyConstructionInLoop => LintId::StorageKeyConstructionInLoop,
            Note::VecWhereSliceCouldBeUsed => LintId::VecWhereSliceCouldBeUsed,
            Note::ExtendTtlInLoop => LintId::ExtendTtlInLoop,
            Note::LinearScanInLoop => LintId::LinearScanInLoop,
            Note::PersistentReadWithoutTtlExtension => LintId::PersistentReadWithoutTtlExtension,
            Note::RequireAuthInLoop => LintId::RequireAuthInLoop,
        }
    }

    /// The diagnostic's message.
    pub open spec fn spec_message(self) -> Seq<char> {
        match self {
            Note::StorageReadInLoop => "storage operation inside a loop"@,
            Note::StorageWriteInLoop => "storage operation inside a loop"@,
            Note::StorageInLoopThroughCall => "storage operation inside a loop (reached through function call)"@,
            Note::LoopInvariantStorageAccess => "loop-invariant storage operation inside a loop"@,
            Note::SorobanInefficientBytesConcat => "inefficient Bytes concatenation inside a loop"@,
            Note::RedundantStorageRead => "redundant storage read: this key was already read without modification"@,
            Note::RedundantEnvClone => "redundant clone on Env object"@,
            Note::UnnecessaryHostFunctionCall => "unnecessary host function call inside loop"@,
            Note::HostInLoop => "use of Host object inside a loop"@,
            Note::UnnecessaryStringToBytes => "unnecessary String to Bytes conversion"@,
            Note::ContractCallInLoop => "cross-contract call inside a loop"@,
            Note::SymbolNewForShortLiteral => "Symbol::new called with a short literal that could use symbol_short! macro"@,
            Note::UnboundedInputLoop => "loop bound derives from an untrusted input with a storage write in the body"@,
            Note::BytesAppendInLoop => "repeatedly growing SDK container inside a loop"@,
            Note::StorageWriteWithoutRead => "storage write without a corresponding read"@,
            Note::InefficientBytesConcat => "inefficient bytes concatenation in a loop"@,
            Note::MapInsertInLoop => "Map::insert inside a loop is expensive"@,
            Note::SignatureVerificationInLoop => "signature verification inside a loop"@,
            Note::StorageKeyConstructionInLoop => "storage key constructed inside a loop body"@,
            Note::VecWhereSliceCouldBeUsed => "soroban_sdk::Vec parameter could be replaced with a native Rust slice"@,
            Note::ExtendTtlInLoop => "extend_ttl called inside a loop"@,
            Note::LinearScanInLoop => "linear scan on collection inside a loop \u{2014} O(n\u{b2}) cost"@,
            Note::PersistentReadWithoutTtlExtension => "persistent storage read without TTL extension \u{2014} archival cost cliff"@,
            Note::RequireAuthInLoop => "authorization call inside a loop"@,
        }
    }

    /// The diagnostic's help text.
    pub open spec fn spec_help(self) -> Seq<char> {
        match self {
            Note::StorageReadInLoop => "if the read is loop-invariant, hoist it out of the loop; otherwise batch where possible"@,
            Note::StorageWriteInLoop => "move storage operations out of the loop or accumulate mutations in memory first"@,
            Note::StorageInLoopThroughCall => "move storage operations out of the loop or accumulate mutations in memory first"@,
            Note::LoopInvariantStorageAccess => "hoist this storage operation out of the loop"@,
            Note::SorobanInefficientBytesConcat => "accumulate bytes in a Vec<u8> inside the loop and convert to Bytes once outside the loop via Bytes::from_slice"@,
            Note::RedundantStorageRead => "store the value from the first read and reuse it instead of reading again"@,
            Note::RedundantEnvClone => "pass Env by reference or value instead of cloning"@,
            Note::UnnecessaryHostFunctionCall => "call this function outside the loop and reuse the result"@,
            Note::HostInLoop => "consider moving the Host usage outside the loop if possible"@,
            Note::UnnecessaryStringToBytes => "use the String directly where Bytes is accepted, or construct Bytes directly instead"@,
            Note::ContractCallInLoop => "add a bulk endpoint on the callee contract, or hoist this call out of the loop if its result is invariant across iterations"@,
            Note::SymbolNewForShortLiteral => "use symbol_short! macro for compile-time symbol creation"@,
            Note::UnboundedInputLoop => "clamp the loop bound with .min(CONST) or validate the input before using it as a loop bound"@,
            Note::BytesAppendInLoop => "accumulate values in native Rust collections first, then batch host operations or convert to SDK containers once after the loop; pre-size where practical"@,
            Note::StorageWriteWithoutRead => "consider reading the value before writing or using `.has()` to check existence"@,
            Note::InefficientBytesConcat => "use a Vec<u8> buffer to accumulate bytes and convert to Bytes after the loop"@,
            Note::MapInsertInLoop => "accumulate mutations in memory first and write once after the loop"@,
            Note::SignatureVerificationInLoop => "each call re-runs an expensive elliptic-curve check; consider a signature scheme that supports batch or aggregate verification, or move per-item auth to the callee via a bulk entrypoint"@,
            Note::StorageKeyConstructionInLoop => "hoist the key construction outside the loop to avoid repeated host allocations"@,
            Note::VecWhereSliceCouldBeUsed => "consider using native Rust types (e.g. `&[T]`) instead of `soroban_sdk::Vec` for read-only access to reduce host-side operations"@,
            Note::ExtendTtlInLoop => "each extend_ttl call is a separate metered host call that also writes ledger state, so calling it once per iteration multiplies both costs by the iteration count; batch the extension by collecting the keys/entries first and making a single extend_ttl call after the loop (if the entries share one accessor, e.g. multiple keys under Persistent), or extend once with a threshold sized generously enough to cover the whole batch instead of refreshing per-entry per-iteration"@,
            Note::LinearScanInLoop => "consider building a Map lookup outside the loop for O(1) access"@,
            Note::PersistentReadWithoutTtlExtension => "after reading from persistent storage, call extend_ttl on the same key to avoid paying archival cost on subsequent access"@,
            Note::RequireAuthInLoop => "collect distinct addresses first and authorize each once before the loop"@,
        }
    }

    /// The lint that emits this kind of diagnostic.
    pub fn lint(&self) -> (r: LintId)
        ensures
            r == self.spec_lint(),
    {
        match self {
            Note::StorageReadInLoop => LintId::SorobanStorageInLoop,
            Note::StorageWriteInLoop => LintId::SorobanStorageInLoop,
            Note::StorageInLoopThroughCall => LintId::SorobanStorageInLoop,
            Note::LoopInvariantStorageAccess => LintId::LoopInvariantStorageAccess,
            Note::SorobanInefficientBytesConcat => LintId::SorobanInefficientBytesConcat,
            Note::RedundantStorageRead => LintId::SorobanRedundantStorageRead,
            Note::RedundantEnvClone => LintId::RedundantEnvClone,
            Note::UnnecessaryHostFunctionCall => LintId::UnnecessaryHostFunctionCall,
            Note::HostInLoop => LintId::HostInLoop,
            Note::UnnecessaryStringToBytes => LintId::UnnecessaryStringToBytes,
            Note::ContractCallInLoop => LintId::ContractCallInLoop,
            Note::SymbolNewForShortLiteral => LintId::SymbolNewForShortLiteral,
            Note::UnboundedInputLoop => LintId::UnboundedInputLoop,
            Note::BytesAppendInLoop => LintId::BytesAppendInLoop,
            Note::StorageWriteWithoutRead => LintId::StorageWriteWithoutRead,
            Note::InefficientBytesConcat => LintId::InefficientBytesConcat,
            Note::MapInsertInLoop => LintId::MapInsertInLoop,
            Note::SignatureVerificationInLoop => LintId::SignatureVerificationInLoop,
            Note::StorageKeyConstructionInLoop => LintId::StorageKeyConstructionInLoop,
            Note::VecWhereSliceCouldBeUsed => LintId::VecWhereSliceCouldBeUsed,
            Note::ExtendTtlInLoop => LintId::ExtendTtlInLoop,
            Note::LinearScanInLoop => LintId::LinearScanInLoop,
            Note::PersistentReadWithoutTtlExtension => LintId::PersistentReadWithoutTtlExtension,
            Note::RequireAuthInLoop => LintId::RequireAuthInLoop,
        }
    }

    /// The diagnostic's message.
    pub fn message(&self) -> (r: &'static str)
        ensures
            r@ == self.spec_message(),
    {
        match self {
            Note::StorageReadInLoop => "storage operation inside a loop",
            Note::StorageWriteInLoop => "storage operation inside a loop",
            Note::StorageInLoopThroughCall => "storage operation inside a loop (reached through function call)",
            Note::LoopInvariantStorageAccess => "loop-invariant storage operation inside a loop",
            Note::SorobanInefficientBytesConcat => "inefficient Bytes concatenation inside a loop",
            Note::RedundantStorageRead => "redundant storage read: this key was already read without modification",
            Note::RedundantEnvClone => "redundant clone on Env object",
            Note::UnnecessaryHostFunctionCall => "unnecessary host function call inside loop",
            Note::HostInLoop => "use of Host object inside a loop",
            Note::UnnecessaryStringToBytes => "unnecessary String to Bytes conversion",
            Note::ContractCallInLoop => "cross-contract call inside a loop",
            Note::SymbolNewForShortLiteral => "Symbol::new called with a short literal that could use symbol_short! macro",
            Note::UnboundedInputLoop => "loop bound derives from an untrusted input with a storage write in the body",
            Note::BytesAppendInLoop => "repeatedly growing SDK container inside a loop",
            Note::StorageWriteWithoutRead => "storage write without a corresponding read",
            Note::InefficientBytesConcat => "inefficient bytes concatenation in a loop",
            Note::MapInsertInLoop => "Map::insert inside a loop is expensive",
            Note::SignatureVerificationInLoop => "signature verification inside a loop",
            Note::StorageKeyConstructionInLoop => "storage key constructed inside a loop body",
            Note::VecWhereSliceCouldBeUsed => "soroban_sdk::Vec parameter could be replaced with a native Rust slice",
            Note::ExtendTtlInLoop => "extend_ttl called inside a loop",
            Note::LinearScanInLoop => "linear scan on collection inside a loop \u{2014} O(n\u{b2}) cost",
            Note::PersistentReadWithoutTtlExtension => "persistent storage read without TTL extension \u{2014} archival cost cliff",
            Note::RequireAuthInLoop => "authorization call inside a loop",
        }
    }

    /// The diagnostic's help text.
    pub fn help(&self) -> (r: &'static str)
        ensures
            r@ == self.spec_help(),
    {
        match self {
            Note::StorageReadInLoop => "if the read is loop-invariant, hoist it out of the loop; otherwise batch where possible",
            Note::StorageWriteInLoop => "move storage operations out of the loop or accumulate mutations in memory first",
            Note::StorageInLoopThroughCall => "move storage operations out of the loop or accumulate mutations in memory first",
            Note::LoopInvariantStorageAccess => "hoist this storage operation out of the loop",
            Note::SorobanInefficientBytesConcat => "accumulate bytes in a Vec<u8> inside the loop and convert to Bytes once outside the loop via Bytes::from_slice",
            Note::RedundantStorageRead => "store the value from the first read and reuse it instead of reading again",
            Note::RedundantEnvClone => "pass Env by reference or value instead of cloning",
            Note::UnnecessaryHostFunctionCall => "call this function outside the loop and reuse the result",
            Note::HostInLoop => "consider moving the Host usage outside the loop if possible",
            Note::UnnecessaryStringToBytes => "use the String directly where Bytes is accepted, or construct Bytes directly instead",
            Note::ContractCallInLoop => "add a bulk endpoint on the callee contract, or hoist this call out of the loop if its result is invariant across iterations",
            Note::SymbolNewForShortLiteral => "use symbol_short! macro for compile-time symbol creation",
            Note::UnboundedInputLoop => "clamp the loop bound with .min(CONST) or validate the input before using it as a loop bound",
            Note::BytesAppendInLoop => "accumulate values in native Rust collections first, then batch host operations or convert to SDK containers once after the loop; pre-size where practical",
            Note::StorageWriteWithoutRead => "consider reading the value before writing or using `.has()` to check existence",
            Note::InefficientBytesConcat => "use a Vec<u8> buffer to accumulate bytes and convert to Bytes after the loop",
            Note::MapInsertInLoop => "accumulate mutations in memory first and write once after the loop",
            Note::SignatureVerificationInLoop => "each call re-runs an expensive elliptic-curve check; consider a signature scheme that supports batch or aggregate verification, or move per-item auth to the callee via a bulk entrypoint",
            Note::StorageKeyConstructionInLoop => "hoist the key construction outside the loop to avoid repeated host allocations",
            Note::VecWhereSliceCouldBeUsed => "consider using native Rust types (e.g. `&[T]`) instead of `soroban_sdk::Vec` for read-only access to reduce host-side operations",
            Note::ExtendTtlInLoop => "each extend_ttl call is a separate metered host call that also writes ledger state, so calling it once per iteration multiplies both costs by the iteration count; batch the extension by collecting the keys/entries first and making a single extend_ttl call after the loop (if the entries share one accessor, e.g. multiple keys under Persistent), or extend once with a threshold sized generously enough to cover the whole batch instead of refreshing per-entry per-iteration",
            Note::LinearScanInLoop => "consider building a Map lookup outside the loop for O(1) access",
            Note::PersistentReadWithoutTtlExtension => "after reading from persistent storage, call extend_ttl on the same key to avoid paying archival cost on subsequent access",
            Note::RequireAuthInLoop => "collect distinct addresses first and authorize each once before the loop",
        }
    }
}

/// A diagnostic a lint emits: what kind it is and, for a machine-applicable
/// fix, the replacement text.
pub struct Diagnostic {
    pub note: Note,
    pub suggestion: Option<String>,
}

/// A diagnostic without a suggested replacement.
pub open spec fn plain(note: Note) -> Diagnostic {
    Diagnostic { note, suggestion: None }
}

/// Row of the lint registry: a lint and the category it belongs to.
pub struct LintMetadata {
    pub lint: LintId,
    pub category: LintCategory,
}

/// The registry: every lint of the crate, in declaration order, with its
/// category.
pub open spec fn spec_lint_metadata() -> Seq<(LintId, LintCategory)> {
    seq![
        (LintId::SorobanStorageInLoop, LintCategory::StorageOperations),
        (LintId::LoopInvariantStorageAccess, LintCategory::StorageOperations),
        (LintId::SorobanInefficientBytesConcat, LintCategory::Memory),
        (LintId::SorobanRedundantStorageRead, LintCategory::StorageOperations),
        (LintId::RedundantEnvClone, LintCategory::Memory),
        (LintId::UnnecessaryHostFunctionCall, LintCategory::Compute),
        (LintId::HostInLoop, LintCategory::Compute),
        (LintId::UnnecessaryStringToBytes, LintCategory::Memory),
        (LintId::ContractCallInLoop, LintCategory::Compute),
        (LintId::SymbolNewForShortLiteral, LintCategory::SymbolOperations),
        (LintId::UnboundedInputLoop, LintCategory::StorageOperations),
        (LintId::BytesAppendInLoop, LintCategory::Memory),
        (LintId::StorageWriteWithoutRead, LintCategory::StorageOperations),
        (LintId::InefficientBytesConcat, LintCategory::Memory),
        (LintId::MapInsertInLoop, LintCategory::Memory),
        (LintId::SignatureVerificationInLoop, LintCategory::Compute),
        (LintId::StorageKeyConstructionInLoop, LintCategory::Memory),
        (LintId::VecWhereSliceCouldBeUsed, LintCategory::Memory),
        (LintId::ExtendTtlInLoop, LintCategory::EntryLifecycle),
        (LintId::LinearScanInLoop, LintCategory::Compute),
        (LintId::PersistentReadWithoutTtlExtension, LintCategory::EntryLifecycle),
        (LintId::RequireAuthInLoop, LintCategory::EntryLifecycle),
    ]
}

/// Registry of every lint the crate declares, which the command-line tool
/// configures and lists, in declaration order; each row pairs a lint with its
/// category.
pub fn lint_metadata() -> (r: Vec<LintMetadata>)
    ensures
        r@.len() == spec_lint_metadata().len(),
        forall|i: int|
            0 <= i < r@.len() ==> (#[trigger] r@[i]).lint == spec_lint_metadata()[i].0
                && r@[i].category == spec_lint_metadata()[i].1,
{
    let r = vec![
        LintMetadata { lint: LintId::SorobanStorageInLoop, category: LintCategory::StorageOperations },
        LintMetadata { lint: LintId::LoopInvariantStorageAccess, category: LintCategory::StorageOperations },
        LintMetadata { lint: LintId::SorobanInefficientBytesConcat, category: LintCategory::Memory },
        LintMetadata { lint: LintId::SorobanRedundantStorageRead, category: LintCategory::StorageOperations },
        LintMetadata { lint: LintId::RedundantEnvClone, category: LintCategory::Memory },
        LintMetadata { lint: LintId::UnnecessaryHostFunctionCall, category: LintCategory::Compute },
        LintMetadata { lint: LintId::HostInLoop, category: LintCategory::Compute },
        LintMetadata { lint: LintId::UnnecessaryStringToBytes, category: LintCategory::Memory },
        LintMetadata { lint: LintId::ContractCallInLoop, category: LintCategory::Compute },
        LintMetadata { lint: LintId::SymbolNewForShortLiteral, category: LintCategory::SymbolOperations },
        LintMetadata { lint: LintId::UnboundedInputLoop, category: LintCategory::StorageOperations },
        LintMetadata { lint: LintId::BytesAppendInLoop, category: LintCategory::Memory },
        LintMetadata { lint: LintId::StorageWriteWithoutRead, category: LintCategory::StorageOperations },
        LintMetadata { lint: LintId::InefficientBytesConcat, category: LintCategory::Memory },
        LintMetadata { lint: LintId::MapInsertInLoop, category: LintCategory::Memory },
        LintMetadata { lint: LintId::SignatureVerificationInLoop, category: LintCategory::Compute },
        LintMetadata { lint: LintId::StorageKeyConstructionInLoop, category: LintCategory::Memory },
        LintMetadata { lint: LintId::VecWhereSliceCouldBeUsed, category: LintCategory::Memory },
        LintMetadata { lint: LintId::ExtendTtlInLoop, category: LintCategory::EntryLifecycle },
        LintMetadata { lint: LintId::LinearScanInLoop, category: LintCategory::Compute },
        LintMetadata { lint: LintId::PersistentReadWithoutTtlExtension, category: LintCategory::EntryLifecycle },
        LintMetadata { lint: LintId::RequireAuthInLoop, category: LintCategory::EntryLifecycle },
    ];
    r
}

/// The lints registered with the compiler, in registration order: every lint
/// the crate declares.
pub open spec fn spec_registered_lints() -> Seq<LintId> {
    seq![
        LintId::SorobanStorageInLoop,
        LintId::LoopInvariantStorageAccess,
        LintId::SorobanInefficientBytesConcat,
        LintId::SorobanRedundantStorageRead,
        LintId::RedundantEnvClone,
        LintId::UnnecessaryHostFunctionCall,
        LintId::HostInLoop,
        LintId::UnnecessaryStringToBytes,
        LintId::ContractCallInLoop,
        LintId::SymbolNewForShortLiteral,
        LintId::UnboundedInputLoop,
        LintId::BytesAppendInLoop,
        LintId::StorageWriteWithoutRead,
        LintId::InefficientBytesConcat,
        LintId::MapInsertInLoop,
        LintId::SignatureVerificationInLoop,
        LintId::StorageKeyConstructionInLoop,
        LintId::VecWhereSliceCouldBeUsed,
        LintId::ExtendTtlInLoop,
        LintId::LinearScanInLoop,
        LintId::PersistentReadWithoutTtlExtension,
        LintId::RequireAuthInLoop,
    ]
}

/// The lints the crate registers with the compiler when it is loaded, each
/// with its late pass, in registration order.
pub fn registered_lints() -> (r: Vec<LintId>)
    ensures
        r@ == spec_registered_lints(),
{
    vec![
        LintId::SorobanStorageInLoop,
        LintId::LoopInvariantStorageAccess,
        LintId::SorobanInefficientBytesConcat,
        LintId::SorobanRedundantStorageRead,
        LintId::RedundantEnvClone,
        LintId::UnnecessaryHostFunctionCall,
        LintId::HostInLoop,
        LintId::UnnecessaryStringToBytes,
        LintId::ContractCallInLoop,
        LintId::SymbolNewForShortLiteral,
        LintId::UnboundedInputLoop,
        LintId::BytesAppendInLoop,
        LintId::StorageWriteWithoutRead,
        LintId::InefficientBytesConcat,
        LintId::MapInsertInLoop,
        LintId::SignatureVerificationInLoop,
        LintId::StorageKeyConstructionInLoop,
        LintId::VecWhereSliceCouldBeUsed,
        LintId::ExtendTtlInLoop,
        LintId::LinearScanInLoop,
        LintId::PersistentReadWithoutTtlExtension,
        LintId::RequireAuthInLoop,
    ]
}

} // verus!
