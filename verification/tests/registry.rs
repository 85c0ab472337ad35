use soroban_cost_lints::lints::{lint_metadata, registered_lints, Level, LintCategory, LintId};
use soroban_cost_lints::sdk::ledger::Ledger;
use soroban_cost_lints::sdk::storage::{Instance, Persistent, Temporary};
use soroban_cost_lints::sdk::{Env, IntoVal, MyStruct, TryFromVal, Val};
use soroban_cost_lints::symbols::is_valid_short_symbol;
use soroban_cost_lints::text::{contains, ends_with, str_eq, trim};

#[test]
fn registry_lists_registered_lints_with_categories() {
    let meta = lint_metadata();
    let registered = registered_lints();
    assert_eq!(meta.len(), 22);
    assert_eq!(meta.len(), registered.len());
    for (m, r) in meta.iter().zip(registered.iter()) {
        assert_eq!(m.lint, *r);
    }
    assert_eq!(meta[0].lint.name(), "soroban_storage_in_loop");
    assert_eq!(meta[0].category, LintCategory::StorageOperations);
    assert_eq!(meta[4].category, LintCategory::Memory);
    assert_eq!(meta[9].category, LintCategory::SymbolOperations);
    assert_eq!(meta[18].lint, LintId::ExtendTtlInLoop);
    assert_eq!(meta[18].category, LintCategory::EntryLifecycle);
    assert_eq!(meta[21].lint.name(), "require_auth_in_loop");
    // Every lint is registered.
    for a in [LintId::ExtendTtlInLoop, LintId::UnboundedInputLoop, LintId::StorageWriteWithoutRead] {
        assert!(registered.contains(&a));
    }
}

#[test]
fn lint_levels_names_and_descriptions() {
    assert_eq!(LintId::SorobanStorageInLoop.default_level(), Level::Deny);
    assert_eq!(LintId::RedundantEnvClone.default_level(), Level::Warn);
    assert_eq!(LintId::HostInLoop.description(), "use of Host object inside a loop");
    assert_eq!(LintId::UnnecessaryHostFunctionCall.name(), "unnecessary_host_function_call");
    let all = [
        LintId::SorobanStorageInLoop, LintId::LoopInvariantStorageAccess, LintId::SorobanInefficientBytesConcat,
        LintId::SorobanRedundantStorageRead, LintId::RedundantEnvClone, LintId::UnnecessaryHostFunctionCall,
        LintId::HostInLoop, LintId::UnnecessaryStringToBytes, LintId::ContractCallInLoop,
        LintId::SymbolNewForShortLiteral, LintId::UnboundedInputLoop, LintId::BytesAppendInLoop,
        LintId::StorageWriteWithoutRead, LintId::InefficientBytesConcat, LintId::MapInsertInLoop,
        LintId::SignatureVerificationInLoop, LintId::StorageKeyConstructionInLoop,
        LintId::VecWhereSliceCouldBeUsed, LintId::ExtendTtlInLoop, LintId::LinearScanInLoop,
        LintId::PersistentReadWithoutTtlExtension, LintId::RequireAuthInLoop,
    ];
    for a in all.iter() {
        for b in all.iter() {
            assert_eq!(a.name() == b.name(), a == b);
        }
    }
}

#[test]
fn short_symbols() {
    assert!(is_valid_short_symbol("hello"));
    assert!(is_valid_short_symbol("A_9"));
    assert!(is_valid_short_symbol("abcdefghi"));
    assert!(!is_valid_short_symbol("abcdefghij"));
    assert!(!is_valid_short_symbol(""));
    assert!(!is_valid_short_symbol("héllo"));
    assert!(!is_valid_short_symbol("a b"));
}

#[test]
fn text_helpers() {
    assert!(str_eq("abc", "abc"));
    assert!(!str_eq("abc", "abd"));
    assert!(ends_with("soroban_sdk::storage::Instance", "storage::Instance"));
    assert!(!ends_with("Instance", "storage::Instance"));
    assert!(contains("Read Bytes", "Byte"));
    assert!(contains("x", ""));
    assert!(!contains("Read", "Write"));
    assert_eq!(trim("  a b \t"), "a b");
    assert_eq!(trim(" \n "), "");
}

#[test]
fn stand_in_sdk_holds_no_state() {
    let env = Env;
    let copy = env.clone();
    let storage = copy.storage();
    let instance: Instance = storage.instance();
    instance.set(&1u32, &2u32);
    assert!(instance.get::<u32, u32>(&1).is_none());
    assert!(!instance.has(&1u32));
    instance.extend_ttl(100, 1000);
    let persistent: Persistent = storage.persistent();
    persistent.set(&1u32, &2u32);
    persistent.extend_ttl(&1u32, 100, 1000);
    assert!(persistent.get::<u32, u32>(&1).is_none());
    assert!(!persistent.has(&1u32));
    let temporary: Temporary = storage.temporary();
    temporary.set(&1u32, &2u32);
    temporary.extend_ttl(&1u32, 100, 1000);
    assert!(temporary.get::<u32, u32>(&1).is_none());
    assert!(!temporary.has(&1u32));
    let ledger: Ledger = env.ledger();
    assert_eq!(ledger.sequence(), 0);
    let s = MyStruct { env: Env };
    let _ = s.env.storage();
}

#[test]
fn stand_in_conversions() {
    let env = Env;
    let same: u32 = 7u32.into_val(&env);
    assert_eq!(same, 7);
    let _val: Val = 7u32.into_val(&env);
    let back: Result<u32, ()> = u32::try_from_val(&env, &Val);
    assert_eq!(back, Ok(0));
}
