use soroban_cost_lints::budget::{config_text, BudgetConfig as LenientConfig};
use soroban_cost_lints::config::BudgetConfig;

const KNOWN_LINTS: &[&str] = &["soroban_storage_in_loop", "redundant_env_clone"];

fn config(entries: &[(&str, &str)]) -> BudgetConfig {
    BudgetConfig {
        lints: Some(
            entries
                .iter()
                .map(|(k, v)| (k.to_string(), v.to_string()))
                .collect(),
        ),
    }
}

#[test]
fn default_config_has_no_lints() {
    let config = BudgetConfig::default();
    assert!(config.lints.is_none());
}

#[test]
fn validated_accepts_known_lint_and_level() {
    let c = config(&[("soroban_storage_in_loop", "deny"), ("redundant_env_clone", "allow")]);
    let ok = c.validated("budget.toml", KNOWN_LINTS).unwrap();
    let lints = ok.lints.expect("lints should be present");
    assert_eq!(lints.len(), 2);
    assert_eq!(lints[0].1, "deny");
}

#[test]
fn validated_accepts_config_without_lints() {
    let ok = BudgetConfig::default().validated("budget.toml", KNOWN_LINTS).unwrap();
    assert!(ok.lints.is_none());
}

#[test]
fn validated_rejects_unknown_lint_name() {
    let c = config(&[("not_a_real_lint", "deny")]);
    let err = c.validated("budget.toml", KNOWN_LINTS).unwrap_err();
    assert!(err.contains("Unknown lint name"));
    assert_eq!(
        err,
        "Error: Unknown lint name 'not_a_real_lint' in budget.toml. Valid lints: soroban_storage_in_loop, redundant_env_clone"
    );
}

#[test]
fn validated_rejects_unknown_level() {
    let c = config(&[("soroban_storage_in_loop", "oops")]);
    let err = c.validated("budget.toml", KNOWN_LINTS).unwrap_err();
    assert!(err.contains("Unknown lint level"));
    assert_eq!(
        err,
        "Error: Unknown lint level 'oops' for 'soroban_storage_in_loop' in budget.toml. Valid levels are allow, warn, and deny."
    );
}

#[test]
fn validated_reports_first_faulty_entry() {
    let c = config(&[
        ("redundant_env_clone", "warn"),
        ("soroban_storage_in_loop", "loud"),
        ("unknown", "deny"),
    ]);
    let err = c.validated("cfg.toml", KNOWN_LINTS).unwrap_err();
    assert!(err.starts_with("Error: Unknown lint level 'loud'"));
}

#[test]
fn validated_level_is_case_sensitive() {
    let c = config(&[("soroban_storage_in_loop", "Deny")]);
    assert!(c.validated("budget.toml", KNOWN_LINTS).is_err());
}

#[test]
fn lenient_default_is_empty() {
    let c = LenientConfig::default();
    assert!(c.lints.is_empty());
}

#[test]
fn config_text_of_blank_input_is_none() {
    assert!(config_text("").is_none());
    assert!(config_text("   \n\t  ").is_none());
    assert!(config_text("\u{3000}\u{a0}").is_none());
}

#[test]
fn config_text_trims_surrounding_whitespace() {
    assert_eq!(config_text("  [budget]\nother = 1\n\n"), Some("[budget]\nother = 1"));
    assert_eq!(config_text("foo = 1"), Some("foo = 1"));
}
