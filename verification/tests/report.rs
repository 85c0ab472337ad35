use soroban_cost_lints::report::{
    default_limits, format_units, get_limits, limit_for_metric, limits_from_fields,
    limits_from_response, limits_url, metric_is_bytes, rpc_url_for, simulate_functions,
    value_scale, LimitSource, LimitsError, NetworkLimits, Scale,
};

#[test]
fn default_limits_are_protocol_22() {
    let l = default_limits();
    assert_eq!(l.max_instructions, 10_000_000_000);
    assert_eq!(l.max_read_bytes, 100_000_000);
    assert_eq!(l.max_write_bytes, 100_000_000);
    assert_eq!(l.protocol_version, 22);
}

#[test]
fn rpc_url_with_and_without_slash() {
    assert_eq!(rpc_url_for("https://x.org"), "https://x.org/soroban/v1/ledger/core");
    assert_eq!(rpc_url_for("https://x.org/"), "https://x.org/soroban/v1/ledger/core");
    assert_eq!(limits_url(None), "https://soroban-testnet.stellar.org");
    assert_eq!(limits_url(Some("http://local")), "http://local");
}

#[test]
fn limits_from_fields_defaults_and_truncation() {
    let l = limits_from_fields(None, Some(5), None, Some(7));
    assert_eq!(l.max_instructions, 5);
    assert_eq!(l.max_read_bytes, 100_000_000);
    assert_eq!(l.max_write_bytes, 7);
    assert_eq!(l.protocol_version, 22);
    let l = limits_from_fields(Some((1u64 << 32) + 23), None, None, None);
    assert_eq!(l.protocol_version, 23);
}

#[test]
fn limits_from_response_reads_fields() {
    let body = r#"{"protocol_version": 23, "max_instructions": 123, "max_read_bytes": "x"}"#;
    let (l, source) = match limits_from_response("u".to_string(), body) {
        Ok(v) => v,
        Err(_) => panic!("expected limits"),
    };
    assert_eq!(l.protocol_version, 23);
    assert_eq!(l.max_instructions, 123);
    assert_eq!(l.max_read_bytes, 100_000_000);
    assert_eq!(l.max_write_bytes, 100_000_000);
    assert_eq!(source.describe(), "fetched from network (u)");
    let negative = r#"{"max_instructions": -1}"#;
    let (l, _) = limits_from_response("u".to_string(), negative).ok().unwrap();
    assert_eq!(l.max_instructions, 10_000_000_000);
}

#[test]
fn limits_from_response_rejects_non_json() {
    match limits_from_response("u".to_string(), "not json") {
        Err(LimitsError::InvalidResponse(e)) => assert!(!e.to_string().is_empty()),
        Ok(_) => panic!("expected an error"),
    }
}

#[test]
fn get_limits_falls_back_only_without_network() {
    let fetched = || -> Result<(NetworkLimits, LimitSource), String> {
        Ok((limits_from_fields(Some(30), None, None, None), LimitSource::FetchedFromNetwork { network_url: "n".to_string() }))
    };
    let failed = || -> Result<(NetworkLimits, LimitSource), String> { Err("down".to_string()) };
    assert_eq!(get_limits(None, fetched()).unwrap().0.protocol_version, 30);
    assert_eq!(get_limits(Some("n"), failed()).unwrap_err(), "down");
    let (l, source) = get_limits(None, failed()).unwrap();
    assert_eq!(l.protocol_version, 22);
    assert_eq!(
        source.describe(),
        "hardcoded for Protocol 22 (soroban-budget-assert Soroban protocol config; Protocol 22 limits are 10B instructions, 100MB read/write.; these limits change with protocol upgrades, review when upgrading)"
    );
}

#[test]
fn describe_prints_protocol_number() {
    let s = LimitSource::HardcodedProtocolVersion { protocol_version: 4_294_967_295, documented_in: "d".to_string() };
    assert!(s.describe().starts_with("hardcoded for Protocol 4294967295 (d;"));
    let s = LimitSource::HardcodedProtocolVersion { protocol_version: 0, documented_in: String::new() };
    assert!(s.describe().starts_with("hardcoded for Protocol 0 ("));
}

#[test]
fn metric_limits() {
    let l = limits_from_fields(None, Some(1), Some(2), Some(3));
    assert_eq!(limit_for_metric("CPU Instructions", &l), 1);
    assert_eq!(limit_for_metric("Instructions", &l), 1);
    assert_eq!(limit_for_metric("Read Bytes", &l), 2);
    assert_eq!(limit_for_metric("Write Bytes", &l), 3);
    assert_eq!(limit_for_metric("Memory", &l), 1);
    assert_eq!(limit_for_metric("cpu", &l), 1);
}

#[test]
fn value_scales_and_suffixes() {
    assert_eq!(value_scale(999), Scale::Units);
    assert_eq!(value_scale(1_000), Scale::Thousands);
    assert_eq!(value_scale(901_816), Scale::Thousands);
    assert_eq!(value_scale(1_000_000), Scale::Millions);
    assert_eq!(value_scale(10_000_000_000), Scale::Billions);
    assert_eq!(Scale::Millions.divisor(), 1_000_000);
    assert_eq!(Scale::Thousands.suffix(true), "KB");
    assert_eq!(Scale::Billions.suffix(false), "B");
    assert!(metric_is_bytes("Read Bytes"));
    assert!(!metric_is_bytes("CPU Instructions"));
    assert_eq!(format_units(512, true), "512 B");
    assert_eq!(format_units(0, false), "0");
    assert_eq!(format_units(999, false), "999");
}

#[test]
fn simulated_functions_content() {
    let f = simulate_functions();
    assert_eq!(f.len(), 2);
    assert_eq!(f[0].package, "amm-pool");
    assert_eq!(f[0].function, "do_expensive_work");
    assert_eq!(f[0].metrics[0], ("CPU Instructions".to_string(), 901_816));
    assert_eq!(f[1].function, "simple_transfer");
    assert_eq!(f[1].metrics[2], ("Write Bytes".to_string(), 256));
}
