//! The budget report: network resource limits, where they come from, which
//! limit a metric is measured against, and how values are scaled for display.

use vstd::prelude::*;
use vstd::string::*;
use crate::text::{contains, decimal, push_decimal, seq_contains, seq_ends_with};

verus! {

/// The resource limits of a Soroban network.
#[derive(Clone, Copy, Debug)]
pub struct NetworkLimits {
    pub max_instructions: u64,
    pub max_read_bytes: u64,
    pub max_write_bytes: u64,
    pub protocol_version: u32,
}

/// Where the limits of a report come from.
#[derive(Clone, Debug)]
pub enum LimitSource {
    /// Fetched from the network at `network_url`.
    FetchedFromNetwork { network_url: String },
    /// The limits of a protocol version, written into this tool.
    HardcodedProtocolVersion { protocol_version: u32, documented_in: String },
}

/// The limits of Protocol 22: 10B instructions, 100MB read and write.
pub open spec fn spec_default_limits() -> NetworkLimits {
    NetworkLimits {
        max_instructions: 10_000_000_000,
        max_read_bytes: 100_000_000,
        max_write_bytes: 100_000_000,
        protocol_version: 22,
    }
}

/// The limits used when none could be fetched: those of Protocol 22.
pub fn default_limits() -> (r: NetworkLimits)
    ensures
        r == spec_default_limits(),
{
    NetworkLimits {
        max_instructions: 10_000_000_000,
        max_read_bytes: 100_000_000,
        max_write_bytes: 100_000_000,
        protocol_version: 22,
    }
}

/// The value of an optional field, or `default` when it is absent.
pub open spec fn or_default(v: Option<u64>, default: u64) -> u64 {
    match v {
        Some(x) => x,
        None => default,
    }
}

/// Limits built from the fields a network reported, each absent field
/// replaced by its default; the protocol version keeps the low 32 bits of
/// the reported number.
pub open spec fn spec_limits_from_fields(
    protocol_version: Option<u64>,
    max_instructions: Option<u64>,
    max_read_bytes: Option<u64>,
    max_write_bytes: Option<u64>,
) -> NetworkLimits {
    NetworkLimits {
        max_instructions: or_default(max_instructions, spec_default_limits().max_instructions),
        max_read_bytes: or_default(max_read_bytes, spec_default_limits().max_read_bytes),
        max_write_bytes: or_default(max_write_bytes, spec_default_limits().max_write_bytes),
        protocol_version: or_default(protocol_version, 22) as u32,
    }
}

/// Builds limits from the fields a network reported.
pub fn limits_from_fields(
    protocol_version: Option<u64>,
    max_instructions: Option<u64>,
    max_read_bytes: Option<u64>,
    max_write_bytes: Option<u64>,
) -> (r: NetworkLimits)
    ensures
        r == spec_limits_from_fields(
            protocol_version,
            max_instructions,
            max_read_bytes,
            max_write_bytes,
        ),
{
    let defaults = default_limits();
    let proto = match protocol_version {
        Some(v) => v,
        None => 22,
    };
    NetworkLimits {
        max_instructions: match max_instructions {
            Some(v) => v,
            None => defaults.max_instructions,
        },
        max_read_bytes: match max_read_bytes {
            Some(v) => v,
            None => defaults.max_read_bytes,
        },
        max_write_bytes: match max_write_bytes {
            Some(v) => v,
            None => defaults.max_write_bytes,
        },
        protocol_version: proto as u32,
    }
}

/// The address of the ledger-configuration endpoint below `network_url`.
pub open spec fn spec_rpc_url(network_url: Seq<char>) -> Seq<char> {
    if seq_ends_with(network_url, seq!['/']) {
        network_url + "soroban/v1/ledger/core"@
    } else {
        network_url + "/soroban/v1/ledger/core"@
    }
}

/// The address of the ledger-configuration endpoint of the network at
/// `network_url`, with or without a trailing `/`.
pub fn rpc_url_for(network_url: &str) -> (r: String)
    ensures
        r@ == spec_rpc_url(network_url@),
{
    proof {
        reveal_strlit("/");
        assert("/"@ =~= seq!['/']);
    }
    let mut url = String::from_str(network_url);
    if crate::text::ends_with(network_url, "/") {
        url.append("soroban/v1/ledger/core");
    } else {
        url.append("/soroban/v1/ledger/core");
    }
    url
}

/// The network queried when none is given: the Soroban testnet.
pub fn limits_url(network: Option<&str>) -> (r: &str)
    ensures
        match network {
            Some(url) => r@ == url@,
            None => r@ == "https://soroban-testnet.stellar.org"@,
        },
{
    match network {
        Some(url) => url,
        None => "https://soroban-testnet.stellar.org",
    }
}

/// The reason given for the limits written into this tool.
pub open spec fn fallback_documentation() -> Seq<char> {
    "soroban-budget-assert Soroban protocol config; Protocol 22 limits are 10B instructions, 100MB read/write."@
}

/// `r` holds the Protocol 22 limits, documented as written into this tool.
pub open spec fn is_fallback<E>(r: Result<(NetworkLimits, LimitSource), E>) -> bool {
    match r {
        Ok((limits, LimitSource::HardcodedProtocolVersion { protocol_version, documented_in })) => {
            &&& limits == spec_default_limits()
            &&& protocol_version == 22
            &&& documented_in@ == fallback_documentation()
        },
        _ => false,
    }
}

/// The limits of a report given the network asked for and the outcome of
/// fetching the limits of `limits_url(network)`: for an explicit network,
/// that outcome; otherwise the fetched limits, or the Protocol 22 limits
/// when fetching failed.
pub fn get_limits<E>(network: Option<&str>, fetched: Result<(NetworkLimits, LimitSource), E>) -> (r: Result<(NetworkLimits, LimitSource), E>)
    ensures
        network is Some ==> r == fetched,
        network is None && fetched is Ok ==> r == fetched,
        network is None && fetched is Err ==> is_fallback(r),
{
    match network {
        Some(_) => fetched,
        None => match fetched {
            Ok(result) => Ok(result),
            Err(_) => {
                let limits = default_limits();
                Ok(
                    (
                        limits,
                        LimitSource::HardcodedProtocolVersion {
                            protocol_version: limits.protocol_version,
                            documented_in: String::from_str(
                                "soroban-budget-assert Soroban protocol config; Protocol 22 limits are 10B instructions, 100MB read/write.",
                            ),
                        },
                    ),
                )
            },
        },
    }
}

/// The text that describes a limit source.
pub open spec fn spec_describe(s: LimitSource) -> Seq<char> {
    match s {
        LimitSource::FetchedFromNetwork { network_url } => "fetched from network ("@ + network_url@
            + ")"@,
        LimitSource::HardcodedProtocolVersion { protocol_version, documented_in } =>
            "hardcoded for Protocol "@ + decimal(protocol_version as nat) + " ("@ + documented_in@
            + "; these limits change with protocol upgrades, review when upgrading)"@,
    }
}

impl LimitSource {
    /// Describes where the limits come from, as the report prints it.
    pub fn describe(&self) -> (r: String)
        ensures
            r@ == spec_describe(*self),
    {
        match self {
            LimitSource::FetchedFromNetwork { network_url } => {
                let mut out = String::from_str("fetched from network (");
                out.append(network_url.as_str());
                out.append(")");
                out
            },
            LimitSource::HardcodedProtocolVersion { protocol_version, documented_in } => {
                let mut out = String::from_str("hardcoded for Protocol ");
                push_decimal(&mut out, *protocol_version as u64);
                out.append(" (");
                out.append(documented_in.as_str());
                out.append("; these limits change with protocol upgrades, review when upgrading)");
                out
            },
        }
    }
}

/// The limit a metric is measured against: instructions for CPU or
/// instruction metrics, read bytes for read metrics, write bytes for write
/// metrics, instructions otherwise.
pub open spec fn spec_limit_for_metric(metric: Seq<char>, limits: NetworkLimits) -> u64 {
    if seq_contains(metric, "CPU"@) || seq_contains(metric, "Instruction"@) {
        limits.max_instructions
    } else if seq_contains(metric, "Read"@) {
        limits.max_read_bytes
    } else if seq_contains(metric, "Write"@) {
        limits.max_write_bytes
    } else {
        limits.max_instructions
    }
}

/// The limit the metric named `metric` is measured against.
pub fn limit_for_metric(metric: &str, limits: &NetworkLimits) -> (r: u64)
    ensures
        r == spec_limit_for_metric(metric@, *limits),
{
    if contains(metric, "CPU") || contains(metric, "Instruction") {
        limits.max_instructions
    } else if contains(metric, "Read") {
        limits.max_read_bytes
    } else if contains(metric, "Write") {
        limits.max_write_bytes
    } else {
        limits.max_instructions
    }
}

/// The scale a value is displayed at.
#[derive(PartialEq, Eq, Structural, Clone, Copy, Debug)]
pub enum Scale {
    Billions,
    Millions,
    Thousands,
    Units,
}

/// The largest scale whose unit does not exceed `value`.
pub open spec fn spec_value_scale(value: u64) -> Scale {
    if value >= 1_000_000_000 {
        Scale::Billions
    } else if value >= 1_000_000 {
        Scale::Millions
    } else if value >= 1_000 {
        Scale::Thousands
    } else {
        Scale::Units
    }
}

/// The scale `value` is displayed at.
pub fn value_scale(value: u64) -> (r: Scale)
    ensures
        r == spec_value_scale(value),
{
    if value >= 1_000_000_000 {
        Scale::Billions
    } else if value >= 1_000_000 {
        Scale::Millions
    } else if value >= 1_000 {
        Scale::Thousands
    } else {
        Scale::Units
    }
}

impl Scale {
    /// The number a value is divided by at this scale.
    pub open spec fn spec_divisor(self) -> u64 {
        match self {
            Scale::Billions => 1_000_000_000,
            Scale::Millions => 1_000_000,
            Scale::Thousands => 1_000,
            Scale::Units => 1,
        }
    }

    /// The number a value is divided by at this scale.
    pub fn divisor(&self) -> (r: u64)
        ensures
            r == self.spec_divisor(),
    {
        match self {
            Scale::Billions => 1_000_000_000,
            Scale::Millions => 1_000_000,
            Scale::Thousands => 1_000,
            Scale::Units => 1,
        }
    }

    /// The suffix written after a scaled value: `B`, `M`, `K` for counts,
    /// `GB`, `MB`, `KB` for byte amounts, ` B` after an unscaled byte
    /// amount and nothing after an unscaled count.
    pub open spec fn spec_suffix(self, bytes: bool) -> Seq<char> {
        match self {
            Scale::Billions => if bytes { "GB"@ } else { "B"@ },
            Scale::Millions => if bytes { "MB"@ } else { "M"@ },
            Scale::Thousands => if bytes { "KB"@ } else { "K"@ },
            Scale::Units => if bytes { " B"@ } else { ""@ },
        }
    }

    /// The suffix written after a value at this scale.
    pub fn suffix(&self, bytes: bool) -> (r: &'static str)
        ensures
            r@ == self.spec_suffix(bytes),
    {
        match self {
            Scale::Billions => if bytes { "GB" } else { "B" },
            Scale::Millions => if bytes { "MB" } else { "M" },
            Scale::Thousands => if bytes { "KB" } else { "K" },
            Scale::Units => if bytes { " B" } else { "" },
        }
    }
}

/// Whether the metric named `metric` counts bytes (its name holds `Byte`).
pub fn metric_is_bytes(metric: &str) -> (r: bool)
    ensures
        r == seq_contains(metric@, "Byte"@),
{
    contains(metric, "Byte")
}

/// A value below a thousand as displayed: its decimal digits, followed by
/// ` B` for a byte amount.
pub fn format_units(value: u64, bytes: bool) -> (r: String)
    requires
        value < 1_000,
    ensures
        r@ == decimal(value as nat) + Scale::Units.spec_suffix(bytes),
{
    let mut out = String::new();
    push_decimal(&mut out, value);
    out.append(Scale::Units.suffix(bytes));
    out
}

/// The error `serde_json` reports for a document it cannot parse.
#[verifier::external_type_specification]
#[verifier::external_body]
pub struct ExJsonError(serde_json::Error);

/// Whether `serde_json` parses the text `body` as a JSON document.
pub uninterp spec fn json_valid(body: Seq<char>) -> bool;

/// The field `key` of the JSON document `body` as `serde_json` reads it: the
/// document parsed, its member `key` looked up, and that member taken as an
/// unsigned 64-bit integer; `None` when any of these steps fails.
pub uninterp spec fn json_u64_field(body: Seq<char>, key: Seq<char>) -> Option<u64>;

/// Calls `serde_json::from_str::<serde_json::Value>` on `body` and keeps only
/// whether it succeeded, with the error when it did not. Claimed: success is
/// exactly [`json_valid`] of the text; nothing is claimed of the error.
#[verifier::external_body]
fn parse_json_document(body: &str) -> (r: Result<(), serde_json::Error>)
    ensures
        r is Ok == json_valid(body@),
{
    match serde_json::from_str::<serde_json::Value>(body) {
        Ok(_) => Ok(()),
        Err(e) => Err(e),
    }
}

/// Calls `serde_json::from_str::<serde_json::Value>` on `body`, then
/// `Value::get(key)` and `Value::as_u64` on the member found. Claimed: the
/// result is [`json_u64_field`] of the text and the key, and a present field
/// implies a parsable document (a failed parse gives `None`).
#[verifier::external_body]
fn json_field_u64(body: &str, key: &str) -> (r: Option<u64>)
    ensures
        r == json_u64_field(body@, key@),
        r is Some ==> json_valid(body@),
{
    match serde_json::from_str::<serde_json::Value>(body) {
        Ok(v) => match v.get(key) {
            Some(field) => field.as_u64(),
            None => None,
        },
        Err(_) => None,
    }
}

/// Why the limits a network reported could not be read.
pub enum LimitsError {
    /// The response is not a JSON document; the parser's error.
    InvalidResponse(serde_json::Error),
}

/// The limits a network reported in the JSON document `body`, fetched from
/// `rpc_url`: each of `protocol_version`, `max_instructions`,
/// `max_read_bytes` and `max_write_bytes` taken from the document when it is
/// an unsigned integer there and defaulted otherwise; the error of the JSON
/// parser when `body` is not a JSON document.
pub fn limits_from_response(rpc_url: String, body: &str) -> (r: Result<
    (NetworkLimits, LimitSource),
    LimitsError,
>)
    ensures
        r is Ok == json_valid(body@),
        r matches Ok((limits, source)) ==> limits == spec_limits_from_fields(
            json_u64_field(body@, "protocol_version"@),
            json_u64_field(body@, "max_instructions"@),
            json_u64_field(body@, "max_read_bytes"@),
            json_u64_field(body@, "max_write_bytes"@),
        ) && source == (LimitSource::FetchedFromNetwork { network_url: rpc_url }),
{
    match parse_json_document(body) {
        Err(e) => Err(LimitsError::InvalidResponse(e)),
        Ok(()) => {
            let limits = limits_from_fields(
                json_field_u64(body, "protocol_version"),
                json_field_u64(body, "max_instructions"),
                json_field_u64(body, "max_read_bytes"),
                json_field_u64(body, "max_write_bytes"),
            );
            Ok((limits, LimitSource::FetchedFromNetwork { network_url: rpc_url }))
        },
    }
}

/// A contract function with the resource use measured for it.
pub struct SimulatedFunction {
    pub package: String,
    pub function: String,
    pub metrics: Vec<(String, u64)>,
}

/// The view of a measured function: package, function, (metric, value) pairs.
pub open spec fn simulated_view(f: SimulatedFunction) -> (Seq<char>, Seq<char>, Seq<(Seq<char>, u64)>) {
    (f.package@, f.function@, f.metrics@.map_values(|m: (String, u64)| (m.0@, m.1)))
}

/// The measurements the report is built from.
pub open spec fn spec_simulated_functions() -> Seq<(Seq<char>, Seq<char>, Seq<(Seq<char>, u64)>)> {
    seq![
        ("amm-pool"@, "do_expensive_work"@, seq![
            ("CPU Instructions"@, 901_816u64),
            ("Read Bytes"@, 4_096u64),
            ("Write Bytes"@, 1_024u64),
        ]),
        ("amm-pool"@, "simple_transfer"@, seq![
            ("CPU Instructions"@, 50_000u64),
            ("Read Bytes"@, 512u64),
            ("Write Bytes"@, 256u64),
        ]),
    ]
}

fn metric(name: &str, value: u64) -> (r: (String, u64))
    ensures
        r.0@ == name@,
        r.1 == value,
{
    (String::from_str(name), value)
}

/// The measured functions of the report.
pub fn simulate_functions() -> (r: Vec<SimulatedFunction>)
    ensures
        r@.map_values(|f: SimulatedFunction| simulated_view(f)) == spec_simulated_functions(),
{
    let first = SimulatedFunction {
        package: String::from_str("amm-pool"),
        function: String::from_str("do_expensive_work"),
        metrics: vec![
            metric("CPU Instructions", 901_816),
            metric("Read Bytes", 4_096),
            metric("Write Bytes", 1_024),
        ],
    };
    let second = SimulatedFunction {
        package: String::from_str("amm-pool"),
        function: String::from_str("simple_transfer"),
        metrics: vec![
            metric("CPU Instructions", 50_000),
            metric("Read Bytes", 512),
            metric("Write Bytes", 256),
        ],
    };
    assert(simulated_view(first) =~~= spec_simulated_functions()[0]);
    assert(simulated_view(second) =~~= spec_simulated_functions()[1]);
    let r = vec![first, second];
    assert(r@.map_values(|f: SimulatedFunction| simulated_view(f)) =~~= spec_simulated_functions());
    r
}

} // verus!
