//! Matching a type's definition path against the Soroban SDK paths the lints
//! look for.

use vstd::prelude::*;
use vstd::string::*;
use crate::text::{ends_with, seq_ends_with, str_eq};

verus! {

/// The views of a list of path segments.
pub open spec fn seg_views(segs: Seq<&str>) -> Seq<Seq<char>> {
    segs.map_values(|s: &str| s@)
}

/// Items joined with the separator `sep`, as `["a", "b"]` joined with `, `
/// becomes `a, b`.
pub open spec fn join_with(items: Seq<Seq<char>>, sep: Seq<char>) -> Seq<char>
    decreases items.len(),
{
    if items.len() == 0 {
        Seq::empty()
    } else if items.len() == 1 {
        items[0]
    } else {
        join_with(items.drop_last(), sep) + sep + items.last()
    }
}

/// Segments joined with `::`, as `["a", "b"]` becomes `a::b`.
pub open spec fn join_path(segs: Seq<Seq<char>>) -> Seq<char> {
    join_with(segs, seq![':', ':'])
}

/// The definition path `full` ends with the segments `segs` joined by `::`.
/// The comparison is purely textual: any prefix may stand before the joined
/// segments, even one that ends inside a segment name.
pub open spec fn path_matches(full: Seq<char>, segs: Seq<Seq<char>>) -> bool {
    seq_ends_with(full, join_path(segs))
}

/// `full` matches at least one of the segment lists in `table`.
pub open spec fn matches_any(full: Seq<char>, table: Seq<Seq<Seq<char>>>) -> bool {
    exists|i: int| 0 <= i < table.len() && path_matches(full, #[trigger] table[i])
}

/// Joins `items` with the separator `sep`.
pub fn join_strs(items: &[&str], sep: &str) -> (r: String)
    ensures
        r@ == join_with(seg_views(items@), sep@),
{
    let mut out = String::new();
    let mut i: usize = 0;
    while i < items.len()
        invariant
            i <= items@.len(),
            out@ == join_with(seg_views(items@.take(i as int)), sep@),
        decreases items@.len() - i,
    {
        proof {
            let t = items@.take(i as int + 1);
            assert(seg_views(t).drop_last() =~= seg_views(items@.take(i as int)));
            assert(seg_views(t).len() == i + 1);
            assert(seg_views(t).last() == items@[i as int]@);
            if i == 0 {
                assert(seg_views(items@.take(0)) =~= Seq::<Seq<char>>::empty());
            }
        }
        if i > 0 {
            out.append(sep);
        }
        out.append(items[i]);
        i = i + 1;
    }
    assert(items@.take(i as int) =~= items@);
    out
}

/// Joins `segments` with `::`.
pub fn join_segments(segments: &[&str]) -> (r: String)
    ensures
        r@ == join_path(seg_views(segments@)),
{
    proof {
        reveal_strlit("::");
        assert("::"@ =~= seq![':', ':']);
    }
    join_strs(segments, "::")
}

/// Whether the definition path `full` ends with `segments` joined by `::`.
pub fn match_soroban_def_path(full: &str, segments: &[&str]) -> (r: bool)
    ensures
        r == path_matches(full@, seg_views(segments@)),
{
    let suffix = join_segments(segments);
    ends_with(full, suffix.as_str())
}

/// The view of a table of segment lists.
pub open spec fn table_view(paths: Seq<&[&str]>) -> Seq<Seq<Seq<char>>> {
    paths.map_values(|p: &[&str]| seg_views(p@))
}

/// Whether `full` matches any of the segment lists in `paths`.
pub fn matches_any_path(full: &str, paths: &[&[&str]]) -> (r: bool)
    ensures
        r == matches_any(full@, table_view(paths@)),
{
    let mut i: usize = 0;
    while i < paths.len()
        invariant
            i <= paths@.len(),
            forall|j: int| 0 <= j < i ==> !path_matches(full@, #[trigger] table_view(paths@)[j]),
        decreases paths@.len() - i,
    {
        if match_soroban_def_path(full, paths[i]) {
            assert(path_matches(full@, table_view(paths@)[i as int]));
            return true;
        }
        i = i + 1;
    }
    false
}

/// Whether `name` is one of the names in `list`.
pub fn name_in(name: &str, list: &[&str]) -> (r: bool)
    ensures
        r == seg_views(list@).contains(name@),
{
    let mut i: usize = 0;
    while i < list.len()
        invariant
            i <= list@.len(),
            forall|j: int| 0 <= j < i ==> #[trigger] seg_views(list@)[j] != name@,
        decreases list@.len() - i,
    {
        if str_eq(list[i], name) {
            assert(seg_views(list@)[i as int] == name@);
            return true;
        }
        i = i + 1;
    }
    false
}

/// Soroban storage accessor types: every method call on one of them reaches the
/// host's storage subsystem.
pub open spec fn storage_types() -> Seq<Seq<Seq<char>>> {
    seq![
        seq!["soroban_sdk"@, "storage"@, "Storage"@],
        seq!["soroban_sdk"@, "storage"@, "Instance"@],
        seq!["soroban_sdk"@, "storage"@, "Persistent"@],
        seq!["soroban_sdk"@, "storage"@, "Temporary"@],
    ]
}

/// Whether the definition path `full` matches one of [`storage_types`].
pub fn is_storage_type(full: &str) -> (r: bool)
    ensures
        r == matches_any(full@, storage_types()),
{
    let table: &[&[&str]] = &[
        &["soroban_sdk", "storage", "Storage"],
        &["soroban_sdk", "storage", "Instance"],
        &["soroban_sdk", "storage", "Persistent"],
        &["soroban_sdk", "storage", "Temporary"],
    ];
    assert(table_view(table@) =~~= storage_types());
    matches_any_path(full, table)
}

/// Soroban host accessor types reachable from `Env`: a method call on one of
/// them crosses the guest/host boundary and is metered. Storage accessors are
/// deliberately absent.
pub open spec fn host_types() -> Seq<Seq<Seq<char>>> {
    seq![
        seq!["soroban_sdk"@, "ledger"@, "Ledger"@],
        seq!["soroban_sdk"@, "crypto"@, "Crypto"@],
        seq!["soroban_sdk"@, "crypto"@, "CryptoHazmat"@],
        seq!["soroban_sdk"@, "crypto"@, "bls12_381"@, "Bls12_381"@],
        seq!["soroban_sdk"@, "crypto"@, "bn254"@, "Bn254"@],
        seq!["soroban_sdk"@, "prng"@, "Prng"@],
        seq!["soroban_sdk"@, "events"@, "Events"@],
        seq!["soroban_sdk"@, "deploy"@, "Deployer"@],
        seq!["soroban_sdk"@, "deploy"@, "DeployerWithAddress"@],
        seq!["soroban_sdk"@, "deploy"@, "DeployerWithAsset"@],
    ]
}

/// Whether the definition path `full` matches one of [`host_types`].
pub fn is_host_type(full: &str) -> (r: bool)
    ensures
        r == matches_any(full@, host_types()),
{
    let table: &[&[&str]] = &[
        &["soroban_sdk", "ledger", "Ledger"],
        &["soroban_sdk", "crypto", "Crypto"],
        &["soroban_sdk", "crypto", "CryptoHazmat"],
        &["soroban_sdk", "crypto", "bls12_381", "Bls12_381"],
        &["soroban_sdk", "crypto", "bn254", "Bn254"],
        &["soroban_sdk", "prng", "Prng"],
        &["soroban_sdk", "events", "Events"],
        &["soroban_sdk", "deploy", "Deployer"],
        &["soroban_sdk", "deploy", "DeployerWithAddress"],
        &["soroban_sdk", "deploy", "DeployerWithAsset"],
    ];
    assert(table_view(table@) =~~= host_types());
    matches_any_path(full, table)
}

/// Soroban collection types that support linear-time scanning operations.
pub open spec fn collection_types() -> Seq<Seq<Seq<char>>> {
    seq![
        seq!["soroban_sdk"@, "vec"@, "Vec"@],
        seq!["soroban_sdk"@, "map"@, "Map"@],
    ]
}

/// Whether the definition path `full` matches one of [`collection_types`].
pub fn is_collection_type(full: &str) -> (r: bool)
    ensures
        r == matches_any(full@, collection_types()),
{
    let table: &[&[&str]] = &[
        &["soroban_sdk", "vec", "Vec"],
        &["soroban_sdk", "map", "Map"],
    ];
    assert(table_view(table@) =~~= collection_types());
    matches_any_path(full, table)
}

/// Soroban container types whose growth methods reallocate host-side state.
pub open spec fn container_types() -> Seq<Seq<Seq<char>>> {
    seq![
        seq!["soroban_sdk"@, "Bytes"@],
        seq!["soroban_sdk"@, "Vec"@],
        seq!["soroban_sdk"@, "Map"@],
    ]
}

/// Whether the definition path `full` matches one of [`container_types`].
pub fn is_container_type(full: &str) -> (r: bool)
    ensures
        r == matches_any(full@, container_types()),
{
    let table: &[&[&str]] = &[
        &["soroban_sdk", "Bytes"],
        &["soroban_sdk", "Vec"],
        &["soroban_sdk", "Map"],
    ];
    assert(table_view(table@) =~~= container_types());
    matches_any_path(full, table)
}

/// The definition path `soroban_sdk::Env` as segments.
pub open spec fn env_path() -> Seq<Seq<char>> {
    seq!["soroban_sdk"@, "Env"@]
}

/// Whether the definition path `full` ends with `soroban_sdk::Env`.
pub fn is_env_path(full: &str) -> (r: bool)
    ensures
        r == path_matches(full@, env_path()),
{
    let segs: &[&str] = &["soroban_sdk", "Env"];
    assert(seg_views(segs@) =~= env_path());
    match_soroban_def_path(full, segs)
}

/// The definition path `soroban_sdk::Bytes` as segments.
pub open spec fn bytes_path() -> Seq<Seq<char>> {
    seq!["soroban_sdk"@, "Bytes"@]
}

/// Whether the definition path `full` ends with `soroban_sdk::Bytes`.
pub fn is_bytes_path(full: &str) -> (r: bool)
    ensures
        r == path_matches(full@, bytes_path()),
{
    let segs: &[&str] = &["soroban_sdk", "Bytes"];
    assert(seg_views(segs@) =~= bytes_path());
    match_soroban_def_path(full, segs)
}

/// The definition path `soroban_sdk::bytes::Bytes` as segments.
pub open spec fn bytes_module_bytes_path() -> Seq<Seq<char>> {
    seq!["soroban_sdk"@, "bytes"@, "Bytes"@]
}

/// Whether the definition path `full` ends with `soroban_sdk::bytes::Bytes`.
pub fn is_bytes_module_bytes_path(full: &str) -> (r: bool)
    ensures
        r == path_matches(full@, bytes_module_bytes_path()),
{
    let segs: &[&str] = &["soroban_sdk", "bytes", "Bytes"];
    assert(seg_views(segs@) =~= bytes_module_bytes_path());
    match_soroban_def_path(full, segs)
}

/// The definition path `soroban_sdk::storage::Instance` as segments.
pub open spec fn instance_path() -> Seq<Seq<char>> {
    seq!["soroban_sdk"@, "storage"@, "Instance"@]
}

/// Whether the definition path `full` ends with `soroban_sdk::storage::Instance`.
pub fn is_instance_path(full: &str) -> (r: bool)
    ensures
        r == path_matches(full@, instance_path()),
{
    let segs: &[&str] = &["soroban_sdk", "storage", "Instance"];
    assert(seg_views(segs@) =~= instance_path());
    match_soroban_def_path(full, segs)
}

/// The definition path `soroban_sdk::storage::Persistent` as segments.
pub open spec fn persistent_path() -> Seq<Seq<char>> {
    seq!["soroban_sdk"@, "storage"@, "Persistent"@]
}

/// Whether the definition path `full` ends with `soroban_sdk::storage::Persistent`.
pub fn is_persistent_path(full: &str) -> (r: bool)
    ensures
        r == path_matches(full@, persistent_path()),
{
    let segs: &[&str] = &["soroban_sdk", "storage", "Persistent"];
    assert(seg_views(segs@) =~= persistent_path());
    match_soroban_def_path(full, segs)
}

/// The definition path `soroban_sdk::storage::Temporary` as segments.
pub open spec fn temporary_path() -> Seq<Seq<char>> {
    seq!["soroban_sdk"@, "storage"@, "Temporary"@]
}

/// Whether the definition path `full` ends with `soroban_sdk::storage::Temporary`.
pub fn is_temporary_path(full: &str) -> (r: bool)
    ensures
        r == path_matches(full@, temporary_path()),
{
    let segs: &[&str] = &["soroban_sdk", "storage", "Temporary"];
    assert(seg_views(segs@) =~= temporary_path());
    match_soroban_def_path(full, segs)
}

/// The definition path `host::Host` as segments.
pub open spec fn host_object_path() -> Seq<Seq<char>> {
    seq!["host"@, "Host"@]
}

/// Whether the definition path `full` ends with `host::Host`.
pub fn is_host_object_path(full: &str) -> (r: bool)
    ensures
        r == path_matches(full@, host_object_path()),
{
    let segs: &[&str] = &["host", "Host"];
    assert(seg_views(segs@) =~= host_object_path());
    match_soroban_def_path(full, segs)
}

/// The definition path `soroban_sdk::String` as segments.
pub open spec fn sdk_string_path() -> Seq<Seq<char>> {
    seq!["soroban_sdk"@, "String"@]
}

/// Whether the definition path `full` ends with `soroban_sdk::String`.
pub fn is_sdk_string_path(full: &str) -> (r: bool)
    ensures
        r == path_matches(full@, sdk_string_path()),
{
    let segs: &[&str] = &["soroban_sdk", "String"];
    assert(seg_views(segs@) =~= sdk_string_path());
    match_soroban_def_path(full, segs)
}

/// The definition path `soroban_sdk::Symbol::new` as segments.
pub open spec fn symbol_new_path() -> Seq<Seq<char>> {
    seq!["soroban_sdk"@, "Symbol"@, "new"@]
}

/// Whether the definition path `full` ends with `soroban_sdk::Symbol::new`.
pub fn is_symbol_new_path(full: &str) -> (r: bool)
    ensures
        r == path_matches(full@, symbol_new_path()),
{
    let segs: &[&str] = &["soroban_sdk", "Symbol", "new"];
    assert(seg_views(segs@) =~= symbol_new_path());
    match_soroban_def_path(full, segs)
}

/// The definition path `soroban_sdk::Map` as segments.
pub open spec fn sdk_map_path() -> Seq<Seq<char>> {
    seq!["soroban_sdk"@, "Map"@]
}

/// Whether the definition path `full` ends with `soroban_sdk::Map`.
pub fn is_sdk_map_path(full: &str) -> (r: bool)
    ensures
        r == path_matches(full@, sdk_map_path()),
{
    let segs: &[&str] = &["soroban_sdk", "Map"];
    assert(seg_views(segs@) =~= sdk_map_path());
    match_soroban_def_path(full, segs)
}

/// The definition path `soroban_sdk::crypto::Crypto` as segments.
pub open spec fn crypto_path() -> Seq<Seq<char>> {
    seq!["soroban_sdk"@, "crypto"@, "Crypto"@]
}

/// Whether the definition path `full` ends with `soroban_sdk::crypto::Crypto`.
pub fn is_crypto_path(full: &str) -> (r: bool)
    ensures
        r == path_matches(full@, crypto_path()),
{
    let segs: &[&str] = &["soroban_sdk", "crypto", "Crypto"];
    assert(seg_views(segs@) =~= crypto_path());
    match_soroban_def_path(full, segs)
}

/// The definition path `soroban_sdk::crypto::CryptoHazmat` as segments.
pub open spec fn crypto_hazmat_path() -> Seq<Seq<char>> {
    seq!["soroban_sdk"@, "crypto"@, "CryptoHazmat"@]
}

/// Whether the definition path `full` ends with `soroban_sdk::crypto::CryptoHazmat`.
pub fn is_crypto_hazmat_path(full: &str) -> (r: bool)
    ensures
        r == path_matches(full@, crypto_hazmat_path()),
{
    let segs: &[&str] = &["soroban_sdk", "crypto", "CryptoHazmat"];
    assert(seg_views(segs@) =~= crypto_hazmat_path());
    match_soroban_def_path(full, segs)
}

/// The definition path `soroban_sdk::Vec` as segments.
pub open spec fn sdk_vec_path() -> Seq<Seq<char>> {
    seq!["soroban_sdk"@, "Vec"@]
}

/// Whether the definition path `full` ends with `soroban_sdk::Vec`.
pub fn is_sdk_vec_path(full: &str) -> (r: bool)
    ensures
        r == path_matches(full@, sdk_vec_path()),
{
    let segs: &[&str] = &["soroban_sdk", "Vec"];
    assert(seg_views(segs@) =~= sdk_vec_path());
    match_soroban_def_path(full, segs)
}

/// The definition path `soroban_sdk::Address` as segments.
pub open spec fn address_path() -> Seq<Seq<char>> {
    seq!["soroban_sdk"@, "Address"@]
}

/// Whether the definition path `full` ends with `soroban_sdk::Address`.
pub fn is_address_path(full: &str) -> (r: bool)
    ensures
        r == path_matches(full@, address_path()),
{
    let segs: &[&str] = &["soroban_sdk", "Address"];
    assert(seg_views(segs@) =~= address_path());
    match_soroban_def_path(full, segs)
}

/// Methods of the Soroban collections that scan them linearly.
pub open spec fn linear_scan_methods() -> Seq<Seq<char>> {
    seq!["contains"@, "position"@, "find"@]
}

/// Whether `name` is one of [`linear_scan_methods`].
pub fn is_linear_scan_method(name: &str) -> (r: bool)
    ensures
        r == linear_scan_methods().contains(name@),
{
    let list: &[&str] = &["contains", "position", "find"];
    assert(seg_views(list@) =~= linear_scan_methods());
    name_in(name, list)
}

/// Host calls that live directly on `Env` and whose result is constant for the
/// whole invocation.
pub open spec fn env_host_methods() -> Seq<Seq<char>> {
    seq!["current_contract_address"@]
}

/// Whether `name` is one of [`env_host_methods`].
pub fn is_env_host_method(name: &str) -> (r: bool)
    ensures
        r == env_host_methods().contains(name@),
{
    let list: &[&str] = &["current_contract_address"];
    assert(seg_views(list@) =~= env_host_methods());
    name_in(name, list)
}

/// Methods of the Soroban containers that grow their backing buffer.
pub open spec fn bytes_append_methods() -> Seq<Seq<char>> {
    seq!["append"@, "push_back"@, "insert"@, "extend_from_array"@]
}

/// Whether `name` is one of [`bytes_append_methods`].
pub fn is_bytes_append_method(name: &str) -> (r: bool)
    ensures
        r == bytes_append_methods().contains(name@),
{
    let list: &[&str] = &["append", "push_back", "insert", "extend_from_array"];
    assert(seg_views(list@) =~= bytes_append_methods());
    name_in(name, list)
}

/// Signature-verification and public-key-recovery methods of the `Crypto`
/// accessor.
pub open spec fn signature_verification_methods() -> Seq<Seq<char>> {
    seq!["ed25519_verify"@, "secp256k1_recover"@, "secp256r1_verify"@]
}

/// Whether `name` is one of [`signature_verification_methods`].
pub fn is_signature_verification_method(name: &str) -> (r: bool)
    ensures
        r == signature_verification_methods().contains(name@),
{
    let list: &[&str] = &["ed25519_verify", "secp256k1_recover", "secp256r1_verify"];
    assert(seg_views(list@) =~= signature_verification_methods());
    name_in(name, list)
}

/// Authorization methods of `Address`.
pub open spec fn require_auth_methods() -> Seq<Seq<char>> {
    seq!["require_auth"@, "require_auth_for_args"@]
}

/// Whether `name` is one of [`require_auth_methods`].
pub fn is_require_auth_method(name: &str) -> (r: bool)
    ensures
        r == require_auth_methods().contains(name@),
{
    let list: &[&str] = &["require_auth", "require_auth_for_args"];
    assert(seg_views(list@) =~= require_auth_methods());
    name_in(name, list)
}

} // verus!
