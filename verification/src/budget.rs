//! The `[budget]` table of a configuration file, read leniently: anything
//! missing or malformed falls back to the defaults.

use vstd::prelude::*;
use crate::text::{trim, trimmed};

verus! {

/// The lint levels of the `[budget]` table: (lint name, level) entries in the
/// order they were read.
#[derive(Debug, Clone)]
pub struct BudgetConfig {
    pub lints: Vec<(String, String)>,
}

impl Default for BudgetConfig {
    /// A configuration without lint levels.
    fn default() -> (r: Self)
        ensures
            r.lints@.len() == 0,
    {
        BudgetConfig { lints: Vec::new() }
    }
}

/// The text of a configuration file that is worth parsing: `raw` without
/// leading and trailing whitespace, or `None` when nothing else is left, in
/// which case the defaults apply.
pub fn config_text(raw: &str) -> (r: Option<&str>)
    ensures
        match r {
            Some(t) => trimmed(raw@, t@) && t@.len() > 0,
            None => forall|j: int| 0 <= j < raw@.len() ==> crate::text::is_ws(#[trigger] raw@[j]),
        },
{
    let t = trim(raw);
    if t.unicode_len() == 0 {
        proof {
            let (a, b) = choose|a: int, b: int|
                0 <= a <= b <= raw@.len() && t@ == raw@.subrange(a, b) && (forall|j: int|
                    0 <= j < a ==> crate::text::is_ws(#[trigger] raw@[j])) && (forall|j: int|
                    b <= j < raw@.len() ==> crate::text::is_ws(#[trigger] raw@[j])) && (a < b
                    ==> !crate::text::is_ws(raw@[a]) && !crate::text::is_ws(raw@[b - 1]));
            assert(a == b);
        }
        None
    } else {
        Some(t)
    }
}

} // verus!
