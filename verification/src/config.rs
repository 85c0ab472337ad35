//! Validation of a `budget.toml` lint configuration.

use vstd::prelude::*;
use vstd::string::*;
use crate::paths::{join_strs, join_with, seg_views};
use crate::text::str_eq;

verus! {

/// The lint configuration of `budget.toml`: the `[lints]` table, when
/// present, as (lint name, level) entries in the order they were read.
#[derive(Debug, Clone)]
pub struct BudgetConfig {
    pub lints: Option<Vec<(String, String)>>,
}

impl Default for BudgetConfig {
    /// A configuration without a `[lints]` table.
    fn default() -> (r: Self)
        ensures
            r.lints is None,
    {
        BudgetConfig { lints: None }
    }
}

/// The levels a lint may be configured at.
pub open spec fn known_level(level: Seq<char>) -> bool {
    level == "allow"@ || level == "warn"@ || level == "deny"@
}

/// The message for a lint name that is not one of `known`.
pub open spec fn unknown_name_message(lint: Seq<char>, path: Seq<char>, known: Seq<Seq<char>>) -> Seq<char> {
    "Error: Unknown lint name '"@ + lint + "' in "@ + path + ". Valid lints: "@ + join_with(
        known,
        ", "@,
    )
}

/// The message for a level other than `allow`, `warn` and `deny`.
pub open spec fn unknown_level_message(level: Seq<char>, lint: Seq<char>, path: Seq<char>) -> Seq<char> {
    "Error: Unknown lint level '"@ + level + "' for '"@ + lint + "' in "@ + path
        + ". Valid levels are allow, warn, and deny."@
}

/// What is wrong with one entry, if anything: an unknown name first, then an
/// unknown level.
pub open spec fn entry_error(e: (String, String), path: Seq<char>, known: Seq<Seq<char>>) -> Option<Seq<char>> {
    if !known.contains(e.0@) {
        Some(unknown_name_message(e.0@, path, known))
    } else if !known_level(e.1@) {
        Some(unknown_level_message(e.1@, e.0@, path))
    } else {
        None
    }
}

/// The error of the first faulty entry among the first `n` of `entries`.
pub open spec fn first_error(entries: Seq<(String, String)>, n: int, path: Seq<char>, known: Seq<Seq<char>>) -> Option<Seq<char>>
    decreases n,
{
    if n <= 0 {
        None
    } else {
        match first_error(entries, n - 1, path, known) {
            Some(m) => Some(m),
            None => entry_error(entries[n - 1], path, known),
        }
    }
}

/// The error of a configuration: that of its first faulty `[lints]` entry.
pub open spec fn config_error(c: BudgetConfig, path: Seq<char>, known: Seq<Seq<char>>) -> Option<Seq<char>> {
    match c.lints {
        Some(entries) => first_error(entries@, entries@.len() as int, path, known),
        None => None,
    }
}

fn message_for(e: &(String, String), path_display: &str, known_lints: &[&str]) -> (r: Option<String>)
    ensures
        match r {
            Some(m) => entry_error(*e, path_display@, seg_views(known_lints@)) == Some(m@),
            None => entry_error(*e, path_display@, seg_views(known_lints@)) is None,
        },
{
    let mut known = false;
    let mut i: usize = 0;
    while i < known_lints.len()
        invariant
            i <= known_lints@.len(),
            known == (exists|j: int| 0 <= j < i && #[trigger] seg_views(known_lints@)[j] == e.0@),
        decreases known_lints@.len() - i,
    {
        if str_eq(known_lints[i], e.0.as_str()) {
            assert(seg_views(known_lints@)[i as int] == e.0@);
            known = true;
        }
        i = i + 1;
    }
    if !known {
        let mut m = String::from_str("Error: Unknown lint name '");
        m.append(e.0.as_str());
        m.append("' in ");
        m.append(path_display);
        m.append(". Valid lints: ");
        let joined = join_strs(known_lints, ", ");
        m.append(joined.as_str());
        return Some(m);
    }
    let level = e.1.as_str();
    if str_eq(level, "allow") || str_eq(level, "warn") || str_eq(level, "deny") {
        return None;
    }
    let mut m = String::from_str("Error: Unknown lint level '");
    m.append(level);
    m.append("' for '");
    m.append(e.0.as_str());
    m.append("' in ");
    m.append(path_display);
    m.append(". Valid levels are allow, warn, and deny.");
    Some(m)
}

proof fn lemma_first_error_stable(
    entries: Seq<(String, String)>,
    i: int,
    n: int,
    path: Seq<char>,
    known: Seq<Seq<char>>,
)
    requires
        0 <= i < n,
        first_error(entries, i + 1, path, known) is Some,
    ensures
        first_error(entries, n, path, known) == first_error(entries, i + 1, path, known),
    decreases n - i,
{
    if n > i + 1 {
        lemma_first_error_stable(entries, i, n - 1, path, known);
    }
}

impl BudgetConfig {
    /// The configuration itself when every `[lints]` entry names one of
    /// `known_lints` at level `allow`, `warn` or `deny`; otherwise the message
    /// for the first faulty entry, naming the file `path_display`.
    pub fn validated(self, path_display: &str, known_lints: &[&str]) -> (r: Result<Self, String>)
        ensures
            match config_error(self, path_display@, seg_views(known_lints@)) {
                None => r == Ok::<Self, String>(self),
                Some(m) => r matches Err(e) && e@ == m,
            },
    {
        if let Some(lints) = &self.lints {
            let mut i: usize = 0;
            while i < lints.len()
                invariant
                    i <= lints@.len(),
                    self.lints == Some(*lints),
                    first_error(lints@, i as int, path_display@, seg_views(known_lints@)) is None,
                decreases lints@.len() - i,
            {
                if let Some(m) = message_for(&lints[i], path_display, known_lints) {
                    proof {
                        lemma_first_error_stable(
                            lints@,
                            i as int,
                            lints@.len() as int,
                            path_display@,
                            seg_views(known_lints@),
                        );
                    }
                    return Err(m);
                }
                i = i + 1;
            }
        }
        Ok(self)
    }
}

} // verus!
