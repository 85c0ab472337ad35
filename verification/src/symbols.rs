//! Short symbols: the literals the `symbol_short!` macro accepts.

use vstd::prelude::*;

verus! {

/// A character a short symbol may hold: an ASCII letter or digit, or `_`.
pub open spec fn symbol_char(c: char) -> bool {
    ('a' <= c <= 'z') || ('A' <= c <= 'Z') || ('0' <= c <= '9') || c == '_'
}

/// A literal of one to nine characters, each of them a [`symbol_char`].
pub open spec fn short_symbol(s: Seq<char>) -> bool {
    &&& 0 < s.len() <= 9
    &&& forall|i: int| 0 <= i < s.len() ==> symbol_char(#[trigger] s[i])
}

/// Whether `symbol_str` is a valid short symbol: at most nine characters, at
/// least one, each an ASCII letter, digit or `_`.
pub fn is_valid_short_symbol(symbol_str: &str) -> (r: bool)
    ensures
        r == short_symbol(symbol_str@),
{
    let n = symbol_str.unicode_len();
    if n > 9 || n == 0 {
        return false;
    }
    let mut i: usize = 0;
    while i < n
        invariant
            n == symbol_str@.len(),
            i <= n,
            forall|j: int| 0 <= j < i ==> symbol_char(#[trigger] symbol_str@[j]),
        decreases n - i,
    {
        let c = symbol_str.get_char(i);
        if !(('a' <= c && c <= 'z') || ('A' <= c && c <= 'Z') || ('0' <= c && c <= '9') || c == '_') {
            assert(!symbol_char(symbol_str@[i as int]));
            return false;
        }
        i = i + 1;
    }
    true
}

} // verus!
