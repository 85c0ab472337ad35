//! The lints that judge a whole block or function body at once.

use vstd::prelude::*;
use crate::analysis::contains_id;
use crate::lints::{Diagnostic, Note};
use crate::model::{Adt, Block, Expr, ExprKind, Param, Stmt};
use crate::passes::{receiver_in, receiver_is};
use crate::paths::{
    instance_path, is_instance_path, is_persistent_path, is_sdk_vec_path, is_storage_type,
    is_temporary_path, path_matches, persistent_path, sdk_vec_path, storage_types, temporary_path,
};
use crate::text::str_eq;

verus! {

/// A storage operation found in a block: a read of a key (with the identity
/// of the storage accessor type and the key's source text), or a write.
pub enum StorageOp {
    Read { storage_def: u64, key_text: String },
    Write,
}

/// The definition of the data type `ty`, references peeled, when it is the
/// `Instance`, `Persistent` or `Temporary` storage accessor.
pub open spec fn storage_def(ty: Option<Adt>) -> Option<u64> {
    match ty {
        Some(a) => if path_matches(a.path@, instance_path()) || path_matches(
            a.path@,
            persistent_path(),
        ) || path_matches(a.path@, temporary_path()) {
            Some(a.def)
        } else {
            None
        },
        None => None,
    }
}

/// The storage operation `e` performs: `get` or `has` with a first argument
/// whose text (one leading borrow removed) is known is a read of that key;
/// `set` is a write; both on an `Instance`, `Persistent` or `Temporary`
/// accessor.
pub open spec fn spec_storage_op(e: Expr) -> Option<(u64, Option<Seq<char>>)> {
    match e.kind {
        ExprKind::MethodCall { method, receiver, args } => {
            if !(method@ == "get"@ || method@ == "has"@ || method@ == "set"@) {
                None
            } else {
                match storage_def(receiver.adt) {
                    None => None,
                    Some(d) => if method@ == "set"@ {
                        Some((d, None))
                    } else if args@.len() == 0 {
                        None
                    } else {
                        match args@[0].inner_text {
                            Some(t) => Some((d, Some(t@))),
                            None => None,
                        }
                    },
                }
            }
        },
        _ => None,
    }
}

/// The view of an extracted operation: `(accessor, Some(key))` for a read,
/// `(accessor, None)` for a write.
pub open spec fn op_view(op: StorageOp, d: u64) -> (u64, Option<Seq<char>>) {
    match op {
        StorageOp::Read { storage_def, key_text } => (storage_def, Some(key_text@)),
        StorageOp::Write => (d, None),
    }
}

/// The expressions of a list of statements that the redundant-read pass
/// looks at (`let` initializers and expression statements), each with the
/// index of its statement.
pub open spec fn stmt_items(stmts: Seq<Stmt>) -> Seq<(usize, Expr)>
    decreases stmts.len(),
{
    if stmts.len() == 0 {
        Seq::empty()
    } else {
        let prev = stmt_items(stmts.drop_last());
        let pos = (stmts.len() - 1) as usize;
        match stmts.last() {
            Stmt::Let { init: Some(e) } => prev.push((pos, e)),
            Stmt::Expr(e) => prev.push((pos, e)),
            Stmt::Semi(e) => prev.push((pos, e)),
            _ => prev,
        }
    }
}

/// The expressions of a block the pass looks at, in order: those of the
/// statements, then the trailing expression at position `stmts.len()`.
pub open spec fn block_items(b: Block) -> Seq<(usize, Expr)> {
    match b.tail {
        Some(e) => stmt_items(b.stmts@).push((b.stmts@.len() as usize, e)),
        None => stmt_items(b.stmts@),
    }
}

/// The last read still valid after `items`: a write forgets it, a read
/// replaces it.
pub open spec fn last_read(items: Seq<(usize, Expr)>) -> Option<(u64, Seq<char>)>
    decreases items.len(),
{
    if items.len() == 0 {
        None
    } else {
        match spec_storage_op(items.last().1) {
            Some((d, Some(k))) => Some((d, k)),
            Some((_, None)) => None,
            None => last_read(items.drop_last()),
        }
    }
}

/// The positions of the reads of `items` that read the same key of the same
/// accessor type as the read before them, with no write in between.
pub open spec fn redundant_positions(items: Seq<(usize, Expr)>) -> Seq<usize>
    decreases items.len(),
{
    if items.len() == 0 {
        Seq::empty()
    } else {
        let prev = redundant_positions(items.drop_last());
        match spec_storage_op(items.last().1) {
            Some((d, Some(k))) => if last_read(items.drop_last()) == Some((d, k)) {
                prev.push(items.last().0)
            } else {
                prev
            },
            _ => prev,
        }
    }
}

/// The view of the pass's state.
pub open spec fn state_view(s: Option<(u64, String)>) -> Option<(u64, Seq<char>)> {
    match s {
        Some((d, k)) => Some((d, k@)),
        None => None,
    }
}

/// Flags a read of a storage key that was already read in the same block,
/// with no write in between.
pub struct SorobanRedundantStorageRead;

impl SorobanRedundantStorageRead {
    /// The definition of `ty` (references peeled) when it is the `Instance`,
    /// `Persistent` or `Temporary` storage accessor.
    pub fn is_storage_type(ty: &Option<Adt>) -> (r: Option<u64>)
        ensures
            r == storage_def(*ty),
    {
        match ty {
            Some(a) => {
                let p = a.path.as_str();
                if is_instance_path(p) || is_persistent_path(p) || is_temporary_path(p) {
                    Some(a.def)
                } else {
                    None
                }
            },
            None => None,
        }
    }

    /// The storage operation `e` performs, if any.
    pub fn extract_storage_op(e: &Expr) -> (r: Option<StorageOp>)
        ensures
            match r {
                Some(op) => spec_storage_op(*e) matches Some((d, k)) && op_view(op, d) == (d, k),
                None => spec_storage_op(*e) is None,
            },
    {
        if let ExprKind::MethodCall { method, receiver, args } = &e.kind {
            let m = method.as_str();
            let is_set = str_eq(m, "set");
            if !str_eq(m, "get") && !str_eq(m, "has") && !is_set {
                return None;
            }
            let storage_def = match Self::is_storage_type(&receiver.adt) {
                Some(d) => d,
                None => return None,
            };
            if is_set {
                return Some(StorageOp::Write);
            }
            if args.len() == 0 {
                return None;
            }
            match &args[0].inner_text {
                Some(t) => Some(StorageOp::Read { storage_def, key_text: t.clone() }),
                None => None,
            }
        } else {
            None
        }
    }

    fn step(
        e: &Expr,
        pos: usize,
        last: &mut Option<(u64, String)>,
        out: &mut Vec<usize>,
        Ghost(seen): Ghost<Seq<(usize, Expr)>>,
    )
        requires
            state_view(*old(last)) == last_read(seen),
            old(out)@ == redundant_positions(seen),
        ensures
            state_view(*final(last)) == last_read(seen.push((pos, *e))),
            final(out)@ == redundant_positions(seen.push((pos, *e))),
    {
        let ghost items = seen.push((pos, *e));
        assert(items.drop_last() =~= seen);
        match Self::extract_storage_op(e) {
            Some(StorageOp::Read { storage_def, key_text }) => {
                let same = match last {
                    Some((d, k)) => *d == storage_def && str_eq(k.as_str(), key_text.as_str()),
                    None => false,
                };
                if same {
                    out.push(pos);
                }
                *last = Some((storage_def, key_text));
            },
            Some(StorageOp::Write) => {
                *last = None;
            },
            None => {},
        }
    }

    /// The positions (statement indices, `stmts.len()` for the trailing
    /// expression) of the storage reads in `block` that read the same key of
    /// the same accessor type as the previous read, with no write in between.
    pub fn check_block(&mut self, block: &Block) -> (r: Vec<usize>)
        ensures
            r@ == redundant_positions(block_items(*block)),
    {
        let mut last: Option<(u64, String)> = None;
        let mut out: Vec<usize> = Vec::new();
        let mut i: usize = 0;
        let ghost mut seen: Seq<(usize, Expr)> = Seq::empty();
        while i < block.stmts.len()
            invariant
                i <= block.stmts@.len(),
                seen == stmt_items(block.stmts@.take(i as int)),
                state_view(last) == last_read(seen),
                out@ == redundant_positions(seen),
            decreases block.stmts@.len() - i,
        {
            proof {
                assert(block.stmts@.take(i + 1).drop_last() =~= block.stmts@.take(i as int));
                assert(block.stmts@.take(i + 1).last() == block.stmts@[i as int]);
            }
            match &block.stmts[i] {
                Stmt::Let { init: Some(e) } => {
                    Self::step(e, i, &mut last, &mut out, Ghost(seen));
                    proof {
                        seen = seen.push((i, *e));
                    }
                },
                Stmt::Expr(e) => {
                    Self::step(e, i, &mut last, &mut out, Ghost(seen));
                    proof {
                        seen = seen.push((i, *e));
                    }
                },
                Stmt::Semi(e) => {
                    Self::step(e, i, &mut last, &mut out, Ghost(seen));
                    proof {
                        seen = seen.push((i, *e));
                    }
                },
                _ => {},
            }
            i = i + 1;
        }
        assert(block.stmts@.take(i as int) =~= block.stmts@);
        if let Some(e) = &block.tail {
            Self::step(e, block.stmts.len(), &mut last, &mut out, Ghost(seen));
        }
        out
    }
}

/// The text of an optional snippet, empty when it is missing.
pub open spec fn text_or_empty(t: Option<String>) -> Seq<char> {
    match t {
        Some(s) => s@,
        None => Seq::empty(),
    }
}

fn text_or_default(t: &Option<String>) -> (r: String)
    ensures
        r@ == text_or_empty(*t),
{
    match t {
        Some(s) => s.clone(),
        None => String::new(),
    }
}

/// The (receiver text, key text) of a storage read: `get` or `has` with at
/// least one argument on a storage accessor.
pub open spec fn read_pair(e: Expr) -> Option<(Seq<char>, Seq<char>)> {
    match e.kind {
        ExprKind::MethodCall { method, receiver, args } => if receiver_in(receiver, storage_types())
            && (method@ == "get"@ || method@ == "has"@) && args@.len() > 0 {
            Some((text_or_empty(receiver.text), text_or_empty(args@[0].text)))
        } else {
            None
        },
        _ => None,
    }
}

/// The (receiver text, key text) of a storage write: `set` with at least
/// two arguments on a storage accessor.
pub open spec fn write_pair(e: Expr) -> Option<(Seq<char>, Seq<char>)> {
    match e.kind {
        ExprKind::MethodCall { method, receiver, args } => if receiver_in(receiver, storage_types())
            && method@ == "set"@ && args@.len() >= 2 {
            Some((text_or_empty(receiver.text), text_or_empty(args@[0].text)))
        } else {
            None
        },
        _ => None,
    }
}

/// One of the first `n` expressions of `body` reads the receiver-key pair `p`.
pub open spec fn read_before(body: Seq<Expr>, n: int, p: (Seq<char>, Seq<char>)) -> bool {
    exists|j: int| 0 <= j < n && read_pair(#[trigger] body[j]) == Some(p)
}

/// The indices, among the first `n` expressions of `body`, of the writes
/// whose receiver-key pair no earlier expression of `body` reads.
pub open spec fn unread_writes(body: Seq<Expr>, n: int) -> Seq<usize>
    decreases n,
{
    if n <= 0 {
        Seq::empty()
    } else {
        let prev = unread_writes(body, n - 1);
        match write_pair(body[n - 1]) {
            Some(w) => if !read_before(body, n - 1, w) {
                prev.push((n - 1) as usize)
            } else {
                prev
            },
            None => prev,
        }
    }
}

/// The view of a pair of strings.
pub open spec fn pair_view(p: (String, String)) -> (Seq<char>, Seq<char>) {
    (p.0@, p.1@)
}

/// A present pair `p` is the view of one of `reads`.
pub open spec fn pair_listed(reads: Seq<(String, String)>, p: Option<(Seq<char>, Seq<char>)>) -> bool {
    match p {
        Some(q) => exists|k: int| 0 <= k < reads.len() && pair_view(#[trigger] reads[k]) == q,
        None => true,
    }
}

fn pair_of(e: &Expr, write: bool) -> (r: Option<(String, String)>)
    ensures
        match r {
            Some(p) => (if write { write_pair(*e) } else { read_pair(*e) }) == Some((p.0@, p.1@)),
            None => (if write { write_pair(*e) } else { read_pair(*e) }) is None,
        },
{
    if let ExprKind::MethodCall { method, receiver, args } = &e.kind {
        let is_storage = match &receiver.adt {
            Some(a) => is_storage_type(a.path.as_str()),
            None => false,
        };
        let m = method.as_str();
        let wanted = if write {
            str_eq(m, "set") && args.len() >= 2
        } else {
            (str_eq(m, "get") || str_eq(m, "has")) && args.len() > 0
        };
        if is_storage && wanted {
            return Some((text_or_default(&receiver.text), text_or_default(&args[0].text)));
        }
    }
    None
}

/// Whether one of `reads` has the receiver text and key text of `p`.
fn listed(reads: &Vec<(String, String)>, p: &(String, String)) -> (r: bool)
    ensures
        r == exists|k: int| 0 <= k < reads@.len() && pair_view(#[trigger] reads@[k]) == pair_view(*p),
{
    let mut k: usize = 0;
    while k < reads.len()
        invariant
            k <= reads@.len(),
            forall|kk: int| 0 <= kk < k ==> pair_view(#[trigger] reads@[kk]) != pair_view(*p),
        decreases reads@.len() - k,
    {
        if str_eq(reads[k].0.as_str(), p.0.as_str()) && str_eq(reads[k].1.as_str(), p.1.as_str()) {
            return true;
        }
        k = k + 1;
    }
    false
}

/// Flags storage writes whose receiver and key were not read earlier in the
/// same function body.
pub struct StorageWriteWithoutRead;

impl StorageWriteWithoutRead {
    /// The indices, in order, of the storage writes (`set`) of `body` whose
    /// receiver text and key text match no storage read (`get`, `has`) that
    /// comes before the write. `body` holds every expression of the
    /// function body in visiting order.
    pub fn check_fn(&mut self, body: &Vec<Expr>) -> (r: Vec<usize>)
        ensures
            r@ == unread_writes(body@, body@.len() as int),
    {
        let mut reads: Vec<(String, String)> = Vec::new();
        let mut out: Vec<usize> = Vec::new();
        let mut i: usize = 0;
        while i < body.len()
            invariant
                i <= body@.len(),
                out@ == unread_writes(body@, i as int),
                forall|k: int|
                    0 <= k < reads@.len() ==> read_before(body@, i as int, pair_view(#[trigger] reads@[k])),
                forall|j: int| 0 <= j < i ==> pair_listed(reads@, #[trigger] read_pair(body@[j])),
            decreases body@.len() - i,
        {
            if let Some(p) = pair_of(&body[i], true) {
                let found = listed(&reads, &p);
                proof {
                    let wp = pair_view(p);
                    if found {
                        let k = choose|k: int| 0 <= k < reads@.len() && pair_view(#[trigger] reads@[k]) == wp;
                        assert(read_before(body@, i as int, pair_view(reads@[k])));
                    } else if read_before(body@, i as int, wp) {
                        let j = choose|j: int| 0 <= j < i && read_pair(#[trigger] body@[j]) == Some(wp);
                        assert(pair_listed(reads@, read_pair(body@[j])));
                    }
                }
                if !found {
                    out.push(i);
                }
            }
            let ghost before = reads@;
            if let Some(p) = pair_of(&body[i], false) {
                reads.push(p);
                proof {
                    assert forall|j: int| 0 <= j <= i implies pair_listed(
                        reads@,
                        #[trigger] read_pair(body@[j]),
                    ) by {
                        if j < i {
                            if let Some(q) = read_pair(body@[j]) {
                                assert(pair_listed(before, read_pair(body@[j])));
                                let k = choose|k: int| 0 <= k < before.len() && pair_view(#[trigger] before[k]) == q;
                                assert(reads@[k] == before[k]);
                            }
                        } else {
                            assert(reads@[reads@.len() - 1] == p);
                        }
                    }
                    assert forall|k: int| 0 <= k < reads@.len() implies read_before(
                        body@,
                        i + 1,
                        pair_view(#[trigger] reads@[k]),
                    ) by {
                        if k < before.len() {
                            assert(reads@[k] == before[k]);
                            assert(read_before(body@, i as int, pair_view(before[k])));
                        } else {
                            assert(read_pair(body@[i as int]) == Some(pair_view(reads@[k])));
                        }
                    }
                }
            } else {
                proof {
                    assert forall|k: int| 0 <= k < reads@.len() implies read_before(
                        body@,
                        i + 1,
                        pair_view(#[trigger] reads@[k]),
                    ) by {
                        assert(read_before(body@, i as int, pair_view(reads@[k])));
                    }
                }
            }
            i = i + 1;
        }
        out
    }
}

/// `e` is a call of one of `names` on the `Persistent` storage accessor.
pub open spec fn persistent_call(e: Expr, names: Seq<Seq<char>>) -> bool {
    e.kind matches ExprKind::MethodCall { method, receiver, .. } && receiver_is(
        receiver,
        persistent_path(),
    ) && names.contains(method@)
}

/// `e` reads persistent storage.
pub open spec fn persistent_read(e: Expr) -> bool {
    persistent_call(e, seq!["get"@, "has"@])
}

/// `e` extends the TTL of a persistent entry.
pub open spec fn persistent_extend(e: Expr) -> bool {
    persistent_call(e, seq!["extend_ttl"@])
}

/// The indices among the first `n` expressions of `body` that read
/// persistent storage.
pub open spec fn persistent_reads(body: Seq<Expr>, n: int) -> Seq<usize>
    decreases n,
{
    if n <= 0 {
        Seq::empty()
    } else if persistent_read(body[n - 1]) {
        persistent_reads(body, n - 1).push((n - 1) as usize)
    } else {
        persistent_reads(body, n - 1)
    }
}

/// Collects the persistent-storage reads of a function body and notes
/// whether it extends a persistent entry's TTL anywhere.
pub struct PersistentReadVisitor {
    pub reads: Vec<usize>,
    pub extend_ttl_found: bool,
}

impl PersistentReadVisitor {
    /// Records expression `at` of the body: its index when it reads
    /// persistent storage, and whether it calls `extend_ttl` on it.
    pub fn visit_expr(&mut self, at: usize, e: &Expr)
        ensures
            final(self).reads@ == (if persistent_read(*e) {
                old(self).reads@.push(at)
            } else {
                old(self).reads@
            }),
            final(self).extend_ttl_found == (old(self).extend_ttl_found || persistent_extend(*e)),
    {
        if let ExprKind::MethodCall { method, receiver, .. } = &e.kind {
            let on_persistent = match &receiver.adt {
                Some(a) => is_persistent_path(a.path.as_str()),
                None => false,
            };
            if on_persistent {
                let m = method.as_str();
                let is_read = str_eq(m, "get") || str_eq(m, "has");
                let is_extend = str_eq(m, "extend_ttl");
                proof {
                    let reads_names = seq!["get"@, "has"@];
                    let extend_names = seq!["extend_ttl"@];
                    if is_read {
                        if method@ == "get"@ {
                            assert(reads_names[0] == method@);
                        } else {
                            assert(reads_names[1] == method@);
                        }
                    } else {
                        assert forall|k: int| 0 <= k < reads_names.len() implies reads_names[k]
                            != method@ by {}
                    }
                    if is_extend {
                        assert(extend_names[0] == method@);
                    } else {
                        assert forall|k: int| 0 <= k < extend_names.len() implies extend_names[k]
                            != method@ by {}
                    }
                }
                if is_read {
                    self.reads.push(at);
                }
                if is_extend {
                    self.extend_ttl_found = true;
                }
            }
        }
    }
}

/// Flags reads of persistent storage in a function that never extends a
/// persistent entry's TTL.
pub struct PersistentReadWithoutTtlExtension;

impl PersistentReadWithoutTtlExtension {
    /// The indices of the persistent-storage reads of `body` when no
    /// expression of `body` calls `extend_ttl` on persistent storage; none
    /// otherwise.
    pub fn check_fn(&mut self, body: &Vec<Expr>) -> (r: Vec<usize>)
        ensures
            r@ == (if exists|j: int| 0 <= j < body@.len() && persistent_extend(#[trigger] body@[j]) {
                Seq::empty()
            } else {
                persistent_reads(body@, body@.len() as int)
            }),
    {
        let mut visitor = PersistentReadVisitor { reads: Vec::new(), extend_ttl_found: false };
        let mut i: usize = 0;
        while i < body.len()
            invariant
                i <= body@.len(),
                visitor.reads@ == persistent_reads(body@, i as int),
                visitor.extend_ttl_found == exists|j: int|
                    0 <= j < i && persistent_extend(#[trigger] body@[j]),
            decreases body@.len() - i,
        {
            visitor.visit_expr(i, &body[i]);
            i = i + 1;
        }
        if visitor.extend_ttl_found || visitor.reads.len() == 0 {
            return Vec::new();
        }
        visitor.reads
    }
}

/// Parameter `p` is a by-value `soroban_sdk::Vec` binding the body does not
/// mutate (when the mutation analysis gave no verdict, it is reported).
pub open spec fn read_only_vec_param(p: Param, mutated: Option<Vec<u64>>) -> bool {
    &&& p.binding is Some
    &&& p.refs == 0
    &&& p.adt matches Some(a) && path_matches(a.path@, sdk_vec_path())
    &&& !(mutated matches Some(m) && m@.contains(p.binding->0))
}

/// The indices among the first `n` parameters that are read-only
/// by-value `soroban_sdk::Vec`s.
pub open spec fn vec_params(params: Seq<Param>, mutated: Option<Vec<u64>>, n: int) -> Seq<usize>
    decreases n,
{
    if n <= 0 {
        Seq::empty()
    } else if read_only_vec_param(params[n - 1], mutated) {
        vec_params(params, mutated, n - 1).push((n - 1) as usize)
    } else {
        vec_params(params, mutated, n - 1)
    }
}

/// Flags by-value `soroban_sdk::Vec` parameters that a slice could replace.
pub struct VecWhereSliceCouldBeUsed;

impl VecWhereSliceCouldBeUsed {
    /// The indices of the parameters that are plain bindings of a by-value
    /// `soroban_sdk::Vec` not mutated in the body; `mutated` holds the
    /// bindings the body mutates (`None` when that analysis gave no verdict).
    pub fn check_fn(&mut self, params: &Vec<Param>, mutated: &Option<Vec<u64>>) -> (r: Vec<usize>)
        ensures
            r@ == vec_params(params@, *mutated, params@.len() as int),
    {
        let mut out: Vec<usize> = Vec::new();
        let mut i: usize = 0;
        while i < params.len()
            invariant
                i <= params@.len(),
                out@ == vec_params(params@, *mutated, i as int),
            decreases params@.len() - i,
        {
            let param = &params[i];
            if let Some(id) = param.binding {
                if param.refs == 0 {
                    let is_soroban_vec = match &param.adt {
                        Some(a) => is_sdk_vec_path(a.path.as_str()),
                        None => false,
                    };
                    if is_soroban_vec {
                        let is_mutated = match mutated {
                            Some(m) => contains_id(m, id),
                            None => false,
                        };
                        if !is_mutated {
                            out.push(i);
                        }
                    }
                }
            }
            i = i + 1;
        }
        out
    }
}

} // verus!
