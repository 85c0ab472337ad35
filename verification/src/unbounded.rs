//! The unbounded-input-loop lint: loops whose bound comes from a function
//! parameter and whose body writes to storage.

use vstd::prelude::*;
use crate::analysis::contains_id;
use crate::paths::{is_storage_type, matches_any, storage_types};
use crate::text::str_eq;

verus! {

/// A pattern: a binding (possibly `x @ sub`) or any other pattern with its
/// sub-patterns.
pub enum Pat {
    Binding { id: u64, sub: Option<Box<Pat>> },
    Other { subpats: Vec<Pat> },
}

/// The bindings a pattern introduces, outermost first, left to right.
pub open spec fn pat_bindings(p: Pat) -> Seq<u64>
    decreases p,
{
    match p {
        Pat::Binding { id, sub } => match sub {
            Some(b) => seq![id] + pat_bindings(*b),
            None => seq![id],
        },
        Pat::Other { subpats } => pats_bindings(subpats@),
    }
}

/// The bindings of a list of patterns, in order.
pub open spec fn pats_bindings(ps: Seq<Pat>) -> Seq<u64>
    decreases ps,
{
    if ps.len() == 0 {
        Seq::empty()
    } else {
        pats_bindings(ps.drop_last()) + pat_bindings(ps.last())
    }
}

/// Collects the bindings of function parameter patterns.
pub struct ParamHirIdCollector {
    pub params: Vec<u64>,
}

impl ParamHirIdCollector {
    /// Records every binding of `pat`, recursing into sub-patterns so that
    /// destructured parameters are all captured.
    pub fn visit_pat(&mut self, pat: &Pat)
        ensures
            final(self).params@ == old(self).params@ + pat_bindings(*pat),
        decreases pat,
    {
        match pat {
            Pat::Binding { id, sub } => {
                self.params.push(*id);
                match sub {
                    Some(b) => {
                        self.visit_pat(b);
                        assert(self.params@ =~= old(self).params@ + pat_bindings(*pat));
                    },
                    None => {},
                }
            },
            Pat::Other { subpats } => {
                let mut i: usize = 0;
                while i < subpats.len()
                    invariant
                        i <= subpats@.len(),
                        *pat == (Pat::Other { subpats: *subpats }),
                        self.params@ == old(self).params@ + pats_bindings(subpats@.take(i as int)),
                    decreases subpats@.len() - i,
                {
                    proof {
                        assert(subpats@.take(i + 1).drop_last() =~= subpats@.take(i as int));
                        assert(decreases_to!(*pat => (*pat)->subpats));
                        assert(decreases_to!((*pat)->subpats => (*pat)->subpats@));
                        assert(decreases_to!((*pat)->subpats@ => (*pat)->subpats@[i as int]));
                        assert(decreases_to!(*pat => subpats@[i as int]));
                    }
                    self.visit_pat(&subpats[i]);
                    proof {
                        assert(self.params@ =~= old(self).params@ + pats_bindings(
                            subpats@.take(i + 1),
                        ));
                    }
                    i = i + 1;
                }
                assert(subpats@.take(i as int) =~= subpats@);
            },
        }
    }
}

/// An expression tree of a function body as the unbounded-input-loop walker
/// sees it.
pub enum Node {
    /// A block: statements (their expressions), then the trailing expression.
    Block { id: u64, stmts: Vec<Node>, tail: Option<Box<Node>> },
    /// A `loop` with the statements and trailing expression of its body.
    Loop { id: u64, stmts: Vec<Node>, tail: Option<Box<Node>> },
    /// A method call; `receiver` is the definition path of the receiver's type
    /// with references peeled; `children` are the receiver and the arguments.
    MethodCall { id: u64, method: String, receiver: Option<String>, children: Vec<Node> },
    /// A path that resolves to a local binding.
    Local { local: u64 },
    /// A literal.
    Lit,
    /// Any other expression, with its sub-expressions.
    Other { children: Vec<Node> },
}

/// A call that clamps its receiver by a literal: `.min(lit)`, or
/// `.clamp(_, lit)`. `children` are the receiver and the arguments.
pub open spec fn clamped_by_constant(method: Seq<char>, children: Seq<Node>) -> bool {
    if method == "min"@ {
        children.len() >= 2 && (children[1] is Lit)
    } else if method == "clamp"@ {
        children.len() >= 3 && (children.last() is Lit)
    } else {
        false
    }
}

/// Some local of `params` is read inside `n`, other than inside the receiver
/// of a call that clamps it by a literal.
pub open spec fn reads_param(n: Node, params: Seq<u64>) -> bool
    decreases n,
{
    match n {
        Node::Block { stmts, tail, .. } => reads_in(stmts@, 0, params) || (tail matches Some(t)
            && reads_param(*t, params)),
        Node::Loop { stmts, tail, .. } => reads_in(stmts@, 0, params) || (tail matches Some(t)
            && reads_param(*t, params)),
        Node::MethodCall { method, children, .. } => if clamped_by_constant(method@, children@) {
            reads_in(children@, 1, params)
        } else {
            reads_in(children@, 0, params)
        },
        Node::Local { local } => params.contains(local),
        Node::Lit => false,
        Node::Other { children } => reads_in(children@, 0, params),
    }
}

/// Some node of `ns` from index `lo` on reads a local of `params`.
pub open spec fn reads_in(ns: Seq<Node>, lo: int, params: Seq<u64>) -> bool
    decreases ns,
{
    if ns.len() <= lo || ns.len() == 0 {
        false
    } else {
        reads_in(ns.drop_last(), lo, params) || reads_param(ns.last(), params)
    }
}

/// Some node of `ns` reads a local of `params`.
pub open spec fn any_reads_param(ns: Seq<Node>, params: Seq<u64>) -> bool {
    reads_in(ns, 0, params)
}

/// A storage write: `set` on a storage accessor.
pub open spec fn storage_write(method: Seq<char>, receiver: Option<String>) -> bool {
    receiver matches Some(p) && matches_any(p@, storage_types()) && method == "set"@
}

/// The walker's state: whether it is inside a loop, the innermost loop with
/// whether its bound reads a parameter, the loops already reported, and the
/// method calls reported.
pub type WalkState = (bool, Option<(u64, bool)>, Seq<u64>, Seq<u64>);

/// The state after walking `n` from `st`.
pub open spec fn walk(n: Node, params: Seq<u64>, st: WalkState) -> WalkState
    decreases n,
{
    match n {
        Node::Block { id, stmts, tail } => match tail {
            Some(t) => match *t {
                Node::Loop { stmts: body, tail: last, .. } => {
                    let inner = (true, Some((id, any_reads_param(stmts@, params))), st.2, st.3);
                    let looped = walk_seq(body@, params, walk_seq(stmts@, params, inner));
                    let after = match last {
                        Some(x) => walk(*x, params, looped),
                        None => looped,
                    };
                    (st.0, st.1, after.2, after.3)
                },
                _ => walk(*t, params, walk_seq(stmts@, params, st)),
            },
            None => walk_seq(stmts@, params, st),
        },
        Node::Loop { id, stmts, tail } => {
            let inner = (true, Some((id, false)), st.2, st.3);
            let body = walk_seq(stmts@, params, inner);
            let after = match tail {
                Some(t) => walk(*t, params, body),
                None => body,
            };
            (st.0, st.1, after.2, after.3)
        },
        Node::MethodCall { id, method, receiver, children } => {
            let marked = match st.1 {
                Some((lid, true)) => if st.0 && storage_write(method@, receiver) && !st.2.contains(
                    lid,
                ) {
                    (st.0, st.1, st.2.push(lid), st.3.push(id))
                } else {
                    st
                },
                _ => st,
            };
            walk_seq(children@, params, marked)
        },
        Node::Local { .. } => st,
        Node::Lit => st,
        Node::Other { children } => walk_seq(children@, params, st),
    }
}

/// The state after walking `ns` in order from `st`.
pub open spec fn walk_seq(ns: Seq<Node>, params: Seq<u64>, st: WalkState) -> WalkState
    decreases ns,
{
    if ns.len() == 0 {
        st
    } else {
        walk(ns.last(), params, walk_seq(ns.drop_last(), params, st))
    }
}

proof fn lemma_reads_in_prefix(ns: Seq<Node>, lo: int, i: int, params: Seq<u64>)
    requires
        0 <= i <= ns.len(),
        reads_in(ns.take(i), lo, params),
    ensures
        reads_in(ns, lo, params),
    decreases ns.len() - i,
{
    if i < ns.len() {
        assert(ns.take(i + 1).drop_last() =~= ns.take(i));
        lemma_reads_in_prefix(ns, lo, i + 1, params);
    } else {
        assert(ns.take(i) =~= ns);
    }
}

/// Whether `n` is a literal.
fn is_lit(n: &Node) -> (r: bool)
    ensures
        r == (*n is Lit),
{
    match n {
        Node::Lit => true,
        _ => false,
    }
}

/// Whether a call of `method` with receiver and arguments `children` clamps
/// its receiver by a literal.
fn is_clamped_by_constant(method: &String, children: &Vec<Node>) -> (r: bool)
    ensures
        r == clamped_by_constant(method@, children@),
{
    let m = method.as_str();
    if str_eq(m, "min") {
        children.len() >= 2 && is_lit(&children[1])
    } else if str_eq(m, "clamp") {
        children.len() >= 3 && is_lit(&children[children.len() - 1])
    } else {
        false
    }
}

/// Whether some local of `params` is read inside `n`, other than inside the
/// receiver of a call that clamps it by a literal.
fn node_reads_param(n: &Node, params: &Vec<u64>) -> (r: bool)
    ensures
        r == reads_param(*n, params@),
    decreases n,
{
    match n {
        Node::Block { stmts, tail, .. } => {
            if nodes_read_param(stmts, 0, params) {
                return true;
            }
            match tail {
                Some(t) => node_reads_param(t, params),
                None => false,
            }
        },
        Node::Loop { stmts, tail, .. } => {
            if nodes_read_param(stmts, 0, params) {
                return true;
            }
            match tail {
                Some(t) => node_reads_param(t, params),
                None => false,
            }
        },
        Node::MethodCall { method, children, .. } => {
            if is_clamped_by_constant(method, children) {
                nodes_read_param(children, 1, params)
            } else {
                nodes_read_param(children, 0, params)
            }
        },
        Node::Local { local } => contains_id(params, *local),
        Node::Lit => false,
        Node::Other { children } => nodes_read_param(children, 0, params),
    }
}

/// Whether some node of `ns` from index `lo` on reads a local of `params`,
/// stopping at the first that does.
fn nodes_read_param(ns: &Vec<Node>, lo: usize, params: &Vec<u64>) -> (r: bool)
    ensures
        r == reads_in(ns@, lo as int, params@),
    decreases ns,
{
    let mut i: usize = if lo < ns.len() { lo } else { ns.len() };
    assert(!reads_in(ns@.take(i as int), lo as int, params@));
    while i < ns.len()
        invariant
            i <= ns@.len(),
            lo <= i || i == ns@.len(),
            !reads_in(ns@.take(i as int), lo as int, params@),
        decreases ns@.len() - i,
    {
        proof {
            assert(ns@.take(i + 1).drop_last() =~= ns@.take(i as int));
            assert(decreases_to!(*ns => ns@));
            assert(decreases_to!(ns@ => ns@[i as int]));
        }
        if node_reads_param(&ns[i], params) {
            proof {
                lemma_reads_in_prefix(ns@, lo as int, i + 1, params@);
            }
            return true;
        }
        i = i + 1;
    }
    assert(ns@.take(i as int) =~= ns@);
    false
}

/// Whether a method call is a storage write: `set` on a storage accessor.
fn is_storage_write(method: &String, receiver: &Option<String>) -> (r: bool)
    ensures
        r == storage_write(method@, *receiver),
{
    match receiver {
        Some(p) => is_storage_type(p.as_str()) && str_eq(method.as_str(), "set"),
        None => false,
    }
}

/// Walks a function body looking for loops whose bound reads a parameter and
/// whose body writes to storage; each such loop is reported once, at its
/// first storage write.
pub struct UnboundedLoopWalker {
    pub param_ids: Vec<u64>,
    pub within_loop: bool,
    pub current_loop: Option<(u64, bool)>,
    pub flagged: Vec<u64>,
    pub reported: Vec<u64>,
}

/// The walker's state as [`walk`] describes it.
pub open spec fn walker_state(w: UnboundedLoopWalker) -> WalkState {
    (w.within_loop, w.current_loop, w.flagged@, w.reported@)
}

impl UnboundedLoopWalker {
    /// Whether a statement of `stmts` reads a parameter, other than as the
    /// receiver of a clamp by a literal (`.min(100)`, `.clamp(0, 100)`): the
    /// bound of the loop that follows them then derives from untrusted input.
    pub fn block_stmts_contain_param_bound(&self, stmts: &Vec<Node>) -> (r: bool)
        ensures
            r == any_reads_param(stmts@, self.param_ids@),
    {
        nodes_read_param(stmts, 0, &self.param_ids)
    }

    /// Visits `n`: a block ending in a loop (a desugared `for` or `while`)
    /// opens a loop, covering the statements and the loop's body, whose bound
    /// reads a parameter when its statements do; a bare `loop` opens one of
    /// unknown bound; a storage write inside a loop of parameter-derived bound
    /// not yet reported reports it.
    pub fn visit_expr(&mut self, n: &Node)
        ensures
            walker_state(*final(self)) == walk(*n, old(self).param_ids@, walker_state(*old(self))),
            final(self).param_ids == old(self).param_ids,
        decreases n,
    {
        match n {
            Node::Block { id, stmts, tail } => {
                match tail {
                    Some(t) => {
                        if let Node::Loop { stmts: body, tail: last, .. } = &**t {
                            let bound_refers_to_param = self.block_stmts_contain_param_bound(stmts);
                            let was_in_loop = self.within_loop;
                            let prev_loop = self.current_loop;
                            self.within_loop = true;
                            self.current_loop = Some((*id, bound_refers_to_param));
                            self.visit_seq(stmts);
                            self.visit_seq(body);
                            if let Some(x) = last {
                                self.visit_expr(x);
                            }
                            self.within_loop = was_in_loop;
                            self.current_loop = prev_loop;
                        } else {
                            self.visit_seq(stmts);
                            self.visit_expr(t);
                        }
                    },
                    None => {
                        self.visit_seq(stmts);
                    },
                }
            },
            Node::Loop { id, stmts, tail } => {
                let was_in_loop = self.within_loop;
                let prev_loop = self.current_loop;
                self.within_loop = true;
                self.current_loop = Some((*id, false));
                self.visit_seq(stmts);
                if let Some(t) = tail {
                    self.visit_expr(t);
                }
                self.within_loop = was_in_loop;
                self.current_loop = prev_loop;
            },
            Node::MethodCall { id, method, receiver, children } => {
                if self.within_loop {
                    if let Some((loop_id, bound_is_param)) = self.current_loop {
                        if bound_is_param && is_storage_write(method, receiver) && !contains_id(
                            &self.flagged,
                            loop_id,
                        ) {
                            self.flagged.push(loop_id);
                            self.reported.push(*id);
                        }
                    }
                }
                self.visit_seq(children);
            },
            Node::Local { .. } => {},
            Node::Lit => {},
            Node::Other { children } => {
                self.visit_seq(children);
            },
        }
    }

    /// Visits the nodes of `ns` in order.
    pub fn visit_seq(&mut self, ns: &Vec<Node>)
        ensures
            walker_state(*final(self)) == walk_seq(ns@, old(self).param_ids@, walker_state(*old(self))),
            final(self).param_ids == old(self).param_ids,
        decreases ns,
    {
        let ghost start = walker_state(*self);
        let mut i: usize = 0;
        while i < ns.len()
            invariant
                i <= ns@.len(),
                self.param_ids == old(self).param_ids,
                walker_state(*self) == walk_seq(ns@.take(i as int), self.param_ids@, start),
            decreases ns@.len() - i,
        {
            proof {
                assert(ns@.take(i + 1).drop_last() =~= ns@.take(i as int));
                assert(ns@.take(i + 1).last() == ns@[i as int]);
                assert(decreases_to!(*ns => ns@));
                assert(decreases_to!(ns@ => ns@[i as int]));
            }
            self.visit_expr(&ns[i]);
            i = i + 1;
        }
        assert(ns@.take(i as int) =~= ns@);
    }
}

/// The method calls an unbounded-input-loop check reports for a function:
/// none for closures or functions without parameter bindings; otherwise those
/// the walk of `body` reports.
pub open spec fn unbounded_reports(is_item_fn: bool, params: Seq<Pat>, body: Node) -> Seq<u64> {
    if !is_item_fn || pats_bindings(params).len() == 0 {
        Seq::empty()
    } else {
        walk(body, pats_bindings(params), (false, None, Seq::empty(), Seq::empty())).3
    }
}

/// Flags loops whose bound derives from a function parameter and whose body
/// writes to storage.
pub struct UnboundedInputLoop;

impl UnboundedInputLoop {
    /// The ids of the storage writes reported in a named function (`is_item_fn`
    /// false for closures) with parameter patterns `params` and body `body`.
    pub fn check_fn(&mut self, is_item_fn: bool, params: &Vec<Pat>, body: &Node) -> (r: Vec<u64>)
        ensures
            r@ == unbounded_reports(is_item_fn, params@, *body),
    {
        if !is_item_fn {
            return Vec::new();
        }
        let mut collector = ParamHirIdCollector { params: Vec::new() };
        let mut i: usize = 0;
        while i < params.len()
            invariant
                i <= params@.len(),
                collector.params@ == pats_bindings(params@.take(i as int)),
            decreases params@.len() - i,
        {
            proof {
                assert(params@.take(i + 1).drop_last() =~= params@.take(i as int));
            }
            collector.visit_pat(&params[i]);
            proof {
                assert(collector.params@ =~= pats_bindings(params@.take(i + 1)));
            }
            i = i + 1;
        }
        assert(params@.take(i as int) =~= params@);
        if collector.params.len() == 0 {
            return Vec::new();
        }
        let mut walker = UnboundedLoopWalker {
            param_ids: collector.params,
            within_loop: false,
            current_loop: None,
            flagged: Vec::new(),
            reported: Vec::new(),
        };
        assert(walker_state(walker) == (false, None::<(u64, bool)>, Seq::<u64>::empty(), Seq::<u64>::empty()));
        walker.visit_expr(body);
        walker.reported
    }
}

} // verus!
