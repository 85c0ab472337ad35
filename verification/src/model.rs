//! Plain-value description of the parts of a compiled contract that the lints
//! read: expressions with the types and bindings the compiler resolved for
//! them, blocks, function parameters and the local call graph.

use vstd::prelude::*;

verus! {

/// The algebraic data type a type resolves to: the identity of its definition
/// and its fully qualified definition path as the compiler prints it.
pub struct Adt {
    pub def: u64,
    pub path: String,
}

/// What the lints read of the receiver of a method call.
pub struct Receiver {
    /// The data type of the receiver once every reference layer is peeled off;
    /// `None` when that type is not an algebraic data type.
    pub adt: Option<Adt>,
    /// How many reference layers were peeled off the receiver's type.
    pub refs: usize,
    /// The local binding the receiver names, when it is a plain path to one.
    pub local: Option<u64>,
    /// Whether that local binding is used again after the call.
    pub used_after: bool,
    /// The receiver's source text, when it is available.
    pub text: Option<String>,
}

/// What the lints read of one argument of a call.
pub struct Arg {
    /// The argument's source text, when it is available.
    pub text: Option<String>,
    /// The source text of the argument with one leading borrow (`&x`) removed.
    pub inner_text: Option<String>,
    /// Whether the argument is a literal.
    pub is_lit: bool,
    /// The contents of the argument when it is a string literal.
    pub str_lit: Option<String>,
}

/// The kind of the innermost construct that runs an expression repeatedly.
pub enum LoopKind {
    /// A `loop`, `while` or `for` loop.
    Loop,
    /// A closure that is called several times (the body of `for_each`, `map`, ...).
    Closure,
}

/// The innermost loop, or closure called several times, around an
/// expression, with the facts about it that the loop-dependence analysis uses.
pub struct Enclosing {
    pub kind: LoopKind,
    /// The local bindings mutated inside it; `None` when the mutation analysis
    /// gave no verdict.
    pub mutated: Option<Vec<u64>>,
    /// The local bindings introduced inside it (loop variables, per-iteration `let`s).
    pub bindings: Vec<u64>,
}

/// The kinds of expression the lints look at.
pub enum ExprKind {
    /// `receiver.method(args)`.
    MethodCall { method: String, receiver: Receiver, args: Vec<Arg> },
    /// `callee(args)`. `callee` is the definition path the callee path
    /// resolves to; `resolved` is the called function as a node of the
    /// local call graph, when the compiler resolved one for the call.
    Call { callee: Option<String>, resolved: Option<usize>, args: Vec<Arg> },
    /// `lhs + rhs`, with the data types of the operands (references not peeled).
    Add { lhs: Option<Adt>, rhs: Option<Adt> },
    /// Any other expression.
    Other,
}

/// One expression as the lints see it.
pub struct Expr {
    pub kind: ExprKind,
    /// The local bindings read anywhere inside the expression.
    pub reads: Vec<u64>,
    /// The innermost loop or repeatedly called closure around the expression.
    pub enclosing: Option<Enclosing>,
}

/// One operation inside the body of a function of the local call graph.
pub enum BodyOp {
    /// A method call whose receiver, references peeled, has definition path
    /// `receiver` (`None` when it is not an algebraic data type).
    MethodCall { receiver: Option<String>, method: String },
    /// A call of another function, `callee` being its node when it is known.
    Call { callee: Option<usize> },
}

/// A function of the call graph: whether it is defined in the crate being
/// checked, and the operations of its body in visiting order (the bodies of
/// closures defined inside it excluded).
pub struct FnNode {
    pub local: bool,
    pub ops: Vec<BodyOp>,
}

/// The functions reachable from the crate being checked, indexed by node.
pub struct CallGraph {
    pub fns: Vec<FnNode>,
}

/// A statement of a block.
pub enum Stmt {
    /// `let pattern = init;` (the initializer is absent in `let pattern;`).
    Let { init: Option<Expr> },
    /// An expression statement without a semicolon.
    Expr(Expr),
    /// An expression statement ending in a semicolon.
    Semi(Expr),
    /// A nested item.
    Item,
}

/// A block: its statements and its optional trailing expression.
pub struct Block {
    pub stmts: Vec<Stmt>,
    pub tail: Option<Expr>,
}

/// A function parameter.
pub struct Param {
    /// The binding the parameter's pattern introduces, when the pattern is a
    /// plain binding.
    pub binding: Option<u64>,
    /// The data type of the parameter once references are peeled.
    pub adt: Option<Adt>,
    /// How many reference layers the parameter's type has.
    pub refs: usize,
}

} // verus!
