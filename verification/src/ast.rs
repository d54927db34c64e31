//! The part of a Python syntax tree that the generator reads, as plain data.
//!
//! Every node kind that the generator does not read is `Other`; an operator
//! keeps its identity even where the generator treats several alike.

use vstd::prelude::*;

verus! {

/// A prefix operator.
#[derive(Clone, Copy, Debug, PartialEq, Eq, Structural)]
pub enum PyUnaryOp {
    Invert,
    Not,
    UAdd,
    USub,
}

/// `and` or `or`.
#[derive(Clone, Copy, Debug, PartialEq, Eq, Structural)]
pub enum PyBoolOp {
    And,
    Or,
}

/// A binary arithmetic or bitwise operator.
#[derive(Clone, Copy, Debug, PartialEq, Eq, Structural)]
pub enum PyOperator {
    Add,
    Sub,
    Mult,
    MatMult,
    Div,
    Mod,
    Pow,
    LShift,
    RShift,
    BitOr,
    BitXor,
    BitAnd,
    FloorDiv,
}

/// A comparison operator.
#[derive(Clone, Copy, Debug, PartialEq, Eq, Structural)]
pub enum PyCompareOp {
    Eq,
    NotEq,
    Lt,
    LtE,
    Gt,
    GtE,
    Is,
    IsNot,
    In,
    NotIn,
}

/// A literal. An integer is held as its decimal digits and a floating-point
/// number as its shortest decimal text that reads back as the same number,
/// written without an exponent.
#[derive(Debug)]
pub enum PyConstant {
    NoneValue,
    Bool(bool),
    Str(String),
    Int(String),
    Float(String),
    /// Bytes, a tuple, a complex number or the ellipsis.
    Other,
}

/// An expression.
#[derive(Debug)]
#[allow(inconsistent_fields)]
pub enum PyExpr {
    Name { id: String },
    /// `repr` is the literal as the parser's own debug output shows it.
    Constant { value: PyConstant, repr: String },
    UnaryOp { op: PyUnaryOp, operand: Box<PyExpr> },
    BoolOp { op: PyBoolOp, values: Vec<PyExpr> },
    /// A call, without its keyword arguments.
    Call { func: Box<PyExpr>, args: Vec<PyExpr> },
    BinOp { left: Box<PyExpr>, op: PyOperator, right: Box<PyExpr> },
    Compare { left: Box<PyExpr>, ops: Vec<PyCompareOp>, comparators: Vec<PyExpr> },
    Subscript { value: Box<PyExpr>, slice: Box<PyExpr> },
    Attribute { value: Box<PyExpr>, attr: String },
    List { elts: Vec<PyExpr> },
    Tuple { elts: Vec<PyExpr> },
    ListComp { elt: Box<PyExpr>, generators: Vec<PyComprehension> },
    /// Any other expression.
    Other,
}

/// One `for .. in ..` clause of a comprehension, without its conditions.
#[derive(Debug)]
pub struct PyComprehension {
    pub target: PyExpr,
    pub iter: PyExpr,
}

/// A positional parameter of a function definition.
#[derive(Debug)]
pub struct PyParam {
    pub name: String,
    pub annotation: Option<PyExpr>,
}

/// A statement.
#[derive(Debug)]
#[allow(inconsistent_fields)]
pub enum PyStmt {
    FunctionDef { name: String, params: Vec<PyParam>, body: Vec<PyStmt> },
    Assign { targets: Vec<PyExpr>, value: PyExpr },
    AugAssign { target: PyExpr, op: PyOperator, value: PyExpr },
    For { target: PyExpr, iter: PyExpr, body: Vec<PyStmt>, orelse: Vec<PyStmt> },
    While { test: PyExpr, body: Vec<PyStmt>, orelse: Vec<PyStmt> },
    If { test: PyExpr, body: Vec<PyStmt>, orelse: Vec<PyStmt> },
    Return { value: Option<PyExpr> },
    Expr { value: PyExpr },
    /// Any other statement.
    Other,
}

/// Whether an expression is nested at most `limit` deep. `Other` has no
/// depth; every other expression is one deeper than its deepest operand.
pub open spec fn expr_within(e: PyExpr, limit: nat) -> bool
    decreases e, 0nat,
{
    match e {
        PyExpr::Other => true,
        PyExpr::Name { .. } => limit >= 1,
        PyExpr::Constant { .. } => limit >= 1,
        PyExpr::UnaryOp { op, operand } => limit >= 1 && expr_within(*operand, (limit - 1) as nat),
        PyExpr::BoolOp { op, values } => limit >= 1 && exprs_within(values@, (limit - 1) as nat, values@.len()),
        PyExpr::Call { func, args } => limit >= 1 && expr_within(*func, (limit - 1) as nat)
            && exprs_within(args@, (limit - 1) as nat, args@.len()),
        PyExpr::BinOp { left, op, right } => limit >= 1 && expr_within(*left, (limit - 1) as nat)
            && expr_within(*right, (limit - 1) as nat),
        PyExpr::Compare { left, ops, comparators } => limit >= 1 && expr_within(
            *left,
            (limit - 1) as nat,
        ) && exprs_within(comparators@, (limit - 1) as nat, comparators@.len()),
        PyExpr::Subscript { value, slice } => limit >= 1 && expr_within(
            *value,
            (limit - 1) as nat,
        ) && expr_within(*slice, (limit - 1) as nat),
        PyExpr::Attribute { value, attr } => limit >= 1 && expr_within(*value, (limit - 1) as nat),
        PyExpr::List { elts } => limit >= 1 && exprs_within(elts@, (limit - 1) as nat, elts@.len()),
        PyExpr::Tuple { elts } => limit >= 1 && exprs_within(elts@, (limit - 1) as nat, elts@.len()),
        PyExpr::ListComp { elt, generators } => limit >= 1 && expr_within(
            *elt,
            (limit - 1) as nat,
        ) && generators_within(generators@, (limit - 1) as nat, generators@.len()),
    }
}

/// Whether each of the first `n` expressions is nested at most `limit`
/// deep.
pub open spec fn exprs_within(items: Seq<PyExpr>, limit: nat, n: nat) -> bool
    decreases items, n,
{
    n == 0 || (n <= items.len() && exprs_within(items, limit, (n - 1) as nat) && expr_within(
        items[n - 1],
        limit,
    ))
}

/// Whether the target and the iterable of each of the first `n` clauses are
/// nested at most `limit` deep.
pub open spec fn generators_within(items: Seq<PyComprehension>, limit: nat, n: nat) -> bool
    decreases items, n,
{
    n == 0 || (n <= items.len() && generators_within(items, limit, (n - 1) as nat) && expr_within(
        items[n - 1].target,
        limit,
    ) && expr_within(items[n - 1].iter, limit))
}

/// Whether an optional expression is nested at most `limit` deep.
pub open spec fn option_within(e: Option<PyExpr>, limit: nat) -> bool {
    match e {
        Some(v) => expr_within(v, limit),
        None => true,
    }
}

/// Whether the annotation of each parameter is nested at most `limit` deep.
pub open spec fn params_within(items: Seq<PyParam>, limit: nat) -> bool {
    forall|i: int| 0 <= i < items.len() ==> #[trigger] option_within(items[i].annotation, limit)
}

/// Whether a statement is nested at most `limit` deep. `Other` has no
/// depth; every other statement is one deeper than the deepest statement or
/// expression that it holds.
pub open spec fn stmt_within(s: PyStmt, limit: nat) -> bool
    decreases s, 0nat,
{
    match s {
        PyStmt::Other => true,
        PyStmt::FunctionDef { name, params, body } => limit >= 1 && params_within(
            params@,
            (limit - 1) as nat,
        ) && block_within(body@, (limit - 1) as nat, body@.len()),
        PyStmt::Assign { targets, value } => limit >= 1 && exprs_within(
            targets@,
            (limit - 1) as nat,
            targets@.len(),
        ) && expr_within(value, (limit - 1) as nat),
        PyStmt::AugAssign { target, op, value } => limit >= 1 && expr_within(
            target,
            (limit - 1) as nat,
        ) && expr_within(value, (limit - 1) as nat),
        PyStmt::For { target, iter, body, orelse } => limit >= 1 && expr_within(
            target,
            (limit - 1) as nat,
        ) && expr_within(iter, (limit - 1) as nat) && block_within(body@, (limit - 1) as nat, body@.len())
            && block_within(orelse@, (limit - 1) as nat, orelse@.len()),
        PyStmt::While { test, body, orelse } => limit >= 1 && expr_within(test, (limit - 1) as nat)
            && block_within(body@, (limit - 1) as nat, body@.len()) && block_within(
            orelse@,
            (limit - 1) as nat,
            orelse@.len(),
        ),
        PyStmt::If { test, body, orelse } => limit >= 1 && expr_within(test, (limit - 1) as nat)
            && block_within(body@, (limit - 1) as nat, body@.len()) && block_within(
            orelse@,
            (limit - 1) as nat,
            orelse@.len(),
        ),
        PyStmt::Return { value } => limit >= 1 && option_within(value, (limit - 1) as nat),
        PyStmt::Expr { value } => limit >= 1 && expr_within(value, (limit - 1) as nat),
    }
}

/// Whether each of the first `n` statements of a block is nested at most
/// `limit` deep.
pub open spec fn block_within(body: Seq<PyStmt>, limit: nat, n: nat) -> bool
    decreases body, n,
{
    n == 0 || (n <= body.len() && block_within(body, limit, (n - 1) as nat) && stmt_within(
        body[n - 1],
        limit,
    ))
}

/// Whether a module is nested at most `limit` deep.
pub open spec fn module_within(module: Seq<PyStmt>, limit: nat) -> bool {
    block_within(module, limit, module.len())
}

/// What holds of the first `n` expressions holds of the same expressions
/// at the start of another sequence.
pub proof fn lemma_exprs_within_prefix(a: Seq<PyExpr>, b: Seq<PyExpr>, limit: nat, n: nat)
    requires
        n <= a.len(),
        n <= b.len(),
        forall|j: int| 0 <= j < n ==> a[j] == b[j],
    ensures
        exprs_within(a, limit, n) == exprs_within(b, limit, n),
    decreases n,
{
    if n > 0 {
        lemma_exprs_within_prefix(a, b, limit, (n - 1) as nat);
    }
}

/// What holds of the first `n` clauses holds of the same clauses at the
/// start of another sequence.
pub proof fn lemma_generators_within_prefix(
    a: Seq<PyComprehension>,
    b: Seq<PyComprehension>,
    limit: nat,
    n: nat,
)
    requires
        n <= a.len(),
        n <= b.len(),
        forall|j: int| 0 <= j < n ==> a[j] == b[j],
    ensures
        generators_within(a, limit, n) == generators_within(b, limit, n),
    decreases n,
{
    if n > 0 {
        lemma_generators_within_prefix(a, b, limit, (n - 1) as nat);
    }
}

/// What holds of the first `n` statements holds of the same statements at
/// the start of another sequence.
pub proof fn lemma_block_within_prefix(a: Seq<PyStmt>, b: Seq<PyStmt>, limit: nat, n: nat)
    requires
        n <= a.len(),
        n <= b.len(),
        forall|j: int| 0 <= j < n ==> a[j] == b[j],
    ensures
        block_within(a, limit, n) == block_within(b, limit, n),
    decreases n,
{
    if n > 0 {
        lemma_block_within_prefix(a, b, limit, (n - 1) as nat);
    }
}

/// Each of the first `n` statements of a block within a limit is within
/// that limit.
pub proof fn lemma_block_within_index(body: Seq<PyStmt>, limit: nat, n: nat, i: int)
    requires
        block_within(body, limit, n),
        0 <= i < n,
    ensures
        n <= body.len(),
        stmt_within(body[i], limit),
    decreases n,
{
    if i < n - 1 {
        lemma_block_within_index(body, limit, (n - 1) as nat, i);
    }
}

} // verus!
