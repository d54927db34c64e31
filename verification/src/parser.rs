//! Reading Python source: the parser of `rustpython_parser` makes the tree,
//! and this module lowers it, node by node, to the plain data of `ast`.
//!
//! The parser's tree is opaque here. Each function marked `external_body`
//! below looks at one node of it and hands out what that node holds; none of
//! them is proved, and none promises anything of what it hands out.

use crate::ast::{
    block_within, expr_within, exprs_within, generators_within, lemma_block_within_prefix,
    lemma_exprs_within_prefix, lemma_generators_within_prefix, module_within, params_within,
    stmt_within, PyBoolOp, PyCompareOp, PyComprehension, PyConstant, PyExpr, PyOperator, PyParam,
    PyStmt, PyUnaryOp,
};
use rustpython_parser::Parse;
use vstd::prelude::*;

verus! {

/// The parser's `TextRange`: where a node stands in the source. Opaque.
#[verifier::external_type_specification]
#[verifier::external_body]
pub struct ExTextRange(rustpython_parser::text_size::TextRange);

/// The parser's `Stmt`: one statement of its tree. Opaque.
#[verifier::external_type_specification]
#[verifier::external_body]
#[verifier::reject_recursive_types(R)]
pub struct ExStmt<R>(rustpython_parser::ast::Stmt<R>);

/// The parser's `Expr`: one expression of its tree. Opaque.
#[verifier::external_type_specification]
#[verifier::external_body]
#[verifier::reject_recursive_types(R)]
pub struct ExExpr<R>(rustpython_parser::ast::Expr<R>);

/// The parser's `Comprehension`: one `for` clause. Opaque.
#[verifier::external_type_specification]
#[verifier::external_body]
#[verifier::reject_recursive_types(R)]
pub struct ExComprehension<R>(rustpython_parser::ast::Comprehension<R>);

/// The parser's `ArgWithDefault`: one parameter with its default. Opaque.
#[verifier::external_type_specification]
#[verifier::external_body]
#[verifier::reject_recursive_types(R)]
pub struct ExArgWithDefault<R>(rustpython_parser::ast::ArgWithDefault<R>);

/// The parser's `Constant`: one literal. Opaque.
#[verifier::external_type_specification]
#[verifier::external_body]
pub struct ExConstant(rustpython_parser::ast::Constant);

/// The parser's `Operator`: a binary operator. Opaque.
#[verifier::external_type_specification]
#[verifier::external_body]
pub struct ExOperator(rustpython_parser::ast::Operator);

/// The parser's `UnaryOp`: a prefix operator. Opaque.
#[verifier::external_type_specification]
#[verifier::external_body]
pub struct ExUnaryOp(rustpython_parser::ast::UnaryOp);

/// The parser's `BoolOp`: `and` or `or`. Opaque.
#[verifier::external_type_specification]
#[verifier::external_body]
pub struct ExBoolOp(rustpython_parser::ast::BoolOp);

/// The parser's `CmpOp`: a comparison operator. Opaque.
#[verifier::external_type_specification]
#[verifier::external_body]
pub struct ExCmpOp(rustpython_parser::ast::CmpOp);

/// How deep a lowered tree can be: a node nested deeper below a top-level
/// statement is lowered to `Other`.
pub const NESTING_LIMIT: usize = 1000;

/// How long a source text can be, in characters. The parser counts the
/// bytes of its text in 32 bits, and a character takes at most four bytes,
/// so a text within this limit stays within what the parser can count.
pub const SOURCE_LIMIT: usize = 0x3fff_ffff;

/// What the parser makes of a source text: the statements of the module,
/// or `None` where it reports an error.
pub uninterp spec fn parsed_suite(code: Seq<char>) -> Option<
    Seq<rustpython_parser::ast::Stmt>,
>;

/// `Suite::parse` on `code`, with `<input>` as the name of the source: the
/// statements of the module, or `None` where the parser reports an error.
/// The result depends on `code` alone; the name of the source only shows in
/// the error, which is dropped. The parser keeps positions as byte offsets
/// in 32 bits and has no guard of its own, so the text must stay within
/// `SOURCE_LIMIT`.
#[verifier::external_body]
fn parse_suite(code: &str) -> (r: Option<Vec<rustpython_parser::ast::Stmt>>)
    requires
        code@.len() <= SOURCE_LIMIT,
    ensures
        r is Some == parsed_suite(code@) is Some,
        r matches Some(suite) ==> parsed_suite(code@) == Some(suite@),
{
    rustpython_parser::ast::Suite::parse(code, "<input>").ok()
}

/// Of a `FunctionDef`: its name, its positional parameters and its body.
#[verifier::external_body]
fn function_def_parts(s: &rustpython_parser::ast::Stmt) -> (r: Option<
    (
        &str,
        &Vec<rustpython_parser::ast::ArgWithDefault>,
        &Vec<rustpython_parser::ast::Stmt>,
    ),
>) {
    match s {
        rustpython_parser::ast::Stmt::FunctionDef(d) => Some(
            (d.name.as_str(), &d.args.args, &d.body),
        ),
        _ => None,
    }
}

/// Of a parameter: its name and its annotation.
#[verifier::external_body]
fn param_parts(a: &rustpython_parser::ast::ArgWithDefault) -> (r: (
    &str,
    Option<&rustpython_parser::ast::Expr>,
)) {
    (a.def.arg.as_str(), a.def.annotation.as_deref())
}

/// Of an `Assign`: its targets and its value.
#[verifier::external_body]
fn assign_parts(s: &rustpython_parser::ast::Stmt) -> (r: Option<
    (&Vec<rustpython_parser::ast::Expr>, &rustpython_parser::ast::Expr),
>) {
    match s {
        rustpython_parser::ast::Stmt::Assign(a) => Some((&a.targets, &a.value)),
        _ => None,
    }
}

/// Of an `AugAssign`: its target, its operator and its value.
#[verifier::external_body]
fn aug_assign_parts(s: &rustpython_parser::ast::Stmt) -> (r: Option<
    (
        &rustpython_parser::ast::Expr,
        &rustpython_parser::ast::Operator,
        &rustpython_parser::ast::Expr,
    ),
>) {
    match s {
        rustpython_parser::ast::Stmt::AugAssign(a) => Some((&a.target, &a.op, &a.value)),
        _ => None,
    }
}

/// Of a `For`: its target, its iterable, its body and its `else` block.
#[verifier::external_body]
fn for_parts(s: &rustpython_parser::ast::Stmt) -> (r: Option<
    (
        &rustpython_parser::ast::Expr,
        &rustpython_parser::ast::Expr,
        &Vec<rustpython_parser::ast::Stmt>,
        &Vec<rustpython_parser::ast::Stmt>,
    ),
>) {
    match s {
        rustpython_parser::ast::Stmt::For(f) => Some((&f.target, &f.iter, &f.body, &f.orelse)),
        _ => None,
    }
}

/// Of a `While`: its test, its body and its `else` block.
#[verifier::external_body]
fn while_parts(s: &rustpython_parser::ast::Stmt) -> (r: Option<
    (
        &rustpython_parser::ast::Expr,
        &Vec<rustpython_parser::ast::Stmt>,
        &Vec<rustpython_parser::ast::Stmt>,
    ),
>) {
    match s {
        rustpython_parser::ast::Stmt::While(w) => Some((&w.test, &w.body, &w.orelse)),
        _ => None,
    }
}

/// Of an `If`: its test, its body and its `else` block.
#[verifier::external_body]
fn if_parts(s: &rustpython_parser::ast::Stmt) -> (r: Option<
    (
        &rustpython_parser::ast::Expr,
        &Vec<rustpython_parser::ast::Stmt>,
        &Vec<rustpython_parser::ast::Stmt>,
    ),
>) {
    match s {
        rustpython_parser::ast::Stmt::If(i) => Some((&i.test, &i.body, &i.orelse)),
        _ => None,
    }
}

/// Of a `Return`: the returned expression, if it has one.
#[verifier::external_body]
fn return_value(s: &rustpython_parser::ast::Stmt) -> (r: Option<
    Option<&rustpython_parser::ast::Expr>,
>) {
    match s {
        rustpython_parser::ast::Stmt::Return(ret) => Some(ret.value.as_deref()),
        _ => None,
    }
}

/// Of an expression statement: the expression.
#[verifier::external_body]
fn expr_stmt_value(s: &rustpython_parser::ast::Stmt) -> (r: Option<&rustpython_parser::ast::Expr>) {
    match s {
        rustpython_parser::ast::Stmt::Expr(e) => Some(&e.value),
        _ => None,
    }
}

/// Of a `Name`: the identifier.
#[verifier::external_body]
fn name_id(e: &rustpython_parser::ast::Expr) -> (r: Option<&str>) {
    match e {
        rustpython_parser::ast::Expr::Name(n) => Some(n.id.as_str()),
        _ => None,
    }
}

/// Of a `Constant` node: the literal.
#[verifier::external_body]
fn constant_of(e: &rustpython_parser::ast::Expr) -> (r: Option<&rustpython_parser::ast::Constant>) {
    match e {
        rustpython_parser::ast::Expr::Constant(c) => Some(&c.value),
        _ => None,
    }
}

/// A literal as plain data. An integer and a floating-point number are
/// given as the text that their `to_string` yields.
#[verifier::external_body]
fn constant_value(c: &rustpython_parser::ast::Constant) -> (r: PyConstant) {
    match c {
        rustpython_parser::ast::Constant::None => PyConstant::NoneValue,
        rustpython_parser::ast::Constant::Bool(b) => PyConstant::Bool(*b),
        rustpython_parser::ast::Constant::Str(s) => PyConstant::Str(s.clone()),
        rustpython_parser::ast::Constant::Int(i) => PyConstant::Int(i.to_string()),
        rustpython_parser::ast::Constant::Float(f) => PyConstant::Float(f.to_string()),
        _ => PyConstant::Other,
    }
}

/// A literal as the `Debug` impl of the parser's `Constant` writes it.
#[verifier::external_body]
fn constant_repr(c: &rustpython_parser::ast::Constant) -> (r: String) {
    format!("{:?}", c)
}

/// Of a `UnaryOp`: the operator and the operand.
#[verifier::external_body]
fn unary_op_parts(e: &rustpython_parser::ast::Expr) -> (r: Option<
    (&rustpython_parser::ast::UnaryOp, &rustpython_parser::ast::Expr),
>) {
    match e {
        rustpython_parser::ast::Expr::UnaryOp(u) => Some((&u.op, &u.operand)),
        _ => None,
    }
}

/// A prefix operator as plain data.
#[verifier::external_body]
fn unary_op_kind(op: &rustpython_parser::ast::UnaryOp) -> (r: PyUnaryOp) {
    match op {
        rustpython_parser::ast::UnaryOp::Invert => PyUnaryOp::Invert,
        rustpython_parser::ast::UnaryOp::Not => PyUnaryOp::Not,
        rustpython_parser::ast::UnaryOp::UAdd => PyUnaryOp::UAdd,
        rustpython_parser::ast::UnaryOp::USub => PyUnaryOp::USub,
    }
}

/// Of a `BoolOp`: the operator and the operands.
#[verifier::external_body]
fn bool_op_parts(e: &rustpython_parser::ast::Expr) -> (r: Option<
    (&rustpython_parser::ast::BoolOp, &Vec<rustpython_parser::ast::Expr>),
>) {
    match e {
        rustpython_parser::ast::Expr::BoolOp(b) => Some((&b.op, &b.values)),
        _ => None,
    }
}

/// `and` or `or` as plain data.
#[verifier::external_body]
fn bool_op_kind(op: &rustpython_parser::ast::BoolOp) -> (r: PyBoolOp) {
    match op {
        rustpython_parser::ast::BoolOp::And => PyBoolOp::And,
        rustpython_parser::ast::BoolOp::Or => PyBoolOp::Or,
    }
}

/// Of a `Call`: the called expression and the positional arguments.
#[verifier::external_body]
fn call_parts(e: &rustpython_parser::ast::Expr) -> (r: Option<
    (&rustpython_parser::ast::Expr, &Vec<rustpython_parser::ast::Expr>),
>) {
    match e {
        rustpython_parser::ast::Expr::Call(c) => Some((&c.func, &c.args)),
        _ => None,
    }
}

/// Of a `BinOp`: the left operand, the operator and the right operand.
#[verifier::external_body]
fn bin_op_parts(e: &rustpython_parser::ast::Expr) -> (r: Option<
    (
        &rustpython_parser::ast::Expr,
        &rustpython_parser::ast::Operator,
        &rustpython_parser::ast::Expr,
    ),
>) {
    match e {
        rustpython_parser::ast::Expr::BinOp(b) => Some((&b.left, &b.op, &b.right)),
        _ => None,
    }
}

/// A binary operator as plain data.
#[verifier::external_body]
fn operator_kind(op: &rustpython_parser::ast::Operator) -> (r: PyOperator) {
    match op {
        rustpython_parser::ast::Operator::Add => PyOperator::Add,
        rustpython_parser::ast::Operator::Sub => PyOperator::Sub,
        rustpython_parser::ast::Operator::Mult => PyOperator::Mult,
        rustpython_parser::ast::Operator::MatMult => PyOperator::MatMult,
        rustpython_parser::ast::Operator::Div => PyOperator::Div,
        rustpython_parser::ast::Operator::Mod => PyOperator::Mod,
        rustpython_parser::ast::Operator::Pow => PyOperator::Pow,
        rustpython_parser::ast::Operator::LShift => PyOperator::LShift,
        rustpython_parser::ast::Operator::RShift => PyOperator::RShift,
        rustpython_parser::ast::Operator::BitOr => PyOperator::BitOr,
        rustpython_parser::ast::Operator::BitXor => PyOperator::BitXor,
        rustpython_parser::ast::Operator::BitAnd => PyOperator::BitAnd,
        rustpython_parser::ast::Operator::FloorDiv => PyOperator::FloorDiv,
    }
}

/// Of a `Compare`: the left operand, the operators and the further operands.
#[verifier::external_body]
fn compare_parts(e: &rustpython_parser::ast::Expr) -> (r: Option<
    (
        &rustpython_parser::ast::Expr,
        &Vec<rustpython_parser::ast::CmpOp>,
        &Vec<rustpython_parser::ast::Expr>,
    ),
>) {
    match e {
        rustpython_parser::ast::Expr::Compare(c) => Some((&c.left, &c.ops, &c.comparators)),
        _ => None,
    }
}

/// A comparison operator as plain data.
#[verifier::external_body]
fn compare_op_kind(op: &rustpython_parser::ast::CmpOp) -> (r: PyCompareOp) {
    match op {
        rustpython_parser::ast::CmpOp::Eq => PyCompareOp::Eq,
        rustpython_parser::ast::CmpOp::NotEq => PyCompareOp::NotEq,
        rustpython_parser::ast::CmpOp::Lt => PyCompareOp::Lt,
        rustpython_parser::ast::CmpOp::LtE => PyCompareOp::LtE,
        rustpython_parser::ast::CmpOp::Gt => PyCompareOp::Gt,
        rustpython_parser::ast::CmpOp::GtE => PyCompareOp::GtE,
        rustpython_parser::ast::CmpOp::Is => PyCompareOp::Is,
        rustpython_parser::ast::CmpOp::IsNot => PyCompareOp::IsNot,
        rustpython_parser::ast::CmpOp::In => PyCompareOp::In,
        rustpython_parser::ast::CmpOp::NotIn => PyCompareOp::NotIn,
    }
}

/// Of a `Subscript`: the indexed expression and the index.
#[verifier::external_body]
fn subscript_parts(e: &rustpython_parser::ast::Expr) -> (r: Option<
    (&rustpython_parser::ast::Expr, &rustpython_parser::ast::Expr),
>) {
    match e {
        rustpython_parser::ast::Expr::Subscript(s) => Some((&s.value, &s.slice)),
        _ => None,
    }
}

/// Of an `Attribute`: the expression and the name of the attribute.
#[verifier::external_body]
fn attribute_parts(e: &rustpython_parser::ast::Expr) -> (r: Option<
    (&rustpython_parser::ast::Expr, &str),
>) {
    match e {
        rustpython_parser::ast::Expr::Attribute(a) => Some((&a.value, a.attr.as_str())),
        _ => None,
    }
}

/// Of a `List`: its elements.
#[verifier::external_body]
fn list_elts(e: &rustpython_parser::ast::Expr) -> (r: Option<&Vec<rustpython_parser::ast::Expr>>) {
    match e {
        rustpython_parser::ast::Expr::List(l) => Some(&l.elts),
        _ => None,
    }
}

/// Of a `Tuple`: its elements.
#[verifier::external_body]
fn tuple_elts(e: &rustpython_parser::ast::Expr) -> (r: Option<&Vec<rustpython_parser::ast::Expr>>) {
    match e {
        rustpython_parser::ast::Expr::Tuple(t) => Some(&t.elts),
        _ => None,
    }
}

/// Of a `ListComp`: the element expression and the `for` clauses.
#[verifier::external_body]
fn list_comp_parts(e: &rustpython_parser::ast::Expr) -> (r: Option<
    (&rustpython_parser::ast::Expr, &Vec<rustpython_parser::ast::Comprehension>),
>) {
    match e {
        rustpython_parser::ast::Expr::ListComp(l) => Some((&l.elt, &l.generators)),
        _ => None,
    }
}

/// Of a `for` clause of a comprehension: its target and its iterable.
#[verifier::external_body]
fn comprehension_parts(c: &rustpython_parser::ast::Comprehension) -> (r: (
    &rustpython_parser::ast::Expr,
    &rustpython_parser::ast::Expr,
)) {
    (&c.target, &c.iter)
}

/// Lowers each of `items`, in order: one expression for each.
fn lower_exprs(items: &Vec<rustpython_parser::ast::Expr>, fuel: usize) -> (r: Vec<PyExpr>)
    ensures
        r@.len() == items@.len(),
        exprs_within(r@, fuel as nat, r@.len()),
    decreases fuel, 1nat,
{
    let mut r: Vec<PyExpr> = Vec::new();
    let mut i: usize = 0;
    while i < items.len()
        invariant
            i <= items.len(),
            r@.len() == i,
            exprs_within(r@, fuel as nat, r@.len()),
        decreases items.len() - i,
    {
        let ghost before = r@;
        r.push(lower_expr(&items[i], fuel));
        proof {
            lemma_exprs_within_prefix(before, r@, fuel as nat, before.len());
        }
        i = i + 1;
    }
    r
}

/// Converts each of `ops`, in order: one operator for each.
fn lower_compare_ops(ops: &Vec<rustpython_parser::ast::CmpOp>) -> (r: Vec<PyCompareOp>)
    ensures
        r@.len() == ops@.len(),
{
    let mut r: Vec<PyCompareOp> = Vec::new();
    let mut i: usize = 0;
    while i < ops.len()
        invariant
            i <= ops.len(),
            r@.len() == i,
        decreases ops.len() - i,
    {
        r.push(compare_op_kind(&ops[i]));
        i = i + 1;
    }
    r
}

/// Lowers each of `items`, in order: one clause for each.
fn lower_generators(items: &Vec<rustpython_parser::ast::Comprehension>, fuel: usize) -> (r: Vec<
    PyComprehension,
>)
    ensures
        r@.len() == items@.len(),
        generators_within(r@, fuel as nat, r@.len()),
    decreases fuel, 1nat,
{
    let mut r: Vec<PyComprehension> = Vec::new();
    let mut i: usize = 0;
    while i < items.len()
        invariant
            i <= items.len(),
            r@.len() == i,
            generators_within(r@, fuel as nat, r@.len()),
        decreases items.len() - i,
    {
        let (target, iter) = comprehension_parts(&items[i]);
        let ghost before = r@;
        r.push(PyComprehension { target: lower_expr(target, fuel), iter: lower_expr(iter, fuel) });
        proof {
            lemma_generators_within_prefix(before, r@, fuel as nat, before.len());
        }
        i = i + 1;
    }
    r
}

/// Lowers one expression. With no fuel left the node becomes `Other`.
fn lower_expr(e: &rustpython_parser::ast::Expr, fuel: usize) -> (r: PyExpr)
    ensures
        expr_within(r, fuel as nat),
    decreases fuel, 0nat,
{
    if fuel == 0 {
        return PyExpr::Other;
    }
    let rest: usize = fuel - 1;
    if let Some(id) = name_id(e) {
        return PyExpr::Name { id: String::from_str(id) };
    }
    if let Some(c) = constant_of(e) {
        return PyExpr::Constant { value: constant_value(c), repr: constant_repr(c) };
    }
    if let Some((op, operand)) = unary_op_parts(e) {
        return PyExpr::UnaryOp {
            op: unary_op_kind(op),
            operand: Box::new(lower_expr(operand, rest)),
        };
    }
    if let Some((op, values)) = bool_op_parts(e) {
        return PyExpr::BoolOp { op: bool_op_kind(op), values: lower_exprs(values, rest) };
    }
    if let Some((func, args)) = call_parts(e) {
        return PyExpr::Call {
            func: Box::new(lower_expr(func, rest)),
            args: lower_exprs(args, rest),
        };
    }
    if let Some((left, op, right)) = bin_op_parts(e) {
        return PyExpr::BinOp {
            left: Box::new(lower_expr(left, rest)),
            op: operator_kind(op),
            right: Box::new(lower_expr(right, rest)),
        };
    }
    if let Some((left, ops, comparators)) = compare_parts(e) {
        return PyExpr::Compare {
            left: Box::new(lower_expr(left, rest)),
            ops: lower_compare_ops(ops),
            comparators: lower_exprs(comparators, rest),
        };
    }
    if let Some((value, slice)) = subscript_parts(e) {
        return PyExpr::Subscript {
            value: Box::new(lower_expr(value, rest)),
            slice: Box::new(lower_expr(slice, rest)),
        };
    }
    if let Some((value, attr)) = attribute_parts(e) {
        return PyExpr::Attribute {
            value: Box::new(lower_expr(value, rest)),
            attr: String::from_str(attr),
        };
    }
    if let Some(elts) = list_elts(e) {
        return PyExpr::List { elts: lower_exprs(elts, rest) };
    }
    if let Some(elts) = tuple_elts(e) {
        return PyExpr::Tuple { elts: lower_exprs(elts, rest) };
    }
    if let Some((elt, generators)) = list_comp_parts(e) {
        return PyExpr::ListComp {
            elt: Box::new(lower_expr(elt, rest)),
            generators: lower_generators(generators, rest),
        };
    }
    PyExpr::Other
}

/// Lowers each of `items`, in order: one parameter for each.
fn lower_params(items: &Vec<rustpython_parser::ast::ArgWithDefault>, fuel: usize) -> (r: Vec<
    PyParam,
>)
    ensures
        r@.len() == items@.len(),
        params_within(r@, fuel as nat),
{
    let mut r: Vec<PyParam> = Vec::new();
    let mut i: usize = 0;
    while i < items.len()
        invariant
            i <= items.len(),
            r@.len() == i,
            params_within(r@, fuel as nat),
        decreases items.len() - i,
    {
        let (name, annotation) = param_parts(&items[i]);
        let annotation = match annotation {
            Some(a) => Some(lower_expr(a, fuel)),
            None => None,
        };
        r.push(PyParam { name: String::from_str(name), annotation });
        i = i + 1;
    }
    r
}

/// Lowers each of `items`, in order: one statement for each.
fn lower_block(items: &Vec<rustpython_parser::ast::Stmt>, fuel: usize) -> (r: Vec<PyStmt>)
    ensures
        r@.len() == items@.len(),
        block_within(r@, fuel as nat, r@.len()),
    decreases fuel, 1nat,
{
    let mut r: Vec<PyStmt> = Vec::new();
    let mut i: usize = 0;
    while i < items.len()
        invariant
            i <= items.len(),
            r@.len() == i,
            block_within(r@, fuel as nat, r@.len()),
        decreases items.len() - i,
    {
        let ghost before = r@;
        r.push(lower_stmt(&items[i], fuel));
        proof {
            lemma_block_within_prefix(before, r@, fuel as nat, before.len());
        }
        i = i + 1;
    }
    r
}

/// Lowers one statement. With no fuel left the node becomes `Other`.
fn lower_stmt(s: &rustpython_parser::ast::Stmt, fuel: usize) -> (r: PyStmt)
    ensures
        stmt_within(r, fuel as nat),
    decreases fuel, 0nat,
{
    if fuel == 0 {
        return PyStmt::Other;
    }
    let rest: usize = fuel - 1;
    if let Some((name, params, body)) = function_def_parts(s) {
        return PyStmt::FunctionDef {
            name: String::from_str(name),
            params: lower_params(params, rest),
            body: lower_block(body, rest),
        };
    }
    if let Some((targets, value)) = assign_parts(s) {
        return PyStmt::Assign { targets: lower_exprs(targets, rest), value: lower_expr(value, rest) };
    }
    if let Some((target, op, value)) = aug_assign_parts(s) {
        return PyStmt::AugAssign {
            target: lower_expr(target, rest),
            op: operator_kind(op),
            value: lower_expr(value, rest),
        };
    }
    if let Some((target, iter, body, orelse)) = for_parts(s) {
        return PyStmt::For {
            target: lower_expr(target, rest),
            iter: lower_expr(iter, rest),
            body: lower_block(body, rest),
            orelse: lower_block(orelse, rest),
        };
    }
    if let Some((test, body, orelse)) = while_parts(s) {
        return PyStmt::While {
            test: lower_expr(test, rest),
            body: lower_block(body, rest),
            orelse: lower_block(orelse, rest),
        };
    }
    if let Some((test, body, orelse)) = if_parts(s) {
        return PyStmt::If {
            test: lower_expr(test, rest),
            body: lower_block(body, rest),
            orelse: lower_block(orelse, rest),
        };
    }
    if let Some(value) = return_value(s) {
        let value = match value {
            Some(v) => Some(lower_expr(v, rest)),
            None => None,
        };
        return PyStmt::Return { value };
    }
    if let Some(value) = expr_stmt_value(s) {
        return PyStmt::Expr { value: lower_expr(value, rest) };
    }
    PyStmt::Other
}

/// Whether a source text is read: it is no longer than `SOURCE_LIMIT`, and
/// the parser accepts it.
pub open spec fn accepted(code: Seq<char>) -> bool {
    code.len() <= SOURCE_LIMIT && parsed_suite(code) is Some
}

/// The number of statements that the parser makes of a source text that is
/// read; none for any other text.
pub open spec fn parsed_len(code: Seq<char>) -> nat {
    if accepted(code) {
        match parsed_suite(code) {
            Some(suite) => suite.len(),
            None => 0,
        }
    } else {
        0
    }
}

/// Parses `code` as a Python module and lowers its statements. The result is
/// `Some` exactly where `code` is no longer than `SOURCE_LIMIT` and the
/// parser accepts it, and then holds one statement for each top-level
/// statement of the parser's tree, none of them nested deeper than
/// `NESTING_LIMIT`. A longer text is not handed to the parser. Which texts
/// the parser accepts, and what each of its nodes holds, is the parser's to
/// say.
pub fn parse_module(code: &str) -> (r: Option<Vec<PyStmt>>)
    ensures
        r is Some == accepted(code@),
        r matches Some(module) ==> module@.len() == parsed_len(code@) && module_within(
            module@,
            NESTING_LIMIT as nat,
        ),
{
    if code.unicode_len() > SOURCE_LIMIT {
        return None;
    }
    match parse_suite(code) {
        Some(suite) => Some(lower_block(&suite, NESTING_LIMIT)),
        None => None,
    }
}

} // verus!
