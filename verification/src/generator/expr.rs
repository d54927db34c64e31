//! Expressions: from a syntax tree to the text of a Rust expression.

use crate::ast::{PyBoolOp, PyCompareOp, PyConstant, PyExpr, PyOperator, PyUnaryOp};
use crate::text::{
    contains_char, escape, escape_text, free_of, has_substring, join, join_text,
    lemma_escape_keeps_free_of_star, lemma_free_is_star_safe, lemma_join_holds_part,
    lemma_occurs_in_middle, lemma_star_safe_concat, lemma_star_safe_has_no_pair,
    lemma_star_safe_join, lemma_substring_extends, same_text, star_alone, star_safe, texts,
};
use vstd::prelude::*;

verus! {

/// What stands in place of an expression that has no translation.
pub const UNSUPPORTED_EXPR: &'static str = "/* unsupported expr */";

/// The guard that an equality test between two lengths turns into, after its
/// condition.
pub const GUARD_TAIL: &'static str =
    " {\n        return Err(pyo3::exceptions::PyValueError::new_err(\"Vectors must be same length\"));\n    }";

/// The text of a literal. A floating-point literal always shows that it is
/// one: where its text holds neither a point nor an exponent, `.0` follows.
pub open spec fn constant_text(value: PyConstant) -> Seq<char> {
    match value {
        PyConstant::Int(digits) => digits@,
        PyConstant::Float(t) => if t@.contains('.') || t@.contains('e') {
            t@
        } else {
            t@ + ".0"@
        },
        PyConstant::Bool(b) => if b {
            "true"@
        } else {
            "false"@
        },
        PyConstant::Str(s) => "\""@ + escape_text(s@) + "\""@,
        PyConstant::NoneValue => "()"@,
        PyConstant::Other => "0"@,
    }
}

/// A prefix operator applied to the text of its operand: the negation and
/// the logical `not` map directly, and any other operator is marked as
/// unsupported.
pub open spec fn unary_text(op: PyUnaryOp, operand: Seq<char>) -> Seq<char> {
    match op {
        PyUnaryOp::USub => "-("@ + operand + ")"@,
        PyUnaryOp::Not => "!"@ + operand,
        _ => UNSUPPORTED_EXPR@,
    }
}

/// The short-circuiting operator that joins the operands of `and` or `or`.
pub open spec fn bool_op_text(op: PyBoolOp) -> Seq<char> {
    match op {
        PyBoolOp::And => " && "@,
        PyBoolOp::Or => " || "@,
    }
}

/// Whether a binary operator maps directly to an operator of the same
/// meaning: the four basic operations and the remainder.
pub open spec fn maps_directly(op: PyOperator) -> bool {
    op == PyOperator::Add || op == PyOperator::Sub || op == PyOperator::Mult || op
        == PyOperator::Div || op == PyOperator::Mod
}

/// The symbol of a binary operator that maps directly; the empty text for
/// any other operator.
pub open spec fn operator_text(op: PyOperator) -> Seq<char> {
    match op {
        PyOperator::Add => "+"@,
        PyOperator::Sub => "-"@,
        PyOperator::Mult => "*"@,
        PyOperator::Div => "/"@,
        PyOperator::Mod => "%"@,
        _ => Seq::empty(),
    }
}

/// The power as a call: the base in brackets, then `powf` on the exponent.
pub open spec fn power_text(base: Seq<char>, exponent: Seq<char>) -> Seq<char> {
    "("@ + base + ")"@ + ".powf("@ + exponent + ")"@
}

/// A binary operation. The power is always a call of `powf`; an operator
/// that maps directly stands between its operands, in brackets; any other
/// operation is marked as unsupported.
pub open spec fn bin_op_text(left: Seq<char>, op: PyOperator, right: Seq<char>) -> Seq<char> {
    if op == PyOperator::Pow {
        power_text(left, right)
    } else if maps_directly(op) {
        "("@ + left + " "@ + operator_text(op) + " "@ + right + ")"@
    } else {
        UNSUPPORTED_EXPR@
    }
}

/// Whether a comparison maps directly: the six comparisons of order and
/// equality, not those of identity and membership.
pub open spec fn compares_directly(op: PyCompareOp) -> bool {
    op == PyCompareOp::Lt || op == PyCompareOp::LtE || op == PyCompareOp::Gt || op
        == PyCompareOp::GtE || op == PyCompareOp::Eq || op == PyCompareOp::NotEq
}

/// The symbol of a comparison that maps directly; the empty text for any
/// other comparison.
pub open spec fn compare_op_text(op: PyCompareOp) -> Seq<char> {
    match op {
        PyCompareOp::Lt => "<"@,
        PyCompareOp::LtE => "<="@,
        PyCompareOp::Gt => ">"@,
        PyCompareOp::GtE => ">="@,
        PyCompareOp::Eq => "=="@,
        PyCompareOp::NotEq => "!="@,
        _ => Seq::empty(),
    }
}

/// A call of the function named `name` on arguments with the texts `args`,
/// where `callee` is the text of the called expression.
pub open spec fn call_text(name: Option<Seq<char>>, callee: Seq<char>, args: Seq<Seq<char>>) -> Seq<
    char,
> {
    if name == Some("range"@) && args.len() == 1 {
        "0.."@ + args[0]
    } else if name == Some("len"@) && args.len() == 1 {
        args[0] + ".len()"@
    } else if name == Some("max"@) && args.len() == 2 {
        "("@ + args[0] + ").max("@ + args[1] + ")"@
    } else if name == Some("min"@) && args.len() == 2 {
        "("@ + args[0] + ").min("@ + args[1] + ")"@
    } else {
        "/* call "@ + callee + " fallback */"@
    }
}

/// The name that an expression consists of, if it is a bare name.
pub open spec fn bare_name(e: PyExpr) -> Option<Seq<char>> {
    match e {
        PyExpr::Name { id } => Some(id@),
        _ => None,
    }
}

/// The texts of a sequence of expressions.
pub open spec fn expr_texts(items: Seq<PyExpr>) -> Seq<Seq<char>>
    decreases items,
{
    Seq::new(
        items.len(),
        |i: int|
            if 0 <= i < items.len() {
                expr_text(items[i])
            } else {
                Seq::empty()
            },
    )
}

/// The Rust text of an expression.
pub open spec fn expr_text(e: PyExpr) -> Seq<char>
    decreases e,
{
    match e {
        PyExpr::Name { id } => id@,
        PyExpr::Constant { value, repr } => constant_text(value),
        PyExpr::UnaryOp { op, operand } => unary_text(op, expr_text(*operand)),
        PyExpr::BoolOp { op, values } => if values@.len() == 0 {
            UNSUPPORTED_EXPR@
        } else {
            join_text(expr_texts(values@), bool_op_text(op))
        },
        PyExpr::Call { func, args } => call_text(
            bare_name(*func),
            expr_text(*func),
            expr_texts(args@),
        ),
        PyExpr::BinOp { left, op, right } => bin_op_text(expr_text(*left), op, expr_text(*right)),
        PyExpr::Compare { left, ops, comparators } => if ops@.len() == 1 && comparators@.len() == 1
            && compares_directly(ops@[0]) {
            expr_text(*left) + " "@ + compare_op_text(ops@[0]) + " "@ + expr_text(comparators@[0])
        } else {
            UNSUPPORTED_EXPR@
        },
        PyExpr::Subscript { value, slice } => expr_text(*value) + "["@ + expr_text(*slice) + "]"@,
        PyExpr::Attribute { value, attr } => expr_text(*value) + "."@ + attr@,
        PyExpr::List { elts } => "vec!["@ + join_text(expr_texts(elts@), ", "@) + "]"@,
        PyExpr::Tuple { elts } => "("@ + join_text(expr_texts(elts@), ", "@) + ")"@,
        _ => UNSUPPORTED_EXPR@,
    }
}

/// The Rust range that a loop over `iter` runs through: `0..n` for
/// `range(n)`, `a..b` for `range(a, b)`, and the text of `iter` otherwise.
pub open spec fn for_iter_text(iter: PyExpr) -> Seq<char> {
    match iter {
        PyExpr::Call { func, args } => if bare_name(*func) == Some("range"@) && args@.len() == 1 {
            "0.."@ + expr_text(args@[0])
        } else if bare_name(*func) == Some("range"@) && args@.len() == 2 {
            expr_text(args@[0]) + ".."@ + expr_text(args@[1])
        } else {
            expr_text(iter)
        },
        _ => expr_text(iter),
    }
}

/// Whether `test` compares two operands with exactly one `==` or `!=`.
pub open spec fn is_equality_test(test: PyExpr) -> bool {
    match test {
        PyExpr::Compare { left, ops, comparators } => ops@.len() == 1 && comparators@.len() == 1 && (
        ops@[0] == PyCompareOp::Eq || ops@[0] == PyCompareOp::NotEq),
        _ => false,
    }
}

/// The guard for an equality test: on the condition, fail with a value error.
pub open spec fn len_guard_text(test: PyExpr) -> Seq<char> {
    "if "@ + expr_text(test) + GUARD_TAIL@
}

/// The power is a call, never an operator: the text of `left ** right` is
/// the text of `left` in brackets, `.powf(`, the text of `right`, and a
/// closing bracket, and so holds `.powf(`.
pub proof fn lemma_power_is_call(left: PyExpr, right: PyExpr)
    ensures
        expr_text(
            PyExpr::BinOp { left: Box::new(left), op: PyOperator::Pow, right: Box::new(right) },
        ) == power_text(expr_text(left), expr_text(right)),
        has_substring(power_text(expr_text(left), expr_text(right)), ".powf("@),
{
    let l = expr_text(left);
    let r = expr_text(right);
    lemma_occurs_in_middle("("@ + l + ")"@, ".powf("@, r + ")"@);
    assert(("("@ + l + ")"@) + ".powf("@ + (r + ")"@) =~= power_text(l, r));
}

/// Whether the text that a literal holds is without star.
pub open spec fn constant_plain(value: PyConstant) -> bool {
    match value {
        PyConstant::Int(digits) => free_of(digits@, '*'),
        PyConstant::Float(t) => free_of(t@, '*'),
        PyConstant::Str(t) => free_of(t@, '*'),
        _ => true,
    }
}

/// Whether the names, attributes and literals of an expression are without
/// star, as far as the translation reads them.
pub open spec fn plain_leaves(e: PyExpr) -> bool
    decreases e, 0nat,
{
    match e {
        PyExpr::Name { id } => free_of(id@, '*'),
        PyExpr::Constant { value, repr } => constant_plain(value),
        PyExpr::UnaryOp { op, operand } => plain_leaves(*operand),
        PyExpr::BoolOp { op, values } => all_plain(values@, values@.len()),
        PyExpr::Call { func, args } => plain_leaves(*func) && all_plain(args@, args@.len()),
        PyExpr::BinOp { left, op, right } => plain_leaves(*left) && plain_leaves(*right),
        PyExpr::Compare { left, ops, comparators } => plain_leaves(*left) && all_plain(
            comparators@,
            comparators@.len(),
        ),
        PyExpr::Subscript { value, slice } => plain_leaves(*value) && plain_leaves(*slice),
        PyExpr::Attribute { value, attr } => plain_leaves(*value) && free_of(attr@, '*'),
        PyExpr::List { elts } => all_plain(elts@, elts@.len()),
        PyExpr::Tuple { elts } => all_plain(elts@, elts@.len()),
        _ => true,
    }
}

/// Whether each of the first `n` expressions has plain leaves.
pub open spec fn all_plain(items: Seq<PyExpr>, n: nat) -> bool
    decreases items, n,
{
    n == 0 || (n <= items.len() && all_plain(items, (n - 1) as nat) && plain_leaves(items[n - 1]))
}

/// Each of the first `n` expressions with plain leaves has plain leaves.
pub proof fn lemma_all_plain_index(items: Seq<PyExpr>, n: nat, i: int)
    requires
        all_plain(items, n),
        0 <= i < n,
    ensures
        n <= items.len(),
        plain_leaves(items[i]),
    decreases n,
{
    if i < n - 1 {
        lemma_all_plain_index(items, (n - 1) as nat, i);
    }
}

proof fn lemma_brackets_are_star_safe()
    ensures
        star_safe("("@),
        star_safe(")"@),
        star_safe("["@),
        star_safe("]"@),
        star_safe("."@),
        star_safe(" "@),
        star_safe(", "@),
        star_safe("vec!["@),
        star_safe("-("@),
        star_safe("!"@),
        star_safe("-"@),
{
    reveal_strlit("(");
    reveal_strlit(")");
    reveal_strlit("[");
    reveal_strlit("]");
    reveal_strlit(".");
    reveal_strlit(" ");
    reveal_strlit(", ");
    reveal_strlit("vec![");
    reveal_strlit("-(");
    reveal_strlit("!");
    reveal_strlit("-");
    assert(star_safe("vec!["@)) by {
        reveal_strlit("vec![");
        lemma_free_is_star_safe("vec!["@);
    }
}

proof fn lemma_call_texts_are_star_safe()
    ensures
        star_safe("0.."@),
        star_safe(".len()"@),
        star_safe(").max("@),
        star_safe(").min("@),
        star_safe(".powf("@),
        star_safe("/* call "@),
        star_safe(" fallback */"@),
        star_safe(" && "@),
        star_safe(" || "@),
{
    assert(star_safe("0.."@)) by {
        reveal_strlit("0..");
    }
    assert(star_safe(".len()"@)) by {
        reveal_strlit(".len()");
        lemma_free_is_star_safe(".len()"@);
    }
    assert(star_safe(").max("@)) by {
        reveal_strlit(").max(");
        lemma_free_is_star_safe(").max("@);
    }
    assert(star_safe(").min("@)) by {
        reveal_strlit(").min(");
        lemma_free_is_star_safe(").min("@);
    }
    assert(star_safe(".powf("@)) by {
        reveal_strlit(".powf(");
        lemma_free_is_star_safe(".powf("@);
    }
    assert(star_safe("/* call "@)) by {
        reveal_strlit("/* call ");
        let s = "/* call "@;
        assert forall|i: int| 0 <= i < s.len() implies #[trigger] star_alone(s, i) by {
            if i == 1 {
            }
        }
    }
    assert(star_safe(" fallback */"@)) by {
        reveal_strlit(" fallback */");
        let s = " fallback */"@;
        assert forall|i: int| 0 <= i < s.len() implies #[trigger] star_alone(s, i) by {
            if i == 10 {
            }
        }
    }
    assert(star_safe(" && "@)) by {
        reveal_strlit(" && ");
    }
    assert(star_safe(" || "@)) by {
        reveal_strlit(" || ");
    }
}

proof fn lemma_marker_is_star_safe()
    ensures
        star_safe(UNSUPPORTED_EXPR@),
{
    reveal_strlit("/* unsupported expr */");
    let s = UNSUPPORTED_EXPR@;
    assert forall|i: int| 0 <= i < s.len() implies #[trigger] star_alone(s, i) by {
        if i == 1 {
        }
        if i == 20 {
        }
    }
}

proof fn lemma_symbols_are_star_safe(op: PyOperator, cmp_op: PyCompareOp)
    requires
        maps_directly(op),
        compares_directly(cmp_op),
    ensures
        star_safe(" "@ + operator_text(op) + " "@),
        star_safe(" "@ + compare_op_text(cmp_op) + " "@),
{
    reveal_strlit(" ");
    reveal_strlit("%");
    reveal_strlit("+");
    reveal_strlit("-");
    reveal_strlit("*");
    reveal_strlit("/");
    reveal_strlit("<=");
    reveal_strlit(">");
    reveal_strlit(">=");
    reveal_strlit("==");
    reveal_strlit("!=");
    reveal_strlit("<");
    let a = " "@ + operator_text(op) + " "@;
    assert forall|i: int| 0 <= i < a.len() implies #[trigger] star_alone(a, i) by {
        assert(a.len() == 3);
        assert(a[0] == ' ');
        assert(a[2] == ' ');
    }
    let b = " "@ + compare_op_text(cmp_op) + " "@;
    assert forall|i: int| 0 <= i < b.len() implies #[trigger] star_alone(b, i) by {
        assert(b[0] == ' ');
        if i > 0 && i < b.len() - 1 {
            assert(b[i] == compare_op_text(cmp_op)[i - 1]);
        }
    }
}

/// The text of a literal without star is one in which every star stands
/// alone.
pub proof fn lemma_constant_star_safe(value: PyConstant)
    requires
        constant_plain(value),
    ensures
        star_safe(constant_text(value)),
{
    match value {
        PyConstant::Int(digits) => {
            lemma_free_is_star_safe(digits@);
        },
        PyConstant::Float(t) => {
            lemma_free_is_star_safe(t@);
            assert(star_safe(".0"@)) by {
                reveal_strlit(".0");
            }
            lemma_star_safe_concat(t@, ".0"@);
        },
        PyConstant::Bool(b) => {
            assert(star_safe("true"@)) by {
                reveal_strlit("true");
            }
            assert(star_safe("false"@)) by {
                reveal_strlit("false");
            }
        },
        PyConstant::Str(t) => {
            lemma_escape_keeps_free_of_star(t@);
            lemma_free_is_star_safe(escape_text(t@));
            assert(star_safe("\""@)) by {
                reveal_strlit("\"");
            }
            lemma_star_safe_concat("\""@, escape_text(t@));
            lemma_star_safe_concat("\""@ + escape_text(t@), "\""@);
        },
        PyConstant::NoneValue => {
            assert(star_safe("()"@)) by {
                reveal_strlit("()");
            }
        },
        PyConstant::Other => {
            assert(star_safe("0"@)) by {
                reveal_strlit("0");
            }
        },
    }
}

/// In the texts of expressions with plain leaves every star stands alone.
pub proof fn lemma_exprs_star_safe(items: Seq<PyExpr>)
    requires
        all_plain(items, items.len()),
    ensures
        forall|i: int| 0 <= i < items.len() ==> star_safe(#[trigger] expr_texts(items)[i]),
        expr_texts(items).len() == items.len(),
    decreases items, 1nat,
{
    assert forall|i: int| 0 <= i < items.len() implies star_safe(
        #[trigger] expr_texts(items)[i],
    ) by {
        lemma_all_plain_index(items, items.len(), i);
        lemma_expr_star_safe(items[i]);
    }
}

/// In the text of an expression with plain leaves every star stands alone:
/// the translation writes a star only as the sign of a product, between two
/// spaces, and inside the marks that stand for what it does not translate.
pub proof fn lemma_expr_star_safe(e: PyExpr)
    requires
        plain_leaves(e),
    ensures
        star_safe(expr_text(e)),
    decreases e, 0nat,
{
    lemma_brackets_are_star_safe();
    lemma_call_texts_are_star_safe();
    lemma_marker_is_star_safe();
    match e {
        PyExpr::Name { id } => {
            lemma_free_is_star_safe(id@);
        },
        PyExpr::Constant { value, repr } => {
            lemma_constant_star_safe(value);
        },
        PyExpr::UnaryOp { op, operand } => {
            lemma_expr_star_safe(*operand);
            let t = expr_text(*operand);
            lemma_star_safe_concat("-("@, t);
            lemma_star_safe_concat("-("@ + t, ")"@);
            lemma_star_safe_concat("!"@, t);
        },
        PyExpr::BoolOp { op, values } => {
            if values@.len() > 0 {
                lemma_exprs_star_safe(values@);
                lemma_star_safe_join(expr_texts(values@), bool_op_text(op));
            }
        },
        PyExpr::Call { func, args } => {
            lemma_expr_star_safe(*func);
            lemma_exprs_star_safe(args@);
            let parts = expr_texts(args@);
            let callee = expr_text(*func);
            lemma_star_safe_concat("/* call "@, callee);
            lemma_star_safe_concat("/* call "@ + callee, " fallback */"@);
            if parts.len() >= 1 {
                lemma_star_safe_concat("0.."@, parts[0]);
                lemma_star_safe_concat(parts[0], ".len()"@);
            }
            if parts.len() >= 2 {
                lemma_star_safe_concat("("@, parts[0]);
                lemma_star_safe_concat("("@ + parts[0], ").max("@);
                lemma_star_safe_concat("("@ + parts[0] + ").max("@, parts[1]);
                lemma_star_safe_concat("("@ + parts[0] + ").max("@ + parts[1], ")"@);
                lemma_star_safe_concat("("@ + parts[0], ").min("@);
                lemma_star_safe_concat("("@ + parts[0] + ").min("@, parts[1]);
                lemma_star_safe_concat("("@ + parts[0] + ").min("@ + parts[1], ")"@);
            }
        },
        PyExpr::BinOp { left, op, right } => {
            lemma_expr_star_safe(*left);
            lemma_expr_star_safe(*right);
            let l = expr_text(*left);
            let r = expr_text(*right);
            lemma_star_safe_concat("("@, l);
            if op == PyOperator::Pow {
                lemma_star_safe_concat("("@ + l, ")"@);
                lemma_star_safe_concat("("@ + l + ")"@, ".powf("@);
                lemma_star_safe_concat("("@ + l + ")"@ + ".powf("@, r);
                lemma_star_safe_concat("("@ + l + ")"@ + ".powf("@ + r, ")"@);
            } else if maps_directly(op) {
                lemma_symbols_are_star_safe(op, PyCompareOp::Eq);
                let sign = " "@ + operator_text(op) + " "@;
                lemma_star_safe_concat("("@ + l, sign);
                lemma_star_safe_concat("("@ + l + sign, r);
                lemma_star_safe_concat("("@ + l + sign + r, ")"@);
                assert("("@ + l + sign + r + ")"@ =~= "("@ + l + " "@ + operator_text(op) + " "@
                    + r + ")"@);
            }
        },
        PyExpr::Compare { left, ops, comparators } => {
            if ops@.len() == 1 && comparators@.len() == 1 && compares_directly(ops@[0]) {
                lemma_expr_star_safe(*left);
                lemma_all_plain_index(comparators@, comparators@.len(), 0);
                lemma_expr_star_safe(comparators@[0]);
                lemma_symbols_are_star_safe(PyOperator::Add, ops@[0]);
                let l = expr_text(*left);
                let r = expr_text(comparators@[0]);
                let sign = " "@ + compare_op_text(ops@[0]) + " "@;
                lemma_star_safe_concat(l, sign);
                lemma_star_safe_concat(l + sign, r);
                assert(l + sign + r =~= l + " "@ + compare_op_text(ops@[0]) + " "@ + r);
            }
        },
        PyExpr::Subscript { value, slice } => {
            lemma_expr_star_safe(*value);
            lemma_expr_star_safe(*slice);
            let v = expr_text(*value);
            let i = expr_text(*slice);
            lemma_star_safe_concat(v, "["@);
            lemma_star_safe_concat(v + "["@, i);
            lemma_star_safe_concat(v + "["@ + i, "]"@);
        },
        PyExpr::Attribute { value, attr } => {
            lemma_expr_star_safe(*value);
            lemma_free_is_star_safe(attr@);
            lemma_star_safe_concat(expr_text(*value), "."@);
            lemma_star_safe_concat(expr_text(*value) + "."@, attr@);
        },
        PyExpr::List { elts } => {
            lemma_exprs_star_safe(elts@);
            lemma_star_safe_join(expr_texts(elts@), ", "@);
            let inner = join_text(expr_texts(elts@), ", "@);
            lemma_star_safe_concat("vec!["@, inner);
            lemma_star_safe_concat("vec!["@ + inner, "]"@);
        },
        PyExpr::Tuple { elts } => {
            lemma_exprs_star_safe(elts@);
            lemma_star_safe_join(expr_texts(elts@), ", "@);
            let inner = join_text(expr_texts(elts@), ", "@);
            lemma_star_safe_concat("("@, inner);
            lemma_star_safe_concat("("@ + inner, ")"@);
        },
        _ => {},
    }
}

/// Whether a power stands in an expression where the translation reads
/// it: not below an operator or a call that is marked instead of
/// translated.
pub open spec fn has_power(e: PyExpr) -> bool
    decreases e, 0nat,
{
    match e {
        PyExpr::UnaryOp { op, operand } => (op == PyUnaryOp::USub || op == PyUnaryOp::Not)
            && has_power(*operand),
        PyExpr::BoolOp { op, values } => any_has_power(values@, values@.len()),
        PyExpr::Call { func, args } => if (bare_name(*func) == Some("range"@) || bare_name(*func)
            == Some("len"@)) && args@.len() == 1 {
            has_power(args@[0])
        } else if (bare_name(*func) == Some("max"@) || bare_name(*func) == Some("min"@))
            && args@.len() == 2 {
            has_power(args@[0]) || has_power(args@[1])
        } else {
            has_power(*func)
        },
        PyExpr::BinOp { left, op, right } => op == PyOperator::Pow || (maps_directly(op) && (
        has_power(*left) || has_power(*right))),
        PyExpr::Compare { left, ops, comparators } => ops@.len() == 1 && comparators@.len() == 1
            && compares_directly(ops@[0]) && (has_power(*left) || has_power(comparators@[0])),
        PyExpr::Subscript { value, slice } => has_power(*value) || has_power(*slice),
        PyExpr::Attribute { value, attr } => has_power(*value),
        PyExpr::List { elts } => any_has_power(elts@, elts@.len()),
        PyExpr::Tuple { elts } => any_has_power(elts@, elts@.len()),
        _ => false,
    }
}

/// Whether a power stands in one of the first `n` expressions where the
/// translation reads it.
pub open spec fn any_has_power(items: Seq<PyExpr>, n: nat) -> bool
    decreases items, n,
{
    n > 0 && n <= items.len() && (any_has_power(items, (n - 1) as nat) || has_power(items[n - 1]))
}

/// The texts of expressions of which one holds a power, joined, hold a call
/// of `powf`.
pub proof fn lemma_powers_are_calls(items: Seq<PyExpr>, n: nat, sep: Seq<char>)
    requires
        any_has_power(items, n),
    ensures
        has_substring(join_text(expr_texts(items), sep), ".powf("@),
    decreases items, n,
{
    if any_has_power(items, (n - 1) as nat) {
        lemma_powers_are_calls(items, (n - 1) as nat, sep);
    } else {
        lemma_power_reaches_text(items[n - 1]);
        lemma_join_holds_part(expr_texts(items), sep, n - 1, ".powf("@);
    }
}

/// Every power that the translation reads reaches the text as a call: the
/// text of an expression in which one stands holds `.powf(`.
pub proof fn lemma_power_reaches_text(e: PyExpr)
    requires
        has_power(e),
    ensures
        has_substring(expr_text(e), ".powf("@),
    decreases e, 0nat,
{
    let x = ".powf("@;
    let none = Seq::<char>::empty();
    match e {
        PyExpr::UnaryOp { op, operand } => {
            lemma_power_reaches_text(*operand);
            let t = expr_text(*operand);
            lemma_substring_extends(t, x, "-("@, ")"@);
            lemma_substring_extends(t, x, "!"@, none);
            assert("!"@ + t + none =~= "!"@ + t);
        },
        PyExpr::BoolOp { op, values } => {
            assert(any_has_power(values@, values@.len()));
            assert(values@.len() > 0);
            lemma_powers_are_calls(values@, values@.len(), bool_op_text(op));
        },
        PyExpr::Call { func, args } => {
            let parts = expr_texts(args@);
            if (bare_name(*func) == Some("range"@) || bare_name(*func) == Some("len"@))
                && args@.len() == 1 {
                lemma_power_reaches_text(args@[0]);
                lemma_substring_extends(parts[0], x, "0.."@, none);
                assert("0.."@ + parts[0] + none =~= "0.."@ + parts[0]);
                lemma_substring_extends(parts[0], x, none, ".len()"@);
                assert(none + parts[0] + ".len()"@ =~= parts[0] + ".len()"@);
            } else if (bare_name(*func) == Some("max"@) || bare_name(*func) == Some("min"@))
                && args@.len() == 2 {
                if has_power(args@[0]) {
                    lemma_power_reaches_text(args@[0]);
                    lemma_substring_extends(parts[0], x, "("@, ").max("@ + parts[1] + ")"@);
                    assert("("@ + parts[0] + (").max("@ + parts[1] + ")"@) =~= "("@ + parts[0]
                        + ").max("@ + parts[1] + ")"@);
                    lemma_substring_extends(parts[0], x, "("@, ").min("@ + parts[1] + ")"@);
                    assert("("@ + parts[0] + (").min("@ + parts[1] + ")"@) =~= "("@ + parts[0]
                        + ").min("@ + parts[1] + ")"@);
                } else {
                    lemma_power_reaches_text(args@[1]);
                    lemma_substring_extends(parts[1], x, "("@ + parts[0] + ").max("@, ")"@);
                    lemma_substring_extends(parts[1], x, "("@ + parts[0] + ").min("@, ")"@);
                }
            } else {
                lemma_power_reaches_text(*func);
                lemma_substring_extends(expr_text(*func), x, "/* call "@, " fallback */"@);
            }
        },
        PyExpr::BinOp { left, op, right } => {
            let l = expr_text(*left);
            let r = expr_text(*right);
            if op == PyOperator::Pow {
                lemma_occurs_in_middle("("@ + l + ")"@, x, r + ")"@);
                assert(("("@ + l + ")"@) + x + (r + ")"@) =~= power_text(l, r));
            } else if has_power(*left) {
                lemma_power_reaches_text(*left);
                lemma_substring_extends(l, x, "("@, " "@ + operator_text(op) + " "@ + r + ")"@);
                assert("("@ + l + (" "@ + operator_text(op) + " "@ + r + ")"@) =~= "("@ + l + " "@
                    + operator_text(op) + " "@ + r + ")"@);
            } else {
                lemma_power_reaches_text(*right);
                lemma_substring_extends(r, x, "("@ + l + " "@ + operator_text(op) + " "@, ")"@);
            }
        },
        PyExpr::Compare { left, ops, comparators } => {
            let l = expr_text(*left);
            let r = expr_text(comparators@[0]);
            let sign = " "@ + compare_op_text(ops@[0]) + " "@;
            if has_power(*left) {
                lemma_power_reaches_text(*left);
                lemma_substring_extends(l, x, none, sign + r);
                assert(none + l + (sign + r) =~= l + " "@ + compare_op_text(ops@[0]) + " "@ + r);
            } else {
                lemma_power_reaches_text(comparators@[0]);
                lemma_substring_extends(r, x, l + " "@ + compare_op_text(ops@[0]) + " "@, none);
                assert(l + " "@ + compare_op_text(ops@[0]) + " "@ + r + none =~= l + " "@
                    + compare_op_text(ops@[0]) + " "@ + r);
            }
        },
        PyExpr::Subscript { value, slice } => {
            let v = expr_text(*value);
            let i = expr_text(*slice);
            if has_power(*value) {
                lemma_power_reaches_text(*value);
                lemma_substring_extends(v, x, none, "["@ + i + "]"@);
                assert(none + v + ("["@ + i + "]"@) =~= v + "["@ + i + "]"@);
            } else {
                lemma_power_reaches_text(*slice);
                lemma_substring_extends(i, x, v + "["@, "]"@);
            }
        },
        PyExpr::Attribute { value, attr } => {
            lemma_power_reaches_text(*value);
            let v = expr_text(*value);
            lemma_substring_extends(v, x, none, "."@ + attr@);
            assert(none + v + ("."@ + attr@) =~= v + "."@ + attr@);
        },
        PyExpr::List { elts } => {
            lemma_powers_are_calls(elts@, elts@.len(), ", "@);
            lemma_substring_extends(join_text(expr_texts(elts@), ", "@), x, "vec!["@, "]"@);
        },
        PyExpr::Tuple { elts } => {
            lemma_powers_are_calls(elts@, elts@.len(), ", "@);
            lemma_substring_extends(join_text(expr_texts(elts@), ", "@), x, "("@, ")"@);
        },
        _ => {},
    }
}

/// The power never reaches the text as an operator: the text of an
/// expression whose names, attributes and literals are without star holds no
/// two stars in a row.
pub proof fn lemma_no_power_operator(e: PyExpr)
    requires
        plain_leaves(e),
    ensures
        !has_substring(expr_text(e), "**"@),
{
    lemma_expr_star_safe(e);
    lemma_star_safe_has_no_pair(expr_text(e));
}

/// The text of a literal.
pub fn constant_to_rust(value: &PyConstant) -> (r: String)
    ensures
        r@ == constant_text(*value),
{
    match value {
        PyConstant::Int(digits) => digits.clone(),
        PyConstant::Float(t) => {
            let mut s = t.clone();
            if contains_char(t.as_str(), '.') || contains_char(t.as_str(), 'e') {
                s
            } else {
                s.append(".0");
                s
            }
        },
        PyConstant::Bool(b) => if *b {
            String::from_str("true")
        } else {
            String::from_str("false")
        },
        PyConstant::Str(s) => {
            let mut r = String::from_str("\"");
            let inner = escape(s.as_str());
            r.append(inner.as_str());
            r.append("\"");
            r
        },
        PyConstant::NoneValue => String::from_str("()"),
        PyConstant::Other => String::from_str("0"),
    }
}

fn operator_symbol(op: PyOperator) -> (r: Option<&'static str>)
    ensures
        r is Some == maps_directly(op),
        r matches Some(t) ==> t@ == operator_text(op),
{
    match op {
        PyOperator::Add => Some("+"),
        PyOperator::Sub => Some("-"),
        PyOperator::Mult => Some("*"),
        PyOperator::Div => Some("/"),
        PyOperator::Mod => Some("%"),
        _ => None,
    }
}

fn compare_symbol(op: PyCompareOp) -> (r: Option<&'static str>)
    ensures
        r is Some == compares_directly(op),
        r matches Some(t) ==> t@ == compare_op_text(op),
{
    match op {
        PyCompareOp::Lt => Some("<"),
        PyCompareOp::LtE => Some("<="),
        PyCompareOp::Gt => Some(">"),
        PyCompareOp::GtE => Some(">="),
        PyCompareOp::Eq => Some("=="),
        PyCompareOp::NotEq => Some("!="),
        _ => None,
    }
}

/// Whether `e` is the bare name `name`.
pub fn is_name(e: &PyExpr, name: &str) -> (b: bool)
    ensures
        b == (bare_name(*e) == Some(name@)),
{
    match e {
        PyExpr::Name { id } => same_text(id.as_str(), name),
        _ => false,
    }
}

/// The texts of `items`, in order.
pub fn exprs_to_rust(items: &Vec<PyExpr>) -> (r: Vec<String>)
    ensures
        texts(r@) == expr_texts(items@),
    decreases items,
{
    let mut r: Vec<String> = Vec::new();
    let mut i: usize = 0;
    while i < items.len()
        invariant
            i <= items.len(),
            r.len() == i,
            forall|j: int| 0 <= j < i ==> r@[j]@ == expr_text(items@[j]),
        decreases items.len() - i,
    {
        let item = &items[i];
        assert(decreases_to!(*items => items[i as int]));
        let t = expr_to_rust(item);
        r.push(t);
        i = i + 1;
    }
    assert(texts(r@) =~= expr_texts(items@));
    r
}

/// Translates a Python expression to the text of a Rust expression.
pub fn expr_to_rust(e: &PyExpr) -> (r: String)
    ensures
        r@ == expr_text(*e),
    decreases e,
{
    match e {
        PyExpr::Name { id } => id.clone(),
        PyExpr::Constant { value, repr } => constant_to_rust(value),
        PyExpr::UnaryOp { op, operand } => {
            let inner = expr_to_rust(operand);
            match op {
                PyUnaryOp::USub => {
                    let mut r = String::from_str("-(");
                    r.append(inner.as_str());
                    r.append(")");
                    r
                },
                PyUnaryOp::Not => {
                    let mut r = String::from_str("!");
                    r.append(inner.as_str());
                    r
                },
                _ => String::from_str(UNSUPPORTED_EXPR),
            }
        },
        PyExpr::BoolOp { op, values } => {
            if values.len() == 0 {
                String::from_str(UNSUPPORTED_EXPR)
            } else {
                let parts = exprs_to_rust(values);
                match op {
                    PyBoolOp::And => join(&parts, " && "),
                    PyBoolOp::Or => join(&parts, " || "),
                }
            }
        },
        PyExpr::Call { func, args } => {
            let parts = exprs_to_rust(args);
            proof {
                assert(parts@.len() == texts(parts@).len());
                if parts@.len() > 0 {
                    assert(texts(parts@)[0] == parts@[0]@);
                }
                if parts@.len() > 1 {
                    assert(texts(parts@)[1] == parts@[1]@);
                }
            }
            if is_name(func, "range") && parts.len() == 1 {
                let mut r = String::from_str("0..");
                r.append(parts[0].as_str());
                r
            } else if is_name(func, "len") && parts.len() == 1 {
                let mut r = parts[0].clone();
                r.append(".len()");
                r
            } else if is_name(func, "max") && parts.len() == 2 {
                let mut r = String::from_str("(");
                r.append(parts[0].as_str());
                r.append(").max(");
                r.append(parts[1].as_str());
                r.append(")");
                r
            } else if is_name(func, "min") && parts.len() == 2 {
                let mut r = String::from_str("(");
                r.append(parts[0].as_str());
                r.append(").min(");
                r.append(parts[1].as_str());
                r.append(")");
                r
            } else {
                let callee = expr_to_rust(func);
                let mut r = String::from_str("/* call ");
                r.append(callee.as_str());
                r.append(" fallback */");
                r
            }
        },
        PyExpr::BinOp { left, op, right } => {
            let l = expr_to_rust(left);
            let rt = expr_to_rust(right);
            let mut r = String::from_str("(");
            r.append(l.as_str());
            match op {
                PyOperator::Pow => {
                    r.append(")");
                    r.append(".powf(");
                    r.append(rt.as_str());
                    r.append(")");
                    r
                },
                _ => match operator_symbol(*op) {
                    Some(symbol) => {
                        r.append(" ");
                        r.append(symbol);
                        r.append(" ");
                        r.append(rt.as_str());
                        r.append(")");
                        r
                    },
                    None => String::from_str(UNSUPPORTED_EXPR),
                },
            }
        },
        PyExpr::Compare { left, ops, comparators } => {
            if ops.len() == 1 && comparators.len() == 1 {
                match compare_symbol(ops[0]) {
                    Some(symbol) => {
                        let mut r = expr_to_rust(left);
                        let right = &comparators[0];
                        assert(decreases_to!(*comparators => comparators[0]));
                        let rt = expr_to_rust(right);
                        r.append(" ");
                        r.append(symbol);
                        r.append(" ");
                        r.append(rt.as_str());
                        r
                    },
                    None => String::from_str(UNSUPPORTED_EXPR),
                }
            } else {
                String::from_str(UNSUPPORTED_EXPR)
            }
        },
        PyExpr::Subscript { value, slice } => {
            let mut r = expr_to_rust(value);
            let index = expr_to_rust(slice);
            r.append("[");
            r.append(index.as_str());
            r.append("]");
            r
        },
        PyExpr::Attribute { value, attr } => {
            let mut r = expr_to_rust(value);
            r.append(".");
            r.append(attr.as_str());
            r
        },
        PyExpr::List { elts } => {
            let parts = exprs_to_rust(elts);
            let inner = join(&parts, ", ");
            let mut r = String::from_str("vec![");
            r.append(inner.as_str());
            r.append("]");
            r
        },
        PyExpr::Tuple { elts } => {
            let parts = exprs_to_rust(elts);
            let inner = join(&parts, ", ");
            let mut r = String::from_str("(");
            r.append(inner.as_str());
            r.append(")");
            r
        },
        _ => String::from_str(UNSUPPORTED_EXPR),
    }
}

/// Translates the iterable of a `for` loop to the text of a Rust range.
pub fn translate_for_iter(iter: &PyExpr) -> (r: String)
    ensures
        r@ == for_iter_text(*iter),
{
    match iter {
        PyExpr::Call { func, args } => {
            if is_name(func, "range") && args.len() == 1 {
                let mut r = String::from_str("0..");
                let a = expr_to_rust(&args[0]);
                r.append(a.as_str());
                r
            } else if is_name(func, "range") && args.len() == 2 {
                let mut r = expr_to_rust(&args[0]);
                let b = expr_to_rust(&args[1]);
                r.append("..");
                r.append(b.as_str());
                r
            } else {
                expr_to_rust(iter)
            }
        },
        _ => expr_to_rust(iter),
    }
}

/// Translates the test of a `while` loop. A bare name, a negation and a
/// comparison are read directly; whatever they yield is what
/// `expr_to_rust` yields for the same test.
pub fn translate_while_test(test: &PyExpr) -> (r: String)
    ensures
        r@ == expr_text(*test),
    decreases test,
{
    match test {
        PyExpr::Name { id } => id.clone(),
        PyExpr::UnaryOp { op, operand } => {
            match op {
                PyUnaryOp::Not => {
                    let mut r = String::from_str("!");
                    let inner = translate_while_test(operand);
                    r.append(inner.as_str());
                    r
                },
                _ => expr_to_rust(test),
            }
        },
        _ => expr_to_rust(test),
    }
}

/// Whether `test` compares two operands with exactly one `==` or `!=`.
pub fn is_equality(test: &PyExpr) -> (b: bool)
    ensures
        b == is_equality_test(*test),
{
    match test {
        PyExpr::Compare { left, ops, comparators } => {
            if ops.len() == 1 && comparators.len() == 1 {
                match ops[0] {
                    PyCompareOp::Eq => true,
                    PyCompareOp::NotEq => true,
                    _ => false,
                }
            } else {
                false
            }
        },
        _ => false,
    }
}

/// Reads the test of an `if` as a length guard. The result is `Some`
/// exactly for a test with one `==` or `!=`.
pub fn translate_len_guard(test: &PyExpr) -> (r: Option<String>)
    ensures
        r is Some == is_equality_test(*test),
        r matches Some(g) ==> g@ == len_guard_text(*test),
{
    if is_equality(test) {
        let mut g = String::from_str("if ");
        let cond = expr_to_rust(test);
        g.append(cond.as_str());
        g.append(GUARD_TAIL);
        Some(g)
    } else {
        None
    }
}

} // verus!
