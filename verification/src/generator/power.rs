//! The power never reaches the generated text as an operator: in the text
//! of a block whose names, attributes and literals are without star, every
//! star stands alone, as the sign of a product or inside a comment.

use crate::ast::{PyExpr, PyOperator, PyStmt};
use crate::generator::expr::{
    all_plain, expr_text, for_iter_text, has_power, is_equality_test, lemma_all_plain_index,
    lemma_expr_star_safe, lemma_power_reaches_text, len_guard_text, plain_leaves, GUARD_TAIL,
};
use crate::generator::infer::assign_type_text;
use crate::generator::translate::{
    append_text, assign_text, aug_op_text, binding_name, block_lines, block_text,
    broadcast_text, comprehension_text, deeper, expr_stmt_text, fill_text, function_body,
    function_translation, implicit_return, is_append_call, is_broadcast, is_single_comprehension,
    plain_return, plain_target_text, return_text, stmt_text,
    stmt_translates, with_newline, UNHANDLED_LINE,
};
use crate::text::{
    free_of, has_substring, indent_text, lemma_free_is_star_safe, lemma_indent_is_star_safe,
    lemma_star_safe_3, lemma_star_safe_5, lemma_star_safe_7, lemma_star_safe_concat,
    lemma_star_safe_has_no_pair, lemma_substring_extends, star_alone, star_safe,
};
use vstd::prelude::*;

verus! {

/// Whether the parts of a comprehension with one clause are without star:
/// its element, and the target and the iterable of its clause.
pub open spec fn plain_comprehension(value: PyExpr) -> bool {
    match value {
        PyExpr::ListComp { elt, generators } => generators@.len() == 1 ==> plain_leaves(*elt)
            && plain_leaves(generators@[0].target) && plain_leaves(generators@[0].iter),
        _ => true,
    }
}

/// Whether the names, attributes and literals of a statement are without
/// star, in every expression and every nested statement.
pub open spec fn plain_stmt(s: PyStmt) -> bool
    decreases s, 0nat,
{
    match s {
        PyStmt::Assign { targets, value } => all_plain(targets@, targets@.len()) && plain_leaves(
            value,
        ) && plain_comprehension(value),
        PyStmt::AugAssign { target, op, value } => plain_leaves(target) && plain_leaves(value),
        PyStmt::For { target, iter, body, orelse } => plain_leaves(target) && plain_leaves(iter)
            && plain_block(body@, body@.len()),
        PyStmt::While { test, body, orelse } => plain_leaves(test) && plain_block(
            body@,
            body@.len(),
        ),
        PyStmt::If { test, body, orelse } => plain_leaves(test) && plain_block(body@, body@.len())
            && plain_block(orelse@, orelse@.len()),
        PyStmt::Return { value } => match value {
            Some(v) => plain_leaves(v),
            None => true,
        },
        PyStmt::Expr { value } => plain_leaves(value),
        _ => true,
    }
}

/// Whether the first `n` statements of a block are plain.
pub open spec fn plain_block(body: Seq<PyStmt>, n: nat) -> bool
    decreases body, n,
{
    n == 0 || (n <= body.len() && plain_block(body, (n - 1) as nat) && plain_stmt(body[n - 1]))
}

proof fn lemma_assign_literals()
    ensures
        star_safe("let mut "@),
        star_safe(" = vec!["@),
        star_safe("; "@),
        star_safe("];"@),
        star_safe("f64"@),
        star_safe("let "@),
        star_safe(": Vec<f64> = "@),
        star_safe(".iter().map(|"@),
        star_safe("| "@),
        star_safe(").collect();"@),
        star_safe("result"@),
        star_safe(": f64"@),
        star_safe(": i64"@),
        star_safe(""@),
        star_safe("// attribute assign "@),
        star_safe("// complex assign "@),
        star_safe(" = "@),
        star_safe(";"@),
{
    assert(star_safe("let mut "@)) by {
        reveal_strlit("let mut ");
        lemma_free_is_star_safe("let mut "@);
    }
    assert(star_safe(" = vec!["@)) by {
        reveal_strlit(" = vec![");
        lemma_free_is_star_safe(" = vec!["@);
    }
    assert(star_safe("; "@)) by {
        reveal_strlit("; ");
        lemma_free_is_star_safe("; "@);
    }
    assert(star_safe("];"@)) by {
        reveal_strlit("];");
        lemma_free_is_star_safe("];"@);
    }
    assert(star_safe("f64"@)) by {
        reveal_strlit("f64");
        lemma_free_is_star_safe("f64"@);
    }
    assert(star_safe("let "@)) by {
        reveal_strlit("let ");
        lemma_free_is_star_safe("let "@);
    }
    assert(star_safe(": Vec<f64> = "@)) by {
        reveal_strlit(": Vec<f64> = ");
        lemma_free_is_star_safe(": Vec<f64> = "@);
    }
    assert(star_safe(".iter().map(|"@)) by {
        reveal_strlit(".iter().map(|");
        lemma_free_is_star_safe(".iter().map(|"@);
    }
    assert(star_safe("| "@)) by {
        reveal_strlit("| ");
        lemma_free_is_star_safe("| "@);
    }
    assert(star_safe(").collect();"@)) by {
        reveal_strlit(").collect();");
        lemma_free_is_star_safe(").collect();"@);
    }
    assert(star_safe("result"@)) by {
        reveal_strlit("result");
        lemma_free_is_star_safe("result"@);
    }
    assert(star_safe(": f64"@)) by {
        reveal_strlit(": f64");
        lemma_free_is_star_safe(": f64"@);
    }
    assert(star_safe(": i64"@)) by {
        reveal_strlit(": i64");
        lemma_free_is_star_safe(": i64"@);
    }
    assert(star_safe(""@)) by {
        reveal_strlit("");
        lemma_free_is_star_safe(""@);
    }
    assert(star_safe("// attribute assign "@)) by {
        reveal_strlit("// attribute assign ");
        lemma_free_is_star_safe("// attribute assign "@);
    }
    assert(star_safe("// complex assign "@)) by {
        reveal_strlit("// complex assign ");
        lemma_free_is_star_safe("// complex assign "@);
    }
    assert(star_safe(" = "@)) by {
        reveal_strlit(" = ");
        lemma_free_is_star_safe(" = "@);
    }
    assert(star_safe(";"@)) by {
        reveal_strlit(";");
        lemma_free_is_star_safe(";"@);
    }
}

proof fn lemma_statement_literals()
    ensures
        star_safe(".push("@),
        star_safe(");"@),
        star_safe("// docstring omitted"@),
        star_safe("// expr: "@),
        star_safe("return Ok("@),
        star_safe("return Ok(());"@),
        star_safe("for "@),
        star_safe(" in "@),
        star_safe(" {\n"@),
        star_safe("    // unhandled loop body"@),
        star_safe("\n"@),
        star_safe("}"@),
        star_safe("while "@),
        star_safe("    // unhandled while body"@),
        star_safe("if "@),
        star_safe("// unhandled if body"@),
        star_safe(" else {\n"@),
        star_safe("0.."@),
        star_safe(".."@),
        star_safe(");\n"@),
        star_safe("output"@),
        star_safe("result"@),
        star_safe(" "@),
        star_safe(GUARD_TAIL@),
        star_safe(UNHANDLED_LINE@),
{
    assert(star_safe(".push("@)) by {
        reveal_strlit(".push(");
        lemma_free_is_star_safe(".push("@);
    }
    assert(star_safe(");"@)) by {
        reveal_strlit(");");
        lemma_free_is_star_safe(");"@);
    }
    assert(star_safe("// docstring omitted"@)) by {
        reveal_strlit("// docstring omitted");
        lemma_free_is_star_safe("// docstring omitted"@);
    }
    assert(star_safe("// expr: "@)) by {
        reveal_strlit("// expr: ");
        lemma_free_is_star_safe("// expr: "@);
    }
    assert(star_safe("return Ok("@)) by {
        reveal_strlit("return Ok(");
        lemma_free_is_star_safe("return Ok("@);
    }
    assert(star_safe("return Ok(());"@)) by {
        reveal_strlit("return Ok(());");
        lemma_free_is_star_safe("return Ok(());"@);
    }
    assert(star_safe("for "@)) by {
        reveal_strlit("for ");
        lemma_free_is_star_safe("for "@);
    }
    assert(star_safe(" in "@)) by {
        reveal_strlit(" in ");
        lemma_free_is_star_safe(" in "@);
    }
    assert(star_safe(" {\n"@)) by {
        reveal_strlit(" {\n");
        lemma_free_is_star_safe(" {\n"@);
    }
    assert(star_safe("    // unhandled loop body"@)) by {
        reveal_strlit("    // unhandled loop body");
        lemma_free_is_star_safe("    // unhandled loop body"@);
    }
    assert(star_safe("\n"@)) by {
        reveal_strlit("\n");
        lemma_free_is_star_safe("\n"@);
    }
    assert(star_safe("}"@)) by {
        reveal_strlit("}");
        lemma_free_is_star_safe("}"@);
    }
    assert(star_safe("while "@)) by {
        reveal_strlit("while ");
        lemma_free_is_star_safe("while "@);
    }
    assert(star_safe("    // unhandled while body"@)) by {
        reveal_strlit("    // unhandled while body");
        lemma_free_is_star_safe("    // unhandled while body"@);
    }
    assert(star_safe("if "@)) by {
        reveal_strlit("if ");
        lemma_free_is_star_safe("if "@);
    }
    assert(star_safe("// unhandled if body"@)) by {
        reveal_strlit("// unhandled if body");
        lemma_free_is_star_safe("// unhandled if body"@);
    }
    assert(star_safe(" else {\n"@)) by {
        reveal_strlit(" else {\n");
        lemma_free_is_star_safe(" else {\n"@);
    }
    assert(star_safe("0.."@)) by {
        reveal_strlit("0..");
        lemma_free_is_star_safe("0.."@);
    }
    assert(star_safe(".."@)) by {
        reveal_strlit("..");
        lemma_free_is_star_safe(".."@);
    }
    assert(star_safe(");\n"@)) by {
        reveal_strlit(");\n");
        lemma_free_is_star_safe(");\n"@);
    }
    assert(star_safe("output"@)) by {
        reveal_strlit("output");
        lemma_free_is_star_safe("output"@);
    }
    assert(star_safe("result"@)) by {
        reveal_strlit("result");
        lemma_free_is_star_safe("result"@);
    }
    assert(star_safe(" "@)) by {
        reveal_strlit(" ");
        lemma_free_is_star_safe(" "@);
    }
    assert(star_safe(GUARD_TAIL@)) by {
        reveal_strlit(" {\n        return Err(pyo3::exceptions::PyValueError::new_err(\"Vectors must be same length\"));\n    }");
        lemma_free_is_star_safe(GUARD_TAIL@);
    }
    assert(star_safe(UNHANDLED_LINE@)) by {
        reveal_strlit("// Unhandled stmt\n");
        lemma_free_is_star_safe(UNHANDLED_LINE@);
    }
}

proof fn lemma_aug_op_is_star_safe(op: PyOperator)
    ensures
        star_safe(" "@ + aug_op_text(op) + " "@),
{
    reveal_strlit(" ");
    reveal_strlit("+=");
    reveal_strlit("-=");
    reveal_strlit("*=");
    reveal_strlit("/=");
    let a = " "@ + aug_op_text(op) + " "@;
    assert forall|i: int| 0 <= i < a.len() implies #[trigger] star_alone(a, i) by {
        assert(a.len() == 4);
        assert(a[0] == ' ');
        assert(a[2] == '=');
        assert(a[3] == ' ');
    }
}

/// In the name that an assignment binds every star stands alone.
proof fn lemma_binding_is_star_safe(target: PyExpr)
    requires
        plain_leaves(target),
    ensures
        star_safe(binding_name(target)),
{
    lemma_assign_literals();
    match target {
        PyExpr::Name { id } => {
            lemma_free_is_star_safe(id@);
        },
        _ => {},
    }
}

/// In the text of an assignment of plain expressions every star stands
/// alone.
proof fn lemma_assign_is_star_safe(target: PyExpr, value: PyExpr)
    requires
        plain_leaves(target),
        plain_leaves(value),
        plain_comprehension(value),
    ensures
        star_safe(assign_text(target, value)),
{
    lemma_assign_literals();
    lemma_expr_star_safe(target);
    lemma_expr_star_safe(value);
    lemma_binding_is_star_safe(target);
    let t = expr_text(target);
    let v = expr_text(value);
    let var = binding_name(target);
    if target is Subscript {
        lemma_star_safe_3(t, " = "@, v);
        lemma_star_safe_concat(t + " = "@ + v, ";"@);
    } else if is_broadcast(value) {
        match value {
            PyExpr::BinOp { left, op, right } => {
                assert(plain_leaves(*left));
                assert(plain_leaves(*right));
                match *left {
                    PyExpr::List { elts } => {
                        assert(all_plain(elts@, elts@.len()));
                        lemma_all_plain_index(elts@, elts@.len(), 0);
                        lemma_expr_star_safe(elts@[0]);
                        lemma_expr_star_safe(*right);
                        let fill = expr_text(elts@[0]);
                        lemma_star_safe_concat(fill, "f64"@);
                        lemma_star_safe_7(
                            "let mut "@,
                            var,
                            " = vec!["@,
                            fill_text(fill),
                            "; "@,
                            expr_text(*right),
                            "];"@,
                        );
                    },
                    _ => {},
                }
            },
            _ => {},
        }
    } else if is_single_comprehension(value) {
        match value {
            PyExpr::ListComp { elt, generators } => {
                lemma_expr_star_safe(*elt);
                lemma_expr_star_safe(generators@[0].target);
                lemma_expr_star_safe(generators@[0].iter);
                lemma_star_safe_7(
                    "let "@,
                    var,
                    ": Vec<f64> = "@,
                    expr_text(generators@[0].iter),
                    ".iter().map(|"@,
                    expr_text(generators@[0].target),
                    "| "@,
                );
                lemma_star_safe_3(
                    "let "@ + var + ": Vec<f64> = "@ + expr_text(generators@[0].iter)
                        + ".iter().map(|"@ + expr_text(generators@[0].target) + "| "@,
                    expr_text(*elt),
                    ").collect();"@,
                );
            },
            _ => {},
        }
    } else {
        let head = plain_target_text(target, value);
        assert(star_safe(head)) by {
            match target {
                PyExpr::Name { id } => {
                    lemma_free_is_star_safe(id@);
                    lemma_star_safe_3("let mut "@, id@, assign_type_text(value));
                },
                PyExpr::Attribute { .. } => {
                    lemma_star_safe_concat("// attribute assign "@, t);
                },
                _ => {
                    lemma_star_safe_concat("// complex assign "@, t);
                },
            }
        }
        lemma_star_safe_3(head, " = "@, v);
        lemma_star_safe_concat(head + " = "@ + v, ";"@);
    }
}

/// In the range of a loop over a plain iterable every star stands alone.
proof fn lemma_for_iter_is_star_safe(iter: PyExpr)
    requires
        plain_leaves(iter),
    ensures
        star_safe(for_iter_text(iter)),
{
    lemma_statement_literals();
    lemma_expr_star_safe(iter);
    match iter {
        PyExpr::Call { func, args } => {
            assert(all_plain(args@, args@.len()));
            if args@.len() >= 1 {
                lemma_all_plain_index(args@, args@.len(), 0);
                lemma_expr_star_safe(args@[0]);
                lemma_star_safe_concat("0.."@, expr_text(args@[0]));
            }
            if args@.len() >= 2 {
                lemma_all_plain_index(args@, args@.len(), 1);
                lemma_expr_star_safe(args@[1]);
                lemma_star_safe_3(expr_text(args@[0]), ".."@, expr_text(args@[1]));
            }
        },
        _ => {},
    }
}

/// In the text of a plain bare expression every star stands alone.
proof fn lemma_expr_stmt_is_star_safe(value: PyExpr)
    requires
        plain_leaves(value),
    ensures
        star_safe(expr_stmt_text(value)),
{
    lemma_statement_literals();
    lemma_expr_star_safe(value);
    lemma_star_safe_concat("// expr: "@, expr_text(value));
    if is_append_call(value) {
        match value {
            PyExpr::Call { func, args } => {
                assert(plain_leaves(*func));
                assert(all_plain(args@, args@.len()));
                lemma_all_plain_index(args@, args@.len(), 0);
                lemma_expr_star_safe(args@[0]);
                match *func {
                    PyExpr::Attribute { value: receiver, attr } => {
                        assert(plain_leaves(*receiver));
                        lemma_expr_star_safe(*receiver);
                        lemma_star_safe_3(expr_text(*receiver), ".push("@, expr_text(args@[0]));
                        lemma_star_safe_concat(
                            expr_text(*receiver) + ".push("@ + expr_text(args@[0]),
                            ");"@,
                        );
                    },
                    _ => {},
                }
            },
            _ => {},
        }
    }
}

/// In the text of a plain `return` every star stands alone.
proof fn lemma_return_is_star_safe(value: Option<PyExpr>)
    requires
        value matches Some(v) ==> plain_leaves(v),
    ensures
        star_safe(return_text(value)),
{
    lemma_statement_literals();
    match value {
        Some(v) => {
            lemma_expr_star_safe(v);
            lemma_star_safe_3("return Ok("@, expr_text(v), ");"@);
        },
        None => {},
    }
}

/// In the text of a plain statement that translates every star stands
/// alone.
pub proof fn lemma_stmt_is_star_safe(s: PyStmt, depth: usize)
    requires
        plain_stmt(s),
        stmt_translates(s),
    ensures
        star_safe(stmt_text(s, depth)),
    decreases s, 0nat,
{
    lemma_statement_literals();
    lemma_indent_is_star_safe(depth as nat);
    let ind = indent_text(depth as nat);
    match s {
        PyStmt::Assign { targets, value } => {
            lemma_all_plain_index(targets@, targets@.len(), 0);
            lemma_assign_is_star_safe(targets@[0], value);
        },
        PyStmt::AugAssign { target, op, value } => {
            lemma_expr_star_safe(target);
            lemma_expr_star_safe(value);
            lemma_aug_op_is_star_safe(op);
            lemma_assign_literals();
            let sign = " "@ + aug_op_text(op) + " "@;
            lemma_star_safe_3(expr_text(target), sign, expr_text(value));
            lemma_star_safe_concat(expr_text(target) + sign + expr_text(value), ";"@);
            assert(expr_text(target) + sign + expr_text(value) + ";"@ =~= stmt_text(s, depth));
        },
        PyStmt::For { target, iter, body, orelse } => {
            lemma_expr_star_safe(target);
            lemma_for_iter_is_star_safe(iter);
            let inner = if body@.len() == 0 {
                "    // unhandled loop body"@
            } else {
                block_text(body@, deeper(depth))
            };
            if body@.len() > 0 {
                lemma_block_is_star_safe(body@, deeper(depth));
            }
            lemma_star_safe_7(
                "for "@,
                expr_text(target),
                " in "@,
                for_iter_text(iter),
                " {\n"@,
                inner,
                "\n"@,
            );
            lemma_star_safe_3(
                "for "@ + expr_text(target) + " in "@ + for_iter_text(iter) + " {\n"@ + inner
                    + "\n"@,
                ind,
                "}"@,
            );
        },
        PyStmt::While { test, body, orelse } => {
            lemma_expr_star_safe(test);
            let inner = if body@.len() == 0 {
                ind + "    // unhandled while body"@
            } else {
                block_text(body@, deeper(depth))
            };
            if body@.len() > 0 {
                lemma_block_is_star_safe(body@, deeper(depth));
            } else {
                lemma_star_safe_concat(ind, "    // unhandled while body"@);
            }
            lemma_star_safe_7("while "@, expr_text(test), " {\n"@, inner, "\n"@, ind, "}"@);
        },
        PyStmt::If { test, body, orelse } => {
            lemma_expr_star_safe(test);
            if is_equality_test(test) {
                lemma_star_safe_3("if "@, expr_text(test), GUARD_TAIL@);
            } else {
                let inner = if body@.len() == 0 {
                    "// unhandled if body"@
                } else {
                    block_text(body@, deeper(depth))
                };
                if body@.len() > 0 {
                    lemma_block_is_star_safe(body@, deeper(depth));
                }
                lemma_star_safe_7("if "@, expr_text(test), " {\n"@, inner, "\n"@, ind, "}"@);
                let first = "if "@ + expr_text(test) + " {\n"@ + inner + "\n"@ + ind + "}"@;
                if orelse@.len() == 0 {
                    assert(first + Seq::<char>::empty() =~= first);
                } else {
                    lemma_block_is_star_safe(orelse@, deeper(depth));
                    lemma_star_safe_5(
                        " else {\n"@,
                        block_text(orelse@, deeper(depth)),
                        "\n"@,
                        ind,
                        "}"@,
                    );
                    lemma_star_safe_concat(
                        first,
                        " else {\n"@ + block_text(orelse@, deeper(depth)) + "\n"@ + ind + "}"@,
                    );
                }
            }
        },
        PyStmt::Return { value } => {
            lemma_return_is_star_safe(value);
        },
        PyStmt::Expr { value } => {
            lemma_expr_stmt_is_star_safe(value);
        },
        _ => {},
    }
}

/// In the lines of the first `n` statements of a plain block every star
/// stands alone.
pub proof fn lemma_lines_are_star_safe(body: Seq<PyStmt>, depth: usize, n: nat)
    requires
        n <= body.len(),
        plain_block(body, n),
    ensures
        star_safe(block_lines(body, depth, n)),
    decreases body, n,
{
    if n > 0 {
        lemma_statement_literals();
        lemma_indent_is_star_safe(depth as nat);
        lemma_lines_are_star_safe(body, depth, (n - 1) as nat);
        let s = body[n - 1];
        let line = if stmt_translates(s) {
            with_newline(stmt_text(s, depth))
        } else {
            UNHANDLED_LINE@
        };
        if stmt_translates(s) {
            lemma_stmt_is_star_safe(s, depth);
            lemma_star_safe_concat(stmt_text(s, depth), "\n"@);
        }
        lemma_star_safe_3(block_lines(body, depth, (n - 1) as nat), indent_text(depth as nat), line);
    }
}

/// In the text of a plain block every star stands alone.
pub proof fn lemma_block_is_star_safe(body: Seq<PyStmt>, depth: usize)
    requires
        plain_block(body, body.len()),
    ensures
        star_safe(block_text(body, depth)),
    decreases body, body.len() + 1,
{
    lemma_statement_literals();
    lemma_indent_is_star_safe(depth as nat);
    lemma_lines_are_star_safe(body, depth, body.len());
    let lines = block_lines(body, depth, body.len());
    match implicit_return(body, depth) {
        Some(name) => {
            let ind = indent_text(depth as nat);
            lemma_star_safe_3(ind, "return Ok("@, name);
            lemma_star_safe_concat(ind + "return Ok("@ + name, ");\n"@);
            lemma_star_safe_concat(lines, ind + "return Ok("@ + name + ");\n"@);
        },
        None => {
            assert(lines + Seq::<char>::empty() =~= lines);
        },
    }
}

/// Whether a statement returns, at any depth that the translation reads,
/// an expression in which the translation reads a power.
pub open spec fn returns_power_within(s: PyStmt) -> bool
    decreases s, 0nat,
{
    match s {
        PyStmt::Return { value: Some(v) } => has_power(v),
        PyStmt::For { target, iter, body, orelse } => orelse@.len() == 0 && returns_power_in(
            body@,
            body@.len(),
        ),
        PyStmt::While { test, body, orelse } => orelse@.len() == 0 && returns_power_in(
            body@,
            body@.len(),
        ),
        PyStmt::If { test, body, orelse } => !is_equality_test(test) && (returns_power_in(
            body@,
            body@.len(),
        ) || returns_power_in(orelse@, orelse@.len())),
        _ => false,
    }
}

/// Whether one of the first `n` statements of a block returns a power.
pub open spec fn returns_power_in(body: Seq<PyStmt>, n: nat) -> bool
    decreases body, n,
{
    n > 0 && n <= body.len() && (returns_power_in(body, (n - 1) as nat) || returns_power_within(
        body[n - 1],
    ))
}

/// The text of a statement that returns a power holds a call of `powf`.
pub proof fn lemma_stmt_power_is_call(s: PyStmt, depth: usize)
    requires
        returns_power_within(s),
    ensures
        stmt_translates(s),
        has_substring(stmt_text(s, depth), ".powf("@),
    decreases s, 0nat,
{
    let x = ".powf("@;
    let ind = indent_text(depth as nat);
    match s {
        PyStmt::Return { value } => {
            let v = value->0;
            lemma_power_reaches_text(v);
            lemma_substring_extends(expr_text(v), x, "return Ok("@, ");"@);
        },
        PyStmt::For { target, iter, body, orelse } => {
            assert(returns_power_in(body@, body@.len()));
            lemma_block_power_is_call(body@, deeper(depth));
            let inner = block_text(body@, deeper(depth));
            let before = "for "@ + expr_text(target) + " in "@ + for_iter_text(iter) + " {\n"@;
            lemma_substring_extends(inner, x, before, "\n"@ + ind + "}"@);
            assert(before + inner + ("\n"@ + ind + "}"@) =~= stmt_text(s, depth));
        },
        PyStmt::While { test, body, orelse } => {
            assert(returns_power_in(body@, body@.len()));
            lemma_block_power_is_call(body@, deeper(depth));
            let inner = block_text(body@, deeper(depth));
            let before = "while "@ + expr_text(test) + " {\n"@;
            lemma_substring_extends(inner, x, before, "\n"@ + ind + "}"@);
            assert(before + inner + ("\n"@ + ind + "}"@) =~= stmt_text(s, depth));
        },
        PyStmt::If { test, body, orelse } => {
            let first_inner = if body@.len() == 0 {
                "// unhandled if body"@
            } else {
                block_text(body@, deeper(depth))
            };
            let else_block = if orelse@.len() == 0 {
                Seq::<char>::empty()
            } else {
                " else {\n"@ + block_text(orelse@, deeper(depth)) + "\n"@ + ind + "}"@
            };
            let before = "if "@ + expr_text(test) + " {\n"@;
            if returns_power_in(body@, body@.len()) {
                lemma_block_power_is_call(body@, deeper(depth));
                lemma_substring_extends(first_inner, x, before, "\n"@ + ind + "}"@ + else_block);
                assert(before + first_inner + ("\n"@ + ind + "}"@ + else_block) =~= stmt_text(
                    s,
                    depth,
                ));
            } else {
                assert(returns_power_in(orelse@, orelse@.len()));
                lemma_block_power_is_call(orelse@, deeper(depth));
                let other = block_text(orelse@, deeper(depth));
                let head = before + first_inner + "\n"@ + ind + "}"@ + " else {\n"@;
                lemma_substring_extends(other, x, head, "\n"@ + ind + "}"@);
                assert(head + other + ("\n"@ + ind + "}"@) =~= stmt_text(s, depth));
            }
        },
        _ => {},
    }
}

/// The lines of a block of which one of the first `n` statements returns
/// a power hold a call of `powf`.
pub proof fn lemma_lines_power_is_call(body: Seq<PyStmt>, depth: usize, n: nat)
    requires
        returns_power_in(body, n),
    ensures
        has_substring(block_lines(body, depth, n), ".powf("@),
    decreases body, n,
{
    let x = ".powf("@;
    let ind = indent_text(depth as nat);
    let s = body[n - 1];
    let line = if stmt_translates(s) {
        with_newline(stmt_text(s, depth))
    } else {
        UNHANDLED_LINE@
    };
    let earlier = block_lines(body, depth, (n - 1) as nat);
    if returns_power_in(body, (n - 1) as nat) {
        lemma_lines_power_is_call(body, depth, (n - 1) as nat);
        lemma_substring_extends(earlier, x, Seq::empty(), ind + line);
        assert(Seq::<char>::empty() + earlier + (ind + line) =~= block_lines(body, depth, n));
    } else {
        lemma_stmt_power_is_call(s, depth);
        let text = stmt_text(s, depth);
        if text.len() > 0 && text.last() == '\n' {
            lemma_substring_extends(text, x, earlier + ind, Seq::empty());
            assert(earlier + ind + text + Seq::<char>::empty() =~= block_lines(body, depth, n));
        } else {
            lemma_substring_extends(text, x, earlier + ind, "\n"@);
            assert(earlier + ind + text + "\n"@ =~= block_lines(body, depth, n));
        }
    }
}

/// The text of a block of which one statement returns a power holds a call
/// of `powf`.
pub proof fn lemma_block_power_is_call(body: Seq<PyStmt>, depth: usize)
    requires
        returns_power_in(body, body.len()),
    ensures
        has_substring(block_text(body, depth), ".powf("@),
    decreases body, body.len() + 1,
{
    lemma_lines_power_is_call(body, depth, body.len());
    let lines = block_lines(body, depth, body.len());
    let tail = block_text(body, depth).skip(lines.len() as int);
    lemma_substring_extends(lines, ".powf("@, Seq::empty(), tail);
    assert(Seq::<char>::empty() + lines + tail =~= block_text(body, depth));
}

/// The power is a call and never an operator, in the whole body. Where a
/// function is translated in full and returns, at any depth, an expression
/// in which the translation reads a power, its body holds a call of `powf`;
/// and where its names, attributes and literals are without star, the body
/// holds no two stars in a row.
pub proof fn lemma_body_power_is_call(module: Seq<PyStmt>, name: Seq<char>)
    requires
        function_translation(module, name) is Some,
        plain_return(function_body(module, name)) is None,
        !function_translation(module, name)->0.fallback,
        returns_power_in(function_body(module, name), function_body(module, name).len()),
    ensures
        has_substring(function_translation(module, name)->0.body, ".powf("@),
        plain_block(function_body(module, name), function_body(module, name).len())
            ==> !has_substring(function_translation(module, name)->0.body, "**"@),
{
    let body = function_body(module, name);
    lemma_block_power_is_call(body, 1);
    if plain_block(body, body.len()) {
        lemma_block_is_star_safe(body, 1);
        lemma_star_safe_has_no_pair(block_text(body, 1));
    }
}

/// The body of a function that is translated in full, and whose names,
/// attributes and literals are without star, holds no two stars in a row.
pub proof fn lemma_body_has_no_power_operator(module: Seq<PyStmt>, name: Seq<char>)
    requires
        function_translation(module, name) is Some,
        plain_return(function_body(module, name)) is None,
        !function_translation(module, name)->0.fallback,
        plain_block(function_body(module, name), function_body(module, name).len()),
    ensures
        !has_substring(function_translation(module, name)->0.body, "**"@),
{
    let body = function_body(module, name);
    lemma_block_is_star_safe(body, 1);
    lemma_star_safe_has_no_pair(block_text(body, 1));
}

} // verus!
