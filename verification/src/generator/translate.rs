//! Statements and function bodies: from a syntax tree to the text of a Rust
//! block, with the flag that says whether anything was left untranslated.

use crate::ast::{PyConstant, PyExpr, PyOperator, PyParam, PyStmt};
use crate::generator::expr::{
    bare_name, constant_text, expr_text, expr_to_rust, for_iter_text, is_equality_test,
    lemma_expr_star_safe, len_guard_text, plain_leaves, power_text, translate_for_iter,
    translate_len_guard, translate_while_test,
};
use crate::generator::infer::{
    assign_type_text, infer_assign_type, infer_params, pairs, param_texts,
};
use crate::text::{
    contains_char, has_substring, indent, indent_text, lemma_occurs_in_middle,
    lemma_star_safe_concat, lemma_star_safe_has_no_pair, lemma_substring_extends, same_text,
    star_safe,
};
use crate::utils::TargetSpec;
use vstd::prelude::*;

verus! {

/// The translation of one function.
pub struct Translation {
    pub params: Vec<(String, String)>,
    pub return_type: String,
    pub body: String,
    pub fallback: bool,
}

/// The translation of one block of statements.
pub struct BodyTranslation {
    pub return_type: String,
    pub body: String,
    pub fallback: bool,
}

/// The translation of one statement: its text, and whether a statement
/// nested in it has no translation.
pub struct StmtTranslation {
    pub text: String,
    pub fallback: bool,
}

/// What a `Translation` holds, as texts.
pub struct TranslationText {
    pub params: Seq<(Seq<char>, Seq<char>)>,
    pub return_type: Seq<char>,
    pub body: Seq<char>,
    pub fallback: bool,
}

impl View for Translation {
    type V = TranslationText;

    open spec fn view(&self) -> TranslationText {
        TranslationText {
            params: pairs(self.params@),
            return_type: self.return_type@,
            body: self.body@,
            fallback: self.fallback,
        }
    }
}

/// The line that stands for a statement without translation.
pub const UNHANDLED_LINE: &'static str = "// Unhandled stmt\n";

/// The body that hands the first parameter back, after its name.
pub const ECHO_HEAD: &'static str = "// fallback: echo input\n    Ok(";

/// One level further in; the depth stays where it cannot grow.
pub open spec fn deeper(depth: usize) -> usize {
    if depth < usize::MAX {
        (depth + 1) as usize
    } else {
        depth
    }
}

/// `line` with a line feed after it, unless it ends in one.
pub open spec fn with_newline(line: Seq<char>) -> Seq<char> {
    if line.len() > 0 && line.last() == '\n' {
        line
    } else {
        line + "\n"@
    }
}

/// Whether `value` builds a list by repeating one element: `[x] * n`.
pub open spec fn is_broadcast(value: PyExpr) -> bool {
    match value {
        PyExpr::BinOp { left, op, right } => match *left {
            PyExpr::List { elts } => op == PyOperator::Mult && elts@.len() == 1,
            _ => false,
        },
        _ => false,
    }
}

/// The element of a repeated list; a float literal gets its type suffix.
pub open spec fn fill_text(fill: Seq<char>) -> Seq<char> {
    if fill.contains('.') {
        fill + "f64"@
    } else {
        fill
    }
}

/// `var = [x] * n` as a vector of `n` copies of `x`.
pub open spec fn broadcast_text(var: Seq<char>, value: PyExpr) -> Seq<char> {
    match value {
        PyExpr::BinOp { left, op, right } => match *left {
            PyExpr::List { elts } => if elts@.len() == 1 {
                "let mut "@ + var + " = vec!["@ + fill_text(expr_text(elts@[0])) + "; "@
                    + expr_text(*right) + "];"@
            } else {
                Seq::empty()
            },
            _ => Seq::empty(),
        },
        _ => Seq::empty(),
    }
}

/// Whether `value` is a list comprehension with exactly one `for` clause.
pub open spec fn is_single_comprehension(value: PyExpr) -> bool {
    match value {
        PyExpr::ListComp { elt, generators } => generators@.len() == 1,
        _ => false,
    }
}

/// `var = [elt for v in it]` as a map over `it` that is collected.
pub open spec fn comprehension_text(var: Seq<char>, value: PyExpr) -> Seq<char> {
    match value {
        PyExpr::ListComp { elt, generators } => if generators@.len() == 1 {
            "let "@ + var + ": Vec<f64> = "@ + expr_text(generators@[0].iter) + ".iter().map(|"@
                + expr_text(generators@[0].target) + "| "@ + expr_text(*elt) + ").collect();"@
        } else {
            Seq::empty()
        },
        _ => Seq::empty(),
    }
}

/// The variable that an assignment to `target` binds: the name itself, or
/// `result` where the target is no bare name.
pub open spec fn binding_name(target: PyExpr) -> Seq<char> {
    match target {
        PyExpr::Name { id } => id@,
        _ => "result"@,
    }
}

/// The left side of a plain assignment: a new local for a name, with its
/// type where the value is a numeric literal, and a comment for any other
/// target.
pub open spec fn plain_target_text(target: PyExpr, value: PyExpr) -> Seq<char> {
    match target {
        PyExpr::Name { id } => "let mut "@ + id@ + assign_type_text(value),
        PyExpr::Attribute { .. } => "// attribute assign "@ + expr_text(target),
        _ => "// complex assign "@ + expr_text(target),
    }
}

/// An assignment of `value` to the single target `target`. The four shapes
/// in their order: an indexed write, a repeated list, a comprehension with
/// one `for` clause, a plain binding.
pub open spec fn assign_text(target: PyExpr, value: PyExpr) -> Seq<char> {
    if target is Subscript {
        expr_text(target) + " = "@ + expr_text(value) + ";"@
    } else if is_broadcast(value) {
        broadcast_text(binding_name(target), value)
    } else if is_single_comprehension(value) {
        comprehension_text(binding_name(target), value)
    } else {
        plain_target_text(target, value) + " = "@ + expr_text(value) + ";"@
    }
}

/// The compound assignment operator; `+=` stands for every operator
/// without one of its own.
pub open spec fn aug_op_text(op: PyOperator) -> Seq<char> {
    match op {
        PyOperator::Sub => "-="@,
        PyOperator::Mult => "*="@,
        PyOperator::Div => "/="@,
        _ => "+="@,
    }
}

/// Whether `value` calls `append` on some expression with one argument.
pub open spec fn is_append_call(value: PyExpr) -> bool {
    match value {
        PyExpr::Call { func, args } => match *func {
            PyExpr::Attribute { value: receiver, attr } => attr@ == "append"@ && args@.len() == 1,
            _ => false,
        },
        _ => false,
    }
}

/// `x.append(v)` as a push.
pub open spec fn append_text(value: PyExpr) -> Seq<char> {
    match value {
        PyExpr::Call { func, args } => match *func {
            PyExpr::Attribute { value: receiver, attr } => if args@.len() == 1 {
                expr_text(*receiver) + ".push("@ + expr_text(args@[0]) + ");"@
            } else {
                Seq::empty()
            },
            _ => Seq::empty(),
        },
        _ => Seq::empty(),
    }
}

/// A bare expression as a statement: a comment for a string literal, a
/// push for an `append` call, and a comment that quotes anything else.
pub open spec fn expr_stmt_text(value: PyExpr) -> Seq<char> {
    if value matches PyExpr::Constant { value: PyConstant::Str(_), .. } {
        "// docstring omitted"@
    } else if is_append_call(value) {
        append_text(value)
    } else {
        "// expr: "@ + expr_text(value)
    }
}

/// A `return`, with or without a value.
pub open spec fn return_text(value: Option<PyExpr>) -> Seq<char> {
    match value {
        Some(v) => "return Ok("@ + expr_text(v) + ");"@,
        None => "return Ok(());"@,
    }
}

/// Whether a statement has a translation of its own. A loop with an
/// `else` block has none, nor has an assignment to several targets, a
/// function definition or a statement of any other kind.
pub open spec fn stmt_translates(s: PyStmt) -> bool {
    match s {
        PyStmt::Assign { targets, value } => targets@.len() == 1,
        PyStmt::AugAssign { .. } => true,
        PyStmt::For { target, iter, body, orelse } => orelse@.len() == 0,
        PyStmt::While { test, body, orelse } => orelse@.len() == 0,
        PyStmt::If { .. } => true,
        PyStmt::Return { .. } => true,
        PyStmt::Expr { .. } => true,
        _ => false,
    }
}

/// The text of a statement that translates, at nesting depth `depth`.
pub open spec fn stmt_text(s: PyStmt, depth: usize) -> Seq<char>
    decreases s, 0nat,
{
    match s {
        PyStmt::Assign { targets, value } => if targets@.len() == 1 {
            assign_text(targets@[0], value)
        } else {
            Seq::empty()
        },
        PyStmt::AugAssign { target, op, value } => expr_text(target) + " "@ + aug_op_text(op) + " "@
            + expr_text(value) + ";"@,
        PyStmt::For { target, iter, body, orelse } => "for "@ + expr_text(target) + " in "@
            + for_iter_text(iter) + " {\n"@ + (if body@.len() == 0 {
            "    // unhandled loop body"@
        } else {
            block_text(body@, deeper(depth))
        }) + "\n"@ + indent_text(depth as nat) + "}"@,
        PyStmt::While { test, body, orelse } => "while "@ + expr_text(test) + " {\n"@ + (if body@.len()
            == 0 {
            indent_text(depth as nat) + "    // unhandled while body"@
        } else {
            block_text(body@, deeper(depth))
        }) + "\n"@ + indent_text(depth as nat) + "}"@,
        PyStmt::If { test, body, orelse } => if is_equality_test(test) {
            len_guard_text(test)
        } else {
            "if "@ + expr_text(test) + " {\n"@ + (if body@.len() == 0 {
                "// unhandled if body"@
            } else {
                block_text(body@, deeper(depth))
            }) + "\n"@ + indent_text(depth as nat) + "}"@ + (if orelse@.len() == 0 {
                Seq::empty()
            } else {
                " else {\n"@ + block_text(orelse@, deeper(depth)) + "\n"@ + indent_text(
                    depth as nat,
                ) + "}"@
            })
        },
        PyStmt::Return { value } => return_text(value),
        PyStmt::Expr { value } => expr_stmt_text(value),
        _ => Seq::empty(),
    }
}

/// The lines of the first `n` statements of a block: each statement's text
/// behind the indentation and closed by a line feed, or the line that says
/// that the statement was not handled.
pub open spec fn block_lines(body: Seq<PyStmt>, depth: usize, n: nat) -> Seq<char>
    decreases body, n,
{
    if n == 0 || n > body.len() {
        Seq::empty()
    } else {
        block_lines(body, depth, (n - 1) as nat) + indent_text(depth as nat) + (if stmt_translates(
            body[n - 1],
        ) {
            with_newline(stmt_text(body[n - 1], depth))
        } else {
            UNHANDLED_LINE@
        })
    }
}

/// The text of a block: its lines, and at depth 1 the `return` that the
/// block leaves implicit, if it has one.
pub open spec fn block_text(body: Seq<PyStmt>, depth: usize) -> Seq<char>
    decreases body, body.len() + 1,
{
    block_lines(body, depth, body.len()) + match implicit_return(body, depth) {
        Some(name) => indent_text(depth as nat) + "return Ok("@ + name + ");\n"@,
        None => Seq::empty(),
    }
}

/// The variable that `s` binds to a repeated list or to a list
/// comprehension, if `s` is such an assignment to a bare name.
pub open spec fn vector_binding(s: PyStmt) -> Option<Seq<char>> {
    match s {
        PyStmt::Assign { targets, value } => if targets@.len() >= 1 && (is_broadcast(value)
            || value is ListComp) {
            bare_name(targets@[0])
        } else {
            None
        },
        _ => None,
    }
}

/// Whether one of the first `n` statements binds `name` to a vector.
pub open spec fn binds_vector_in(body: Seq<PyStmt>, name: Seq<char>, n: nat) -> bool
    decreases n,
{
    n > 0 && n <= body.len() && (binds_vector_in(body, name, (n - 1) as nat) || vector_binding(
        body[n - 1],
    ) == Some(name))
}

/// Whether one of the first `n` statements is a `return`.
pub open spec fn returns_in(body: Seq<PyStmt>, n: nat) -> bool
    decreases n,
{
    n > 0 && n <= body.len() && (returns_in(body, (n - 1) as nat) || body[n - 1] is Return)
}

/// The type of a returned expression: a vector for a list, a tuple, a
/// comprehension or a name that one of the first `n` statements binds to a
/// vector, and a float for anything else.
pub open spec fn returned_type(v: PyExpr, body: Seq<PyStmt>, n: nat) -> Seq<char> {
    match v {
        PyExpr::Name { id } => if binds_vector_in(body, id@, n) {
            "Vec<f64>"@
        } else {
            "f64"@
        },
        PyExpr::List { .. } => "Vec<f64>"@,
        PyExpr::ListComp { .. } => "Vec<f64>"@,
        PyExpr::Tuple { .. } => "Vec<f64>"@,
        _ => "f64"@,
    }
}

/// The type that the last `return` with a value among the first `n`
/// statements gives the block.
pub open spec fn explicit_type(body: Seq<PyStmt>, n: nat) -> Option<Seq<char>>
    decreases n,
{
    if n == 0 || n > body.len() {
        None
    } else {
        match body[n - 1] {
            PyStmt::Return { value: Some(v) } => Some(returned_type(v, body, n)),
            _ => explicit_type(body, (n - 1) as nat),
        }
    }
}

/// The variable that a block returns without saying so: at depth 1, in a
/// block without `return`, the one of `result` and `output` that the block
/// binds to a vector, if it binds exactly one of them.
pub open spec fn implicit_return(body: Seq<PyStmt>, depth: usize) -> Option<Seq<char>> {
    let result = binds_vector_in(body, "result"@, body.len());
    let output = binds_vector_in(body, "output"@, body.len());
    if depth != 1 || returns_in(body, body.len()) {
        None
    } else if result && !output {
        Some("result"@)
    } else if output && !result {
        Some("output"@)
    } else {
        None
    }
}

/// The return type of a block.
pub open spec fn block_type(body: Seq<PyStmt>, depth: usize) -> Seq<char> {
    if implicit_return(body, depth) is Some {
        "Vec<f64>"@
    } else {
        match explicit_type(body, body.len()) {
            Some(t) => t,
            None => "f64"@,
        }
    }
}

/// Whether a statement, or a statement nested in it where the translation
/// reads it, has no translation. The body of a conditional that became a
/// guard is not read.
pub open spec fn stmt_fallback(s: PyStmt) -> bool
    decreases s, 0nat,
{
    !stmt_translates(s) || match s {
        PyStmt::For { target, iter, body, orelse } => block_fallback_in(body@, body@.len()),
        PyStmt::While { test, body, orelse } => block_fallback_in(body@, body@.len()),
        PyStmt::If { test, body, orelse } => !is_equality_test(test) && (block_fallback_in(
            body@,
            body@.len(),
        ) || block_fallback_in(orelse@, orelse@.len())),
        _ => false,
    }
}

/// Whether one of the first `n` statements of a block falls back.
pub open spec fn block_fallback_in(body: Seq<PyStmt>, n: nat) -> bool
    decreases body, n,
{
    n > 0 && n <= body.len() && (block_fallback_in(body, (n - 1) as nat) || stmt_fallback(
        body[n - 1],
    ))
}

/// Whether a block falls back: the logical or over its statements.
pub open spec fn block_fallback(body: Seq<PyStmt>) -> bool {
    block_fallback_in(body, body.len())
}

/// Whether a name is in a list of names.
pub open spec fn listed(names: Seq<String>, name: Seq<char>) -> bool {
    exists|j: int| 0 <= j < names.len() && #[trigger] names[j]@ == name
}

/// Whether `s` defines a function called `name`.
pub open spec fn is_def_named(s: PyStmt, name: Seq<char>) -> bool {
    match s {
        PyStmt::FunctionDef { name: n, params, body } => n@ == name,
        _ => false,
    }
}

/// The position of the first of the first `n` statements of a module that
/// defines a function called `name`.
pub open spec fn find_def(module: Seq<PyStmt>, name: Seq<char>, n: nat) -> Option<int>
    decreases n,
{
    if n == 0 || n > module.len() {
        None
    } else {
        match find_def(module, name, (n - 1) as nat) {
            Some(i) => Some(i),
            None => if is_def_named(module[n - 1], name) {
                Some(n - 1)
            } else {
                None
            },
        }
    }
}

/// The parameters of a function definition.
pub open spec fn def_params(def: PyStmt) -> Seq<PyParam> {
    match def {
        PyStmt::FunctionDef { name, params, body } => params@,
        _ => Seq::empty(),
    }
}

/// The body of a function definition.
pub open spec fn def_body(def: PyStmt) -> Seq<PyStmt> {
    match def {
        PyStmt::FunctionDef { name, params, body } => body@,
        _ => Seq::empty(),
    }
}

/// The parameters of the generated function: the inferred ones, or one
/// vector called `data` for a function without parameters.
pub open spec fn effective_params(params: Seq<PyParam>) -> Seq<(Seq<char>, Seq<char>)> {
    if params.len() == 0 {
        seq![("data"@, "Vec<f64>"@)]
    } else {
        param_texts(params)
    }
}

/// The name or literal that a body returns in its first statement.
pub open spec fn plain_return(body: Seq<PyStmt>) -> Option<PyExpr> {
    if body.len() == 0 {
        None
    } else {
        match body[0] {
            PyStmt::Return { value: Some(e) } => if e is Name || e is Constant {
                Some(e)
            } else {
                None
            },
            _ => None,
        }
    }
}

/// The body that hands `name` back.
pub open spec fn echo_text(name: Seq<char>) -> Seq<char> {
    ECHO_HEAD@ + name + ")"@
}

/// The translation of a function definition.
///
/// A body that starts by returning a bare name or a literal is that return
/// and nothing else. Any other body is translated statement by statement at
/// depth 1; where it falls back, or is empty, the function hands its first
/// parameter back instead.
pub open spec fn def_translation(def: PyStmt) -> TranslationText {
    let params = effective_params(def_params(def));
    let body = def_body(def);
    match plain_return(body) {
        Some(PyExpr::Name { id }) => TranslationText {
            params,
            return_type: "Vec<f64>"@,
            body: "// returning input name `"@ + id@ + "` as-is\n    Ok("@ + id@ + ")"@,
            fallback: false,
        },
        Some(PyExpr::Constant { value, repr }) => TranslationText {
            params,
            return_type: "f64"@,
            body: "// returning constant from Python: "@ + repr@ + "\n    Ok("@ + constant_text(
                value,
            ) + ")"@,
            fallback: false,
        },
        _ => if body.len() == 0 {
            TranslationText {
                params,
                return_type: "Vec<f64>"@,
                body: echo_text("data"@),
                fallback: true,
            }
        } else if block_fallback(body) {
            TranslationText {
                params,
                return_type: "Vec<f64>"@,
                body: echo_text(params[0].0),
                fallback: true,
            }
        } else {
            TranslationText {
                params,
                return_type: block_type(body, 1),
                body: block_text(body, 1),
                fallback: false,
            }
        },
    }
}

/// The translation of the function called `name` in `module`, if the
/// module defines one at its top level.
pub open spec fn function_translation(module: Seq<PyStmt>, name: Seq<char>) -> Option<
    TranslationText,
> {
    match find_def(module, name, module.len()) {
        Some(i) => Some(def_translation(module[i])),
        None => None,
    }
}

/// The body of the function called `name` in `module`; empty where the
/// module defines no such function.
pub open spec fn function_body(module: Seq<PyStmt>, name: Seq<char>) -> Seq<PyStmt> {
    match find_def(module, name, module.len()) {
        Some(i) => def_body(module[i]),
        None => Seq::empty(),
    }
}

/// Whether a statement has one of the shapes that translate, and so has
/// every statement nested in it: an assignment to one target, an augmented
/// assignment, a `return`, a bare expression, a conditional, or a loop
/// without `else`.
pub open spec fn well_shaped(s: PyStmt) -> bool
    decreases s, 0nat,
{
    match s {
        PyStmt::Assign { targets, value } => targets@.len() == 1,
        PyStmt::AugAssign { .. } => true,
        PyStmt::Return { .. } => true,
        PyStmt::Expr { .. } => true,
        PyStmt::For { target, iter, body, orelse } => orelse@.len() == 0 && well_shaped_in(
            body@,
            body@.len(),
        ),
        PyStmt::While { test, body, orelse } => orelse@.len() == 0 && well_shaped_in(
            body@,
            body@.len(),
        ),
        PyStmt::If { test, body, orelse } => well_shaped_in(body@, body@.len()) && well_shaped_in(
            orelse@,
            orelse@.len(),
        ),
        _ => false,
    }
}

/// Whether the first `n` statements of a block are well shaped.
pub open spec fn well_shaped_in(body: Seq<PyStmt>, n: nat) -> bool
    decreases body, n,
{
    n == 0 || (n <= body.len() && well_shaped_in(body, (n - 1) as nat) && well_shaped(body[n - 1]))
}

/// Whether a `for` loop with an `else` block stands in a statement where
/// the translation reads it: at any depth, but not inside a conditional
/// that becomes a guard.
pub open spec fn reads_for_else(s: PyStmt) -> bool
    decreases s, 0nat,
{
    match s {
        PyStmt::For { target, iter, body, orelse } => orelse@.len() > 0 || reads_for_else_in(
            body@,
            body@.len(),
        ),
        PyStmt::While { test, body, orelse } => reads_for_else_in(body@, body@.len())
            || reads_for_else_in(orelse@, orelse@.len()),
        PyStmt::If { test, body, orelse } => !is_equality_test(test) && (reads_for_else_in(
            body@,
            body@.len(),
        ) || reads_for_else_in(orelse@, orelse@.len())),
        PyStmt::FunctionDef { name, params, body } => reads_for_else_in(body@, body@.len()),
        _ => false,
    }
}

/// Whether a `for` loop with an `else` block stands among the first `n`
/// statements of a block where the translation reads it.
pub open spec fn reads_for_else_in(body: Seq<PyStmt>, n: nat) -> bool
    decreases body, n,
{
    n > 0 && n <= body.len() && (reads_for_else_in(body, (n - 1) as nat) || reads_for_else(
        body[n - 1],
    ))
}

/// A well-shaped statement does not fall back.
pub proof fn lemma_well_shaped_stmt(s: PyStmt)
    requires
        well_shaped(s),
    ensures
        !stmt_fallback(s),
    decreases s, 0nat,
{
    match s {
        PyStmt::For { target, iter, body, orelse } => {
            lemma_well_shaped_block(body@, body@.len());
        },
        PyStmt::While { test, body, orelse } => {
            lemma_well_shaped_block(body@, body@.len());
        },
        PyStmt::If { test, body, orelse } => {
            lemma_well_shaped_block(body@, body@.len());
            lemma_well_shaped_block(orelse@, orelse@.len());
        },
        _ => {},
    }
}

/// A block of well-shaped statements does not fall back.
pub proof fn lemma_well_shaped_block(body: Seq<PyStmt>, n: nat)
    requires
        well_shaped_in(body, n),
    ensures
        !block_fallback_in(body, n),
    decreases body, n,
{
    if n > 0 {
        lemma_well_shaped_block(body, (n - 1) as nat);
        lemma_well_shaped_stmt(body[n - 1]);
    }
}

/// A statement in which the translation reads a `for` loop with an `else`
/// block falls back.
pub proof fn lemma_for_else_stmt(s: PyStmt)
    requires
        reads_for_else(s),
    ensures
        stmt_fallback(s),
    decreases s, 0nat,
{
    match s {
        PyStmt::For { target, iter, body, orelse } => {
            if orelse@.len() == 0 {
                lemma_for_else_block(body@, body@.len());
            }
        },
        PyStmt::While { test, body, orelse } => {
            if orelse@.len() == 0 {
                lemma_for_else_block(body@, body@.len());
            }
        },
        PyStmt::If { test, body, orelse } => {
            if reads_for_else_in(body@, body@.len()) {
                lemma_for_else_block(body@, body@.len());
            } else {
                lemma_for_else_block(orelse@, orelse@.len());
            }
        },
        _ => {},
    }
}

/// A block in which the translation reads a `for` loop with an `else`
/// block falls back.
pub proof fn lemma_for_else_block(body: Seq<PyStmt>, n: nat)
    requires
        reads_for_else_in(body, n),
    ensures
        block_fallback_in(body, n),
    decreases body, n,
{
    if n > 0 {
        if reads_for_else_in(body, (n - 1) as nat) {
            lemma_for_else_block(body, (n - 1) as nat);
        } else {
            lemma_for_else_stmt(body[n - 1]);
        }
    }
}

/// A function that consists of well-shaped statements only is translated
/// in full: the translation of a defined function with a body that is not
/// empty, and in which every statement at every depth has one of the
/// shapes that translate, does not fall back.
pub proof fn lemma_supported_shapes_translate(module: Seq<PyStmt>, name: Seq<char>)
    requires
        function_translation(module, name) is Some,
        function_body(module, name).len() > 0,
        well_shaped_in(function_body(module, name), function_body(module, name).len()),
    ensures
        !function_translation(module, name)->0.fallback,
{
    let body = function_body(module, name);
    lemma_well_shaped_block(body, body.len());
}

/// A function with a `for` loop that has an `else` block falls back: the
/// translation of a defined function that does not start by returning a
/// bare name or a literal, and in which the translation reads such a loop,
/// has its flag set.
pub proof fn lemma_for_else_falls_back(module: Seq<PyStmt>, name: Seq<char>)
    requires
        function_translation(module, name) is Some,
        plain_return(function_body(module, name)) is None,
        reads_for_else_in(function_body(module, name), function_body(module, name).len()),
    ensures
        function_translation(module, name)->0.fallback,
{
    let body = function_body(module, name);
    lemma_for_else_block(body, body.len());
}

/// Whether `s` returns `left ** right`.
pub open spec fn returns_power(s: PyStmt, left: PyExpr, right: PyExpr) -> bool {
    match s {
        PyStmt::Return { value: Some(PyExpr::BinOp { left: l, op, right: r }) } => op
            == PyOperator::Pow && *l == left && *r == right,
        _ => false,
    }
}

/// The lines of a block hold the text of each of its statements that
/// translates.
pub proof fn lemma_block_holds_statement(body: Seq<PyStmt>, depth: usize, n: nat, j: int)
    requires
        0 <= j < n <= body.len(),
        stmt_translates(body[j]),
    ensures
        has_substring(block_lines(body, depth, n), stmt_text(body[j], depth)),
    decreases n,
{
    let before = block_lines(body, depth, (n - 1) as nat) + indent_text(depth as nat);
    if j == n - 1 {
        let line = stmt_text(body[j], depth);
        if line.len() > 0 && line.last() == '\n' {
            lemma_occurs_in_middle(before, line, Seq::empty());
            assert(before + line + Seq::<char>::empty() =~= before + line);
        } else {
            lemma_occurs_in_middle(before, line, "\n"@);
            assert(before + line + "\n"@ =~= before + (line + "\n"@));
        }
    } else {
        lemma_block_holds_statement(body, depth, (n - 1) as nat, j);
        let last = if stmt_translates(body[n - 1]) {
            with_newline(stmt_text(body[n - 1], depth))
        } else {
            UNHANDLED_LINE@
        };
        lemma_substring_extends(
            block_lines(body, depth, (n - 1) as nat),
            stmt_text(body[j], depth),
            Seq::empty(),
            indent_text(depth as nat) + last,
        );
        assert(Seq::<char>::empty() + block_lines(body, depth, (n - 1) as nat) + (indent_text(
            depth as nat,
        ) + last) =~= block_lines(body, depth, n));
    }
}

/// A returned power reaches the generated body as a call: where a
/// function that is translated in full returns `left ** right`, its body
/// holds `return Ok((l).powf(r));` with the texts of the two operands.
pub proof fn lemma_returned_power_is_call(
    module: Seq<PyStmt>,
    name: Seq<char>,
    j: int,
    left: PyExpr,
    right: PyExpr,
)
    requires
        function_translation(module, name) is Some,
        plain_return(function_body(module, name)) is None,
        !function_translation(module, name)->0.fallback,
        0 <= j < function_body(module, name).len(),
        returns_power(function_body(module, name)[j], left, right),
    ensures
        has_substring(
            function_translation(module, name)->0.body,
            "return Ok("@ + power_text(expr_text(left), expr_text(right)) + ");"@,
        ),
{
    let body = function_body(module, name);
    lemma_block_holds_statement(body, 1, body.len(), j);
    let tail = match implicit_return(body, 1) {
        Some(v) => indent_text(1) + "return Ok("@ + v + ");\n"@,
        None => Seq::empty(),
    };
    lemma_substring_extends(
        block_lines(body, 1, body.len()),
        stmt_text(body[j], 1),
        Seq::empty(),
        tail,
    );
    assert(Seq::<char>::empty() + block_lines(body, 1, body.len()) + tail =~= block_text(body, 1));
}

/// A returned expression never reaches the generated body with a power
/// operator: the `return` of an expression whose names, attributes and
/// literals are without star holds no two stars in a row.
pub proof fn lemma_return_has_no_power_operator(value: PyExpr)
    requires
        plain_leaves(value),
    ensures
        !has_substring(return_text(Some(value)), "**"@),
{
    lemma_expr_star_safe(value);
    assert(star_safe("return Ok("@)) by {
        reveal_strlit("return Ok(");
    }
    assert(star_safe(");"@)) by {
        reveal_strlit(");");
    }
    lemma_star_safe_concat("return Ok("@, expr_text(value));
    lemma_star_safe_concat("return Ok("@ + expr_text(value), ");"@);
    lemma_star_safe_has_no_pair(return_text(Some(value)));
}

/// The first definition among the first `n` statements is the first among
/// more.
pub proof fn lemma_find_def_stable(module: Seq<PyStmt>, name: Seq<char>, n: nat, m: nat)
    requires
        n <= m <= module.len(),
        find_def(module, name, n) is Some,
    ensures
        find_def(module, name, m) == find_def(module, name, n),
    decreases m,
{
    if m > n {
        lemma_find_def_stable(module, name, n, (m - 1) as nat);
    }
}

fn has_name(names: &Vec<String>, name: &str) -> (b: bool)
    ensures
        b == listed(names@, name@),
{
    let mut i: usize = 0;
    while i < names.len()
        invariant
            i <= names.len(),
            forall|j: int| 0 <= j < i ==> names@[j]@ != name@,
        decreases names.len() - i,
    {
        if same_text(names[i].as_str(), name) {
            return true;
        }
        i = i + 1;
    }
    false
}

fn ends_with_newline(line: &str) -> (b: bool)
    ensures
        b == (line@.len() > 0 && line@.last() == '\n'),
{
    let v = crate::text::to_chars(line);
    v.len() > 0 && v[v.len() - 1] == '\n'
}

fn is_broadcast_value(value: &PyExpr) -> (b: bool)
    ensures
        b == is_broadcast(*value),
{
    match value {
        PyExpr::BinOp { left, op, right } => {
            let l: &PyExpr = left;
            match l {
                PyExpr::List { elts } => *op == PyOperator::Mult && elts.len() == 1,
                _ => false,
            }
        },
        _ => false,
    }
}

fn binding(target: &PyExpr) -> (r: String)
    ensures
        r@ == binding_name(*target),
{
    match target {
        PyExpr::Name { id } => id.clone(),
        _ => String::from_str("result"),
    }
}

fn translate_broadcast(var: &str, value: &PyExpr) -> (r: String)
    requires
        is_broadcast(*value),
    ensures
        r@ == broadcast_text(var@, *value),
{
    let mut r = String::from_str("let mut ");
    r.append(var);
    r.append(" = vec![");
    match value {
        PyExpr::BinOp { left, op, right } => {
            let l: &PyExpr = left;
            match l {
                PyExpr::List { elts } => {
                    let mut fill = expr_to_rust(&elts[0]);
                    if contains_char(fill.as_str(), '.') {
                        fill.append("f64");
                    }
                    let size = expr_to_rust(right);
                    r.append(fill.as_str());
                    r.append("; ");
                    r.append(size.as_str());
                    r.append("];");
                },
                _ => {},
            }
        },
        _ => {},
    }
    r
}

fn is_single_comprehension_value(value: &PyExpr) -> (b: bool)
    ensures
        b == is_single_comprehension(*value),
{
    match value {
        PyExpr::ListComp { elt, generators } => generators.len() == 1,
        _ => false,
    }
}

fn translate_comprehension(var: &str, value: &PyExpr) -> (r: String)
    requires
        is_single_comprehension(*value),
    ensures
        r@ == comprehension_text(var@, *value),
{
    let mut r = String::from_str("let ");
    r.append(var);
    r.append(": Vec<f64> = ");
    match value {
        PyExpr::ListComp { elt, generators } => {
            let iter = expr_to_rust(&generators[0].iter);
            let bound = expr_to_rust(&generators[0].target);
            let item = expr_to_rust(elt);
            r.append(iter.as_str());
            r.append(".iter().map(|");
            r.append(bound.as_str());
            r.append("| ");
            r.append(item.as_str());
            r.append(").collect();");
        },
        _ => {},
    }
    r
}

fn translate_assign(target: &PyExpr, value: &PyExpr) -> (r: String)
    ensures
        r@ == assign_text(*target, *value),
{
    let rhs = expr_to_rust(value);
    match target {
        PyExpr::Subscript { .. } => {
            let mut r = expr_to_rust(target);
            r.append(" = ");
            r.append(rhs.as_str());
            r.append(";");
            return r;
        },
        _ => {},
    }
    if is_broadcast_value(value) {
        let var = binding(target);
        return translate_broadcast(var.as_str(), value);
    }
    if is_single_comprehension_value(value) {
        let var = binding(target);
        return translate_comprehension(var.as_str(), value);
    }
    let mut r = match target {
        PyExpr::Name { id } => {
            let mut l = String::from_str("let mut ");
            l.append(id.as_str());
            l.append(infer_assign_type(value));
            l
        },
        PyExpr::Attribute { .. } => {
            let mut l = String::from_str("// attribute assign ");
            let t = expr_to_rust(target);
            l.append(t.as_str());
            l
        },
        _ => {
            let mut l = String::from_str("// complex assign ");
            let t = expr_to_rust(target);
            l.append(t.as_str());
            l
        },
    };
    r.append(" = ");
    r.append(rhs.as_str());
    r.append(";");
    r
}

fn aug_op_symbol(op: PyOperator) -> (r: &'static str)
    ensures
        r@ == aug_op_text(op),
{
    match op {
        PyOperator::Sub => "-=",
        PyOperator::Mult => "*=",
        PyOperator::Div => "/=",
        _ => "+=",
    }
}

fn translate_expr_stmt(value: &PyExpr) -> (r: String)
    ensures
        r@ == expr_stmt_text(*value),
{
    match value {
        PyExpr::Constant { value: PyConstant::Str(_), .. } => {
            return String::from_str("// docstring omitted");
        },
        PyExpr::Call { func, args } => {
            let f: &PyExpr = func;
            match f {
                PyExpr::Attribute { value: receiver, attr } => {
                    if same_text(attr.as_str(), "append") && args.len() == 1 {
                        let mut r = expr_to_rust(receiver);
                        let arg = expr_to_rust(&args[0]);
                        r.append(".push(");
                        r.append(arg.as_str());
                        r.append(");");
                        return r;
                    }
                },
                _ => {},
            }
        },
        _ => {},
    }
    let mut r = String::from_str("// expr: ");
    let t = expr_to_rust(value);
    r.append(t.as_str());
    r
}

fn vector_bound(s: &PyStmt) -> (r: Option<String>)
    ensures
        r is Some == vector_binding(*s) is Some,
        r matches Some(n) ==> Some(n@) == vector_binding(*s),
{
    match s {
        PyStmt::Assign { targets, value } => {
            if targets.len() >= 1 {
                let is_comp = match value {
                    PyExpr::ListComp { .. } => true,
                    _ => false,
                };
                if is_broadcast_value(value) || is_comp {
                    match &targets[0] {
                        PyExpr::Name { id } => Some(id.clone()),
                        _ => None,
                    }
                } else {
                    None
                }
            } else {
                None
            }
        },
        _ => None,
    }
}

/// The type of a returned expression, given the names that the block has
/// bound to vectors so far.
pub fn infer_return_type(value: &PyExpr, names: &Vec<String>) -> (r: String)
    ensures
        r@ == match *value {
            PyExpr::Name { id } => if listed(names@, id@) {
                "Vec<f64>"@
            } else {
                "f64"@
            },
            PyExpr::List { .. } => "Vec<f64>"@,
            PyExpr::ListComp { .. } => "Vec<f64>"@,
            PyExpr::Tuple { .. } => "Vec<f64>"@,
            _ => "f64"@,
        },
{
    match value {
        PyExpr::Name { id } => {
            if has_name(names, id.as_str()) {
                String::from_str("Vec<f64>")
            } else {
                String::from_str("f64")
            }
        },
        PyExpr::List { .. } => String::from_str("Vec<f64>"),
        PyExpr::ListComp { .. } => String::from_str("Vec<f64>"),
        PyExpr::Tuple { .. } => String::from_str("Vec<f64>"),
        _ => String::from_str("f64"),
    }
}

fn next_depth(depth: usize) -> (r: usize)
    ensures
        r == deeper(depth),
{
    if depth < usize::MAX {
        depth + 1
    } else {
        depth
    }
}

/// Translates one statement at nesting depth `depth`. The result is `None`
/// exactly for a statement that has no translation.
pub fn translate_stmt_inner(stmt: &PyStmt, depth: usize) -> (r: Option<StmtTranslation>)
    ensures
        r is Some == stmt_translates(*stmt),
        r matches Some(t) ==> t.text@ == stmt_text(*stmt, depth) && t.fallback == stmt_fallback(
            *stmt,
        ),
    decreases stmt, 0nat,
{
    match stmt {
        PyStmt::Assign { targets, value } => {
            if targets.len() == 1 {
                Some(StmtTranslation { text: translate_assign(&targets[0], value), fallback: false })
            } else {
                None
            }
        },
        PyStmt::AugAssign { target, op, value } => {
            let mut text = expr_to_rust(target);
            let rhs = expr_to_rust(value);
            text.append(" ");
            text.append(aug_op_symbol(*op));
            text.append(" ");
            text.append(rhs.as_str());
            text.append(";");
            Some(StmtTranslation { text, fallback: false })
        },
        PyStmt::For { target, iter, body, orelse } => {
            if orelse.len() != 0 {
                return None;
            }
            let range = translate_for_iter(iter);
            let var = expr_to_rust(target);
            let ind = indent(depth);
            let mut fallback = false;
            let mut text = String::from_str("for ");
            text.append(var.as_str());
            text.append(" in ");
            text.append(range.as_str());
            text.append(" {\n");
            match translate_body_inner(body, next_depth(depth)) {
                Some(inner) => {
                    text.append(inner.body.as_str());
                    fallback = inner.fallback;
                },
                None => {
                    text.append("    // unhandled loop body");
                },
            }
            text.append("\n");
            text.append(ind.as_str());
            text.append("}");
            Some(StmtTranslation { text, fallback })
        },
        PyStmt::While { test, body, orelse } => {
            if orelse.len() != 0 {
                return None;
            }
            let cond = translate_while_test(test);
            let ind = indent(depth);
            let mut fallback = false;
            let mut text = String::from_str("while ");
            text.append(cond.as_str());
            text.append(" {\n");
            match translate_body_inner(body, next_depth(depth)) {
                Some(inner) => {
                    text.append(inner.body.as_str());
                    fallback = inner.fallback;
                },
                None => {
                    let mut missing = indent(depth);
                    missing.append("    // unhandled while body");
                    text.append(missing.as_str());
                },
            }
            text.append("\n");
            text.append(ind.as_str());
            text.append("}");
            Some(StmtTranslation { text, fallback })
        },
        PyStmt::If { test, body, orelse } => {
            match translate_len_guard(test) {
                Some(guard) => {
                    return Some(StmtTranslation { text: guard, fallback: false });
                },
                None => {},
            }
            let cond = expr_to_rust(test);
            let ind = indent(depth);
            let mut fallback = false;
            let mut text = String::from_str("if ");
            text.append(cond.as_str());
            text.append(" {\n");
            match translate_body_inner(body, next_depth(depth)) {
                Some(inner) => {
                    text.append(inner.body.as_str());
                    fallback = inner.fallback;
                },
                None => {
                    text.append("// unhandled if body");
                },
            }
            text.append("\n");
            text.append(ind.as_str());
            text.append("}");
            match translate_body_inner(orelse, next_depth(depth)) {
                Some(other) => {
                    let mut tail = String::from_str(" else {\n");
                    tail.append(other.body.as_str());
                    tail.append("\n");
                    tail.append(ind.as_str());
                    tail.append("}");
                    text.append(tail.as_str());
                    fallback = fallback || other.fallback;
                },
                None => {
                    assert(text@ + Seq::<char>::empty() =~= text@);
                },
            }
            Some(StmtTranslation { text, fallback })
        },
        PyStmt::Return { value } => {
            match value {
                Some(v) => {
                    let mut text = String::from_str("return Ok(");
                    let t = expr_to_rust(v);
                    text.append(t.as_str());
                    text.append(");");
                    Some(StmtTranslation { text, fallback: false })
                },
                None => Some(
                    StmtTranslation { text: String::from_str("return Ok(());"), fallback: false },
                ),
            }
        },
        PyStmt::Expr { value } => Some(
            StmtTranslation { text: translate_expr_stmt(value), fallback: false },
        ),
        _ => None,
    }
}

/// Translates a block at nesting depth `depth`. The result is `None`
/// exactly for an empty block.
pub fn translate_body_inner(body: &Vec<PyStmt>, depth: usize) -> (r: Option<BodyTranslation>)
    ensures
        r is Some == (body@.len() > 0),
        r matches Some(t) ==> t.body@ == block_text(body@, depth) && t.return_type@ == block_type(
            body@,
            depth,
        ) && t.fallback == block_fallback(body@),
    decreases body, 0nat,
{
    if body.len() == 0 {
        return None;
    }
    let ind = indent(depth);
    let mut out = String::new();
    let mut names: Vec<String> = Vec::new();
    let mut fallback = false;
    let mut had_return = false;
    let mut inferred: Option<String> = None;
    let mut i: usize = 0;
    while i < body.len()
        invariant
            i <= body.len(),
            ind@ == indent_text(depth as nat),
            out@ == block_lines(body@, depth, i as nat),
            forall|name: Seq<char>| #[trigger]
                listed(names@, name) == binds_vector_in(body@, name, i as nat),
            fallback == block_fallback_in(body@, i as nat),
            had_return == returns_in(body@, i as nat),
            inferred is Some == explicit_type(body@, i as nat) is Some,
            inferred matches Some(t) ==> Some(t@) == explicit_type(body@, i as nat),
        decreases body.len() - i,
    {
        let stmt = &body[i];
        assert(decreases_to!(*body => body[i as int]));
        let ghost old_names = names@;
        match vector_bound(stmt) {
            Some(n) => {
                names.push(n);
                proof {
                    assert forall|name: Seq<char>| #[trigger]
                        listed(names@, name) == binds_vector_in(
                            body@,
                            name,
                            (i + 1) as nat,
                        ) by {
                        if listed(old_names, name) {
                            let j = choose|j: int|
                                0 <= j < old_names.len() && #[trigger] old_names[j]@ == name;
                            assert(names@[j]@ == name);
                        }
                        if name == n@ {
                            assert(names@[old_names.len() as int]@ == name);
                        }
                    }
                }
            },
            None => {},
        }
        out.append(ind.as_str());
        match translate_stmt_inner(stmt, depth) {
            Some(t) => {
                match stmt {
                    PyStmt::Return { value } => {
                        had_return = true;
                        match value {
                            Some(v) => {
                                inferred = Some(infer_return_type(v, &names));
                            },
                            None => {},
                        }
                    },
                    _ => {},
                }
                out.append(t.text.as_str());
                if !ends_with_newline(t.text.as_str()) {
                    out.append("\n");
                }
                fallback = fallback || t.fallback;
            },
            None => {
                out.append(UNHANDLED_LINE);
                fallback = true;
            },
        }
        assert(block_fallback_in(body@, (i + 1) as nat) == (block_fallback_in(body@, i as nat)
            || stmt_fallback(body@[i as int])));
        i = i + 1;
    }
    let mut return_type = match inferred {
        Some(t) => t,
        None => String::from_str("f64"),
    };
    if depth == 1 && !had_return {
        let result = has_name(&names, "result");
        let output = has_name(&names, "output");
        if result != output {
            out.append(ind.as_str());
            out.append("return Ok(");
            if result {
                out.append("result");
            } else {
                out.append("output");
            }
            out.append(");\n");
            return_type = String::from_str("Vec<f64>");
        }
    }
    proof {
        if implicit_return(body@, depth) is None {
            assert(out@ + Seq::<char>::empty() =~= out@);
        }
    }
    Some(BodyTranslation { return_type, body: out, fallback })
}

/// Translates the body of a function: a block at depth 1.
pub fn translate_body(body: &Vec<PyStmt>) -> (r: Option<BodyTranslation>)
    ensures
        r is Some == (body@.len() > 0),
        r matches Some(t) ==> t.body@ == block_text(body@, 1) && t.return_type@ == block_type(
            body@,
            1,
        ) && t.fallback == block_fallback(body@),
{
    translate_body_inner(body, 1)
}

fn translate_def(params: &Vec<PyParam>, body: &Vec<PyStmt>, Ghost(def): Ghost<PyStmt>) -> (r:
    Translation)
    requires
        def_params(def) == params@,
        def_body(def) == body@,
    ensures
        r@ == def_translation(def),
{
    let mut pairs_out = infer_params(params);
    if pairs_out.len() == 0 {
        pairs_out.push((String::from_str("data"), String::from_str("Vec<f64>")));
    }
    proof {
        assert(pairs(pairs_out@) =~= effective_params(params@));
    }
    if body.len() > 0 {
        match &body[0] {
            PyStmt::Return { value: Some(e) } => {
                match e {
                    PyExpr::Name { id } => {
                        let mut text = String::from_str("// returning input name `");
                        text.append(id.as_str());
                        text.append("` as-is\n    Ok(");
                        text.append(id.as_str());
                        text.append(")");
                        return Translation {
                            params: pairs_out,
                            return_type: String::from_str("Vec<f64>"),
                            body: text,
                            fallback: false,
                        };
                    },
                    PyExpr::Constant { value, repr } => {
                        let mut text = String::from_str("// returning constant from Python: ");
                        let literal = crate::generator::expr::constant_to_rust(value);
                        text.append(repr.as_str());
                        text.append("\n    Ok(");
                        text.append(literal.as_str());
                        text.append(")");
                        return Translation {
                            params: pairs_out,
                            return_type: String::from_str("f64"),
                            body: text,
                            fallback: false,
                        };
                    },
                    _ => {},
                }
            },
            _ => {},
        }
    }
    match translate_body(body) {
        Some(t) => {
            if t.fallback {
                let mut text = String::from_str(ECHO_HEAD);
                text.append(pairs_out[0].0.as_str());
                text.append(")");
                Translation {
                    params: pairs_out,
                    return_type: String::from_str("Vec<f64>"),
                    body: text,
                    fallback: true,
                }
            } else {
                Translation {
                    params: pairs_out,
                    return_type: t.return_type,
                    body: t.body,
                    fallback: false,
                }
            }
        },
        None => {
            let mut text = String::from_str(ECHO_HEAD);
            text.append("data");
            text.append(")");
            Translation {
                params: pairs_out,
                return_type: String::from_str("Vec<f64>"),
                body: text,
                fallback: true,
            }
        },
    }
}

/// Finds the function that `target` names among the top-level statements of
/// `module` and translates it. The result is `None` exactly where the
/// module defines no such function.
pub fn translate_function_body(target: &TargetSpec, module: &[PyStmt]) -> (r: Option<Translation>)
    ensures
        r is Some == function_translation(module@, target.func@) is Some,
        r matches Some(t) ==> Some(t@) == function_translation(module@, target.func@),
{
    let mut i: usize = 0;
    while i < module.len()
        invariant
            i <= module.len(),
            find_def(module@, target.func@, i as nat) is None,
        decreases module.len() - i,
    {
        match &module[i] {
            PyStmt::FunctionDef { name, params, body } => {
                if same_text(name.as_str(), target.func.as_str()) {
                    proof {
                        assert(find_def(module@, target.func@, (i + 1) as nat) == Some(i as int));
                        lemma_find_def_stable(
                            module@,
                            target.func@,
                            (i + 1) as nat,
                            module@.len(),
                        );
                    }
                    return Some(translate_def(params, body, Ghost(module@[i as int])));
                }
            },
            _ => {},
        }
        i = i + 1;
    }
    None
}

} // verus!
