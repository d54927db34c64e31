use rustify_ml::ast::{PyBoolOp, PyCompareOp, PyConstant, PyExpr, PyOperator, PyUnaryOp};
use rustify_ml::generator::expr::{
    constant_to_rust, expr_to_rust, translate_for_iter, translate_len_guard, translate_while_test,
};

fn name(id: &str) -> PyExpr {
    PyExpr::Name { id: id.to_string() }
}

fn integer(digits: &str) -> PyExpr {
    PyExpr::Constant {
        value: PyConstant::Int(digits.to_string()),
        repr: format!("Int({})", digits),
    }
}

fn call(func: &str, args: Vec<PyExpr>) -> PyExpr {
    PyExpr::Call { func: Box::new(name(func)), args }
}

fn binary(left: PyExpr, op: PyOperator, right: PyExpr) -> PyExpr {
    PyExpr::BinOp { left: Box::new(left), op, right: Box::new(right) }
}

fn compare(left: PyExpr, op: PyCompareOp, right: PyExpr) -> PyExpr {
    PyExpr::Compare { left: Box::new(left), ops: vec![op], comparators: vec![right] }
}

#[test]
fn generator_test_expr_to_rust_range_and_len() {
    let range_expr = call("range", vec![integer("10")]);
    let len_expr = call("len", vec![name("a")]);
    assert_eq!(expr_to_rust(&range_expr), "0..10");
    assert_eq!(expr_to_rust(&len_expr), "a.len()");
}

#[test]
fn mod_test_expr_to_rust_range_and_len() {
    let range_expr = call("range", vec![integer("10")]);
    let len_expr = call("len", vec![name("a")]);
    assert_eq!(expr_to_rust(&range_expr), "0..10");
    assert_eq!(expr_to_rust(&len_expr), "a.len()");
}

#[test]
fn generator_test_expr_to_rust_binop_pow() {
    let bin = binary(name("x"), PyOperator::Pow, integer("2"));
    assert_eq!(expr_to_rust(&bin), "(x).powf(2)");
}

#[test]
fn mod_test_expr_to_rust_binop_pow() {
    let bin = binary(name("x"), PyOperator::Pow, integer("2"));
    assert_eq!(expr_to_rust(&bin), "(x).powf(2)");
}

#[test]
fn test_translate_for_iter_range_two_args() {
    let call = call("range", vec![integer("1"), integer("10")]);
    assert_eq!(translate_for_iter(&call), "1..10");
}

#[test]
fn for_iter_of_other_iterables() {
    assert_eq!(translate_for_iter(&call("range", vec![name("n")])), "0..n");
    assert_eq!(translate_for_iter(&name("xs")), "xs");
    assert_eq!(
        translate_for_iter(&call("range", vec![integer("1"), integer("9"), integer("2")])),
        "/* call range fallback */"
    );
    assert_eq!(translate_for_iter(&call("items", vec![])), "/* call items fallback */");
}

#[test]
fn arithmetic_operators_map_directly() {
    assert_eq!(expr_to_rust(&binary(name("a"), PyOperator::Add, name("b"))), "(a + b)");
    assert_eq!(expr_to_rust(&binary(name("a"), PyOperator::Sub, name("b"))), "(a - b)");
    assert_eq!(expr_to_rust(&binary(name("a"), PyOperator::Mult, name("b"))), "(a * b)");
    assert_eq!(expr_to_rust(&binary(name("a"), PyOperator::Div, name("b"))), "(a / b)");
}

#[test]
fn remainder_maps_directly() {
    assert_eq!(expr_to_rust(&binary(name("a"), PyOperator::Mod, name("b"))), "(a % b)");
    assert_eq!(
        expr_to_rust(&binary(binary(name("a"), PyOperator::Mod, integer("2")), PyOperator::Mult, name("b"))),
        "((a % 2) * b)"
    );
}

#[test]
fn operators_without_counterpart_are_marked_unsupported() {
    for op in [
        PyOperator::MatMult,
        PyOperator::LShift,
        PyOperator::RShift,
        PyOperator::BitOr,
        PyOperator::BitXor,
        PyOperator::BitAnd,
        PyOperator::FloorDiv,
    ] {
        assert_eq!(expr_to_rust(&binary(name("a"), op, name("b"))), "/* unsupported expr */");
        assert_eq!(
            expr_to_rust(&binary(name("x"), PyOperator::Add, binary(name("a"), op, name("b")))),
            "(x + /* unsupported expr */)"
        );
    }
}

#[test]
fn power_nests_as_calls() {
    let inner = binary(name("a"), PyOperator::Pow, name("b"));
    let outer = binary(inner, PyOperator::Pow, binary(name("c"), PyOperator::Add, integer("1")));
    let text = expr_to_rust(&outer);
    assert_eq!(text, "((a).powf(b)).powf((c + 1))");
    assert!(!text.contains("**"));
}

#[test]
fn bool_operators_join_all_operands() {
    let and = PyExpr::BoolOp { op: PyBoolOp::And, values: vec![name("a"), name("b"), name("c")] };
    let or = PyExpr::BoolOp { op: PyBoolOp::Or, values: vec![name("a"), name("b")] };
    let one = PyExpr::BoolOp { op: PyBoolOp::Or, values: vec![name("a")] };
    let none = PyExpr::BoolOp { op: PyBoolOp::And, values: vec![] };
    assert_eq!(expr_to_rust(&and), "a && b && c");
    assert_eq!(expr_to_rust(&or), "a || b");
    assert_eq!(expr_to_rust(&one), "a");
    assert_eq!(expr_to_rust(&none), "/* unsupported expr */");
}

#[test]
fn unary_operators() {
    let unary = |op| PyExpr::UnaryOp { op, operand: Box::new(name("x")) };
    assert_eq!(expr_to_rust(&unary(PyUnaryOp::USub)), "-(x)");
    assert_eq!(expr_to_rust(&unary(PyUnaryOp::Not)), "!x");
    assert_eq!(expr_to_rust(&unary(PyUnaryOp::UAdd)), "/* unsupported expr */");
    assert_eq!(expr_to_rust(&unary(PyUnaryOp::Invert)), "/* unsupported expr */");
}

#[test]
fn calls_of_known_builtins() {
    assert_eq!(expr_to_rust(&call("max", vec![name("a"), integer("3")])), "(a).max(3)");
    assert_eq!(expr_to_rust(&call("min", vec![name("a"), name("b")])), "(a).min(b)");
    assert_eq!(expr_to_rust(&call("max", vec![name("a")])), "/* call max fallback */");
    assert_eq!(expr_to_rust(&call("len", vec![])), "/* call len fallback */");
    assert_eq!(
        expr_to_rust(&call("range", vec![integer("1"), integer("2")])),
        "/* call range fallback */"
    );
    assert_eq!(expr_to_rust(&call("sum", vec![name("xs")])), "/* call sum fallback */");
}

#[test]
fn call_through_an_attribute_is_marked() {
    let method = PyExpr::Call {
        func: Box::new(PyExpr::Attribute { value: Box::new(name("np")), attr: "sqrt".to_string() }),
        args: vec![name("x")],
    };
    assert_eq!(expr_to_rust(&method), "/* call np.sqrt fallback */");
}

#[test]
fn comparisons_with_one_operator() {
    assert_eq!(expr_to_rust(&compare(name("a"), PyCompareOp::Lt, name("b"))), "a < b");
    assert_eq!(expr_to_rust(&compare(name("a"), PyCompareOp::LtE, name("b"))), "a <= b");
    assert_eq!(expr_to_rust(&compare(name("a"), PyCompareOp::Gt, name("b"))), "a > b");
    assert_eq!(expr_to_rust(&compare(name("a"), PyCompareOp::GtE, name("b"))), "a >= b");
    assert_eq!(expr_to_rust(&compare(name("a"), PyCompareOp::Eq, name("b"))), "a == b");
    assert_eq!(expr_to_rust(&compare(name("a"), PyCompareOp::NotEq, name("b"))), "a != b");
}

#[test]
fn comparisons_of_identity_and_membership_are_marked_unsupported() {
    for op in [PyCompareOp::Is, PyCompareOp::IsNot, PyCompareOp::In, PyCompareOp::NotIn] {
        assert_eq!(expr_to_rust(&compare(name("a"), op, name("b"))), "/* unsupported expr */");
        assert_eq!(translate_while_test(&compare(name("a"), op, name("b"))), "/* unsupported expr */");
        assert!(translate_len_guard(&compare(name("a"), op, name("b"))).is_none());
    }
}

#[test]
fn chained_comparison_is_marked_unsupported() {
    let chained = PyExpr::Compare {
        left: Box::new(name("a")),
        ops: vec![PyCompareOp::Lt, PyCompareOp::Lt],
        comparators: vec![name("b"), name("c")],
    };
    assert_eq!(expr_to_rust(&chained), "/* unsupported expr */");
}

#[test]
fn subscripts_attributes_and_collections() {
    let sub = PyExpr::Subscript {
        value: Box::new(name("a")),
        slice: Box::new(binary(name("i"), PyOperator::Add, integer("1"))),
    };
    let attr = PyExpr::Attribute { value: Box::new(name("p")), attr: "x".to_string() };
    assert_eq!(expr_to_rust(&sub), "a[(i + 1)]");
    assert_eq!(expr_to_rust(&attr), "p.x");
    assert_eq!(expr_to_rust(&PyExpr::List { elts: vec![integer("1"), integer("2")] }), "vec![1, 2]");
    assert_eq!(expr_to_rust(&PyExpr::List { elts: vec![] }), "vec![]");
    assert_eq!(expr_to_rust(&PyExpr::Tuple { elts: vec![name("a"), name("b")] }), "(a, b)");
    assert_eq!(expr_to_rust(&PyExpr::Tuple { elts: vec![name("a")] }), "(a)");
}

#[test]
fn expressions_without_translation() {
    let comp = PyExpr::ListComp { elt: Box::new(name("x")), generators: vec![] };
    assert_eq!(expr_to_rust(&PyExpr::Other), "/* unsupported expr */");
    assert_eq!(expr_to_rust(&comp), "/* unsupported expr */");
}

#[test]
fn constants_render_as_rust_literals() {
    assert_eq!(constant_to_rust(&PyConstant::Int("7".to_string())), "7");
    assert_eq!(
        constant_to_rust(&PyConstant::Int("123456789012345678901234567890".to_string())),
        "123456789012345678901234567890"
    );
    assert_eq!(constant_to_rust(&PyConstant::Bool(true)), "true");
    assert_eq!(constant_to_rust(&PyConstant::Bool(false)), "false");
    assert_eq!(constant_to_rust(&PyConstant::NoneValue), "()");
    assert_eq!(constant_to_rust(&PyConstant::Other), "0");
}

#[test]
fn float_constants_always_show_a_fraction() {
    assert_eq!(constant_to_rust(&PyConstant::Float("5".to_string())), "5.0");
    assert_eq!(constant_to_rust(&PyConstant::Float("0.5".to_string())), "0.5");
    assert_eq!(constant_to_rust(&PyConstant::Float("10000000000".to_string())), "10000000000.0");
    assert_eq!(constant_to_rust(&PyConstant::Float("1e-7".to_string())), "1e-7");
    assert_eq!(constant_to_rust(&PyConstant::Float("inf".to_string())), "inf.0");
}

#[test]
fn string_constants_are_quoted_and_escaped() {
    assert_eq!(constant_to_rust(&PyConstant::Str("abc".to_string())), "\"abc\"");
    assert_eq!(constant_to_rust(&PyConstant::Str("a\"b".to_string())), "\"a\\\"b\"");
    assert_eq!(constant_to_rust(&PyConstant::Str("a\\b".to_string())), "\"a\\\\b\"");
    assert_eq!(constant_to_rust(&PyConstant::Str("it's".to_string())), "\"it\\'s\"");
    assert_eq!(constant_to_rust(&PyConstant::Str("a\tb\r\n".to_string())), "\"a\\tb\\r\\n\"");
    assert_eq!(constant_to_rust(&PyConstant::Str("\u{e9}".to_string())), "\"\\u{e9}\"");
    assert_eq!(constant_to_rust(&PyConstant::Str("\u{1f600}".to_string())), "\"\\u{1f600}\"");
    assert_eq!(constant_to_rust(&PyConstant::Str("\u{7f}\u{0}".to_string())), "\"\\u{7f}\\u{0}\"");
    assert_eq!(constant_to_rust(&PyConstant::Str("".to_string())), "\"\"");
}

#[test]
fn string_escape_agrees_with_std() {
    let samples = ["plain", "q\"uote", "tab\t", "nl\n", "\u{1}", "~\u{7f}", "\u{3b1}\u{3b2}", "\u{10ffff}"];
    for s in samples {
        let expected = format!("\"{}\"", s.escape_default());
        assert_eq!(constant_to_rust(&PyConstant::Str(s.to_string())), expected);
    }
}

#[test]
fn while_tests() {
    let not_done = PyExpr::UnaryOp { op: PyUnaryOp::Not, operand: Box::new(name("done")) };
    let not_not = PyExpr::UnaryOp {
        op: PyUnaryOp::Not,
        operand: Box::new(PyExpr::UnaryOp { op: PyUnaryOp::Not, operand: Box::new(name("done")) }),
    };
    let minus = PyExpr::UnaryOp { op: PyUnaryOp::USub, operand: Box::new(name("n")) };
    let plus = PyExpr::UnaryOp { op: PyUnaryOp::UAdd, operand: Box::new(name("n")) };
    assert_eq!(translate_while_test(&plus), "/* unsupported expr */");
    let less = compare(name("i"), PyCompareOp::Lt, call("len", vec![name("tokens")]));
    assert_eq!(translate_while_test(&name("changed")), "changed");
    assert_eq!(translate_while_test(&not_done), "!done");
    assert_eq!(translate_while_test(&not_not), "!!done");
    assert_eq!(translate_while_test(&minus), "-(n)");
    assert_eq!(translate_while_test(&less), "i < tokens.len()");
    assert_eq!(translate_while_test(&PyExpr::Other), "/* unsupported expr */");
}

#[test]
fn while_test_is_the_expression_text() {
    let tests = vec![
        name("flag"),
        PyExpr::UnaryOp { op: PyUnaryOp::Not, operand: Box::new(compare(name("a"), PyCompareOp::Gt, integer("0"))) },
        PyExpr::BoolOp { op: PyBoolOp::And, values: vec![name("a"), name("b")] },
        call("len", vec![name("xs")]),
    ];
    for t in tests.iter() {
        assert_eq!(translate_while_test(t), expr_to_rust(t));
    }
}

#[test]
fn length_guard_only_for_one_equality() {
    let eq = compare(call("len", vec![name("a")]), PyCompareOp::Eq, call("len", vec![name("b")]));
    let ne = compare(name("a"), PyCompareOp::NotEq, name("b"));
    let lt = compare(name("a"), PyCompareOp::Lt, name("b"));
    let chained = PyExpr::Compare {
        left: Box::new(name("a")),
        ops: vec![PyCompareOp::Eq, PyCompareOp::Eq],
        comparators: vec![name("b"), name("c")],
    };
    assert_eq!(
        translate_len_guard(&eq).unwrap(),
        "if a.len() == b.len() {\n        return Err(pyo3::exceptions::PyValueError::new_err(\"Vectors must be same length\"));\n    }"
    );
    assert_eq!(
        translate_len_guard(&ne).unwrap(),
        "if a != b {\n        return Err(pyo3::exceptions::PyValueError::new_err(\"Vectors must be same length\"));\n    }"
    );
    assert!(translate_len_guard(&lt).is_none());
    assert!(translate_len_guard(&chained).is_none());
    assert!(translate_len_guard(&name("a")).is_none());
}
