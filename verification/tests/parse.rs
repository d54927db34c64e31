use rustify_ml::ast::{PyBoolOp, PyCompareOp, PyConstant, PyExpr, PyOperator, PyStmt, PyUnaryOp};
use rustify_ml::parser::parse_module;

fn only_statement(code: &str) -> PyStmt {
    let mut module = parse_module(code).expect("parse");
    assert_eq!(module.len(), 1);
    module.remove(0)
}

fn only_expression(code: &str) -> PyExpr {
    match only_statement(code) {
        PyStmt::Expr { value } => value,
        other => panic!("expected an expression statement, got {:?}", other),
    }
}

fn is_name(e: &PyExpr, expected: &str) -> bool {
    matches!(e, PyExpr::Name { id } if id == expected)
}

#[test]
fn text_that_is_no_python() {
    assert!(parse_module("def f(:").is_none());
    assert!(parse_module("x = = 1").is_none());
    assert!(parse_module("  indented = 1").is_none());
}

#[test]
fn empty_module() {
    assert_eq!(parse_module("").expect("parse").len(), 0);
    assert_eq!(parse_module("# only a comment\n").expect("parse").len(), 0);
}

#[test]
fn function_definition() {
    match only_statement("def f(a, b: int, *rest, c=1, **kw):\n    pass\n    return a\n") {
        PyStmt::FunctionDef { name, params, body } => {
            assert_eq!(name, "f");
            assert_eq!(params.len(), 2);
            assert_eq!(params[0].name, "a");
            assert!(params[0].annotation.is_none());
            assert_eq!(params[1].name, "b");
            assert!(is_name(params[1].annotation.as_ref().unwrap(), "int"));
            assert_eq!(body.len(), 2);
            assert!(matches!(body[0], PyStmt::Other));
            assert!(matches!(&body[1], PyStmt::Return { value: Some(v) } if is_name(v, "a")));
        }
        other => panic!("expected a function, got {:?}", other),
    }
}

#[test]
fn statements_of_each_kind() {
    assert!(matches!(only_statement("a = b = 1\n"), PyStmt::Assign { targets, .. } if targets.len() == 2));
    assert!(matches!(
        only_statement("a -= 1\n"),
        PyStmt::AugAssign { target, op: PyOperator::Sub, .. } if is_name(&target, "a")
    ));
    assert!(matches!(
        only_statement("for i in xs:\n    a = 1\nelse:\n    b = 2\n    c = 3\n"),
        PyStmt::For { target, iter, body, orelse }
            if is_name(&target, "i") && is_name(&iter, "xs") && body.len() == 1 && orelse.len() == 2
    ));
    assert!(matches!(
        only_statement("while t:\n    a = 1\n"),
        PyStmt::While { test, body, orelse } if is_name(&test, "t") && body.len() == 1 && orelse.is_empty()
    ));
    assert!(matches!(
        only_statement("if t:\n    a = 1\nelse:\n    b = 2\n"),
        PyStmt::If { test, body, orelse } if is_name(&test, "t") && body.len() == 1 && orelse.len() == 1
    ));
    assert!(matches!(only_statement("return\n"), PyStmt::Return { value: None }));
    assert!(matches!(only_statement("x\n"), PyStmt::Expr { value } if is_name(&value, "x")));
    for other in ["pass\n", "import os\n", "class C:\n    pass\n", "async def f():\n    pass\n", "x: int = 1\n", "del x\n"] {
        assert!(matches!(only_statement(other), PyStmt::Other));
    }
}

#[test]
fn literals() {
    let cases: Vec<(&str, PyConstant, &str)> = vec![
        ("5\n", PyConstant::Int("5".to_string()), "Int(5)"),
        ("123456789012345678901234567890\n", PyConstant::Int("123456789012345678901234567890".to_string()), "Int(123456789012345678901234567890)"),
        ("5.0\n", PyConstant::Float("5".to_string()), "Float(5.0)"),
        ("0.25\n", PyConstant::Float("0.25".to_string()), "Float(0.25)"),
        ("1e300\n", PyConstant::Float(format!("1{}", "0".repeat(300))), "Float(1e300)"),
        ("True\n", PyConstant::Bool(true), "Bool(true)"),
        ("None\n", PyConstant::NoneValue, "None"),
        ("'hi'\n", PyConstant::Str("hi".to_string()), "Str(\"hi\")"),
        ("b'hi'\n", PyConstant::Other, "Bytes([104, 105])"),
    ];
    for (code, expected, expected_repr) in cases {
        match only_expression(code) {
            PyExpr::Constant { value, repr } => {
                assert_eq!(format!("{:?}", value), format!("{:?}", expected));
                assert_eq!(repr, expected_repr);
            }
            other => panic!("expected a literal, got {:?}", other),
        }
    }
}

#[test]
fn operators_keep_their_identity() {
    let binary = [
        ("+", PyOperator::Add),
        ("-", PyOperator::Sub),
        ("*", PyOperator::Mult),
        ("@", PyOperator::MatMult),
        ("/", PyOperator::Div),
        ("%", PyOperator::Mod),
        ("**", PyOperator::Pow),
        ("<<", PyOperator::LShift),
        (">>", PyOperator::RShift),
        ("|", PyOperator::BitOr),
        ("^", PyOperator::BitXor),
        ("&", PyOperator::BitAnd),
        ("//", PyOperator::FloorDiv),
    ];
    for (symbol, expected) in binary {
        match only_expression(&format!("a {} b\n", symbol)) {
            PyExpr::BinOp { left, op, right } => {
                assert_eq!(op, expected);
                assert!(is_name(&left, "a") && is_name(&right, "b"));
            }
            other => panic!("expected a binary operation, got {:?}", other),
        }
    }
    let comparisons = [
        ("==", PyCompareOp::Eq),
        ("!=", PyCompareOp::NotEq),
        ("<", PyCompareOp::Lt),
        ("<=", PyCompareOp::LtE),
        (">", PyCompareOp::Gt),
        (">=", PyCompareOp::GtE),
        ("is", PyCompareOp::Is),
        ("is not", PyCompareOp::IsNot),
        ("in", PyCompareOp::In),
        ("not in", PyCompareOp::NotIn),
    ];
    for (symbol, expected) in comparisons {
        match only_expression(&format!("a {} b\n", symbol)) {
            PyExpr::Compare { left, ops, comparators } => {
                assert_eq!(ops, vec![expected]);
                assert!(is_name(&left, "a"));
                assert_eq!(comparators.len(), 1);
            }
            other => panic!("expected a comparison, got {:?}", other),
        }
    }
    let unary = [("~", PyUnaryOp::Invert), ("not ", PyUnaryOp::Not), ("+", PyUnaryOp::UAdd), ("-", PyUnaryOp::USub)];
    for (symbol, expected) in unary {
        match only_expression(&format!("{}a\n", symbol)) {
            PyExpr::UnaryOp { op, operand } => {
                assert_eq!(op, expected);
                assert!(is_name(&operand, "a"));
            }
            other => panic!("expected a unary operation, got {:?}", other),
        }
    }
    assert!(matches!(only_expression("a and b and c\n"), PyExpr::BoolOp { op: PyBoolOp::And, values } if values.len() == 3));
    assert!(matches!(only_expression("a or b\n"), PyExpr::BoolOp { op: PyBoolOp::Or, values } if values.len() == 2));
}

#[test]
fn expressions_of_each_kind() {
    assert!(matches!(
        only_expression("f(a, b, key=c)\n"),
        PyExpr::Call { func, args } if is_name(&func, "f") && args.len() == 2 && is_name(&args[1], "b")
    ));
    assert!(matches!(
        only_expression("a < b < c\n"),
        PyExpr::Compare { ops, comparators, .. } if ops.len() == 2 && comparators.len() == 2
    ));
    assert!(matches!(
        only_expression("a[i]\n"),
        PyExpr::Subscript { value, slice } if is_name(&value, "a") && is_name(&slice, "i")
    ));
    assert!(matches!(
        only_expression("a.b\n"),
        PyExpr::Attribute { value, attr } if is_name(&value, "a") && attr == "b"
    ));
    assert!(matches!(only_expression("[a, b]\n"), PyExpr::List { elts } if elts.len() == 2));
    assert!(matches!(only_expression("(a, b, c)\n"), PyExpr::Tuple { elts } if elts.len() == 3));
    assert!(matches!(
        only_expression("[e for x in xs if x for y in ys]\n"),
        PyExpr::ListComp { elt, generators }
            if is_name(&elt, "e") && generators.len() == 2
                && is_name(&generators[0].target, "x") && is_name(&generators[0].iter, "xs")
                && is_name(&generators[1].target, "y") && is_name(&generators[1].iter, "ys")
    ));
    for other in ["lambda: 1\n", "{a: b}\n", "{a}\n", "(x for x in xs)\n", "a if b else c\n", "f'{a}'\n", "a[1:2].b\n"] {
        let e = only_expression(other);
        let unread = match &e {
            PyExpr::Other => true,
            PyExpr::Attribute { value, .. } => matches!(&**value, PyExpr::Subscript { slice, .. } if matches!(&**slice, PyExpr::Other)),
            _ => false,
        };
        assert!(unread, "got {:?}", e);
    }
}

#[test]
fn nesting_beyond_the_limit_is_cut() {
    let deep = format!("x = {}1{}\n", "-".repeat(1500), "");
    let module = parse_module(&deep).expect("parse");
    let mut depth = 0;
    let mut node = match &module[0] {
        PyStmt::Assign { value, .. } => value,
        other => panic!("expected an assignment, got {:?}", other),
    };
    loop {
        match node {
            PyExpr::UnaryOp { operand, .. } => {
                depth += 1;
                node = &**operand;
            }
            PyExpr::Other => break,
            other => panic!("expected the cut, got {:?}", other),
        }
    }
    assert_eq!(depth, 999);
}

#[test]
fn one_statement_for_each_top_level_statement() {
    let module = parse_module("import os\nx = 1\n\ndef f(a, b, c):\n    return [a, b, c]\n\nclass C:\n    pass\n").expect("parse");
    assert_eq!(module.len(), 4);
    match &module[2] {
        PyStmt::FunctionDef { params, body, .. } => {
            assert_eq!(params.len(), 3);
            assert_eq!(body.len(), 1);
            assert!(matches!(&body[0], PyStmt::Return { value: Some(PyExpr::List { elts }) } if elts.len() == 3));
        }
        other => panic!("expected a function, got {:?}", other),
    }
    assert!(matches!(
        only_expression("a < b <= c != d\n"),
        PyExpr::Compare { ops, comparators, .. }
            if ops == vec![PyCompareOp::Lt, PyCompareOp::LtE, PyCompareOp::NotEq] && comparators.len() == 3
    ));
}

#[test]
fn text_longer_than_the_parser_can_count_is_not_read() {
    assert_eq!(rustify_ml::parser::SOURCE_LIMIT, 1073741823);
    let long = " ".repeat(rustify_ml::parser::SOURCE_LIMIT + 1);
    assert!(parse_module(&long).is_none());
    assert!(parse_module("x = 1\n").is_some());
}
