use rustify_ml::generator::{
    detects_numpy, generate_for_module, generate_with_options, merge_put, parse_existing_functions,
    GenerateError,
};
use rustify_ml::parser::parse_module;
use rustify_ml::utils::TargetSpec;

fn target(func: &str, percent_hundredths: u32, reason: &str) -> TargetSpec {
    TargetSpec { func: func.to_string(), line: 1, percent_hundredths, reason: reason.to_string() }
}

const TWO: &str = "def alpha(xs, n):\n    total = 0.0\n    for i in range(n):\n        total += xs[i]\n    return total\n\ndef beta(xs):\n    for x in xs:\n        pass\n    else:\n        pass\n";

const DOT: &str = "def dot_product(a, b):\n    total = 0.0\n    for i in range(len(a)):\n        total += a[i] * b[i]\n    return total\n";

#[test]
fn integration_nested_for_else_fallback() {
    let code = "def f(n):\n    total = 0\n    for i in range(n):\n        for j in range(n):\n            total += i + j\n    else:\n        total += 1\n    return total\n";
    let targets = vec![target("f", 10000, "nested for else")];
    let result = generate_with_options(code, &targets, None, false).expect("generate failed");
    assert_eq!(result.functions.len(), 1);
    assert!(result.fallback_functions > 0, "expected fallback for for..else construct");
}

#[test]
fn integration_dot_product_zero_fallback() {
    let targets = vec![target("dot_product", 8000, "integration test")];
    let result = generate_with_options(DOT, &targets, None, false).expect("generate failed");
    assert_eq!(result.functions.len(), 1);
    assert_eq!(result.fallback_functions, 0, "dot_product should not fallback");
}

#[test]
fn integration_matmul_zero_fallback() {
    let code = "def matmul(a, b, n):\n    result = [0.0] * (n * n)\n    for i in range(n):\n        for j in range(n):\n            total = 0.0\n            for k in range(n):\n                total += a[i * n + k] * b[k * n + j]\n            result[i * n + j] = total\n    return result\n";
    let targets = vec![target("matmul", 9500, "matmul nested loops")];
    let result = generate_with_options(code, &targets, None, false).expect("generate failed");
    assert_eq!(result.functions.len(), 1);
    assert_eq!(result.fallback_functions, 0, "matmul should fully translate without fallback");
}

#[test]
fn integration_normalize_pixels_zero_fallback() {
    let code = "def normalize_pixels(pixels, mean, std):\n    result = [0.0] * len(pixels)\n    for i in range(len(pixels)):\n        result[i] = (pixels[i] - mean) / std\n    return result\n";
    let targets = vec![target("normalize_pixels", 9000, "integration fallback check")];
    let result = generate_with_options(code, &targets, None, false).expect("generate failed");
    assert_eq!(result.functions.len(), 1);
    assert_eq!(result.fallback_functions, 0, "normalize_pixels should not fallback");
}

#[test]
fn test_ndarray_mode_replaces_vec_params() {
    let code = format!("import numpy as np\n{}", DOT);
    let targets = vec![target("dot_product", 10000, "test")];
    let result = generate_with_options(&code, &targets, None, true).expect("generate");
    assert_eq!(result.fallback_functions, 0);
    assert!(result.lib_rs.contains("PyReadonlyArray1<f64>"), "got:\n{}", result.lib_rs);
    assert!(result.lib_rs.contains("use numpy;"), "got:\n{}", result.lib_rs);
    assert!(result.cargo_toml.contains("numpy"), "got:\n{}", result.cargo_toml);
    assert!(!result.lib_rs.contains("length mismatch"));
}

#[test]
fn test_ndarray_mode_no_numpy_import_stays_vec() {
    let targets = vec![target("dot_product", 10000, "test")];
    let result = generate_with_options(DOT, &targets, None, true).expect("generate_ml");
    assert_eq!(result.fallback_functions, 0);
    assert!(!result.lib_rs.contains("PyReadonlyArray1"), "got:\n{}", result.lib_rs);
    assert!(result.lib_rs.contains("Vec<f64>"), "got:\n{}", result.lib_rs);
}

#[test]
fn vectors_without_ml_mode() {
    let targets = vec![target("dot_product", 10000, "test")];
    let plain = generate_with_options(DOT, &targets, None, true).expect("generate");
    assert!(!plain.cargo_toml.contains("numpy"));
    let code = format!("from numpy import array\n{}", DOT);
    let no_ml = generate_with_options(&code, &targets, None, false).expect("generate");
    assert!(!no_ml.lib_rs.contains("PyReadonlyArray1"));
    assert!(!no_ml.lib_rs.contains("use numpy;"));
}

#[test]
fn numpy_is_detected_by_its_imports() {
    assert!(detects_numpy("import numpy"));
    assert!(detects_numpy("x = 1\nfrom numpy import array\n"));
    assert!(detects_numpy("import np"));
    assert!(detects_numpy("# import numpy"));
    assert!(!detects_numpy("import math\nnumpy = 1\n"));
    assert!(!detects_numpy(""));
}

#[test]
fn no_targets_is_an_error() {
    assert_eq!(generate_with_options(TWO, &[], None, false).unwrap_err(), GenerateError::NoTargets);
    assert_eq!(
        generate_with_options(TWO, &[], Some("#[pyfunction]\npub fn a() {\n}\n"), true).unwrap_err(),
        GenerateError::NoTargets
    );
    assert_eq!(generate_for_module(&[], &[], None, false).unwrap_err(), GenerateError::NoTargets);
}

#[test]
fn source_that_does_not_parse_gives_stubs() {
    let targets = vec![target("alpha", 10000, "x"), target("beta", 10000, "y")];
    let result = generate_with_options("def alpha(:\n", &targets, None, false).expect("generate");
    assert_eq!(result.functions.len(), 2);
    assert_eq!(result.fallback_functions, 2);
    assert!(result.functions[0].contains("// fallback: echo input\n    Ok(data)"));
    assert!(result.lib_rs.contains("pub fn alpha(py: Python, data: Vec<f64>)"));
}

#[test]
fn fallbacks_are_counted_among_the_targets() {
    let targets = vec![target("alpha", 6000, "a"), target("beta", 4000, "b"), target("gamma", 0, "c")];
    let result = generate_with_options(TWO, &targets, None, false).expect("generate");
    assert_eq!(result.functions.len(), 3);
    assert_eq!(result.fallback_functions, 2);
    assert!(result.lib_rs.contains("fn alpha"));
    assert!(result.lib_rs.contains("fn beta"));
    assert!(result.lib_rs.contains("m.add_function(wrap_pyfunction!(alpha, m)?)?;\n    m.add_function(wrap_pyfunction!(beta, m)?)?;\n    m.add_function(wrap_pyfunction!(gamma, m)?)?;"));
    assert!(result.lib_rs.contains("use pyo3::prelude::*"));
    assert!(result.lib_rs.contains("#[pyfunction]"));
    assert!(result.lib_rs.contains("#[pymodule]"));
}

#[test]
fn same_target_twice_is_one_function() {
    let targets = vec![target("alpha", 6000, "first"), target("alpha", 4000, "second")];
    let result = generate_with_options(TWO, &targets, None, false).expect("generate");
    assert_eq!(result.functions.len(), 1);
    assert!(result.functions[0].contains("(40.00%): second"));
    assert_eq!(result.fallback_functions, 0);
}

#[test]
fn generation_is_the_same_each_time() {
    let targets = vec![target("beta", 4000, "b"), target("alpha", 6000, "a")];
    let first = generate_with_options(TWO, &targets, None, false).expect("generate");
    let second = generate_with_options(TWO, &targets, None, false).expect("generate");
    assert_eq!(first.lib_rs, second.lib_rs);
    assert_eq!(first.cargo_toml, second.cargo_toml);
    assert_eq!(first.functions, second.functions);
    assert!(first.lib_rs.find("pub fn beta(").unwrap() < first.lib_rs.find("pub fn alpha(").unwrap());
}

#[test]
fn earlier_functions_are_kept() {
    let both = vec![target("alpha", 6000, "a"), target("beta", 4000, "b")];
    let first = generate_with_options(TWO, &both, None, false).expect("generate");
    let only_beta = vec![target("beta", 9000, "again")];
    let second = generate_with_options(TWO, &only_beta, Some(first.lib_rs.as_str()), false).expect("generate");
    assert_eq!(second.functions.len(), 2);
    assert_eq!(second.fallback_functions, 1);
    assert_eq!(second.functions[0], first.functions[0].trim_end_matches('\n'));
    assert!(second.functions[0].contains("pub fn alpha("));
    assert!(second.functions[0].contains("(60.00%): a"));
    assert!(second.functions[1].contains("pub fn beta("));
    assert!(second.functions[1].contains("(90.00%): again"));
    assert!(second.lib_rs.contains("m.add_function(wrap_pyfunction!(alpha, m)?)?;\n    m.add_function(wrap_pyfunction!(beta, m)?)?;"));
    let third = generate_with_options(TWO, &only_beta, Some(second.lib_rs.as_str()), false).expect("generate");
    assert_eq!(third.lib_rs, second.lib_rs);
    assert_eq!(third.functions, second.functions);
}

#[test]
fn new_names_go_to_the_end() {
    let first = generate_with_options(TWO, &[target("beta", 4000, "b")], None, false).expect("generate");
    let second = generate_with_options(
        "def gamma(n):\n    return n\n",
        &[target("gamma", 100, "g"), target("alpha", 100, "a")],
        Some(first.lib_rs.as_str()),
        false,
    )
    .expect("generate");
    assert_eq!(second.functions.len(), 3);
    assert!(second.functions[0].contains("pub fn beta("));
    assert!(second.functions[1].contains("pub fn gamma("));
    assert!(second.functions[2].contains("pub fn alpha("));
    assert_eq!(second.fallback_functions, 1);
}

#[test]
fn generation_for_a_module_is_generation_for_its_source() {
    let module = parse_module(TWO).expect("parse");
    let targets = vec![target("alpha", 6000, "a"), target("beta", 4000, "b")];
    let a = generate_for_module(module.as_slice(), &targets, None, false).expect("generate");
    let b = generate_with_options(TWO, &targets, None, false).expect("generate");
    assert_eq!(a.lib_rs, b.lib_rs);
    assert_eq!(a.fallback_functions, b.fallback_functions);
}

#[test]
fn functions_are_read_back_by_their_braces() {
    let unit = "use pyo3::prelude::*;\n\n#[pyfunction]\n/// doc\npub fn a(py: Python) -> PyResult<f64> {\n    if x {\n        y\n    }\n    Ok(1.0)\n}\n\n  #[pyfunction]\npub fn b() {}\nstray {\n}\n#[pymodule]\nfn m() {\n}\n";
    assert_eq!(
        parse_existing_functions(unit),
        vec![
            "#[pyfunction]\n/// doc\npub fn a(py: Python) -> PyResult<f64> {\n    if x {\n        y\n    }\n    Ok(1.0)\n}",
            "  #[pyfunction]\npub fn b() {}",
        ]
    );
}

#[test]
fn incomplete_functions_are_not_read_back() {
    assert_eq!(parse_existing_functions(""), Vec::<String>::new());
    assert_eq!(parse_existing_functions("pub fn a() {\n}\n"), Vec::<String>::new());
    assert_eq!(parse_existing_functions("#[pyfunction]\npub fn a() {\n    x\n"), Vec::<String>::new());
    assert_eq!(parse_existing_functions("#[pyfunction]\npub fn a()\n;\n"), Vec::<String>::new());
    assert_eq!(parse_existing_functions("#[pyfunction] pub fn a() {}\n"), Vec::<String>::new());
}

#[test]
fn marker_starts_anew_and_closing_braces_count() {
    assert_eq!(
        parse_existing_functions("#[pyfunction]\npub fn a() {\n#[pyfunction]\r\npub fn b() {\r\n}\r\n"),
        vec!["#[pyfunction]\npub fn b() {\n}"]
    );
    assert_eq!(
        parse_existing_functions("#[pyfunction]\n}\npub fn a() {\n    {\n}\nmore\n}\nafter\n"),
        vec!["#[pyfunction]\n}\npub fn a() {"]
    );
    assert_eq!(
        parse_existing_functions("#[pyfunction]\n}}\npub fn a() {{{\n}\n"),
        vec!["#[pyfunction]\n}}\npub fn a() {{{\n}"]
    );
}

#[test]
fn rendered_unit_reads_back_its_functions() {
    let targets = vec![target("alpha", 6000, "a"), target("beta", 4000, "b")];
    let g = generate_with_options(TWO, &targets, None, false).expect("generate");
    let back = parse_existing_functions(&g.lib_rs);
    assert_eq!(back.len(), 2);
    assert_eq!(back[0], g.functions[0].trim_end_matches('\n'));
    assert_eq!(back[1], g.functions[1].trim_end_matches('\n'));
}

#[test]
fn putting_replaces_in_place_or_appends() {
    let mut map: Vec<(String, String)> = Vec::new();
    merge_put(&mut map, "a".to_string(), "1".to_string());
    merge_put(&mut map, "b".to_string(), "2".to_string());
    merge_put(&mut map, "a".to_string(), "3".to_string());
    merge_put(&mut map, "c".to_string(), "4".to_string());
    assert_eq!(
        map,
        vec![
            ("a".to_string(), "3".to_string()),
            ("b".to_string(), "2".to_string()),
            ("c".to_string(), "4".to_string()),
        ]
    );
}

const EUCLIDEAN: &str = "def euclidean(p1, p2):\n    total = 0.0\n    for i in range(len(p1)):\n        diff = p1[i] - p2[i]\n        total += diff * diff\n    return total ** 0.5\n";

const MATRIX_OPS: &str = "def dot_product(a, b):\n    total = 0.0\n    for i in range(len(a)):\n        total += a[i] * b[i]\n    return total\n\ndef matmul(a, b, n):\n    result = [0.0] * (n * n)\n    for i in range(n):\n        for j in range(n):\n            total = 0.0\n            for k in range(n):\n                total += a[i * n + k] * b[k * n + j]\n            result[i * n + j] = total\n    return result\n";

const BPE_TOKENIZER: &str = "def count_pairs(tokens):\n    counts = {}\n    for i in range(len(tokens) - 1):\n        pair = (tokens[i], tokens[i + 1])\n        counts[pair] = counts.get(pair, 0) + 1\n    return counts\n\ndef bpe_encode(text, merges):\n    tokens = list(text.encode())\n    changed = True\n    while changed:\n        changed = False\n        i = 0\n        while i < len(tokens) - 1:\n            i += 1\n    return tokens\n";

#[test]
fn integration_euclidean_zero_fallback() {
    let targets = vec![target("euclidean", 10000, "integration test")];
    let result = generate_with_options(EUCLIDEAN, &targets, None, false).expect("generate failed");
    assert_eq!(result.functions.len(), 1, "expected 1 function");
    assert_eq!(result.fallback_functions, 0, "euclidean should not fallback");
    assert!(!result.lib_rs.is_empty(), "lib.rs not written");
    assert!(!result.cargo_toml.is_empty(), "Cargo.toml not written");
}

#[test]
fn source_that_does_not_parse_gives_one_stub() {
    let result = generate_with_options("def (", &[target("f", 10000, "t")], None, false).expect("generate");
    assert_eq!(result.functions.len(), 1);
    assert_eq!(result.fallback_functions, 1);
    assert!(result.functions[0].contains("pub fn f(py: Python, data: Vec<f64>) -> PyResult<Vec<f64>> {"));
    assert!(result.functions[0].contains("Ok(data)"));
    let empty = generate_for_module(&[], &[target("f", 10000, "t")], None, false).expect("generate");
    assert_eq!(result.lib_rs, empty.lib_rs);
}

#[test]
fn integration_euclidean_lib_rs_content() {
    let targets = vec![target("euclidean", 10000, "integration test")];
    let lib_rs = generate_with_options(EUCLIDEAN, &targets, None, false).expect("generate failed").lib_rs;
    assert!(lib_rs.contains("use pyo3::prelude::*"), "missing pyo3 import");
    assert!(lib_rs.contains("#[pyfunction]"), "missing #[pyfunction]");
    assert!(lib_rs.contains("#[pymodule]"), "missing #[pymodule]");
    assert!(lib_rs.contains("fn euclidean"), "missing fn euclidean");
    assert!(lib_rs.contains("for i in 0.."), "missing translated for loop");
    assert!(lib_rs.contains("total"), "missing accumulator variable");
}

#[test]
fn integration_euclidean_len_check_emitted() {
    let targets = vec![target("euclidean", 10000, "integration test")];
    let lib_rs = generate_with_options(EUCLIDEAN, &targets, None, false).expect("generate failed").lib_rs;
    assert!(
        lib_rs.contains("len() != ") || lib_rs.contains("length mismatch"),
        "expected length-check guard for two Vec params"
    );
    assert!(lib_rs.contains("if p1.len() != p2.len() {"));
    assert!(lib_rs.contains("length mismatch: p1 and p2"));
}

#[test]
fn integration_normalize_pixels_generates() {
    let code = "def normalize_pixels(pixels, mean, std):\n    result = [0.0] * len(pixels)\n    for i in range(len(pixels)):\n        result[i] = (pixels[i] - mean) / std\n    return result\n";
    let targets = vec![target("normalize_pixels", 9000, "integration test")];
    let result = generate_with_options(code, &targets, None, false).expect("generate failed");
    assert_eq!(result.functions.len(), 1);
    assert!(result.lib_rs.contains("fn normalize_pixels"), "missing fn normalize_pixels");
}

#[test]
fn integration_multiple_targets_same_file() {
    let targets = vec![target("dot_product", 6000, "integration test"), target("matmul", 4000, "integration test")];
    let result = generate_with_options(MATRIX_OPS, &targets, None, false).expect("generate failed");
    assert_eq!(result.functions.len(), 2, "expected 2 functions");
    assert!(result.lib_rs.contains("fn dot_product"), "missing dot_product");
    assert!(result.lib_rs.contains("fn matmul"), "missing matmul");
}

#[test]
fn integration_count_pairs_generates_while_loop() {
    let targets = vec![target("count_pairs", 8500, "integration test")];
    let result = generate_with_options(BPE_TOKENIZER, &targets, None, false).expect("generate failed");
    assert_eq!(result.functions.len(), 1);
    assert!(result.lib_rs.contains("fn count_pairs"), "missing fn count_pairs");
    assert!(result.lib_rs.contains("for i in 0.."), "expected for loop in count_pairs, got:\n{}", result.lib_rs);
}

#[test]
fn integration_bpe_encode_generates() {
    let targets = vec![target("bpe_encode", 9000, "integration test")];
    let result = generate_with_options(BPE_TOKENIZER, &targets, None, false).expect("generate failed");
    assert_eq!(result.functions.len(), 1);
    assert!(result.lib_rs.contains("fn bpe_encode"), "missing fn bpe_encode, got:\n{}", result.lib_rs);
    assert!(result.lib_rs.contains("while "), "expected while loop in bpe_encode, got:\n{}", result.lib_rs);
}

#[test]
fn integration_euclidean_golden() {
    let targets = vec![target("euclidean", 10000, "integration test")];
    let lib_rs = generate_with_options(EUCLIDEAN, &targets, None, false).expect("generate failed").lib_rs;
    let required = [
        "use pyo3::prelude::*;",
        "#[pyfunction]",
        "pub fn euclidean(",
        "py: Python",
        "Vec<f64>",
        "PyResult<f64>",
        "for i in 0..",
        "powf(",
        "#[pymodule]",
        "fn rustify_ml_ext(",
        "wrap_pyfunction!(euclidean",
    ];
    for pat in &required {
        assert!(
            lib_rs.contains(pat),
            "golden snapshot missing pattern {:?}\n\nActual lib.rs:\n{}",
            pat,
            lib_rs
        );
    }
    let head: Vec<&str> = lib_rs.lines().take(5).collect();
    assert_eq!(
        head,
        vec![
            "#![allow(unsafe_op_in_unsafe_fn)]",
            "use pyo3::prelude::*;",
            "use pyo3::Bound;",
            "",
            "#[pyfunction]",
        ]
    );
}

#[test]
fn integration_euclidean_pow_translated() {
    let targets = vec![target("euclidean", 10000, "pow test")];
    let lib_rs = generate_with_options(EUCLIDEAN, &targets, None, false).expect("generate failed").lib_rs;
    assert!(lib_rs.contains("powf"), "expected powf translation for ** operator");
}
