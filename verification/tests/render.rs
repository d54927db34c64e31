use rustify_ml::generator::render::{
    extract_fn_name, render_cargo_toml_with_options, render_function_named,
    render_function_with_options, render_lib_rs_with_options, translate_target,
};
use rustify_ml::parser::parse_module;
use rustify_ml::utils::TargetSpec;

fn target(func: &str, line: u32, percent_hundredths: u32, reason: &str) -> TargetSpec {
    TargetSpec { func: func.to_string(), line, percent_hundredths, reason: reason.to_string() }
}

const INNER: &str = "def inner(a, b):\n    total = 0.0\n    for i in range(len(a)):\n        total += a[i] * b[i]\n    return total\n";

const GUARD: &str = "    if a.len() != b.len() {\n        return Err(pyo3::exceptions::PyValueError::new_err(\"length mismatch: a and b\"));\n    }\n";

#[test]
fn function_in_full() {
    let module = parse_module(INNER).expect("parse");
    let (text, fallback) =
        render_function_with_options(&target("inner", 7, 1205, "hot"), module.as_slice(), false);
    assert!(!fallback);
    let expected = [
        "#[pyfunction]\n",
        "/// Auto-generated from Python hotspot `inner` at line 7 (12.05%): hot\n",
        "pub fn inner(py: Python, a: Vec<f64>, b: Vec<f64>) -> PyResult<f64> {\n",
        "    let _ = py; // reserved for future GIL use\n",
        "    ",
        GUARD,
        "\n",
        "    ",
        "    let mut total: f64 = 0.0;\n    for i in 0..a.len() {\n        total += (a[i] * b[i]);\n\n    }\n    return Ok(total);\n",
        "\n}\n",
    ]
    .concat();
    assert_eq!(text, expected);
}

#[test]
fn function_with_arrays() {
    let module = parse_module(INNER).expect("parse");
    let (text, fallback) =
        render_function_with_options(&target("inner", 1, 10000, "ml"), module.as_slice(), true);
    assert!(!fallback);
    let expected = [
        "#[pyfunction]\n",
        "/// Auto-generated from Python hotspot `inner` at line 1 (100.00%): ml\n",
        "pub fn inner(py: Python, a: numpy::PyReadonlyArray1<f64>, b: numpy::PyReadonlyArray1<f64>) -> PyResult<f64> {\n",
        "    // ndarray: use p1.as_slice()? to get &[f64] for indexing\n",
        "    let _ = py; // reserved for future GIL use\n",
        "    \n",
        "    ",
        "    let mut total: f64 = 0.0;\n    for i in 0..a.len() {\n        total += (a[i] * b[i]);\n\n    }\n    return Ok(total);\n",
        "\n}\n",
    ]
    .concat();
    assert_eq!(text, expected);
}

#[test]
fn guard_stands_before_the_body() {
    let module = parse_module(INNER).expect("parse");
    let (text, _) = render_function_with_options(&target("inner", 1, 10000, "x"), module.as_slice(), false);
    let guard = text.find("if a.len() != b.len()").expect("guard");
    let first_index = text.find("a[i]").expect("indexed access");
    let body = text.find("let mut total").expect("body");
    assert!(guard < body);
    assert!(guard < first_index);
    assert_eq!(text.matches("length mismatch").count(), 1);
}

#[test]
fn three_vectors_are_checked_against_the_first() {
    let module = parse_module("def f(xs, n, ys, zs):\n    n += 1\n").expect("parse");
    let (text, _) = render_function_with_options(&target("f", 1, 0, "x"), module.as_slice(), false);
    assert!(text.contains("if xs.len() != ys.len() {"));
    assert!(text.contains("if xs.len() != zs.len() {"));
    assert!(!text.contains("ys.len() != zs.len()"));
    assert!(!text.contains("n.len()"));
    assert_eq!(text.matches("length mismatch").count(), 2);
}

#[test]
fn one_vector_has_no_guard() {
    let module = parse_module("def f(xs, n):\n    n += 1\n").expect("parse");
    let (text, _) = render_function_with_options(&target("f", 1, 0, "x"), module.as_slice(), false);
    assert!(!text.contains("length mismatch"));
    assert!(text.contains("    let _ = py; // reserved for future GIL use\n    \n        n += 1;\n\n}\n"));
}

#[test]
fn function_that_is_missing_gets_the_stub() {
    let module = parse_module(INNER).expect("parse");
    let (text, fallback) =
        render_function_with_options(&target("absent", 3, 5, "why"), module.as_slice(), false);
    assert!(fallback);
    assert_eq!(
        text,
        "#[pyfunction]\n/// Auto-generated from Python hotspot `absent` at line 3 (0.05%): why\npub fn absent(py: Python, data: Vec<f64>) -> PyResult<Vec<f64>> {\n    let _ = py; // reserved for future GIL use\n    \n    // fallback: echo input\n    Ok(data)\n}\n"
    );
}

#[test]
fn exported_name_is_in_snake_case() {
    let module = parse_module("def CamelCase(n):\n    return n\n").expect("parse");
    let (text, _) = render_function_with_options(&target("CamelCase", 1, 0, "x"), module.as_slice(), false);
    assert!(text.contains("hotspot `CamelCase` at"));
    assert!(text.contains("\npub fn camel_case(py: Python, n: usize)"));
    assert_eq!(extract_fn_name(&text), "camel_case");
    let (profiled, fallback) = render_function_with_options(
        &target("<method 'append' of 'list' objects> ~", 0, 0, "0% hotspot"),
        module.as_slice(),
        false,
    );
    assert!(fallback);
    assert!(profiled.contains("\npub fn method_append_of_list_objects(py: Python, data: Vec<f64>)"));
    assert_eq!(extract_fn_name(&profiled), "method_append_of_list_objects");
}

#[test]
fn function_under_a_given_name() {
    let module = parse_module("def f(n):\n    return n\n").expect("parse");
    let (text, fallback) = render_function_named("other_name", &target("f", 2, 10, "r"), module.as_slice(), false);
    assert!(!fallback);
    assert_eq!(
        text,
        "#[pyfunction]\n/// Auto-generated from Python hotspot `f` at line 2 (0.10%): r\npub fn other_name(py: Python, n: usize) -> PyResult<Vec<f64>> {\n    let _ = py; // reserved for future GIL use\n    \n    // returning input name `n` as-is\n    Ok(n)\n}\n"
    );
    assert_eq!(extract_fn_name(&text), "other_name");
}

#[test]
fn translation_goes_by_the_module_not_by_the_name() {
    let names = [
        "count_pairs",
        "bpe_encode",
        "euclidean",
        "dot_product",
        "normalize_pixels",
        "standard_scale",
        "min_max_scale",
        "l2_normalize",
        "running_mean",
        "convolve1d",
        "moving_average",
        "diff",
        "cumsum",
    ];
    for n in names {
        let (text, fallback) = render_function_with_options(&target(n, 1, 10000, "r"), &[], false);
        assert!(fallback);
        assert_eq!(
            text,
            format!("#[pyfunction]\n/// Auto-generated from Python hotspot `{n}` at line 1 (100.00%): r\npub fn {n}(py: Python, data: Vec<f64>) -> PyResult<Vec<f64>> {{\n    let _ = py; // reserved for future GIL use\n    \n    // fallback: echo input\n    Ok(data)\n}}\n")
        );
        let code = format!("def {n}(a, b):\n    total = 0.0\n    for i in range(len(a)):\n        total += a[i] + b[i]\n    return total\n");
        let module = parse_module(&code).expect("parse");
        let (defined, fallback) = render_function_with_options(&target(n, 1, 10000, "r"), module.as_slice(), false);
        assert!(!fallback);
        assert!(defined.contains(&format!("pub fn {n}(py: Python, a: Vec<f64>, b: Vec<f64>) -> PyResult<f64> {{")));
        assert!(defined.find("if a.len() != b.len() {").unwrap() < defined.find("a[i]").unwrap());
        assert!(defined.contains("total += (a[i] + b[i]);"));
        let looped = format!("def {n}(a):\n    for x in a:\n        x += 1\n    else:\n        x = 0\n    return a\n");
        let module = parse_module(&looped).expect("parse");
        let (_, fallback) = render_function_with_options(&target(n, 1, 10000, "r"), module.as_slice(), false);
        assert!(fallback);
    }
}

#[test]
fn target_translation_is_the_definition_or_the_stub() {
    let module = parse_module("def cumsum(signal):\n    pass\n").expect("parse");
    let t = translate_target(&target("cumsum", 1, 0, "x"), module.as_slice());
    assert!(t.fallback);
    assert_eq!(t.return_type, "Vec<f64>");
    assert_eq!(t.body, "// fallback: echo input\n    Ok(signal)");
    let none = translate_target(&target("cumsum", 1, 0, "x"), &[]);
    assert!(none.fallback);
    assert_eq!(none.body, "// fallback: echo input\n    Ok(data)");
    assert_eq!(none.params, vec![("data".to_string(), "Vec<f64>".to_string())]);
}

#[test]
fn euclidean_scenario() {
    let code = "def euclidean(p1, p2):\n    total = 0.0\n    for i in range(len(p1)):\n        total += (p1[i] - p2[i]) ** 2\n    return total ** 0.5\n";
    let module = parse_module(code).expect("parse");
    let (text, fallback) =
        render_function_with_options(&target("euclidean", 1, 10000, "test"), module.as_slice(), false);
    assert!(!fallback);
    assert!(text.contains("for i in 0..p1.len()"));
    assert!(text.contains("let mut total"));
    assert!(text.contains("powf(0.5)"));
    assert!(!text.contains("**"));
    assert!(text.contains("if p1.len() != p2.len()"));
    assert!(text.contains("pub fn euclidean(py: Python, p1: Vec<f64>, p2: Vec<f64>) -> PyResult<f64>"));
    assert!(text.find("if p1.len() != p2.len()").unwrap() < text.find("p1[i]").unwrap());
}

#[test]
fn dot_product_scenario() {
    let code = "def dot_product(a, b):\n    total = 0.0\n    for i in range(len(a)):\n        total += a[i] * b[i]\n    return total\n";
    let module = parse_module(code).expect("parse");
    let (text, fallback) =
        render_function_with_options(&target("dot_product", 1, 8000, "test"), module.as_slice(), false);
    assert!(!fallback);
    assert!(text.contains("total += (a[i] * b[i]);"));
    assert!(!text.contains("// fallback"));
}

#[test]
fn normalize_pixels_scenario() {
    let code = "def normalize_pixels(pixels, mean, std):\n    result = [0.0] * len(pixels)\n    for i in range(len(pixels)):\n        result[i] = (pixels[i] - mean) / std\n    return result\n";
    let module = parse_module(code).expect("parse");
    let t = translate_target(&target("normalize_pixels", 1, 9000, "test"), module.as_slice());
    assert_eq!(t.params.len(), 3);
    assert_eq!(t.return_type, "Vec<f64>");
    assert!(t.body.contains("vec![0.0f64; pixels.len()]"));
    assert!(!t.fallback);
}

#[test]
fn name_is_read_back_from_the_text() {
    assert_eq!(extract_fn_name("#[pyfunction]\n/// c\npub fn abc(py: Python) -> X {\n}\n"), "abc");
    assert_eq!(extract_fn_name("pub fn first(\npub fn second("), "first");
    assert_eq!(extract_fn_name("pub fn open"), "open");
    assert_eq!(extract_fn_name("pub fn (x)"), "");
    assert_eq!(extract_fn_name("  pub fn indented()"), "generated");
    assert_eq!(extract_fn_name("fn private()"), "generated");
    assert_eq!(extract_fn_name(""), "generated");
    assert_eq!(extract_fn_name("pub fn a<T>(x: T)\r\n"), "a<T>");
    assert_eq!(extract_fn_name("// pub fn no()\npub fn yes()\r\n"), "yes");
}

#[test]
fn unit_in_full() {
    let functions = vec!["#[pyfunction]\npub fn a() {}\n".to_string(), "nothing".to_string()];
    let expected = [
        "#![allow(unsafe_op_in_unsafe_fn)]\nuse pyo3::prelude::*;\nuse pyo3::Bound;\n",
        "\n",
        "#[pyfunction]\npub fn a() {}\n",
        "\n",
        "nothing",
        "\n#[pymodule]\nfn rustify_ml_ext(_py: Python, m: &Bound<'_, PyModule>) -> PyResult<()> {\n",
        "m.add_function(wrap_pyfunction!(a, m)?)?;",
        "\n    ",
        "m.add_function(wrap_pyfunction!(generated, m)?)?;",
        "\nOk(())\n}\n",
    ]
    .concat();
    assert_eq!(render_lib_rs_with_options(&functions, false), expected);
}

#[test]
fn unit_with_arrays_and_without_functions() {
    assert_eq!(
        render_lib_rs_with_options(&[], true),
        "#![allow(unsafe_op_in_unsafe_fn)]\nuse pyo3::prelude::*;\nuse pyo3::Bound;\nuse numpy;\n\n\n#[pymodule]\nfn rustify_ml_ext(_py: Python, m: &Bound<'_, PyModule>) -> PyResult<()> {\n\nOk(())\n}\n"
    );
}

#[test]
fn unit_is_the_same_each_time() {
    let module = parse_module(INNER).expect("parse");
    let (a, _) = render_function_with_options(&target("inner", 1, 10000, "x"), module.as_slice(), false);
    let (b, _) = render_function_with_options(&target("absent", 1, 10000, "x"), module.as_slice(), false);
    let functions = vec![a, b];
    let first = render_lib_rs_with_options(&functions, false);
    let second = render_lib_rs_with_options(&functions, false);
    assert_eq!(first, second);
    assert!(first.find("pub fn inner(").unwrap() < first.find("pub fn absent(").unwrap());
    assert!(first.contains("m.add_function(wrap_pyfunction!(inner, m)?)?;\n    m.add_function(wrap_pyfunction!(absent, m)?)?;"));
}

#[test]
fn manifest_in_full() {
    let plain = "[package]\nname = \"rustify_ml_ext\"\nversion = \"0.1.0\"\nedition = \"2024\"\n\n[lib]\nname = \"rustify_ml_ext\"\ncrate-type = [\"cdylib\"]\n\n[dependencies]\npyo3 = { version = \"0.21\", features = [\"extension-module\"] }\n";
    assert_eq!(render_cargo_toml_with_options(false), plain);
    assert_eq!(render_cargo_toml_with_options(true), format!("{}numpy = \"0.21\"\n", plain));
}
