use rustify_ml::analyzer::{select_targets, select_targets_in};
use rustify_ml::builder::{benchmark_functions, build_benchmark_harness};
use rustify_ml::parser::parse_module;
use rustify_ml::utils::{
    accelerate_rows, extract_code, Hotspot, InputSource, ProfileSummary, TargetSpec,
};
use std::path::PathBuf;

fn hotspot(func: &str, line: u32, percent_hundredths: u32) -> Hotspot {
    Hotspot { func: func.to_string(), line, percent_hundredths }
}

fn target(func: &str) -> TargetSpec {
    TargetSpec { func: func.to_string(), line: 1, percent_hundredths: 10000, reason: "t".to_string() }
}

fn profile() -> ProfileSummary {
    ProfileSummary { hotspots: vec![hotspot("f", 3, 5000), hotspot("g", 9, 999), hotspot("h", 1, 1000)] }
}

fn summary(targets: &[TargetSpec]) -> Vec<(String, u32, u32, String)> {
    targets.iter().map(|t| (t.func.clone(), t.line, t.percent_hundredths, t.reason.clone())).collect()
}

#[test]
fn hotspots_at_or_above_the_threshold() {
    let source = InputSource::Snippet("def k():\n    return 1\n".to_string());
    let targets = select_targets(&profile(), &source, 1000, false);
    assert_eq!(
        summary(&targets),
        vec![
            ("f".to_string(), 3, 5000, "50% hotspot".to_string()),
            ("h".to_string(), 1, 1000, "10% hotspot".to_string()),
        ]
    );
    let ml = select_targets(&profile(), &source, 999, true);
    assert_eq!(
        summary(&ml),
        vec![
            ("f".to_string(), 3, 5000, "50% hotspot (ml-mode)".to_string()),
            ("g".to_string(), 9, 999, "9.99% hotspot (ml-mode)".to_string()),
            ("h".to_string(), 1, 1000, "10% hotspot (ml-mode)".to_string()),
        ]
    );
    assert!(select_targets(&profile(), &source, 5001, false).is_empty());
}

#[test]
fn every_definition_without_a_threshold() {
    let source = InputSource::Snippet("def k():\n    return 1\n\ndef f(n):\n    return n\n\nx = 1\n\ndef k():\n    return 2\n".to_string());
    for threshold in [0i64, -500] {
        let targets = select_targets(&profile(), &source, threshold, false);
        assert_eq!(
            summary(&targets),
            vec![
                ("f".to_string(), 3, 5000, "50% hotspot".to_string()),
                ("g".to_string(), 9, 999, "9.99% hotspot".to_string()),
                ("h".to_string(), 1, 1000, "10% hotspot".to_string()),
                ("k".to_string(), 1, 0, "threshold<=0: include all defs".to_string()),
            ]
        );
    }
}

#[test]
fn source_that_does_not_parse_adds_nothing() {
    let source = InputSource::Snippet("def k(:\n".to_string());
    let targets = select_targets(&profile(), &source, 0, false);
    assert_eq!(targets.len(), 3);
    let empty = select_targets(&ProfileSummary::default(), &source, 0, false);
    assert!(empty.is_empty());
}

#[test]
fn selection_for_a_given_module() {
    let module = parse_module("def a():\n    return 1\n\ndef b():\n    return 1\n").expect("parse");
    let none = ProfileSummary::default();
    let all = select_targets_in(&none, Some(module.as_slice()), 0, true);
    assert_eq!(
        summary(&all),
        vec![
            ("a".to_string(), 1, 0, "threshold<=0: include all defs".to_string()),
            ("b".to_string(), 1, 0, "threshold<=0: include all defs".to_string()),
        ]
    );
    assert!(select_targets_in(&none, Some(module.as_slice()), 1, true).is_empty());
    assert!(select_targets_in(&none, None, 0, true).is_empty());
}

#[test]
fn code_of_every_kind_of_input() {
    let file = InputSource::File { path: PathBuf::from("a.py"), code: "x = 1".to_string() };
    let snippet = InputSource::Snippet("y = 2".to_string());
    let git = InputSource::Git { repo: "r".to_string(), path: PathBuf::from("b.py"), code: "z = 3".to_string() };
    assert_eq!(extract_code(&file), "x = 1");
    assert_eq!(extract_code(&snippet), "y = 2");
    assert_eq!(extract_code(&git), "z = 3");
}

#[test]
fn functions_worth_timing() {
    let targets = vec![target("a"), target("b"), target("c"), target("ab")];
    let generated = vec![
        "#[pyfunction]\npub fn ab(py: Python) {\n    Ok(1)\n}\n".to_string(),
        "#[pyfunction]\npub fn b(py: Python) {\n    // fallback: echo input\n    Ok(data)\n}\n".to_string(),
    ];
    assert_eq!(benchmark_functions(&targets, &generated), vec!["a", "ab"]);
    assert!(benchmark_functions(&targets, &[]).is_empty());
    assert!(benchmark_functions(&[], &generated).is_empty());
}

#[test]
fn timing_script() {
    let names = vec!["f".to_string(), "g".to_string()];
    let script = build_benchmark_harness("s = \"a\\b\"\n", "ext_mod", &names);
    assert!(script.starts_with("\nimport timeit, sys, importlib, types\n\n# --- original Python code ---\n_src = \"\"\"s = \\\"a\\\\b\\\"\n\"\"\"\n_mod = types.ModuleType(\"_orig\")\n"));
    assert!(script.contains("    _ext = importlib.import_module(\"ext_mod\")\nexcept ImportError as e:\n    print(f\"Could not import ext_mod: {e}\")\n    sys.exit(1)\n\n_funcs = [\"f\", \"g\"]\n_iters = 1000\n"));
    assert!(script.contains("print(f\"  {fn_name:<22} | {py_time:>9.4f}s | {rs_time:>9.4f}s | {speedup:>7.1f}x\")"));
    assert!(script.ends_with("print(f\"{'':-<60}\")\nprint()\n"));
    let none = build_benchmark_harness("", "m", &[]);
    assert!(none.contains("_src = \"\"\"\"\"\"\n"));
    assert!(none.contains("_funcs = []\n"));
}

#[test]
fn rows_of_the_summary() {
    let targets = vec![
        TargetSpec { func: "a".to_string(), line: 4, percent_hundredths: 6000, reason: "r".to_string() },
        TargetSpec { func: "b".to_string(), line: 9, percent_hundredths: 4000, reason: "r".to_string() },
        TargetSpec { func: "c".to_string(), line: 1, percent_hundredths: 0, reason: "r".to_string() },
    ];
    let generated = vec![
        "#[pyfunction]\npub fn b(py: Python) {\n    // fallback: echo input\n}".to_string(),
        "#[pyfunction]\npub fn earlier(py: Python) {\n    // fallback: echo input\n}".to_string(),
        "#[pyfunction]\npub fn a(py: Python) {\n    Ok(1)\n}".to_string(),
    ];
    let rows = accelerate_rows(&targets, &generated);
    assert_eq!(rows.len(), 3);
    assert_eq!((rows[0].func.as_str(), rows[0].line, rows[0].percent_hundredths), ("a", 4, 6000));
    assert_eq!((rows[0].translation, rows[0].status.as_str()), ("Full", "Success"));
    assert_eq!((rows[1].translation, rows[1].status.as_str()), ("Partial", "Fallback: echo input"));
    assert_eq!((rows[2].translation, rows[2].status.as_str()), ("Full", "Success"));
    assert_eq!(rows[1].func, "b");
}

#[test]
fn rows_go_by_the_exported_name() {
    let targets = vec![
        TargetSpec { func: "CamelCase".to_string(), line: 1, percent_hundredths: 1, reason: "r".to_string() },
        TargetSpec { func: "camel".to_string(), line: 1, percent_hundredths: 1, reason: "r".to_string() },
        TargetSpec { func: "missing".to_string(), line: 1, percent_hundredths: 1, reason: "r".to_string() },
    ];
    let generated = vec![
        "#[pyfunction]\npub fn camel(py: Python) {\n    Ok(1)\n}".to_string(),
        "#[pyfunction]\npub fn camel_case(py: Python) {\n    // fallback: echo input\n}".to_string(),
    ];
    let rows = accelerate_rows(&targets, &generated);
    assert_eq!((rows[0].translation, rows[0].status.as_str()), ("Partial", "Fallback: echo input"));
    assert_eq!((rows[1].translation, rows[1].status.as_str()), ("Full", "Success"));
    assert_eq!((rows[2].translation, rows[2].status.as_str()), ("Full", "Success"));
    let none = accelerate_rows(&targets, &[]);
    assert_eq!(none.len(), 3);
    assert_eq!(none[0].translation, "Full");
}

#[test]
fn rows_after_a_generation_over_an_earlier_unit() {
    let code = "def good(n):\n    n += 1\n    return n\n\ndef bad(n):\n    pass\n";
    let first = rustify_ml::generator::generate_with_options(code, &[target("bad")], None, false).expect("generate");
    let targets = vec![target("good")];
    let second = rustify_ml::generator::generate_with_options(code, &targets, Some(first.lib_rs.as_str()), false)
        .expect("generate");
    assert!(second.functions[0].contains("pub fn bad("));
    let rows = accelerate_rows(&targets, &second.functions);
    assert_eq!(rows.len(), 1);
    assert_eq!((rows[0].func.as_str(), rows[0].translation), ("good", "Full"));
}
