//! What the build stage computes before it runs anything: which functions
//! are worth timing, and the script that times them.

use crate::text::{contains, has_substring, join, join_text, push_char, texts, to_chars};
use crate::utils::{is_fallback_text, TargetSpec};
use vstd::prelude::*;

verus! {

/// The timing script, up to the Python source.
pub const HARNESS_HEAD: &'static str =
    "\nimport timeit, sys, importlib, types\n\n# --- original Python code ---\n_src = \"\"\"";

/// The timing script, from the Python source to the name of the extension.
pub const HARNESS_IMPORT: &'static str =
    "\"\"\"\n_mod = types.ModuleType(\"_orig\")\nexec(compile(_src, \"<rustify_bench>\", \"exec\"), _mod.__dict__)\n\n# --- accelerated Rust extension ---\ntry:\n    _ext = importlib.import_module(\"";

/// The timing script, between the two places that name the extension.
pub const HARNESS_EXCEPT: &'static str =
    "\")\nexcept ImportError as e:\n    print(f\"Could not import ";

/// The timing script, from the name of the extension to the list of
/// functions.
pub const HARNESS_FUNCS: &'static str =
    ": {e}\")\n    sys.exit(1)\n\n_funcs = [";

/// The timing script, after the list of functions.
pub const HARNESS_TAIL: &'static str =
    "]\n_iters = 1000\n\nprint()\nprint(f\"{'':-<60}\")\nprint(f\"  rustify-ml benchmark  ({_iters} iterations each)\")\nprint(f\"{'':-<60}\")\nprint(f\"  {\\\"Function\\\":<22} | {\\\"Python\\\":>10} | {\\\"Rust\\\":>10} | {\\\"Speedup\\\":>8}\")\nprint(f\"  {'':-<22}-+-{'':-<10}-+-{'':-<10}-+-{'':-<8}\")\n\nfor fn_name in _funcs:\n    py_fn = getattr(_mod, fn_name, None)\n    rs_fn = getattr(_ext, fn_name, None)\n    if py_fn is None or rs_fn is None:\n        print(f\"  {fn_name:<22} | skipped (not found)\")\n        continue\n    # Build a simple call with dummy float vectors\n    try:\n        import inspect\n        sig = inspect.signature(py_fn)\n        n_params = len(sig.parameters)\n        dummy = [float(i) for i in range(100)]\n        args = tuple(dummy for _ in range(n_params))\n        py_time = timeit.timeit(lambda: py_fn(*args), number=_iters)\n        rs_time = timeit.timeit(lambda: rs_fn(*args), number=_iters)\n        speedup = py_time / rs_time if rs_time > 0 else float(\"inf\")\n        print(f\"  {fn_name:<22} | {py_time:>9.4f}s | {rs_time:>9.4f}s | {speedup:>7.1f}x\")\n    except Exception as e:\n        print(f\"  {fn_name:<22} | error: {e}\")\n\nprint(f\"{'':-<60}\")\nprint()\n";

/// One character as it stands inside the triple-quoted Python string of the
/// script: a backslash and a double quote get a backslash before them.
pub open spec fn quoted_char(c: char) -> Seq<char> {
    if c == '\\' || c == '"' {
        seq!['\\', c]
    } else {
        seq![c]
    }
}

/// A text as it stands inside the triple-quoted Python string.
pub open spec fn quoted_text(s: Seq<char>) -> Seq<char>
    decreases s.len(),
{
    if s.len() == 0 {
        Seq::empty()
    } else {
        quoted_text(s.drop_last()) + quoted_char(s.last())
    }
}

/// Each name in double quotes.
pub open spec fn quoted_names(names: Seq<Seq<char>>) -> Seq<Seq<char>> {
    Seq::new(names.len(), |i: int| "\""@ + names[i] + "\""@)
}

/// The timing script for the functions `names` of the Python source `code`
/// against the extension `module`.
pub open spec fn harness_text(code: Seq<char>, module: Seq<char>, names: Seq<Seq<char>>) -> Seq<
    char,
> {
    HARNESS_HEAD@ + quoted_text(code) + HARNESS_IMPORT@ + module + HARNESS_EXCEPT@ + module
        + HARNESS_FUNCS@ + join_text(quoted_names(names), ", "@) + HARNESS_TAIL@
}

/// Whether one of the first `n` rendered functions declares `func` and did
/// not fall back.
pub open spec fn translated_in(functions: Seq<String>, func: Seq<char>, n: nat) -> bool
    decreases n,
{
    n > 0 && n <= functions.len() && (translated_in(functions, func, (n - 1) as nat) || (
    has_substring(functions[n - 1]@, "pub fn "@ + func) && !is_fallback_text(functions[n - 1]@)))
}

/// The names of those of the first `n` targets that were translated in
/// full, in order.
pub open spec fn timed_names(targets: Seq<TargetSpec>, functions: Seq<String>, n: nat) -> Seq<
    Seq<char>,
>
    decreases n,
{
    if n == 0 || n > targets.len() {
        Seq::empty()
    } else if translated_in(functions, targets[n - 1].func@, functions.len()) {
        timed_names(targets, functions, (n - 1) as nat).push(targets[n - 1].func@)
    } else {
        timed_names(targets, functions, (n - 1) as nat)
    }
}

fn is_translated(functions: &[String], func: &str) -> (b: bool)
    ensures
        b == translated_in(functions@, func@, functions@.len()),
{
    let mut decl = String::from_str("pub fn ");
    decl.append(func);
    let mut i: usize = 0;
    while i < functions.len()
        invariant
            i <= functions.len(),
            decl@ == "pub fn "@ + func@,
            !translated_in(functions@, func@, i as nat),
        decreases functions.len() - i,
    {
        if contains(functions[i].as_str(), decl.as_str()) && !contains(
            functions[i].as_str(),
            "// fallback",
        ) {
            proof {
                lemma_translated_stays(functions@, func@, (i + 1) as nat, functions@.len());
            }
            return true;
        }
        i = i + 1;
    }
    false
}

/// Once a function is found among the first `n`, it is found among more.
pub proof fn lemma_translated_stays(functions: Seq<String>, func: Seq<char>, n: nat, m: nat)
    requires
        n <= m <= functions.len(),
        translated_in(functions, func, n),
    ensures
        translated_in(functions, func, m),
    decreases m,
{
    if m > n {
        lemma_translated_stays(functions, func, n, (m - 1) as nat);
    }
}

/// The functions that are worth timing: the names of the targets for which
/// one of the generated functions declares that name and did not fall back.
pub fn benchmark_functions(targets: &[TargetSpec], generated_functions: &[String]) -> (r: Vec<
    String,
>)
    ensures
        texts(r@) == timed_names(targets@, generated_functions@, targets@.len()),
{
    let mut r: Vec<String> = Vec::new();
    let mut i: usize = 0;
    assert(texts(r@) =~= timed_names(targets@, generated_functions@, 0));
    while i < targets.len()
        invariant
            i <= targets.len(),
            texts(r@) == timed_names(targets@, generated_functions@, i as nat),
        decreases targets.len() - i,
    {
        if is_translated(generated_functions, targets[i].func.as_str()) {
            let ghost before = texts(r@);
            r.push(targets[i].func.clone());
            assert(texts(r@) =~= before.push(targets@[i as int].func@));
        }
        i = i + 1;
    }
    r
}

fn quote_source(code: &str) -> (r: String)
    ensures
        r@ == quoted_text(code@),
{
    let v = to_chars(code);
    let mut r = String::new();
    let mut i: usize = 0;
    assert(v@.take(0) =~= Seq::<char>::empty());
    while i < v.len()
        invariant
            i <= v.len(),
            r@ == quoted_text(v@.take(i as int)),
        decreases v.len() - i,
    {
        assert(v@.take(i + 1).drop_last() =~= v@.take(i as int));
        let c = v[i];
        let ghost before = r@;
        if c == '\\' || c == '"' {
            push_char(&mut r, '\\');
            push_char(&mut r, c);
            assert(r@ =~= before + quoted_char(c));
        } else {
            push_char(&mut r, c);
            assert(r@ =~= before + quoted_char(c));
        }
        i = i + 1;
    }
    assert(v@.take(v.len() as int) =~= v@);
    r
}

/// The Python script that times each of `func_names` in the source `code`
/// against the function of the same name in the extension `module_name`.
pub fn build_benchmark_harness(code: &str, module_name: &str, func_names: &[String]) -> (r: String)
    ensures
        r@ == harness_text(code@, module_name@, texts(func_names@)),
{
    let mut quoted: Vec<String> = Vec::new();
    let mut i: usize = 0;
    while i < func_names.len()
        invariant
            i <= func_names.len(),
            quoted.len() == i,
            forall|j: int| 0 <= j < i ==> quoted@[j]@ == "\""@ + func_names@[j]@ + "\""@,
        decreases func_names.len() - i,
    {
        let mut q = String::from_str("\"");
        q.append(func_names[i].as_str());
        q.append("\"");
        quoted.push(q);
        i = i + 1;
    }
    assert(texts(quoted@) =~= quoted_names(texts(func_names@)));
    let list = join(&quoted, ", ");
    let source = quote_source(code);
    let mut r = String::from_str(HARNESS_HEAD);
    r.append(source.as_str());
    r.append(HARNESS_IMPORT);
    r.append(module_name);
    r.append(HARNESS_EXCEPT);
    r.append(module_name);
    r.append(HARNESS_FUNCS);
    r.append(list.as_str());
    r.append(HARNESS_TAIL);
    r
}

} // verus!
