//! Rendering: one translated function as a complete exported function, all
//! functions as one compilation unit, and the manifest of the generated
//! crate.

use crate::ast::PyStmt;
use crate::generator::infer::{
    guard_block_text, len_check_text, len_checks_text, pairs, render_len_checks, vector_names,
};
use crate::generator::translate::{
    echo_text, function_translation, translate_function_body, Translation, TranslationText,
};
use crate::text::{
    chars_occur_at, decimal, decimal_text, find_char, first_index, from_chars, has_prefix, join,
    free_of, join_text, lemma_decimal_has_no_line_feed, lemma_first_index_is,
    lemma_first_line_keeps_prefix, lemma_lines_after_first, lemma_percent_has_no_line_feed,
    lemma_prefix_extends, lines, occurs_at, percent, percent_text, rows, same_text, strip_cr,
    text_lines, texts, to_chars,
};
use crate::utils::TargetSpec;
use vstd::prelude::*;

verus! {

/// The stub for a function that the module does not define: one vector
/// parameter called `data`, handed back.
pub open spec fn stub_translation() -> TranslationText {
    TranslationText {
        params: seq![("data"@, "Vec<f64>"@)],
        return_type: "Vec<f64>"@,
        body: echo_text("data"@),
        fallback: true,
    }
}

/// The translation that is rendered for the function `func` of `module`:
/// the translation of its definition, or the stub where the module defines
/// no such function.
pub open spec fn target_translation(module: Seq<PyStmt>, func: Seq<char>) -> TranslationText {
    match function_translation(module, func) {
        Some(t) => t,
        None => stub_translation(),
    }
}

/// The parameters with every vector of floats replaced by a read-only
/// array.
pub open spec fn ndarray_params(params: Seq<(Seq<char>, Seq<char>)>) -> Seq<
    (Seq<char>, Seq<char>),
> {
    Seq::new(
        params.len(),
        |i: int|
            (
                params[i].0,
                if params[i].1 == "Vec<f64>"@ {
                    "numpy::PyReadonlyArray1<f64>"@
                } else {
                    params[i].1
                },
            ),
    )
}

/// The parameters as they stand in the rendered function.
pub open spec fn rendered_params(t: TranslationText, use_ndarray: bool) -> Seq<
    (Seq<char>, Seq<char>),
> {
    if use_ndarray {
        ndarray_params(t.params)
    } else {
        t.params
    }
}

/// The guard block of the rendered function: none with arrays, else the
/// length checks of the parameters.
pub open spec fn rendered_guard(t: TranslationText, use_ndarray: bool) -> Seq<char> {
    if use_ndarray {
        Seq::empty()
    } else {
        match guard_block_text(t.params) {
            Some(g) => g,
            None => Seq::empty(),
        }
    }
}

/// Each parameter as `name: type`.
pub open spec fn param_decls(params: Seq<(Seq<char>, Seq<char>)>) -> Seq<Seq<char>> {
    Seq::new(params.len(), |i: int| params[i].0 + ": "@ + params[i].1)
}

/// The comment that says where a generated function comes from.
pub open spec fn provenance_text(target: TargetSpec) -> Seq<char> {
    "/// Auto-generated from Python hotspot `"@ + target.func@ + "` at line "@ + decimal_text(
        target.line as nat,
    ) + " ("@ + percent_text(target.percent_hundredths as nat) + "%): "@ + target.reason@
}

/// The note that a function with array parameters carries.
pub open spec fn ndarray_note(use_ndarray: bool) -> Seq<char> {
    if use_ndarray {
        "\n    // ndarray: use p1.as_slice()? to get &[f64] for indexing"@
    } else {
        Seq::empty()
    }
}

/// What follows the signature of an exported function, up to its guard
/// block.
pub open spec fn body_head(use_ndarray: bool) -> Seq<char> {
    "> {"@ + ndarray_note(use_ndarray) + "\n    let _ = py; // reserved for future GIL use\n    "@
}

/// One exported function: the attribute, the provenance comment, the
/// signature, the guard block and the body.
pub open spec fn function_text(
    rust_name: Seq<char>,
    target: TargetSpec,
    t: TranslationText,
    use_ndarray: bool,
) -> Seq<char> {
    "#[pyfunction]"@ + "\n"@ + provenance_text(target) + "\n"@ + ("pub fn "@ + rust_name + "("@) + (
    "py: Python, "@ + join_text(param_decls(rendered_params(t, use_ndarray)), ", "@)
        + ") -> PyResult<"@ + t.return_type + body_head(use_ndarray) + rendered_guard(
        t,
        use_ndarray,
    ) + "\n    "@ + t.body + "\n}\n"@)
}

/// The position of the first of the first `n` lines that begins with
/// `pub fn `.
pub open spec fn first_decl(all: Seq<Seq<char>>, n: nat) -> Option<int>
    decreases n,
{
    if n == 0 || n > all.len() {
        None
    } else {
        match first_decl(all, (n - 1) as nat) {
            Some(i) => Some(i),
            None => if has_prefix(all[n - 1], "pub fn "@) {
                Some(n - 1)
            } else {
                None
            },
        }
    }
}

/// What stands on a line between `pub fn ` and the first opening bracket.
pub open spec fn declared_name(line: Seq<char>) -> Seq<char> {
    let rest = line.skip("pub fn "@.len() as int);
    rest.take(first_index(rest, '(') as int)
}

/// The name that a rendered function exports: what its first line that
/// begins with `pub fn ` declares, or `generated` where it has no such line.
pub open spec fn fn_name_text(src: Seq<char>) -> Seq<char> {
    let all = text_lines(src);
    match first_decl(all, all.len()) {
        Some(i) => declared_name(all[i]),
        None => "generated"@,
    }
}

/// The line that registers the function rendered as `src`.
pub open spec fn adder_text(src: Seq<char>) -> Seq<char> {
    "m.add_function(wrap_pyfunction!("@ + fn_name_text(src) + ", m)?)?;"@
}

/// The registration lines of the functions, in order.
pub open spec fn adder_texts(functions: Seq<Seq<char>>) -> Seq<Seq<char>> {
    Seq::new(functions.len(), |i: int| adder_text(functions[i]))
}

/// What a compilation unit begins with.
pub const UNIT_HEAD: &'static str =
    "#![allow(unsafe_op_in_unsafe_fn)]\nuse pyo3::prelude::*;\nuse pyo3::Bound;\n";

/// What opens the registration table of a compilation unit.
pub const MODULE_HEAD: &'static str =
    "\n#[pymodule]\nfn rustify_ml_ext(_py: Python, m: &Bound<'_, PyModule>) -> PyResult<()> {\n";

/// What closes a compilation unit.
pub const MODULE_TAIL: &'static str = "\nOk(())\n}\n";

/// The manifest of the generated crate, up to its optional last line.
pub const MANIFEST_TEXT: &'static str =
    "[package]\nname = \"rustify_ml_ext\"\nversion = \"0.1.0\"\nedition = \"2024\"\n\n[lib]\nname = \"rustify_ml_ext\"\ncrate-type = [\"cdylib\"]\n\n[dependencies]\npyo3 = { version = \"0.21\", features = [\"extension-module\"] }\n";

/// The compilation unit: the imports, the functions in the given order,
/// and the table that registers each of them by its exported name.
pub open spec fn lib_text(functions: Seq<Seq<char>>, use_ndarray: bool) -> Seq<char> {
    UNIT_HEAD@ + (if use_ndarray {
        "use numpy;\n"@
    } else {
        Seq::empty()
    }) + "\n"@ + join_text(functions, "\n"@) + MODULE_HEAD@ + join_text(
        adder_texts(functions),
        "\n    "@,
    ) + MODULE_TAIL@
}

/// The manifest: the package as a dynamic library with `pyo3` pinned, and
/// `numpy` beside it where arrays are used.
pub open spec fn manifest_text(use_ndarray: bool) -> Seq<char> {
    MANIFEST_TEXT@ + if use_ndarray {
        "numpy = \"0.21\"\n"@
    } else {
        Seq::empty()
    }
}

/// The checks of two or more names begin with the check of the first
/// against the second.
pub proof fn lemma_len_checks_start(names: Seq<Seq<char>>, n: nat)
    requires
        2 <= n <= names.len(),
    ensures
        has_prefix(len_checks_text(names, n), len_check_text(names[0], names[1])),
    decreases n,
{
    if n == 2 {
        let first = len_check_text(names[0], names[1]);
        assert(len_checks_text(names, 1) =~= Seq::<char>::empty());
        assert(len_checks_text(names, 2) =~= first);
        assert(first.subrange(0, first.len() as int) =~= first);
    } else {
        lemma_len_checks_start(names, (n - 1) as nat);
        lemma_prefix_extends(
            len_checks_text(names, (n - 1) as nat),
            len_check_text(names[0], names[1]),
            len_check_text(names[0], names[n - 1]),
        );
    }
}

/// A function with two vector parameters checks their lengths before its
/// body: rendered without arrays, a translation with two or more vector
/// parameters holds the check of the first against the second, and that
/// check ends before the body begins.
pub proof fn lemma_guard_precedes_body(rust_name: Seq<char>, target: TargetSpec, t: TranslationText)
    requires
        vector_names(t.params, t.params.len()).len() >= 2,
    ensures
        ({
            let names = vector_names(t.params, t.params.len());
            let text = function_text(rust_name, target, t, false);
            let check = len_check_text(names[0], names[1]);
            exists|at: int|
                occurs_at(text, check, at) && at + check.len() + t.body.len() + "\n}\n"@.len()
                    <= text.len()
        }),
{
    let names = vector_names(t.params, t.params.len());
    let text = function_text(rust_name, target, t, false);
    let check = len_check_text(names[0], names[1]);
    let guard = len_checks_text(names, names.len());
    lemma_len_checks_start(names, names.len());
    let head = "#[pyfunction]"@ + "\n"@ + provenance_text(target) + "\n"@ + ("pub fn "@ + rust_name
        + "("@) + ("py: Python, "@ + join_text(param_decls(rendered_params(t, false)), ", "@)
        + ") -> PyResult<"@ + t.return_type + body_head(false));
    assert(rendered_guard(t, false) == guard);
    assert(text =~= head + guard + "\n    "@ + t.body + "\n}\n"@);
    let at = head.len() as int;
    assert(text.subrange(at, at + check.len()) =~= guard.subrange(0, check.len() as int));
    assert(occurs_at(text, check, at));
}

/// A line that does not begin with `p` does not begin with `pub fn `.
pub proof fn lemma_not_a_declaration(line: Seq<char>)
    requires
        line.len() > 0 ==> line[0] != 'p',
    ensures
        !has_prefix(line, "pub fn "@),
{
    reveal_strlit("pub fn ");
    if has_prefix(line, "pub fn "@) {
        assert(line.subrange(0, "pub fn "@.len() as int)[0] == 'p');
    }
}

/// A line that begins with `pub fn `, a name without opening bracket, and
/// an opening bracket declares that name.
pub proof fn lemma_declared_name(line: Seq<char>, name: Seq<char>)
    requires
        has_prefix(line, "pub fn "@ + name + "("@),
        free_of(name, '('),
    ensures
        has_prefix(line, "pub fn "@),
        declared_name(line) == name,
{
    reveal_strlit("(");
    let marker = "pub fn "@;
    let pre = marker + name + "("@;
    let rest = line.skip(marker.len() as int);
    assert(line.subrange(0, marker.len() as int) =~= pre.subrange(0, marker.len() as int));
    assert(pre.subrange(0, marker.len() as int) =~= marker);
    assert forall|i: int| 0 <= i < name.len() implies rest[i] != '(' by {
        assert(rest[i] == line.subrange(0, pre.len() as int)[marker.len() + i]);
        assert(pre[marker.len() + i] == name[i]);
    }
    let at: int = (marker.len() + name.len()) as int;
    assert(rest[name.len() as int] == line.subrange(0, pre.len() as int)[at]);
    assert(pre[at] == '(');
    lemma_first_index_is(rest, '(', name.len() as int);
    assert forall|i: int| 0 <= i < name.len() implies rest.take(name.len() as int)[i]
        == name[i] by {
        assert(rest[i] == line.subrange(0, pre.len() as int)[marker.len() + i]);
        assert(pre[marker.len() + i] == name[i]);
    }
    assert(rest.take(name.len() as int) =~= name);
}

/// The provenance comment of a target whose name and reason hold no line
/// feed is one line that begins with a slash.
pub proof fn lemma_provenance_is_one_line(target: TargetSpec)
    requires
        free_of(target.func@, '\n'),
        free_of(target.reason@, '\n'),
    ensures
        free_of(provenance_text(target), '\n'),
        provenance_text(target).len() >= 2,
        provenance_text(target)[0] == '/',
{
    lemma_decimal_has_no_line_feed(target.line as nat);
    lemma_percent_has_no_line_feed(target.percent_hundredths as nat);
    let a = "/// Auto-generated from Python hotspot `"@;
    assert(free_of(a, '\n') && a.len() >= 2 && a[0] == '/') by {
        reveal_strlit("/// Auto-generated from Python hotspot `");
    }
    assert(free_of("` at line "@, '\n')) by {
        reveal_strlit("` at line ");
    }
    assert(free_of(" ("@, '\n')) by {
        reveal_strlit(" (");
    }
    assert(free_of("%): "@, '\n')) by {
        reveal_strlit("%): ");
    }
}

/// The name comes back from the rendering: the name that a rendered
/// function exports is read back from its text, for every name without
/// opening bracket and line feed, and every target whose name and reason
/// hold no line feed.
pub proof fn lemma_name_round_trip(
    rust_name: Seq<char>,
    target: TargetSpec,
    t: TranslationText,
    use_ndarray: bool,
)
    requires
        free_of(rust_name, '\n'),
        free_of(rust_name, '('),
        free_of(target.func@, '\n'),
        free_of(target.reason@, '\n'),
    ensures
        fn_name_text(function_text(rust_name, target, t, use_ndarray)) == rust_name,
{
    let attr = "#[pyfunction]"@;
    let prov = provenance_text(target);
    let decl = "pub fn "@ + rust_name + "("@;
    let rest = "py: Python, "@ + join_text(param_decls(rendered_params(t, use_ndarray)), ", "@)
        + ") -> PyResult<"@ + t.return_type + body_head(use_ndarray) + rendered_guard(
        t,
        use_ndarray,
    ) + "\n    "@ + t.body + "\n}\n"@;
    let text = function_text(rust_name, target, t, use_ndarray);
    lemma_provenance_is_one_line(target);
    assert(free_of(attr, '\n') && attr.len() > 0 && attr[0] == '#' && attr.last() != '\r') by {
        reveal_strlit("#[pyfunction]");
    }
    assert(free_of(decl, '\n') && decl.len() > 0 && decl.last() == '(') by {
        reveal_strlit("pub fn ");
        reveal_strlit("(");
    }
    let after_attr = prov + "\n"@ + (decl + rest);
    assert(text =~= attr + "\n"@ + after_attr);
    lemma_lines_after_first(attr, after_attr);
    lemma_lines_after_first(prov, decl + rest);
    lemma_first_line_keeps_prefix(decl, rest);
    let tail = text_lines(decl + rest);
    let all = text_lines(text);
    assert(all =~= seq![strip_cr(attr)] + (seq![strip_cr(prov)] + tail));
    assert(all[0] == attr);
    assert(all[1] == strip_cr(prov));
    assert(all[2] == tail[0]);
    lemma_not_a_declaration(all[0]);
    lemma_not_a_declaration(all[1]);
    lemma_declared_name(all[2], rust_name);
    assert(first_decl(all, 0) is None);
    assert(first_decl(all, 1) is None);
    assert(first_decl(all, 2) is None);
    assert(first_decl(all, 3) == Some(2int));
    lemma_first_decl_stable(all, 3, all.len());
}

/// What `heck` makes of a name in snake case.
pub uninterp spec fn snake_case(name: Seq<char>) -> Seq<char>;

/// `heck::ToSnakeCase::to_snake_case` on `name`: the words of `name`, in
/// lower case, joined by underscores. The result depends on `name` alone.
/// A word is a run of alphanumeric characters, and nothing but the
/// characters of words in lower case and the underscore is written, so the
/// result holds neither an opening bracket nor a line feed.
#[verifier::external_body]
pub(crate) fn to_snake_case(name: &str) -> (r: String)
    ensures
        r@ == snake_case(name@),
        free_of(r@, '('),
        free_of(r@, '\n'),
{
    heck::ToSnakeCase::to_snake_case(name)
}

fn pair(name: &str, ty: &str) -> (r: (String, String))
    ensures
        r.0@ == name@,
        r.1@ == ty@,
{
    (String::from_str(name), String::from_str(ty))
}

/// The translation that is rendered for `target`.
pub fn translate_target(target: &TargetSpec, module: &[PyStmt]) -> (r: Translation)
    ensures
        r@ == target_translation(module@, target.func@),
{
    match translate_function_body(target, module) {
        Some(t) => t,
        None => {
            let mut params: Vec<(String, String)> = Vec::new();
            params.push(pair("data", "Vec<f64>"));
            assert(pairs(params@) =~= seq![("data"@, "Vec<f64>"@)]);
            let mut body = String::from_str(crate::generator::translate::ECHO_HEAD);
            body.append("data");
            body.append(")");
            Translation { params, return_type: String::from_str("Vec<f64>"), body, fallback: true }
        },
    }
}

fn to_ndarray(params: Vec<(String, String)>) -> (r: Vec<(String, String)>)
    ensures
        pairs(r@) == ndarray_params(pairs(params@)),
{
    let mut r: Vec<(String, String)> = Vec::new();
    let mut i: usize = 0;
    while i < params.len()
        invariant
            i <= params.len(),
            r.len() == i,
            forall|j: int|
                0 <= j < i ==> r@[j].0@ == params@[j].0@ && r@[j].1@ == (if params@[j].1@
                    == "Vec<f64>"@ {
                    "numpy::PyReadonlyArray1<f64>"@
                } else {
                    params@[j].1@
                }),
        decreases params.len() - i,
    {
        let ty = if same_text(params[i].1.as_str(), "Vec<f64>") {
            String::from_str("numpy::PyReadonlyArray1<f64>")
        } else {
            params[i].1.clone()
        };
        r.push((params[i].0.clone(), ty));
        i = i + 1;
    }
    assert(pairs(r@) =~= ndarray_params(pairs(params@)));
    r
}

fn render_param_decls(params: &Vec<(String, String)>) -> (r: Vec<String>)
    ensures
        texts(r@) == param_decls(pairs(params@)),
{
    let mut r: Vec<String> = Vec::new();
    let mut i: usize = 0;
    while i < params.len()
        invariant
            i <= params.len(),
            r.len() == i,
            forall|j: int| 0 <= j < i ==> r@[j]@ == param_decls(pairs(params@))[j],
        decreases params.len() - i,
    {
        let mut d = params[i].0.clone();
        d.append(": ");
        d.append(params[i].1.as_str());
        r.push(d);
        i = i + 1;
    }
    assert(texts(r@) =~= param_decls(pairs(params@)));
    r
}

/// Renders the function for `target` under the exported name `rust_name`.
/// The result is the text of the function and whether its translation
/// fell back.
pub fn render_function_named(
    rust_name: &str,
    target: &TargetSpec,
    module: &[PyStmt],
    use_ndarray: bool,
) -> (r: (String, bool))
    ensures
        r.0@ == function_text(
            rust_name@,
            *target,
            target_translation(module@, target.func@),
            use_ndarray,
        ),
        r.1 == target_translation(module@, target.func@).fallback,
{
    let t = translate_target(target, module);
    let ghost tt = t@;
    let fallback = t.fallback;
    let guard = if use_ndarray {
        String::new()
    } else {
        match render_len_checks(t.params.as_slice()) {
            Some(g) => g,
            None => String::new(),
        }
    };
    let params = if use_ndarray {
        to_ndarray(t.params)
    } else {
        t.params
    };
    let decls = render_param_decls(&params);
    let decl_list = join(&decls, ", ");
    let line = decimal(target.line as u64);
    let share = percent(target.percent_hundredths);
    let mut provenance = String::from_str("/// Auto-generated from Python hotspot `");
    provenance.append(target.func.as_str());
    provenance.append("` at line ");
    provenance.append(line.as_str());
    provenance.append(" (");
    provenance.append(share.as_str());
    provenance.append("%): ");
    provenance.append(target.reason.as_str());
    let mut decl = String::from_str("pub fn ");
    decl.append(rust_name);
    decl.append("(");
    let mut head = String::from_str("> {");
    if use_ndarray {
        head.append("\n    // ndarray: use p1.as_slice()? to get &[f64] for indexing");
    } else {
        assert(head@ + Seq::<char>::empty() =~= head@);
    }
    head.append("\n    let _ = py; // reserved for future GIL use\n    ");
    let mut rest = String::from_str("py: Python, ");
    rest.append(decl_list.as_str());
    rest.append(") -> PyResult<");
    rest.append(t.return_type.as_str());
    rest.append(head.as_str());
    rest.append(guard.as_str());
    rest.append("\n    ");
    rest.append(t.body.as_str());
    rest.append("\n}\n");
    let mut r = String::from_str("#[pyfunction]");
    r.append("\n");
    r.append(provenance.as_str());
    r.append("\n");
    r.append(decl.as_str());
    r.append(rest.as_str());
    (r, fallback)
}

/// Renders the function for `target`, exported under the snake-case form
/// of its name. Where the name and the reason of the target hold no line
/// feed, the exported name is read back from the text.
pub fn render_function_with_options(target: &TargetSpec, module: &[PyStmt], use_ndarray: bool) -> (r:
    (String, bool))
    ensures
        r.0@ == function_text(
            snake_case(target.func@),
            *target,
            target_translation(module@, target.func@),
            use_ndarray,
        ),
        r.1 == target_translation(module@, target.func@).fallback,
        free_of(target.func@, '\n') && free_of(target.reason@, '\n') ==> fn_name_text(r.0@)
            == snake_case(target.func@),
{
    let rust_name = to_snake_case(target.func.as_str());
    proof {
        if free_of(target.func@, '\n') && free_of(target.reason@, '\n') {
            lemma_name_round_trip(
                rust_name@,
                *target,
                target_translation(module@, target.func@),
                use_ndarray,
            );
        }
    }
    render_function_named(rust_name.as_str(), target, module, use_ndarray)
}

/// The name that a rendered function exports.
pub fn extract_fn_name(func_src: &str) -> (r: String)
    ensures
        r@ == fn_name_text(func_src@),
{
    let text = to_chars(func_src);
    let all = lines(&text);
    let marker = to_chars("pub fn ");
    let mut i: usize = 0;
    while i < all.len()
        invariant
            i <= all.len(),
            marker@ == "pub fn "@,
            rows(all@) == text_lines(func_src@),
            first_decl(rows(all@), i as nat) is None,
        decreases all.len() - i,
    {
        let line = &all[i];
        assert(rows(all@)[i as int] == line@);
        if chars_occur_at(line, &marker, 0) {
            let start: usize = marker.len();
            let stop = find_char(line, start, '(');
            proof {
                assert(first_decl(rows(all@), (i + 1) as nat) == Some(i as int));
                lemma_first_decl_stable(rows(all@), (i + 1) as nat, all@.len());
                let rest = line@.skip(start as int);
                assert(rest.take(stop - start) =~= line@.subrange(start as int, stop as int));
            }
            return from_chars(line, start, stop);
        }
        i = i + 1;
    }
    String::from_str("generated")
}

/// The first declaring line among the first `n` is the first among more.
pub proof fn lemma_first_decl_stable(all: Seq<Seq<char>>, n: nat, m: nat)
    requires
        n <= m <= all.len(),
        first_decl(all, n) is Some,
    ensures
        first_decl(all, m) == first_decl(all, n),
    decreases m,
{
    if m > n {
        lemma_first_decl_stable(all, n, (m - 1) as nat);
    }
}

/// Renders the compilation unit for the given functions.
pub fn render_lib_rs_with_options(functions: &[String], use_ndarray: bool) -> (r: String)
    ensures
        r@ == lib_text(texts(functions@), use_ndarray),
{
    let mut copies: Vec<String> = Vec::new();
    let mut adders: Vec<String> = Vec::new();
    let mut i: usize = 0;
    while i < functions.len()
        invariant
            i <= functions.len(),
            copies.len() == i,
            adders.len() == i,
            forall|j: int| 0 <= j < i ==> copies@[j]@ == functions@[j]@,
            forall|j: int| 0 <= j < i ==> adders@[j]@ == adder_text(functions@[j]@),
        decreases functions.len() - i,
    {
        let name = extract_fn_name(functions[i].as_str());
        let mut a = String::from_str("m.add_function(wrap_pyfunction!(");
        a.append(name.as_str());
        a.append(", m)?)?;");
        adders.push(a);
        copies.push(functions[i].clone());
        i = i + 1;
    }
    proof {
        assert(texts(copies@) =~= texts(functions@));
        assert(texts(adders@) =~= adder_texts(texts(functions@)));
    }
    let joined = join(&copies, "\n");
    let table = join(&adders, "\n    ");
    let mut r = String::from_str(UNIT_HEAD);
    if use_ndarray {
        r.append("use numpy;\n");
    } else {
        assert(r@ + Seq::<char>::empty() =~= r@);
    }
    r.append("\n");
    r.append(joined.as_str());
    r.append(MODULE_HEAD);
    r.append(table.as_str());
    r.append(MODULE_TAIL);
    r
}

/// Renders the manifest of the generated crate.
pub fn render_cargo_toml_with_options(use_ndarray: bool) -> (r: String)
    ensures
        r@ == manifest_text(use_ndarray),
{
    let mut r = String::from_str(MANIFEST_TEXT);
    if use_ndarray {
        r.append("numpy = \"0.21\"\n");
    } else {
        assert(r@ + Seq::<char>::empty() =~= r@);
    }
    r
}

} // verus!
