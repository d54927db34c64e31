//! From Python functions to the source of a native extension module.
//!
//! A generation takes the functions that an earlier compilation unit holds,
//! lays the newly rendered ones over them by exported name, and renders the
//! unit and its manifest from the merged collection. The collection keeps
//! the order in which names were first seen: a function rendered anew takes
//! the place of the old one, a new name goes to the end.

pub mod expr;
pub mod infer;
pub mod power;
pub mod render;
pub mod translate;

use crate::ast::PyStmt;
use crate::generator::infer::{len_check_text, pairs, vector_names};
use crate::generator::render::{
    extract_fn_name, fn_name_text, function_text, lemma_guard_precedes_body, lib_text,
    manifest_text, render_cargo_toml_with_options, render_function_with_options,
    render_lib_rs_with_options, snake_case, stub_translation, target_translation,
};
use crate::generator::translate::{
    function_body, function_translation, lemma_for_else_falls_back,
    lemma_supported_shapes_translate, plain_return, reads_for_else_in, well_shaped_in,
};
use crate::ast::module_within;
use crate::parser::{accepted, parse_module, parsed_len, NESTING_LIMIT};
use crate::text::{
    chars_occur_at, contains, count_char, count_in, from_chars, has_prefix, has_substring,
    join_text, lemma_total_len_take, lines, occurs_at, push_chars, rows, same_text, skip_spaces,
    text_lines, texts, to_chars, total_len, trim_start_text,
};
use crate::utils::TargetSpec;
use vstd::prelude::*;

verus! {

/// Why a generation did not run.
#[derive(Debug, Clone, Copy, PartialEq, Eq, Structural)]
pub enum GenerateError {
    /// The list of targets is empty.
    NoTargets,
}

/// What a generation produces: the rendered functions in the order of the
/// compilation unit, the unit, the manifest, and how many of the requested
/// functions fell back.
#[derive(Debug)]
pub struct GeneratedCrate {
    pub functions: Vec<String>,
    pub lib_rs: String,
    pub cargo_toml: String,
    pub fallback_functions: usize,
}

/// What a `GeneratedCrate` holds, as texts.
pub struct GeneratedText {
    pub functions: Seq<Seq<char>>,
    pub lib_rs: Seq<char>,
    pub cargo_toml: Seq<char>,
    pub fallback_functions: nat,
}

impl View for GeneratedCrate {
    type V = GeneratedText;

    open spec fn view(&self) -> GeneratedText {
        GeneratedText {
            functions: texts(self.functions@),
            lib_rs: self.lib_rs@,
            cargo_toml: self.cargo_toml@,
            fallback_functions: self.fallback_functions as nat,
        }
    }
}

/// The text of an optional string.
pub open spec fn option_text(s: Option<&str>) -> Option<Seq<char>> {
    match s {
        Some(t) => Some(t@),
        None => None,
    }
}

/// Whether Python source imports numpy.
pub open spec fn uses_numpy(code: Seq<char>) -> bool {
    has_substring(code, "import numpy"@) || has_substring(code, "from numpy"@) || has_substring(
        code,
        "import np"@,
    )
}

/// Whether a generation uses array parameters: in ML mode, for source
/// that imports numpy.
pub open spec fn uses_arrays(ml_mode: bool, code: Seq<char>) -> bool {
    ml_mode && uses_numpy(code)
}

/// Where the scan of a compilation unit stands: whether it is inside a
/// function, whether that function has opened a brace yet, its opening
/// braces less its closing ones, its lines so far, and the functions that
/// are complete.
pub struct Scan {
    pub in_fn: bool,
    pub seen_open: bool,
    pub balance: int,
    pub current: Seq<Seq<char>>,
    pub done: Seq<Seq<char>>,
}

/// Whether a line, after its leading white space, begins with the
/// attribute that marks an exported function.
pub open spec fn is_marker_line(line: Seq<char>) -> bool {
    has_prefix(trim_start_text(line), "#[pyfunction]"@)
}

/// The scan after one more line.
///
/// A marker line starts a function, whatever was open before. Inside a
/// function every further line is kept and its braces are counted; the
/// function is complete with the first line at which a brace has been
/// opened and no more braces are open than closed. Lines outside a
/// function are passed over.
pub open spec fn scan_step(st: Scan, line: Seq<char>) -> Scan {
    if is_marker_line(line) {
        Scan { in_fn: true, seen_open: false, balance: 0, current: seq![line], done: st.done }
    } else if st.in_fn {
        let seen = st.seen_open || count_char(line, '{') > 0;
        let balance = st.balance + count_char(line, '{') - count_char(line, '}');
        if seen && balance <= 0 {
            Scan {
                in_fn: false,
                seen_open: false,
                balance: 0,
                current: Seq::empty(),
                done: st.done.push(join_text(st.current.push(line), "\n"@)),
            }
        } else {
            Scan {
                in_fn: true,
                seen_open: seen,
                balance,
                current: st.current.push(line),
                done: st.done,
            }
        }
    } else {
        st
    }
}

/// The scan after the first `n` lines.
pub open spec fn scan(all: Seq<Seq<char>>, n: nat) -> Scan
    decreases n,
{
    if n == 0 || n > all.len() {
        Scan {
            in_fn: false,
            seen_open: false,
            balance: 0,
            current: Seq::empty(),
            done: Seq::empty(),
        }
    } else {
        scan_step(scan(all, (n - 1) as nat), all[n - 1])
    }
}

/// The complete exported functions that a compilation unit holds, in
/// order, each with its lines joined by line feeds.
pub open spec fn existing_functions(unit: Seq<char>) -> Seq<Seq<char>> {
    let all = text_lines(unit);
    scan(all, all.len()).done
}

/// The position of the first of the first `n` entries with the key `name`.
pub open spec fn key_index(map: Seq<(Seq<char>, Seq<char>)>, name: Seq<char>, n: nat) -> Option<
    int,
>
    decreases n,
{
    if n == 0 || n > map.len() {
        None
    } else {
        match key_index(map, name, (n - 1) as nat) {
            Some(i) => Some(i),
            None => if map[n - 1].0 == name {
                Some(n - 1)
            } else {
                None
            },
        }
    }
}

/// The collection with `code` under `name`: in the place of the first
/// entry of that name, or at the end where there is none.
pub open spec fn put(map: Seq<(Seq<char>, Seq<char>)>, name: Seq<char>, code: Seq<char>) -> Seq<
    (Seq<char>, Seq<char>),
> {
    match key_index(map, name, map.len()) {
        Some(i) => map.update(i, (name, code)),
        None => map.push((name, code)),
    }
}

/// The collection that holds the first `n` of `blocks`, each under the
/// name that it exports.
pub open spec fn merge_existing(blocks: Seq<Seq<char>>, n: nat) -> Seq<(Seq<char>, Seq<char>)>
    decreases n,
{
    if n == 0 || n > blocks.len() {
        Seq::empty()
    } else {
        put(merge_existing(blocks, (n - 1) as nat), fn_name_text(blocks[n - 1]), blocks[n - 1])
    }
}

/// The function rendered for one target.
pub open spec fn rendered(module: Seq<PyStmt>, target: TargetSpec, use_ndarray: bool) -> Seq<char> {
    function_text(
        snake_case(target.func@),
        target,
        target_translation(module, target.func@),
        use_ndarray,
    )
}

/// `map` with the functions of the first `n` targets laid over it, in the
/// order of the targets.
pub open spec fn merge_targets(
    map: Seq<(Seq<char>, Seq<char>)>,
    module: Seq<PyStmt>,
    targets: Seq<TargetSpec>,
    use_ndarray: bool,
    n: nat,
) -> Seq<(Seq<char>, Seq<char>)>
    decreases n,
{
    if n == 0 || n > targets.len() {
        map
    } else {
        put(
            merge_targets(map, module, targets, use_ndarray, (n - 1) as nat),
            fn_name_text(rendered(module, targets[n - 1], use_ndarray)),
            rendered(module, targets[n - 1], use_ndarray),
        )
    }
}

/// How many of the first `n` targets fall back.
pub open spec fn fallback_count(module: Seq<PyStmt>, targets: Seq<TargetSpec>, n: nat) -> nat
    decreases n,
{
    if n == 0 || n > targets.len() {
        0
    } else {
        fallback_count(module, targets, (n - 1) as nat) + if target_translation(
            module,
            targets[n - 1].func@,
        ).fallback {
            1nat
        } else {
            0nat
        }
    }
}

/// The collection from which a generation renders: the functions of the
/// earlier unit, if there is one, with those of the targets laid over them.
pub open spec fn merged(
    module: Seq<PyStmt>,
    targets: Seq<TargetSpec>,
    existing: Option<Seq<char>>,
    use_ndarray: bool,
) -> Seq<(Seq<char>, Seq<char>)> {
    let old = match existing {
        Some(unit) => merge_existing(existing_functions(unit), existing_functions(unit).len()),
        None => Seq::empty(),
    };
    merge_targets(old, module, targets, use_ndarray, targets.len())
}

/// The code of each entry, in order.
pub open spec fn codes(map: Seq<(Seq<char>, Seq<char>)>) -> Seq<Seq<char>> {
    Seq::new(map.len(), |i: int| map[i].1)
}

/// What a generation produces for the functions `targets` of `module`.
pub open spec fn generation(
    module: Seq<PyStmt>,
    targets: Seq<TargetSpec>,
    existing: Option<Seq<char>>,
    use_ndarray: bool,
) -> GeneratedText {
    let functions = codes(merged(module, targets, existing, use_ndarray));
    GeneratedText {
        functions,
        lib_rs: lib_text(functions, use_ndarray),
        cargo_toml: manifest_text(use_ndarray),
        fallback_functions: fallback_count(module, targets, targets.len()),
    }
}

/// A key that is found lies below the bound and holds the name.
pub proof fn lemma_key_index_found(map: Seq<(Seq<char>, Seq<char>)>, name: Seq<char>, n: nat)
    requires
        key_index(map, name, n) is Some,
    ensures
        0 <= key_index(map, name, n)->0 < n,
        n <= map.len(),
        map[key_index(map, name, n)->0].0 == name,
    decreases n,
{
    if n > 0 && key_index(map, name, (n - 1) as nat) is Some {
        lemma_key_index_found(map, name, (n - 1) as nat);
    }
}

/// Putting an entry deletes none: every earlier entry keeps its place and
/// its name, and keeps its code unless the new entry has its name.
pub proof fn lemma_put_keeps(
    map: Seq<(Seq<char>, Seq<char>)>,
    name: Seq<char>,
    code: Seq<char>,
    i: int,
)
    requires
        0 <= i < map.len(),
    ensures
        put(map, name, code).len() >= map.len(),
        put(map, name, code)[i].0 == map[i].0,
        map[i].0 != name ==> put(map, name, code)[i] == map[i],
{
    if key_index(map, name, map.len()) is Some {
        lemma_key_index_found(map, name, map.len());
    }
}

/// Laying targets over a collection deletes none of its entries: each
/// keeps its place and its name, and keeps its code unless one of the
/// targets exports its name.
pub proof fn lemma_merge_keeps(
    map: Seq<(Seq<char>, Seq<char>)>,
    module: Seq<PyStmt>,
    targets: Seq<TargetSpec>,
    use_ndarray: bool,
    n: nat,
    i: int,
)
    requires
        0 <= i < map.len(),
        n <= targets.len(),
    ensures
        merge_targets(map, module, targets, use_ndarray, n).len() >= map.len(),
        merge_targets(map, module, targets, use_ndarray, n)[i].0 == map[i].0,
        (forall|j: int|
            0 <= j < n ==> fn_name_text(#[trigger] rendered(module, targets[j], use_ndarray))
                != map[i].0) ==> merge_targets(map, module, targets, use_ndarray, n)[i] == map[i],
    decreases n,
{
    if n > 0 {
        lemma_merge_keeps(map, module, targets, use_ndarray, (n - 1) as nat, i);
        let before = merge_targets(map, module, targets, use_ndarray, (n - 1) as nat);
        let code = rendered(module, targets[n - 1], use_ndarray);
        lemma_put_keeps(before, fn_name_text(code), code, i);
    }
}

/// A generation keeps what an earlier one generated: every function that
/// the earlier unit holds is still in the list of functions, at the place it
/// had, and it is unchanged unless one of the new targets exports its name.
pub proof fn lemma_generation_keeps_functions(
    module: Seq<PyStmt>,
    targets: Seq<TargetSpec>,
    unit: Seq<char>,
    use_ndarray: bool,
    i: int,
)
    requires
        0 <= i < merge_existing(existing_functions(unit), existing_functions(unit).len()).len(),
    ensures
        ({
            let old = merge_existing(existing_functions(unit), existing_functions(unit).len());
            let new = generation(module, targets, Some(unit), use_ndarray);
            &&& new.functions.len() >= old.len()
            &&& (forall|j: int|
                0 <= j < targets.len() ==> fn_name_text(
                    #[trigger] rendered(module, targets[j], use_ndarray),
                ) != old[i].0) ==> new.functions[i] == old[i].1
        }),
{
    let old = merge_existing(existing_functions(unit), existing_functions(unit).len());
    lemma_merge_keeps(old, module, targets, use_ndarray, targets.len(), i);
}

/// Rendering is a function of the merged collection: two collections that
/// hold the same entries in the same order give the same compilation unit,
/// character for character.
pub proof fn lemma_unit_is_determined(
    a: Seq<(Seq<char>, Seq<char>)>,
    b: Seq<(Seq<char>, Seq<char>)>,
    use_ndarray: bool,
)
    requires
        a.len() == b.len(),
        forall|i: int| 0 <= i < a.len() ==> a[i] == b[i],
    ensures
        lib_text(codes(a), use_ndarray) == lib_text(codes(b), use_ndarray),
{
    assert(a =~= b);
}

/// A rendered function with two vector parameters checks their lengths
/// before its body: where the translation of a target has two or more
/// vector parameters, the function rendered for it without arrays holds the
/// check of the first against the second, and that check ends before the
/// body begins.
pub proof fn lemma_rendered_guard_precedes_body(module: Seq<PyStmt>, target: TargetSpec)
    requires
        vector_names(
            target_translation(module, target.func@).params,
            target_translation(module, target.func@).params.len(),
        ).len() >= 2,
    ensures
        ({
            let t = target_translation(module, target.func@);
            let names = vector_names(t.params, t.params.len());
            let text = rendered(module, target, false);
            let check = len_check_text(names[0], names[1]);
            exists|at: int|
                occurs_at(text, check, at) && at + check.len() + t.body.len() + "\n}\n"@.len()
                    <= text.len()
        }),
{
    let t = target_translation(module, target.func@);
    let names = vector_names(t.params, t.params.len());
    let text = function_text(snake_case(target.func@), target, t, false);
    let check = len_check_text(names[0], names[1]);
    lemma_guard_precedes_body(snake_case(target.func@), target, t);
    let at = choose|at: int|
        occurs_at(text, check, at) && at + check.len() + t.body.len() + "\n}\n"@.len()
            <= text.len();
    assert(rendered(module, target, false) == text);
    assert(occurs_at(rendered(module, target, false), check, at));
}

/// What is rendered goes by the module, not by the name: a target whose
/// function the module does not define is rendered as the stub, with the
/// flag set; one whose function reads a `for` loop with `else` has the flag
/// set; and one whose function holds only well-shaped statements has it
/// clear.
pub proof fn lemma_rendered_flag(module: Seq<PyStmt>, func: Seq<char>)
    ensures
        function_translation(module, func) is None ==> target_translation(module, func)
            == stub_translation() && target_translation(module, func).fallback,
        function_translation(module, func) is Some && plain_return(function_body(module, func))
            is None && reads_for_else_in(
            function_body(module, func),
            function_body(module, func).len(),
        ) ==> target_translation(module, func).fallback,
        function_translation(module, func) is Some && function_body(module, func).len() > 0
            && well_shaped_in(function_body(module, func), function_body(module, func).len())
            ==> !target_translation(module, func).fallback,
{
    if function_translation(module, func) is Some {
        if plain_return(function_body(module, func)) is None && reads_for_else_in(
            function_body(module, func),
            function_body(module, func).len(),
        ) {
            lemma_for_else_falls_back(module, func);
        }
        if function_body(module, func).len() > 0 && well_shaped_in(
            function_body(module, func),
            function_body(module, func).len(),
        ) {
            lemma_supported_shapes_translate(module, func);
        }
    }
}

/// Whether Python source imports numpy.
pub fn detects_numpy(code: &str) -> (b: bool)
    ensures
        b == uses_numpy(code@),
{
    contains(code, "import numpy") || contains(code, "from numpy") || contains(code, "import np")
}

/// The complete exported functions that the compilation unit `lib_rs`
/// holds.
pub fn parse_existing_functions(lib_rs: &str) -> (r: Vec<String>)
    ensures
        texts(r@) == existing_functions(lib_rs@),
{
    let text = to_chars(lib_rs);
    let all = lines(&text);
    let marker = to_chars("#[pyfunction]");
    let ghost ls = rows(all@);
    let mut funcs: Vec<String> = Vec::new();
    let mut current = String::new();
    let mut in_fn = false;
    let mut seen_open = false;
    let mut opens: usize = 0;
    let mut closes: usize = 0;
    let mut i: usize = 0;
    proof {
        assert(ls.take(0) =~= Seq::<Seq<char>>::empty());
        assert(texts(funcs@) =~= scan(ls, 0).done);
    }
    while i < all.len()
        invariant
            i <= all.len(),
            ls == rows(all@),
            ls == text_lines(lib_rs@),
            total_len(ls) <= usize::MAX,
            marker@ == "#[pyfunction]"@,
            in_fn == scan(ls, i as nat).in_fn,
            in_fn ==> seen_open == scan(ls, i as nat).seen_open,
            in_fn ==> opens - closes == scan(ls, i as nat).balance,
            in_fn ==> current@ == join_text(scan(ls, i as nat).current, "\n"@),
            in_fn ==> scan(ls, i as nat).current.len() > 0,
            texts(funcs@) == scan(ls, i as nat).done,
            opens <= total_len(ls.take(i as int)),
            closes <= total_len(ls.take(i as int)),
        decreases all.len() - i,
    {
        let line = &all[i];
        let ghost st = scan(ls, i as nat);
        let ghost next = scan(ls, (i + 1) as nat);
        proof {
            assert(ls[i as int] == line@);
            assert(next == scan_step(st, line@));
            assert(ls.take(i + 1).drop_last() =~= ls.take(i as int));
            assert(total_len(ls.take(i + 1)) == total_len(ls.take(i as int)) + line@.len());
            lemma_total_len_take(ls, i + 1);
        }
        let k = skip_spaces(line);
        let is_marker = chars_occur_at(line, &marker, k);
        proof {
            let trimmed = trim_start_text(line@);
            if is_marker {
                assert(trimmed.subrange(0, marker@.len() as int) =~= line@.subrange(
                    k as int,
                    k + marker@.len(),
                ));
            }
            if is_marker_line(line@) {
                assert(trimmed.subrange(0, marker@.len() as int) =~= line@.subrange(
                    k as int,
                    k + marker@.len(),
                ));
            }
            assert(is_marker == is_marker_line(line@));
        }
        if is_marker {
            current = from_chars(line, 0, line.len());
            proof {
                assert(line@.subrange(0, line@.len() as int) =~= line@);
                assert(seq![line@].len() == 1);
            }
            in_fn = true;
            seen_open = false;
            opens = 0;
            closes = 0;
        } else if in_fn {
            current.append("\n");
            push_chars(&mut current, line, 0, line.len());
            let o = count_in(line, '{');
            let c = count_in(line, '}');
            opens = opens + o;
            closes = closes + c;
            if o > 0 {
                seen_open = true;
            }
            proof {
                assert(line@.subrange(0, line@.len() as int) =~= line@);
                let cur = st.current.push(line@);
                assert(cur.drop_last() =~= st.current);
                assert(current@ == join_text(cur, "\n"@));
            }
            if seen_open && opens <= closes {
                let ghost before = texts(funcs@);
                funcs.push(current);
                proof {
                    assert(texts(funcs@) =~= before.push(
                        join_text(st.current.push(line@), "\n"@),
                    ));
                }
                current = String::new();
                in_fn = false;
            }
        }
        i = i + 1;
    }
    funcs
}

/// Puts `code` under `name`: in the place of the first entry of that name,
/// or at the end where there is none.
pub fn merge_put(map: &mut Vec<(String, String)>, name: String, code: String)
    ensures
        pairs(final(map)@) == put(pairs(old(map)@), name@, code@),
{
    let ghost before = pairs(map@);
    let mut i: usize = 0;
    while i < map.len()
        invariant
            i <= map.len(),
            map@ == old(map)@,
            before == pairs(map@),
            key_index(before, name@, i as nat) is None,
        decreases map.len() - i,
    {
        if same_text(map[i].0.as_str(), name.as_str()) {
            proof {
                assert(before[i as int].0 == name@);
                assert(key_index(before, name@, (i + 1) as nat) == Some(i as int));
                lemma_key_index_stable(before, name@, (i + 1) as nat, before.len());
            }
            map.set(i, (name, code));
            proof {
                assert(pairs(map@) =~= before.update(i as int, (name@, code@)));
            }
            return ;
        }
        proof {
            assert(before[i as int].0 != name@);
        }
        i = i + 1;
    }
    map.push((name, code));
    proof {
        assert(pairs(map@) =~= before.push((name@, code@)));
    }
}

/// The first entry of a name among the first `n` is the first among more.
pub proof fn lemma_key_index_stable(
    map: Seq<(Seq<char>, Seq<char>)>,
    name: Seq<char>,
    n: nat,
    m: nat,
)
    requires
        n <= m <= map.len(),
        key_index(map, name, n) is Some,
    ensures
        key_index(map, name, m) == key_index(map, name, n),
    decreases m,
{
    if m > n {
        lemma_key_index_stable(map, name, n, (m - 1) as nat);
    }
}

/// Generates the crate for the functions `targets` of `module`.
///
/// The functions of `existing_lib`, the compilation unit of an earlier
/// generation, are kept unless a target exports the same name. The result is
/// an error exactly where `targets` is empty.
pub fn generate_for_module(
    module: &[PyStmt],
    targets: &[TargetSpec],
    existing_lib: Option<&str>,
    use_ndarray: bool,
) -> (r: Result<GeneratedCrate, GenerateError>)
    ensures
        r is Err == (targets@.len() == 0),
        r matches Err(e) ==> e == GenerateError::NoTargets,
        r matches Ok(g) ==> g@ == generation(
            module@,
            targets@,
            option_text(existing_lib),
            use_ndarray,
        ),
{
    if targets.len() == 0 {
        return Err(GenerateError::NoTargets);
    }
    let mut map: Vec<(String, String)> = Vec::new();
    match existing_lib {
        Some(unit) => {
            let blocks = parse_existing_functions(unit);
            let mut j: usize = 0;
            assert(pairs(map@) =~= merge_existing(texts(blocks@), 0));
            while j < blocks.len()
                invariant
                    j <= blocks.len(),
                    pairs(map@) == merge_existing(texts(blocks@), j as nat),
                decreases blocks.len() - j,
            {
                assert(texts(blocks@)[j as int] == blocks@[j as int]@);
                let name = extract_fn_name(blocks[j].as_str());
                merge_put(&mut map, name, blocks[j].clone());
                j = j + 1;
            }
        },
        None => {
            assert(pairs(map@) =~= Seq::<(Seq<char>, Seq<char>)>::empty());
        },
    }
    let ghost start = pairs(map@);
    let mut fallback_functions: usize = 0;
    let mut i: usize = 0;
    while i < targets.len()
        invariant
            i <= targets.len(),
            fallback_functions <= i,
            fallback_functions == fallback_count(module@, targets@, i as nat),
            pairs(map@) == merge_targets(start, module@, targets@, use_ndarray, i as nat),
        decreases targets.len() - i,
    {
        let (code, fallback) = render_function_with_options(&targets[i], module, use_ndarray);
        let name = extract_fn_name(code.as_str());
        if fallback {
            fallback_functions = fallback_functions + 1;
        }
        merge_put(&mut map, name, code);
        i = i + 1;
    }
    let mut functions: Vec<String> = Vec::new();
    let mut k: usize = 0;
    while k < map.len()
        invariant
            k <= map.len(),
            functions.len() == k,
            forall|j: int| 0 <= j < k ==> functions@[j]@ == map@[j].1@,
        decreases map.len() - k,
    {
        functions.push(map[k].1.clone());
        k = k + 1;
    }
    proof {
        assert(texts(functions@) =~= codes(pairs(map@)));
    }
    let lib_rs = render_lib_rs_with_options(functions.as_slice(), use_ndarray);
    let cargo_toml = render_cargo_toml_with_options(use_ndarray);
    Ok(GeneratedCrate { functions, lib_rs, cargo_toml, fallback_functions })
}

/// Generates the crate for the functions `targets` of the Python source
/// `code`.
///
/// Source that does not parse, or that is longer than the parser can
/// count, is read as a module without definitions, so that every target
/// gets the stub. With `ml_mode`, source that imports
/// numpy gets array parameters. The result is an error exactly where
/// `targets` is empty; otherwise it is the generation for the module that
/// was lowered from the parser's tree: one with a statement for each
/// statement of that tree, none nested deeper than the limit, and the
/// empty module where `code` is not read.
pub fn generate_with_options(
    code: &str,
    targets: &[TargetSpec],
    existing_lib: Option<&str>,
    ml_mode: bool,
) -> (r: Result<GeneratedCrate, GenerateError>)
    ensures
        r is Err == (targets@.len() == 0),
        r matches Err(e) ==> e == GenerateError::NoTargets,
        r matches Ok(g) ==> exists|module: Seq<PyStmt>|
            g@ == #[trigger] generation(
                module,
                targets@,
                option_text(existing_lib),
                uses_arrays(ml_mode, code@),
            ) && module.len() == parsed_len(code@) && module_within(module, NESTING_LIMIT as nat),
        r matches Ok(g) ==> (!accepted(code@) ==> g@ == generation(
            Seq::empty(),
            targets@,
            option_text(existing_lib),
            uses_arrays(ml_mode, code@),
        )),
{
    let use_ndarray = ml_mode && detects_numpy(code);
    let module = match parse_module(code) {
        Some(m) => m,
        None => Vec::new(),
    };
    let r = generate_for_module(module.as_slice(), targets, existing_lib, use_ndarray);
    proof {
        if r is Ok {
            assert(r->Ok_0@ == generation(
                module@,
                targets@,
                option_text(existing_lib),
                uses_arrays(ml_mode, code@),
            ));
            if !accepted(code@) {
                assert(module@ =~= Seq::<PyStmt>::empty());
            }
        }
    }
    r
}

} // verus!
