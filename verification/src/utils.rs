//! The values that pass between the stages: where the source came from, what
//! to translate, and what was generated.

use crate::generator::render::{extract_fn_name, fn_name_text, snake_case, to_snake_case};
use crate::text::{contains, has_substring, same_text};
use vstd::prelude::*;

verus! {

/// `std::path::PathBuf`: a path that is carried through. Opaque.
#[verifier::external_type_specification]
#[verifier::external_body]
pub struct ExPathBuf(std::path::PathBuf);

/// Python source, with where it came from.
#[derive(Debug)]
pub enum InputSource {
    File { path: std::path::PathBuf, code: String },
    Snippet(String),
    Git { repo: String, path: std::path::PathBuf, code: String },
}

/// A function in which run time was measured: where it is, and its share
/// of the run time in hundredths of a percent.
#[derive(Debug, Clone)]
pub struct Hotspot {
    pub func: String,
    pub line: u32,
    pub percent_hundredths: u32,
}

/// The hotspots of one profiled run.
#[derive(Debug, Clone, Default)]
pub struct ProfileSummary {
    pub hotspots: Vec<Hotspot>,
}

/// One function to translate. `percent_hundredths` is the share of the run
/// time that was measured in the function, in hundredths of a percent.
#[derive(Debug, Clone)]
pub struct TargetSpec {
    pub func: String,
    pub line: u32,
    pub percent_hundredths: u32,
    pub reason: String,
}

/// What one generation wrote: the directory of the generated crate, the
/// rendered functions in the order of the compilation unit, and how many of
/// the requested functions fell back.
#[derive(Debug)]
pub struct GenerationResult {
    pub crate_dir: std::path::PathBuf,
    pub generated_functions: Vec<String>,
    pub fallback_functions: usize,
}

/// What a `TargetSpec` holds, as texts.
pub struct TargetText {
    pub func: Seq<char>,
    pub line: u32,
    pub percent_hundredths: u32,
    pub reason: Seq<char>,
}

impl View for TargetSpec {
    type V = TargetText;

    open spec fn view(&self) -> TargetText {
        TargetText {
            func: self.func@,
            line: self.line,
            percent_hundredths: self.percent_hundredths,
            reason: self.reason@,
        }
    }
}

/// The views of a sequence of targets.
pub open spec fn target_texts(targets: Seq<TargetSpec>) -> Seq<TargetText> {
    Seq::new(targets.len(), |i: int| targets[i]@)
}

/// One row of the summary of a run: the target, whether it was translated
/// in full or in part, and how it ended.
#[derive(Debug, Clone)]
pub struct AccelerateRow {
    pub func: String,
    pub line: u32,
    pub percent_hundredths: u32,
    pub translation: &'static str,
    pub status: String,
}

/// Whether a rendered function is one that fell back: its text says so in
/// a comment.
pub open spec fn is_fallback_text(function: Seq<char>) -> bool {
    has_substring(function, "// fallback"@)
}

/// Whether one of the first `n` rendered functions exports `name` and fell
/// back.
pub open spec fn fell_back_in(functions: Seq<String>, name: Seq<char>, n: nat) -> bool
    decreases n,
{
    n > 0 && n <= functions.len() && (fell_back_in(functions, name, (n - 1) as nat) || (
    fn_name_text(functions[n - 1]@) == name && is_fallback_text(functions[n - 1]@)))
}

/// Whether the target called `func` counts as fallen back in the summary:
/// the rendered function that exports its name says so.
pub open spec fn row_is_partial(functions: Seq<String>, func: Seq<char>) -> bool {
    fell_back_in(functions, snake_case(func), functions.len())
}

/// How a target stands in the summary.
pub open spec fn row_translation(partial: bool) -> Seq<char> {
    if partial {
        "Partial"@
    } else {
        "Full"@
    }
}

/// How a target ended, as the summary says it.
pub open spec fn row_status(partial: bool) -> Seq<char> {
    if partial {
        "Fallback: echo input"@
    } else {
        "Success"@
    }
}

/// Once a function is found among the first `n`, it is found among more.
pub proof fn lemma_fell_back_stays(functions: Seq<String>, name: Seq<char>, n: nat, m: nat)
    requires
        n <= m <= functions.len(),
        fell_back_in(functions, name, n),
    ensures
        fell_back_in(functions, name, m),
    decreases m,
{
    if m > n {
        lemma_fell_back_stays(functions, name, n, (m - 1) as nat);
    }
}

/// Whether one of the rendered functions exports `exported` and fell back.
pub fn fell_back(exported: &str, generated_functions: &[String]) -> (b: bool)
    ensures
        b == fell_back_in(generated_functions@, exported@, generated_functions@.len()),
{
    let mut i: usize = 0;
    while i < generated_functions.len()
        invariant
            i <= generated_functions.len(),
            !fell_back_in(generated_functions@, exported@, i as nat),
        decreases generated_functions.len() - i,
    {
        let name = extract_fn_name(generated_functions[i].as_str());
        if same_text(name.as_str(), exported) && contains(
            generated_functions[i].as_str(),
            "// fallback",
        ) {
            proof {
                lemma_fell_back_stays(
                    generated_functions@,
                    exported@,
                    (i + 1) as nat,
                    generated_functions@.len(),
                );
            }
            return true;
        }
        i = i + 1;
    }
    false
}

/// The rows of the summary, one for each target in order. A target is
/// paired with the rendered function that exports its name in snake case,
/// wherever that function stands.
pub fn accelerate_rows(targets: &[TargetSpec], generated_functions: &[String]) -> (r: Vec<
    AccelerateRow,
>)
    ensures
        r@.len() == targets@.len(),
        forall|i: int|
            0 <= i < r@.len() ==> {
                &&& (#[trigger] r@[i]).func@ == targets@[i].func@
                &&& r@[i].line == targets@[i].line
                &&& r@[i].percent_hundredths == targets@[i].percent_hundredths
                &&& r@[i].translation@ == row_translation(
                    row_is_partial(generated_functions@, targets@[i].func@),
                )
                &&& r@[i].status@ == row_status(
                    row_is_partial(generated_functions@, targets@[i].func@),
                )
            },
{
    let mut r: Vec<AccelerateRow> = Vec::new();
    let mut i: usize = 0;
    while i < targets.len()
        invariant
            i <= targets.len(),
            r@.len() == i,
            forall|j: int|
                0 <= j < i ==> {
                    &&& (#[trigger] r@[j]).func@ == targets@[j].func@
                    &&& r@[j].line == targets@[j].line
                    &&& r@[j].percent_hundredths == targets@[j].percent_hundredths
                    &&& r@[j].translation@ == row_translation(
                        row_is_partial(generated_functions@, targets@[j].func@),
                    )
                    &&& r@[j].status@ == row_status(
                        row_is_partial(generated_functions@, targets@[j].func@),
                    )
                },
        decreases targets.len() - i,
    {
        let t = &targets[i];
        let exported = to_snake_case(t.func.as_str());
        let partial = fell_back(exported.as_str(), generated_functions);
        let row = if partial {
            AccelerateRow {
                func: t.func.clone(),
                line: t.line,
                percent_hundredths: t.percent_hundredths,
                translation: "Partial",
                status: String::from_str("Fallback: echo input"),
            }
        } else {
            AccelerateRow {
                func: t.func.clone(),
                line: t.line,
                percent_hundredths: t.percent_hundredths,
                translation: "Full",
                status: String::from_str("Success"),
            }
        };
        r.push(row);
        i = i + 1;
    }
    r
}

/// The source text that an input holds.
pub open spec fn source_code(source: InputSource) -> Seq<char> {
    match source {
        InputSource::File { path, code } => code@,
        InputSource::Snippet(code) => code@,
        InputSource::Git { repo, path, code } => code@,
    }
}

/// The source text of `source`.
pub fn extract_code(source: &InputSource) -> (r: String)
    ensures
        r@ == source_code(*source),
{
    match source {
        InputSource::File { path, code } => code.clone(),
        InputSource::Snippet(code) => code.clone(),
        InputSource::Git { repo, path, code } => code.clone(),
    }
}

} // verus!
