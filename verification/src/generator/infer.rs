//! Types for parameters and local variables, and the guard that keeps
//! vector parameters to one length.

use crate::ast::{PyConstant, PyExpr, PyParam};
use crate::generator::expr::{bare_name, is_name};
use crate::text::{contains, has_substring, same_text};
use vstd::prelude::*;

verus! {

/// One length check, from its condition to the names in its message.
pub const CHECK_HEAD: &'static str =
    " {\n        return Err(pyo3::exceptions::PyValueError::new_err(\"length mismatch: ";

/// What closes one length check.
pub const CHECK_TAIL: &'static str = "\"));\n    }\n";

/// The pairs of a parameter list, as texts.
pub open spec fn pairs(params: Seq<(String, String)>) -> Seq<(Seq<char>, Seq<char>)> {
    Seq::new(params.len(), |i: int| (params[i].0@, params[i].1@))
}

/// The type for a parameter without annotation: an index for the usual
/// names of sizes and counts, a vector of floats for every other name.
pub open spec fn name_type_text(name: Seq<char>) -> Seq<char> {
    if name == "window"@ || name == "k"@ || name == "n"@ || name == "m"@ || name == "length"@
        || name == "size"@ || name == "count"@ || name == "steps"@ {
        "usize"@
    } else {
        "Vec<f64>"@
    }
}

/// The type for an annotation: `int` is an index, `float` a float, an
/// attribute of `np` or `numpy` a read-only array, and anything else, no
/// annotation included, a vector of floats.
pub open spec fn annotation_type_text(annotation: Option<PyExpr>) -> Seq<char> {
    match annotation {
        Some(PyExpr::Name { id }) => if id@ == "int"@ {
            "usize"@
        } else if id@ == "float"@ {
            "f64"@
        } else {
            "Vec<f64>"@
        },
        Some(PyExpr::Attribute { value, attr }) => if bare_name(*value) == Some("np"@) || bare_name(
            *value,
        ) == Some("numpy"@) {
            "numpy::PyReadonlyArray1<f64>"@
        } else {
            "Vec<f64>"@
        },
        _ => "Vec<f64>"@,
    }
}

/// The type of one parameter: by its annotation where it has one, by its
/// name otherwise.
pub open spec fn param_type_text(p: PyParam) -> Seq<char> {
    if p.annotation is None {
        name_type_text(p.name@)
    } else {
        annotation_type_text(p.annotation)
    }
}

/// Each parameter's name with its type, in order.
pub open spec fn param_texts(params: Seq<PyParam>) -> Seq<(Seq<char>, Seq<char>)> {
    Seq::new(params.len(), |i: int| (params[i].name@, param_type_text(params[i])))
}

/// The type suffix of a local that is bound to `value`: one for a float
/// literal, one for an integer literal, none otherwise.
pub open spec fn assign_type_text(value: PyExpr) -> Seq<char> {
    match value {
        PyExpr::Constant { value: PyConstant::Float(_), .. } => ": f64"@,
        PyExpr::Constant { value: PyConstant::Int(_), .. } => ": i64"@,
        _ => ""@,
    }
}

/// Whether a type is one of a vector.
pub open spec fn is_vector_type(ty: Seq<char>) -> bool {
    has_substring(ty, "Vec<"@) || has_substring(ty, "[f64]"@)
}

/// The names of the first `n` parameters that have a vector type, in order.
pub open spec fn vector_names(params: Seq<(Seq<char>, Seq<char>)>, n: nat) -> Seq<Seq<char>>
    decreases n,
{
    if n == 0 || n > params.len() {
        Seq::empty()
    } else if is_vector_type(params[n - 1].1) {
        vector_names(params, (n - 1) as nat).push(params[n - 1].0)
    } else {
        vector_names(params, (n - 1) as nat)
    }
}

/// One check: unless `first` and `other` have the same length, fail with
/// a value error that names the two.
pub open spec fn len_check_text(first: Seq<char>, other: Seq<char>) -> Seq<char> {
    "    if "@ + first + ".len() != "@ + other + ".len()"@ + CHECK_HEAD@ + first + " and "@ + other
        + CHECK_TAIL@
}

/// The checks of the first name against each of the names `1..n`, in order.
pub open spec fn len_checks_text(names: Seq<Seq<char>>, n: nat) -> Seq<char>
    decreases n,
{
    if n <= 1 || n > names.len() {
        Seq::empty()
    } else {
        len_checks_text(names, (n - 1) as nat) + len_check_text(names[0], names[n - 1])
    }
}

/// The guard block of a parameter list: nothing for fewer than two vector
/// parameters, else the first of them checked against each of the others.
pub open spec fn guard_block_text(params: Seq<(Seq<char>, Seq<char>)>) -> Option<Seq<char>> {
    let names = vector_names(params, params.len());
    if names.len() < 2 {
        None
    } else {
        Some(len_checks_text(names, names.len()))
    }
}

/// The type for a parameter without annotation.
pub fn infer_type_from_name(name: &str) -> (r: String)
    ensures
        r@ == name_type_text(name@),
{
    if same_text(name, "window") || same_text(name, "k") || same_text(name, "n") || same_text(
        name,
        "m",
    ) || same_text(name, "length") || same_text(name, "size") || same_text(name, "count")
        || same_text(name, "steps") {
        String::from_str("usize")
    } else {
        String::from_str("Vec<f64>")
    }
}

/// The type for an annotation.
pub fn infer_type_from_annotation(annotation: Option<&PyExpr>) -> (r: String)
    ensures
        r@ == annotation_type_text(
            match annotation {
                Some(a) => Some(*a),
                None => None,
            },
        ),
{
    match annotation {
        Some(PyExpr::Name { id }) => {
            if same_text(id.as_str(), "int") {
                String::from_str("usize")
            } else if same_text(id.as_str(), "float") {
                String::from_str("f64")
            } else {
                String::from_str("Vec<f64>")
            }
        },
        Some(PyExpr::Attribute { value, attr }) => {
            if is_name(value, "np") || is_name(value, "numpy") {
                String::from_str("numpy::PyReadonlyArray1<f64>")
            } else {
                String::from_str("Vec<f64>")
            }
        },
        _ => String::from_str("Vec<f64>"),
    }
}

/// Each parameter's name with its inferred type, in order.
pub fn infer_params(params: &Vec<PyParam>) -> (r: Vec<(String, String)>)
    ensures
        pairs(r@) == param_texts(params@),
{
    let mut r: Vec<(String, String)> = Vec::new();
    let mut i: usize = 0;
    while i < params.len()
        invariant
            i <= params.len(),
            r.len() == i,
            forall|j: int|
                0 <= j < i ==> r@[j].0@ == params@[j].name@ && r@[j].1@ == param_type_text(
                    params@[j],
                ),
        decreases params.len() - i,
    {
        let p = &params[i];
        let ty = match &p.annotation {
            None => infer_type_from_name(p.name.as_str()),
            Some(a) => infer_type_from_annotation(Some(a)),
        };
        r.push((p.name.clone(), ty));
        i = i + 1;
    }
    assert(pairs(r@) =~= param_texts(params@));
    r
}

/// The type suffix of a local that is bound to `value`.
pub fn infer_assign_type(value: &PyExpr) -> (r: &'static str)
    ensures
        r@ == assign_type_text(*value),
{
    match value {
        PyExpr::Constant { value: PyConstant::Float(_), .. } => ": f64",
        PyExpr::Constant { value: PyConstant::Int(_), .. } => ": i64",
        _ => "",
    }
}

/// Whether a type is one of a vector.
pub fn is_vector(ty: &str) -> (b: bool)
    ensures
        b == is_vector_type(ty@),
{
    contains(ty, "Vec<") || contains(ty, "[f64]")
}

/// The length checks for a parameter list: `None` for fewer than two
/// vector parameters, else one check of the first vector parameter against
/// each of the others, in the order of the parameters.
pub fn render_len_checks(params: &[(String, String)]) -> (r: Option<String>)
    ensures
        r is Some == guard_block_text(pairs(params@)) is Some,
        r matches Some(t) ==> Some(t@) == guard_block_text(pairs(params@)),
{
    let ghost all = pairs(params@);
    let mut first: Option<usize> = None;
    let mut count: usize = 0;
    let mut checks = String::new();
    let mut i: usize = 0;
    while i < params.len()
        invariant
            i <= params.len(),
            all == pairs(params@),
            count <= i,
            count == vector_names(all, i as nat).len(),
            first is Some == (count > 0),
            first matches Some(f) ==> f < i && vector_names(all, i as nat)[0] == params@[f as int].0@,
            checks@ == len_checks_text(vector_names(all, i as nat), count as nat),
        decreases params.len() - i,
    {
        let ghost before = vector_names(all, i as nat);
        let ghost after = vector_names(all, (i + 1) as nat);
        if is_vector(params[i].1.as_str()) {
            proof {
                assert(after == before.push(params@[i as int].0@));
            }
            match first {
                None => {
                    first = Some(i);
                },
                Some(f) => {
                    proof {
                        lemma_len_checks_prefix(before, after, count as nat);
                    }
                    checks.append("    if ");
                    checks.append(params[f].0.as_str());
                    checks.append(".len() != ");
                    checks.append(params[i].0.as_str());
                    checks.append(".len()");
                    checks.append(CHECK_HEAD);
                    checks.append(params[f].0.as_str());
                    checks.append(" and ");
                    checks.append(params[i].0.as_str());
                    checks.append(CHECK_TAIL);
                },
            }
            count = count + 1;
        }
        i = i + 1;
    }
    if count < 2 {
        None
    } else {
        Some(checks)
    }
}

/// The checks among the first `n` names do not depend on the names after
/// them.
pub proof fn lemma_len_checks_prefix(a: Seq<Seq<char>>, b: Seq<Seq<char>>, n: nat)
    requires
        n <= a.len() <= b.len(),
        forall|i: int| 0 <= i < a.len() ==> a[i] == b[i],
    ensures
        len_checks_text(a, n) == len_checks_text(b, n),
    decreases n,
{
    if n > 1 {
        lemma_len_checks_prefix(a, b, (n - 1) as nat);
    }
}

} // verus!
