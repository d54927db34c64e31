//! Choosing what to translate: the measured hotspots above a threshold,
//! and every function of the source where the threshold excludes nothing.

use crate::ast::PyStmt;
use crate::ast::module_within;
use crate::parser::{accepted, parse_module, parsed_len, NESTING_LIMIT};
use crate::text::{same_text, share, share_text};
use crate::utils::{
    extract_code, source_code, target_texts, Hotspot, InputSource, ProfileSummary, TargetSpec,
    TargetText,
};
use vstd::prelude::*;

verus! {

/// The reason that is given for every definition that is taken without a
/// measurement.
pub const ALL_DEFS_REASON: &'static str = "threshold<=0: include all defs";

/// Why a hotspot was selected: its share, and the mode.
pub open spec fn hotspot_reason(hundredths: nat, ml_mode: bool) -> Seq<char> {
    share_text(hundredths) + if ml_mode {
        "% hotspot (ml-mode)"@
    } else {
        "% hotspot"@
    }
}

/// The target for a hotspot.
pub open spec fn hotspot_target(h: Hotspot, ml_mode: bool) -> TargetText {
    TargetText {
        func: h.func@,
        line: h.line,
        percent_hundredths: h.percent_hundredths,
        reason: hotspot_reason(h.percent_hundredths as nat, ml_mode),
    }
}

/// The targets for those of the first `n` hotspots whose share is not below
/// the threshold, in order.
pub open spec fn hot_targets(hotspots: Seq<Hotspot>, threshold: int, ml_mode: bool, n: nat) -> Seq<
    TargetText,
>
    decreases n,
{
    if n == 0 || n > hotspots.len() {
        Seq::empty()
    } else if hotspots[n - 1].percent_hundredths < threshold {
        hot_targets(hotspots, threshold, ml_mode, (n - 1) as nat)
    } else {
        hot_targets(hotspots, threshold, ml_mode, (n - 1) as nat).push(
            hotspot_target(hotspots[n - 1], ml_mode),
        )
    }
}

/// Whether one of the targets names the function `name`.
pub open spec fn names_function(targets: Seq<TargetText>, name: Seq<char>) -> bool {
    exists|i: int| 0 <= i < targets.len() && #[trigger] targets[i].func == name
}

/// The target for a definition that is taken without a measurement.
pub open spec fn def_target(name: Seq<char>) -> TargetText {
    TargetText { func: name, line: 1, percent_hundredths: 0, reason: ALL_DEFS_REASON@ }
}

/// `targets`, and after them a target for each function that the first `n`
/// statements of `module` define and that no earlier target names.
pub open spec fn with_defs(targets: Seq<TargetText>, module: Seq<PyStmt>, n: nat) -> Seq<
    TargetText,
>
    decreases n,
{
    if n == 0 || n > module.len() {
        targets
    } else {
        let before = with_defs(targets, module, (n - 1) as nat);
        match module[n - 1] {
            PyStmt::FunctionDef { name, params, body } => if names_function(before, name@) {
                before
            } else {
                before.push(def_target(name@))
            },
            _ => before,
        }
    }
}

/// The selection: the hotspots at or above the threshold, and, where the
/// threshold is zero or less and the source was parsed to `module`, every
/// function that the module defines at its top level.
pub open spec fn selection(
    hotspots: Seq<Hotspot>,
    module: Option<Seq<PyStmt>>,
    threshold: int,
    ml_mode: bool,
) -> Seq<TargetText> {
    let hot = hot_targets(hotspots, threshold, ml_mode, hotspots.len());
    match module {
        Some(m) => if threshold <= 0 {
            with_defs(hot, m, m.len())
        } else {
            hot
        },
        None => hot,
    }
}

/// Whether `module` can be what was lowered from the parser's tree of
/// `code`: nothing where `code` is not read, and else a module with
/// one statement for each statement of that tree, none nested deeper than
/// the limit.
pub open spec fn lowered_from(module: Option<Seq<PyStmt>>, code: Seq<char>) -> bool {
    match module {
        Some(m) => accepted(code) && m.len() == parsed_len(code) && module_within(
            m,
            NESTING_LIMIT as nat,
        ),
        None => !accepted(code),
    }
}

fn names(targets: &Vec<TargetSpec>, name: &str) -> (b: bool)
    ensures
        b == names_function(target_texts(targets@), name@),
{
    let mut i: usize = 0;
    while i < targets.len()
        invariant
            i <= targets.len(),
            forall|j: int| 0 <= j < i ==> target_texts(targets@)[j].func != name@,
        decreases targets.len() - i,
    {
        if same_text(targets[i].func.as_str(), name) {
            assert(target_texts(targets@)[i as int].func == name@);
            return true;
        }
        i = i + 1;
    }
    false
}

/// Selects the targets among `profile`, with `module` as what the source
/// was parsed to, if it was parsed.
pub fn select_targets_in(
    profile: &ProfileSummary,
    module: Option<&[PyStmt]>,
    threshold_hundredths: i64,
    ml_mode: bool,
) -> (r: Vec<TargetSpec>)
    ensures
        target_texts(r@) == selection(
            profile.hotspots@,
            match module {
                Some(m) => Some(m@),
                None => None,
            },
            threshold_hundredths as int,
            ml_mode,
        ),
{
    let mut targets: Vec<TargetSpec> = Vec::new();
    let mut i: usize = 0;
    assert(target_texts(targets@) =~= hot_targets(
        profile.hotspots@,
        threshold_hundredths as int,
        ml_mode,
        0,
    ));
    while i < profile.hotspots.len()
        invariant
            i <= profile.hotspots.len(),
            target_texts(targets@) == hot_targets(
                profile.hotspots@,
                threshold_hundredths as int,
                ml_mode,
                i as nat,
            ),
        decreases profile.hotspots.len() - i,
    {
        let hs = &profile.hotspots[i];
        let share_value: i64 = hs.percent_hundredths as i64;
        if share_value >= threshold_hundredths {
            let mut reason = share(hs.percent_hundredths);
            if ml_mode {
                reason.append("% hotspot (ml-mode)");
            } else {
                reason.append("% hotspot");
            }
            let ghost before = target_texts(targets@);
            targets.push(
                TargetSpec {
                    func: hs.func.clone(),
                    line: hs.line,
                    percent_hundredths: hs.percent_hundredths,
                    reason,
                },
            );
            assert(target_texts(targets@) =~= before.push(hotspot_target(*hs, ml_mode)));
        }
        i = i + 1;
    }
    if threshold_hundredths <= 0 {
        match module {
            Some(m) => {
                let ghost hot = target_texts(targets@);
                let mut k: usize = 0;
                while k < m.len()
                    invariant
                        k <= m.len(),
                        target_texts(targets@) == with_defs(hot, m@, k as nat),
                    decreases m.len() - k,
                {
                    match &m[k] {
                        PyStmt::FunctionDef { name, params, body } => {
                            if !names(&targets, name.as_str()) {
                                let ghost before = target_texts(targets@);
                                targets.push(
                                    TargetSpec {
                                        func: name.clone(),
                                        line: 1,
                                        percent_hundredths: 0,
                                        reason: String::from_str(ALL_DEFS_REASON),
                                    },
                                );
                                assert(target_texts(targets@) =~= before.push(def_target(name@)));
                            }
                        },
                        _ => {},
                    }
                    k = k + 1;
                }
            },
            None => {},
        }
    }
    targets
}

/// Selects the targets for `source`: the hotspots of `profile` whose share
/// is at least the threshold, each with its share as the reason, and, where
/// the threshold is zero or less and the source parses, every function that
/// it defines at its top level and that no hotspot names. The definitions
/// are those of the module that was lowered from the parser's tree; source
/// that the parser rejects, or that is longer than it can count, adds none.
pub fn select_targets(
    profile: &ProfileSummary,
    source: &InputSource,
    threshold_hundredths: i64,
    ml_mode: bool,
) -> (r: Vec<TargetSpec>)
    ensures
        threshold_hundredths <= 0 ==> exists|module: Option<Seq<PyStmt>>|
            target_texts(r@) == #[trigger] selection(
                profile.hotspots@,
                module,
                threshold_hundredths as int,
                ml_mode,
            ) && lowered_from(module, source_code(*source)),
        threshold_hundredths > 0 || !accepted(source_code(*source)) ==> target_texts(r@)
            == selection(
            profile.hotspots@,
            None,
            threshold_hundredths as int,
            ml_mode,
        ),
{
    if threshold_hundredths <= 0 {
        let code = extract_code(source);
        match parse_module(code.as_str()) {
            Some(m) => {
                let r = select_targets_in(profile, Some(m.as_slice()), threshold_hundredths, ml_mode);
                assert(target_texts(r@) == selection(
                    profile.hotspots@,
                    Some(m@),
                    threshold_hundredths as int,
                    ml_mode,
                ));
                r
            },
            None => {
                let r = select_targets_in(profile, None, threshold_hundredths, ml_mode);
                assert(target_texts(r@) == selection(
                    profile.hotspots@,
                    None,
                    threshold_hundredths as int,
                    ml_mode,
                ));
                r
            },
        }
    } else {
        let r = select_targets_in(profile, None, threshold_hundredths, ml_mode);
        assert(target_texts(r@) == selection(
            profile.hotspots@,
            None,
            threshold_hundredths as int,
            ml_mode,
        ));
        r
    }
}

} // verus!
