//! The Atlas stage's two panels, derived from workspace truth alone: the
//! structure map (sheet names in sheet order, defined names in catalog
//! order) and the calc HUD (mode, last recalc tick, dirty-sheet count, last
//! run), each honest-empty when the workspace carries nothing to show.
use vstd::prelude::*;

use crate::text::{decimal_text, push_decimal, push_str};
use crate::workspace::{
    CalcModeProjection, CalcRunProjection, CalcRunStateProjection, DefinedNamesProjection,
    SheetCalcSummaryProjection, SheetProjection, WorkbookCalcProjection, WorkspaceState,
};

verus! {

/// The workbook's sheet display names, in sheet order.
pub fn sheet_display_names(sheets: &Vec<SheetProjection>) -> (names: Vec<String>)
    ensures
        names@.len() == sheets@.len(),
        forall|i: int| 0 <= i < sheets@.len() ==> #[trigger] names@[i] == sheets@[i].display_name,
{
    let mut names: Vec<String> = Vec::new();
    let mut i: usize = 0;
    while i < sheets.len()
        invariant
            i <= sheets@.len(),
            names@.len() == i,
            forall|m: int| 0 <= m < i ==> #[trigger] names@[m] == sheets@[m].display_name,
        decreases sheets@.len() - i,
    {
        names.push(sheets[i].display_name.clone());
        i += 1;
    }
    names
}

/// The defined-name catalog reduced to its names, in catalog order.
pub fn defined_name_labels(defined_names: &DefinedNamesProjection) -> (labels: Vec<String>)
    ensures
        labels@.len() == defined_names.entries@.len(),
        forall|i: int|
            0 <= i < labels@.len() ==> #[trigger] labels@[i] == defined_names.entries@[i].name,
{
    let entries = &defined_names.entries;
    let mut labels: Vec<String> = Vec::new();
    let mut i: usize = 0;
    while i < entries.len()
        invariant
            i <= entries@.len(),
            *entries == defined_names.entries,
            labels@.len() == i,
            forall|m: int| 0 <= m < i ==> #[trigger] labels@[m] == entries@[m].name,
        decreases entries@.len() - i,
    {
        labels.push(entries[i].name.clone());
        i += 1;
    }
    labels
}

/// The structure map's content: sheet names and defined-name labels.
#[derive(Debug, Clone, PartialEq, Eq)]
pub struct StructureMapDerivation {
    pub sheet_names: Vec<String>,
    pub name_labels: Vec<String>,
}

/// The structure map of the workspace: its sheets' display names and its
/// defined names, in their own order, never fabricated.
pub fn derive_structure_map(workspace: &WorkspaceState) -> (d: StructureMapDerivation)
    ensures
        d.sheet_names@.len() == workspace.sheets@.len(),
        forall|i: int|
            0 <= i < workspace.sheets@.len() ==> #[trigger] d.sheet_names@[i]
                == workspace.sheets@[i].display_name,
        d.name_labels@.len() == workspace.defined_names.entries@.len(),
        forall|i: int|
            0 <= i < d.name_labels@.len() ==> #[trigger] d.name_labels@[i]
                == workspace.defined_names.entries@[i].name,
{
    StructureMapDerivation {
        sheet_names: sheet_display_names(&workspace.sheets),
        name_labels: defined_name_labels(&workspace.defined_names),
    }
}

/// The display text of a calc mode.
pub open spec fn mode_text(mode: CalcModeProjection) -> Seq<char> {
    match mode {
        CalcModeProjection::Automatic => "automatic"@,
        CalcModeProjection::Manual => "manual"@,
    }
}

/// A calc mode as display text.
pub fn calc_mode_label(mode: CalcModeProjection) -> (s: &'static str)
    ensures
        s@ == mode_text(mode),
{
    match mode {
        CalcModeProjection::Automatic => "automatic",
        CalcModeProjection::Manual => "manual",
    }
}

/// The display text of the last recalc tick: the tick, or "never run".
pub open spec fn tick_text(tick: Option<u64>) -> Seq<char> {
    match tick {
        Some(t) => decimal_text(t as nat),
        None => "never run"@,
    }
}

/// The last-recalc tick as display text: the real tick id, or an honest
/// "never run", never a fabricated `0`.
pub fn last_recalc_tick_label(tick: Option<u64>) -> (s: String)
    ensures
        s@ == tick_text(tick),
{
    match tick {
        Some(t) => {
            let mut s = String::new();
            push_decimal(&mut s, t);
            s
        },
        None => String::from_str("never run"),
    }
}

/// The number of dirty sheets among the first `n` summaries.
pub open spec fn dirty_count(sheets: Seq<SheetCalcSummaryProjection>, n: int) -> nat
    decreases n,
{
    if n <= 0 {
        0
    } else {
        dirty_count(sheets, n - 1) + if sheets[n - 1].dirty {
            1nat
        } else {
            0nat
        }
    }
}

/// The dirty summary text: `{dirty}/{total} sheets dirty`, or "no sheets
/// tracked" for an empty catalog.
pub open spec fn dirty_text(sheets: Seq<SheetCalcSummaryProjection>) -> Seq<char> {
    if sheets.len() == 0 {
        "no sheets tracked"@
    } else {
        decimal_text(dirty_count(sheets, sheets.len() as int)) + "/"@ + decimal_text(sheets.len())
            + " sheets dirty"@
    }
}

/// The dirty count never exceeds the number of summaries read.
proof fn lemma_dirty_count_bounded(sheets: Seq<SheetCalcSummaryProjection>, n: int)
    requires
        0 <= n,
    ensures
        dirty_count(sheets, n) <= n,
    decreases n,
{
    if n > 0 {
        lemma_dirty_count_bounded(sheets, n - 1);
    }
}

/// The per-sheet dirty summary over the real summaries, never a `0/0`
/// framed as a count.
pub fn sheet_dirty_summary(sheets: &Vec<SheetCalcSummaryProjection>) -> (s: String)
    ensures
        s@ == dirty_text(sheets@),
{
    if sheets.len() == 0 {
        return String::from_str("no sheets tracked");
    }
    let mut dirty: usize = 0;
    let mut i: usize = 0;
    while i < sheets.len()
        invariant
            i <= sheets@.len(),
            dirty == dirty_count(sheets@, i as int),
        decreases sheets@.len() - i,
    {
        proof {
            lemma_dirty_count_bounded(sheets@, i as int);
        }
        if sheets[i].dirty {
            dirty = dirty + 1;
        }
        i += 1;
    }
    let mut s = String::new();
    push_decimal(&mut s, dirty as u64);
    push_str(&mut s, "/");
    push_decimal(&mut s, sheets.len() as u64);
    push_str(&mut s, " sheets dirty");
    s
}

/// The display text of a run state.
pub open spec fn run_state_text(state: CalcRunStateProjection) -> Seq<char> {
    match state {
        CalcRunStateProjection::Published => "published"@,
        CalcRunStateProjection::VerifiedClean => "verified clean"@,
        CalcRunStateProjection::Rejected => "rejected"@,
    }
}

/// A run state as display text.
pub fn calc_run_state_label(state: CalcRunStateProjection) -> (s: &'static str)
    ensures
        s@ == run_state_text(state),
{
    match state {
        CalcRunStateProjection::Published => "published",
        CalcRunStateProjection::VerifiedClean => "verified clean",
        CalcRunStateProjection::Rejected => "rejected",
    }
}

/// The display text of the last run: its state, or "no run recorded".
pub open spec fn run_text(run: Option<CalcRunProjection>) -> Seq<char> {
    match run {
        Some(r) => run_state_text(r.run_state),
        None => "no run recorded"@,
    }
}

/// The last completed run's status as display text, or an honest "no run
/// recorded".
pub fn last_run_label(run: Option<&CalcRunProjection>) -> (s: &'static str)
    ensures
        s@ == run_text(
            match run {
                Some(r) => Some(*r),
                None => None,
            },
        ),
{
    match run {
        None => "no run recorded",
        Some(r) => calc_run_state_label(r.run_state),
    }
}

/// The populated HUD's readouts.
#[derive(Debug, Clone, PartialEq, Eq)]
pub struct CalcHudPresent {
    pub mode_label: &'static str,
    pub tick_label: String,
    pub dirty_summary: String,
    pub run_label: &'static str,
}

/// `p` reads out `calc` and `run`.
pub open spec fn reads_out(p: CalcHudPresent, calc: WorkbookCalcProjection, run: Option<CalcRunProjection>) -> bool {
    &&& p.mode_label@ == mode_text(calc.mode)
    &&& p.tick_label@ == tick_text(calc.last_recalc_tick)
    &&& p.dirty_summary@ == dirty_text(calc.sheets@)
    &&& p.run_label@ == run_text(run)
}

/// The populated HUD's readouts from the calc state and the (separately
/// optional) last run.
pub fn calc_hud_present(calc: &WorkbookCalcProjection, last_run: Option<&CalcRunProjection>) -> (p: CalcHudPresent)
    ensures
        reads_out(
            p,
            *calc,
            match last_run {
                Some(r) => Some(*r),
                None => None,
            },
        ),
{
    CalcHudPresent {
        mode_label: calc_mode_label(calc.mode),
        tick_label: last_recalc_tick_label(calc.last_recalc_tick),
        dirty_summary: sheet_dirty_summary(&calc.sheets),
        run_label: last_run_label(last_run),
    }
}

/// The calc HUD: empty while no calc state was ever published, else the
/// readouts.
#[derive(Debug, Clone, PartialEq, Eq)]
pub enum CalcHudDerivation {
    Empty,
    Present(CalcHudPresent),
}

/// The calc HUD of the workspace, gated on its calc state.
pub fn derive_calc_hud(workspace: &WorkspaceState) -> (d: CalcHudDerivation)
    ensures
        workspace.workbook_calc is None ==> d is Empty,
        workspace.workbook_calc matches Some(calc) ==> (d matches CalcHudDerivation::Present(p)
            && reads_out(p, calc, workspace.last_run)),
{
    match &workspace.workbook_calc {
        None => CalcHudDerivation::Empty,
        Some(calc) => {
            let run = match &workspace.last_run {
                Some(r) => Some(r),
                None => None,
            };
            CalcHudDerivation::Present(calc_hud_present(calc, run))
        },
    }
}


/// Law: the dirty count is the number of summaries whose dirty flag is set
/// — the summary reads `{dirty}/{total} sheets dirty` with `dirty` the
/// length of the dirty sheets filtered out of the list, so every dirty
/// sheet counts once, wherever it stands (an all-dirty list of `n` reads
/// `n/n`).
pub proof fn lemma_dirty_summary_counts_every_dirty_sheet(sheets: Seq<SheetCalcSummaryProjection>)
    ensures
        dirty_count(sheets, sheets.len() as int) == sheets.filter(
            |s: SheetCalcSummaryProjection| s.dirty,
        ).len(),
        sheets.len() > 0 ==> dirty_text(sheets) == decimal_text(
            sheets.filter(|s: SheetCalcSummaryProjection| s.dirty).len(),
        ) + "/"@ + decimal_text(sheets.len()) + " sheets dirty"@,
        (forall|i: int| 0 <= i < sheets.len() ==> #[trigger] sheets[i].dirty) ==> dirty_count(
            sheets,
            sheets.len() as int,
        ) == sheets.len(),
    decreases sheets.len(),
{
    reveal(Seq::filter);
    if sheets.len() > 0 {
        let prev = sheets.drop_last();
        lemma_dirty_summary_counts_every_dirty_sheet(prev);
        assert forall|n: int| 0 <= n <= prev.len() implies dirty_count(prev, n) == dirty_count(
            sheets,
            n,
        ) by {
            lemma_dirty_count_prefix(prev, sheets, n);
        }
        if forall|i: int| 0 <= i < sheets.len() ==> #[trigger] sheets[i].dirty {
            assert forall|i: int| 0 <= i < prev.len() implies #[trigger] prev[i].dirty by {
                assert(prev[i] == sheets[i]);
            }
            assert(sheets[sheets.len() - 1].dirty);
        }
    }
}

/// The count over the first `n` summaries reads only those summaries.
proof fn lemma_dirty_count_prefix(
    a: Seq<SheetCalcSummaryProjection>,
    b: Seq<SheetCalcSummaryProjection>,
    n: int,
)
    requires
        0 <= n <= a.len(),
        n <= b.len(),
        forall|i: int| 0 <= i < n ==> a[i] == b[i],
    ensures
        dirty_count(a, n) == dirty_count(b, n),
    decreases n,
{
    if n > 0 {
        lemma_dirty_count_prefix(a, b, n - 1);
    }
}
} // verus!
