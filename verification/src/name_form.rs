//! Defined-name authoring: the `+ name` form (a static name writes its value
//! into the next free `_names` backing cell, then defines the name over that
//! cell; a dynamic name is defined by its formula alone), the duplicate-name
//! pre-check that stops a commit before anything is dispatched, and the
//! rename-in-place form.
use vstd::prelude::*;

use crate::intent::{
    copy_scope, DefinedNameTargetIntent, Dispatcher, IntentErrorKind, IntentReceipt,
    WorkspaceIntent,
};
use crate::projection::NodeId;
use crate::text::{chars_of, push_str, str_equal, trim_chars, trimmed};
use crate::workspace::{
    DefinedNameProjection, DefinedNameScopeProjection, DefinedNameTargetProjection,
    DefinedNamesProjection, GridRectProjection,
};

verus! {

/// The grid id of the `_names` backing sheet.
pub const NAMES_BACKING_GRID: &'static str = "_names";

/// The row a name's target reserves on the `_names` grid: the bottom row of
/// a static target on a sheet-scoped `_names` name, else nothing.
pub open spec fn backing_row(entry: DefinedNameProjection) -> Option<u32> {
    match entry.scope {
        DefinedNameScopeProjection::Sheet(id) => if id.id@ == NAMES_BACKING_GRID@ {
            match entry.target {
                DefinedNameTargetProjection::Static(rect) => Some(rect.bottom_row),
                DefinedNameTargetProjection::Dynamic { .. } => None,
            }
        } else {
            None
        },
        DefinedNameScopeProjection::Workbook => None,
    }
}

/// The highest reserved `_names` row among the first `n` entries (0 when
/// none).
pub open spec fn highest_backing_row(entries: Seq<DefinedNameProjection>, n: int) -> int
    decreases n,
{
    if n <= 0 {
        0
    } else {
        let rest = highest_backing_row(entries, n - 1);
        match backing_row(entries[n - 1]) {
            Some(r) => if r >= rest {
                r as int
            } else {
                rest
            },
            None => rest,
        }
    }
}

/// Whether any of the first `n` entries reserves a `_names` row.
pub open spec fn any_backing_row(entries: Seq<DefinedNameProjection>, n: int) -> bool
    decreases n,
{
    if n <= 0 {
        false
    } else {
        any_backing_row(entries, n - 1) || backing_row(entries[n - 1]) is Some
    }
}

/// The next free `_names` row: one past the highest reserved row, or row 1
/// when none is reserved.
pub open spec fn next_backing_row(names: DefinedNamesProjection) -> int {
    let n = names.entries@.len() as int;
    if any_backing_row(names.entries@, n) {
        highest_backing_row(names.entries@, n) + 1
    } else {
        1
    }
}

/// The next free `_names` backing cell, computed from the name catalog: one
/// row past the highest static target on the `_names` grid (row 1 when there
/// is none), column A. A catalog whose highest reserved row is the last row
/// index has no next row and is left out.
pub fn next_names_backing_cell(defined_names: &DefinedNamesProjection) -> (r: (NodeId, u32, u32))
    requires
        highest_backing_row(defined_names.entries@, defined_names.entries@.len() as int)
            < u32::MAX,
    ensures
        r.0.id@ == NAMES_BACKING_GRID@,
        r.1 == next_backing_row(*defined_names),
        r.2 == 1,
{
    let entries = &defined_names.entries;
    let mut highest: Option<u32> = None;
    let mut i: usize = 0;
    while i < entries.len()
        invariant
            i <= entries@.len(),
            *entries == defined_names.entries,
            highest_backing_row(entries@, entries@.len() as int) < u32::MAX,
            highest is Some <==> any_backing_row(entries@, i as int),
            highest matches Some(h) ==> h == highest_backing_row(entries@, i as int),
            highest is None ==> highest_backing_row(entries@, i as int) == 0,
        decreases entries@.len() - i,
    {
        let entry = &entries[i];
        let row: Option<u32> = match &entry.scope {
            DefinedNameScopeProjection::Sheet(scope_grid) => {
                if str_equal(scope_grid.id.as_str(), NAMES_BACKING_GRID) {
                    match &entry.target {
                        DefinedNameTargetProjection::Static(rect) => Some(rect.bottom_row),
                        DefinedNameTargetProjection::Dynamic { .. } => None,
                    }
                } else {
                    None
                }
            },
            DefinedNameScopeProjection::Workbook => None,
        };
        match row {
            Some(r) => {
                highest = match highest {
                    Some(h) => if r >= h {
                        Some(r)
                    } else {
                        Some(h)
                    },
                    None => Some(r),
                };
            },
            None => {},
        }
        i += 1;
    }
    proof {
        lemma_highest_is_monotone(entries@, i as int, entries@.len() as int);
    }
    let next_row = match highest {
        Some(h) => h + 1,
        None => 1,
    };
    (NodeId::new(NAMES_BACKING_GRID), next_row, 1)
}

/// The highest reserved row never decreases as more entries are read.
proof fn lemma_highest_is_monotone(entries: Seq<DefinedNameProjection>, i: int, n: int)
    requires
        0 <= i <= n,
    ensures
        highest_backing_row(entries, i) <= highest_backing_row(entries, n),
    decreases n - i,
{
    if i < n {
        lemma_highest_is_monotone(entries, i, n - 1);
    }
}

/// Once an entry reserving a row has been read, some entry reserves one.
proof fn lemma_any_backing_row_is_monotone(entries: Seq<DefinedNameProjection>, i: int, n: int)
    requires
        0 <= i <= n,
        any_backing_row(entries, i),
    ensures
        any_backing_row(entries, n),
    decreases n - i,
{
    if i < n {
        lemma_any_backing_row_is_monotone(entries, i, n - 1);
    }
}

/// Law: the next backing cell lies below every row a `_names` name already
/// reserves, so a new static name never overwrites another's value.
pub proof fn lemma_next_backing_row_is_past_every_reserved_row(names: DefinedNamesProjection, i: int)
    requires
        0 <= i < names.entries@.len(),
        backing_row(names.entries@[i]) is Some,
    ensures
        backing_row(names.entries@[i])->0 < next_backing_row(names),
{
    let entries = names.entries@;
    let n = entries.len() as int;
    assert(any_backing_row(entries, i + 1));
    lemma_any_backing_row_is_monotone(entries, i + 1, n);
    assert(highest_backing_row(entries, i + 1) >= backing_row(entries[i])->0);
    lemma_highest_is_monotone(entries, i + 1, n);
}

/// Whether some catalog entry, at any scope, is named `name`.
pub open spec fn name_defined(names: DefinedNamesProjection, name: Seq<char>) -> bool {
    exists|i: int| 0 <= i < names.entries@.len() && #[trigger] names.entries@[i].name@ == name
}

/// Whether `name` is already defined at any scope of the catalog.
pub fn name_already_defined(defined_names: &DefinedNamesProjection, name: &str) -> (b: bool)
    ensures
        b == name_defined(*defined_names, name@),
{
    let entries = &defined_names.entries;
    let mut i: usize = 0;
    while i < entries.len()
        invariant
            i <= entries@.len(),
            *entries == defined_names.entries,
            forall|m: int| 0 <= m < i ==> #[trigger] entries@[m].name@ != name@,
        decreases entries@.len() - i,
    {
        if str_equal(entries[i].name.as_str(), name) {
            assert(entries@[i as int].name@ == name@);
            return true;
        }
        i += 1;
    }
    false
}

/// The result of a `+ name` commit attempt.
#[derive(Debug, Clone, PartialEq, Eq)]
pub enum NameCommitResult {
    /// Every intent was dispatched and accepted.
    Committed,
    /// The duplicate-name pre-check stopped the commit before any dispatch.
    DuplicateName { name: String },
    /// The engine rejected a dispatched intent, with its message.
    EngineRejected { message: String },
}

/// The message of a rejected name write: a collision names the colliding
/// name, any other error gives its own message, and a rejection without an
/// error a generic note.
pub open spec fn rejection_message(receipt: IntentReceipt) -> Seq<char> {
    match receipt.error {
        Some(e) => match e.kind {
            IntentErrorKind::DefinedNameCollision { name } => "'"@ + name@
                + "' collides with an existing name or node"@,
            _ => e.message@,
        },
        None => "the engine rejected this change"@,
    }
}

/// The rejection message of a receipt (see [`rejection_message`]).
fn rejection_message_of(receipt: &IntentReceipt) -> (s: String)
    ensures
        s@ == rejection_message(*receipt),
{
    match &receipt.error {
        Some(e) => match &e.kind {
            IntentErrorKind::DefinedNameCollision { name } => {
                let mut s = String::from_str("'");
                push_str(&mut s, name.as_str());
                push_str(&mut s, "' collides with an existing name or node");
                s
            },
            _ => e.message.clone(),
        },
        None => String::from_str("the engine rejected this change"),
    }
}

/// The engine-rejection result of a receipt.
pub fn engine_rejection_result(receipt: &IntentReceipt) -> (r: NameCommitResult)
    ensures
        r matches NameCommitResult::EngineRejected { message } && message@ == rejection_message(
            *receipt,
        ),
{
    NameCommitResult::EngineRejected { message: rejection_message_of(receipt) }
}

/// The `EnterGridCell` intent that writes `text` to `_names` row `row`,
/// column A.
pub open spec fn is_backing_entry(i: WorkspaceIntent, row: int, text: Seq<char>) -> bool {
    i matches WorkspaceIntent::EnterGridCell { grid, row: r, col, text: t } && grid.id@
        == NAMES_BACKING_GRID@ && r == row && col == 1 && t@ == text
}

/// The `SetDefinedName` intent that defines `name`, scoped to the `_names`
/// sheet, over the single cell at `row`, column A.
pub open spec fn is_static_definition(i: WorkspaceIntent, name: Seq<char>, row: int) -> bool {
    &&& i matches WorkspaceIntent::SetDefinedName { scope, name: n, target }
    &&& scope matches DefinedNameScopeProjection::Sheet(id)
    &&& id.id@ == NAMES_BACKING_GRID@
    &&& n@ == name
    &&& target == DefinedNameTargetIntent::Static(
        GridRectProjection { top_row: row as u32, left_col: 1, bottom_row: row as u32, right_col: 1 },
    )
}

/// The `SetDefinedName` intent that defines `name`, scoped to the `_names`
/// sheet, by the formula `source`.
pub open spec fn is_dynamic_definition(i: WorkspaceIntent, name: Seq<char>, source: Seq<char>) -> bool {
    &&& i matches WorkspaceIntent::SetDefinedName { scope, name: n, target }
    &&& scope matches DefinedNameScopeProjection::Sheet(id)
    &&& id.id@ == NAMES_BACKING_GRID@
    &&& n@ == name
    &&& target matches DefinedNameTargetIntent::Dynamic { source_text }
    &&& source_text@ == source
}

/// What a static commit did, from the dispatcher's logs before (`d0`, `a0`)
/// and after (`d1`, `a1`): a duplicate dispatches nothing; otherwise the body
/// goes into the next free `_names` cell, then the name is defined over
/// exactly that cell, stopping at the first rejection.
pub open spec fn static_commit_ran(
    d0: Seq<WorkspaceIntent>,
    a0: Seq<IntentReceipt>,
    d1: Seq<WorkspaceIntent>,
    a1: Seq<IntentReceipt>,
    names: DefinedNamesProjection,
    name: Seq<char>,
    body: Seq<char>,
    r: NameCommitResult,
) -> bool {
    if name_defined(names, name) {
        &&& r matches NameCommitResult::DuplicateName { name: n } && n@ == name
        &&& d1 == d0
        &&& a1 == a0
    } else {
        let k = d0.len();
        let a = a0.len();
        let row = next_backing_row(names);
        &&& d1.len() > k
        &&& d1.subrange(0, k as int) == d0
        &&& is_backing_entry(d1[k as int], row, body)
        &&& a1.len() > a
        &&& a1.subrange(0, a as int) == a0
        &&& if !a1[a as int].accepted {
            &&& d1.len() == k + 1
            &&& a1.len() == a + 1
            &&& r matches NameCommitResult::EngineRejected { message } && message@
                == rejection_message(a1[a as int])
        } else {
            &&& d1.len() == k + 2
            &&& a1.len() == a + 2
            &&& is_static_definition(d1[k as int + 1], name, row)
            &&& if a1[a as int + 1].accepted {
                r is Committed
            } else {
                r matches NameCommitResult::EngineRejected { message } && message@
                    == rejection_message(a1[a as int + 1])
            }
        }
    }
}

/// What a dynamic commit did: a duplicate dispatches nothing; otherwise one
/// `SetDefinedName` by the formula `source`, answered by the result.
pub open spec fn dynamic_commit_ran(
    d0: Seq<WorkspaceIntent>,
    a0: Seq<IntentReceipt>,
    d1: Seq<WorkspaceIntent>,
    a1: Seq<IntentReceipt>,
    names: DefinedNamesProjection,
    name: Seq<char>,
    source: Seq<char>,
    r: NameCommitResult,
) -> bool {
    if name_defined(names, name) {
        &&& r matches NameCommitResult::DuplicateName { name: n } && n@ == name
        &&& d1 == d0
        &&& a1 == a0
    } else {
        &&& d1.len() == d0.len() + 1
        &&& d1.drop_last() == d0
        &&& is_dynamic_definition(d1.last(), name, source)
        &&& a1.len() == a0.len() + 1
        &&& a1.drop_last() == a0
        &&& if a1.last().accepted {
            r is Committed
        } else {
            r matches NameCommitResult::EngineRejected { message } && message@
                == rejection_message(a1.last())
        }
    }
}

/// Commit a static name: stop on a duplicate before any dispatch; else
/// write the body into the next free `_names` cell, then define the name
/// over exactly that cell, stopping at the first rejection.
pub fn commit_static_name<D: Dispatcher>(
    dispatch: &mut D,
    defined_names: &DefinedNamesProjection,
    name: &str,
    body_text: &str,
) -> (r: NameCommitResult)
    requires
        highest_backing_row(defined_names.entries@, defined_names.entries@.len() as int)
            < u32::MAX,
    ensures
        static_commit_ran(
            old(dispatch).dispatched(),
            old(dispatch).answered(),
            final(dispatch).dispatched(),
            final(dispatch).answered(),
            *defined_names,
            name@,
            body_text@,
            r,
        ),
{
    if name_already_defined(defined_names, name) {
        return NameCommitResult::DuplicateName { name: String::from_str(name) };
    }
    let ghost d0 = dispatch.dispatched();
    let ghost a0 = dispatch.answered();
    let (grid, row, col) = next_names_backing_cell(defined_names);
    let enter = WorkspaceIntent::EnterGridCell {
        grid: grid.copy(),
        row,
        col,
        text: String::from_str(body_text),
    };
    let enter_receipt = dispatch.dispatch(enter);
    proof {
        assert(dispatch.dispatched().subrange(0, d0.len() as int) =~= d0);
        assert(dispatch.answered().subrange(0, a0.len() as int) =~= a0);
    }
    if !enter_receipt.accepted {
        return engine_rejection_result(&enter_receipt);
    }
    let define = WorkspaceIntent::SetDefinedName {
        scope: DefinedNameScopeProjection::Sheet(grid),
        name: String::from_str(name),
        target: DefinedNameTargetIntent::Static(
            GridRectProjection { top_row: row, left_col: col, bottom_row: row, right_col: col },
        ),
    };
    let define_receipt = dispatch.dispatch(define);
    proof {
        assert(dispatch.dispatched().subrange(0, d0.len() as int) =~= d0);
        assert(dispatch.answered().subrange(0, a0.len() as int) =~= a0);
    }
    if !define_receipt.accepted {
        return engine_rejection_result(&define_receipt);
    }
    NameCommitResult::Committed
}

/// Commit a dynamic name: stop on a duplicate before any dispatch; else
/// define the name by its formula alone (no backing cell).
pub fn commit_dynamic_name<D: Dispatcher>(
    dispatch: &mut D,
    defined_names: &DefinedNamesProjection,
    name: &str,
    source_text: &str,
) -> (r: NameCommitResult)
    ensures
        dynamic_commit_ran(
            old(dispatch).dispatched(),
            old(dispatch).answered(),
            final(dispatch).dispatched(),
            final(dispatch).answered(),
            *defined_names,
            name@,
            source_text@,
            r,
        ),
{
    if name_already_defined(defined_names, name) {
        return NameCommitResult::DuplicateName { name: String::from_str(name) };
    }
    let ghost d0 = dispatch.dispatched();
    let ghost a0 = dispatch.answered();
    let receipt = dispatch.dispatch(
        WorkspaceIntent::SetDefinedName {
            scope: DefinedNameScopeProjection::Sheet(NodeId::new(NAMES_BACKING_GRID)),
            name: String::from_str(name),
            target: DefinedNameTargetIntent::Dynamic { source_text: String::from_str(source_text) },
        },
    );
    proof {
        assert(dispatch.dispatched().drop_last() =~= d0);
        assert(dispatch.answered().drop_last() =~= a0);
    }
    if !receipt.accepted {
        return engine_rejection_result(&receipt);
    }
    NameCommitResult::Committed
}

/// Rename a name in place: dispatches only `RenameDefinedName`, and returns
/// the host's receipt.
pub fn commit_rename<D: Dispatcher>(
    dispatch: &mut D,
    scope: DefinedNameScopeProjection,
    old_name: &str,
    new_name: &str,
) -> (r: IntentReceipt)
    ensures
        final(dispatch).dispatched().len() == old(dispatch).dispatched().len() + 1,
        final(dispatch).dispatched().drop_last() == old(dispatch).dispatched(),
        final(dispatch).dispatched().last() matches WorkspaceIntent::RenameDefinedName {
            scope: s,
            old_name: o,
            new_name: n,
        } && s == scope && o@ == old_name@ && n@ == new_name@,
        final(dispatch).answered() == old(dispatch).answered().push(r),
{
    dispatch.dispatch(
        WorkspaceIntent::RenameDefinedName {
            scope,
            old_name: String::from_str(old_name),
            new_name: String::from_str(new_name),
        },
    )
}

/// What the name forms show after a commit attempt.
#[derive(Debug, Clone, PartialEq, Eq, Default)]
pub enum NameFormFeedback {
    #[default]
    NoFeedback,
    DuplicateName { name: String },
    EngineRejected { message: String },
}

/// The feedback a commit result leaves on a form.
pub open spec fn feedback_of(r: NameCommitResult) -> NameFormFeedback {
    match r {
        NameCommitResult::Committed => NameFormFeedback::NoFeedback,
        NameCommitResult::DuplicateName { name } => NameFormFeedback::DuplicateName { name },
        NameCommitResult::EngineRejected { message } => NameFormFeedback::EngineRejected { message },
    }
}

impl NameFormFeedback {
    /// The feedback of a commit result: nothing for a commit, else the
    /// duplicate name or the engine's message.
    pub fn from_result(result: &NameCommitResult) -> (f: Self)
        ensures
            f == feedback_of(*result),
    {
        match result {
            NameCommitResult::Committed => NameFormFeedback::NoFeedback,
            NameCommitResult::DuplicateName { name } => NameFormFeedback::DuplicateName {
                name: name.clone(),
            },
            NameCommitResult::EngineRejected { message } => NameFormFeedback::EngineRejected {
                message: message.clone(),
            },
        }
    }

    /// True for either rejection: the form stays open.
    pub fn is_rejection(&self) -> (b: bool)
        ensures
            b == !(self is NoFeedback),
    {
        match self {
            NameFormFeedback::NoFeedback => false,
            _ => true,
        }
    }
}

/// The `+ name` form: the name and body buffers, the dynamic flag, the
/// feedback, and whether the form is open.
#[derive(Debug, Clone, PartialEq, Eq)]
pub struct NameForm {
    pub name_buffer: String,
    pub body_buffer: String,
    pub dynamic_flag: bool,
    pub feedback: NameFormFeedback,
    pub open: bool,
}

impl NameForm {
    /// An open, empty form.
    pub fn new() -> (f: Self)
        ensures
            f.name_buffer@.len() == 0,
            f.body_buffer@.len() == 0,
            !f.dynamic_flag,
            f.feedback is NoFeedback,
            f.open,
    {
        NameForm {
            name_buffer: String::new(),
            body_buffer: String::new(),
            dynamic_flag: false,
            feedback: NameFormFeedback::NoFeedback,
            open: true,
        }
    }

    /// Create: a blank name (whitespace only) does nothing; otherwise the
    /// static or dynamic commit runs per the flag. A rejection keeps the
    /// form open with both buffers intact and shows the reason; a commit
    /// clears the buffers and the feedback and closes the form.
    pub fn commit<D: Dispatcher>(&mut self, dispatch: &mut D, defined_names: &DefinedNamesProjection)
        requires
            highest_backing_row(defined_names.entries@, defined_names.entries@.len() as int)
                < u32::MAX,
        ensures
            trimmed(old(self).name_buffer@).len() == 0 ==> {
                &&& *final(self) == *old(self)
                &&& final(dispatch).dispatched() == old(dispatch).dispatched()
            },
            trimmed(old(self).name_buffer@).len() > 0 ==> {
                &&& exists|r: NameCommitResult|
                    #[trigger] feedback_of(r) == final(self).feedback && if old(self).dynamic_flag {
                        dynamic_commit_ran(
                            old(dispatch).dispatched(),
                            old(dispatch).answered(),
                            final(dispatch).dispatched(),
                            final(dispatch).answered(),
                            *defined_names,
                            old(self).name_buffer@,
                            old(self).body_buffer@,
                            r,
                        )
                    } else {
                        static_commit_ran(
                            old(dispatch).dispatched(),
                            old(dispatch).answered(),
                            final(dispatch).dispatched(),
                            final(dispatch).answered(),
                            *defined_names,
                            old(self).name_buffer@,
                            old(self).body_buffer@,
                            r,
                        )
                    }
                &&& (final(self).feedback is NoFeedback ==> {
                    &&& !final(self).open
                    &&& final(self).name_buffer@.len() == 0
                    &&& final(self).body_buffer@.len() == 0
                })
                &&& (!(final(self).feedback is NoFeedback) ==> {
                    &&& final(self).open == old(self).open
                    &&& final(self).name_buffer == old(self).name_buffer
                    &&& final(self).body_buffer == old(self).body_buffer
                })
                &&& (name_defined(*defined_names, old(self).name_buffer@) ==> (final(self).feedback
                    matches NameFormFeedback::DuplicateName { name } && name@ == old(
                    self,
                ).name_buffer@))
            },
            final(self).dynamic_flag == old(self).dynamic_flag,
    {
        let name_chars = chars_of(self.name_buffer.as_str());
        let trimmed_name = trim_chars(&name_chars);
        if trimmed_name.len() == 0 {
            return;
        }
        let result = if self.dynamic_flag {
            commit_dynamic_name(dispatch, defined_names, self.name_buffer.as_str(), self.body_buffer.as_str())
        } else {
            commit_static_name(dispatch, defined_names, self.name_buffer.as_str(), self.body_buffer.as_str())
        };
        let next = NameFormFeedback::from_result(&result);
        assert(feedback_of(result) == next);
        if next.is_rejection() {
            self.feedback = next;
        } else {
            self.name_buffer = String::new();
            self.body_buffer = String::new();
            self.feedback = NameFormFeedback::NoFeedback;
            self.open = false;
        }
    }

    /// Cancel: clear both buffers and the feedback, and close the form.
    pub fn cancel(&mut self)
        ensures
            final(self).name_buffer@.len() == 0,
            final(self).body_buffer@.len() == 0,
            final(self).feedback is NoFeedback,
            !final(self).open,
            final(self).dynamic_flag == old(self).dynamic_flag,
    {
        self.name_buffer = String::new();
        self.body_buffer = String::new();
        self.feedback = NameFormFeedback::NoFeedback;
        self.open = false;
    }
}

/// The message a name form shows for its feedback: a duplicate names the
/// taken name, an engine rejection shows its message.
pub open spec fn create_feedback_text(f: NameFormFeedback) -> Option<Seq<char>> {
    match f {
        NameFormFeedback::NoFeedback => None,
        NameFormFeedback::DuplicateName { name } => Some(
            "'"@ + name@ + "' is already defined \u{2014} choose a different name"@,
        ),
        NameFormFeedback::EngineRejected { message } => Some(message@),
    }
}

/// The inline message the `+ name` form shows, if any.
pub fn name_form_message(feedback: &NameFormFeedback) -> (r: Option<String>)
    ensures
        r matches Some(t) ==> create_feedback_text(*feedback) == Some(t@),
        r is None <==> create_feedback_text(*feedback) is None,
{
    match feedback {
        NameFormFeedback::NoFeedback => None,
        NameFormFeedback::DuplicateName { name } => {
            let mut s = String::from_str("'");
            push_str(&mut s, name.as_str());
            push_str(&mut s, "' is already defined \u{2014} choose a different name");
            Some(s)
        },
        NameFormFeedback::EngineRejected { message } => Some(message.clone()),
    }
}

/// The rename-in-place form: the name's scope and current name, the edit
/// buffer, the feedback, and whether it is open.
#[derive(Debug, Clone, PartialEq, Eq)]
pub struct RenameNameForm {
    pub scope: DefinedNameScopeProjection,
    pub current_name: String,
    pub buffer: String,
    pub feedback: NameFormFeedback,
    pub editing: bool,
}

impl RenameNameForm {
    /// An open rename field seeded with the current name.
    pub fn new(scope: DefinedNameScopeProjection, current_name: &str) -> (f: Self)
        ensures
            f.scope == scope,
            f.current_name@ == current_name@,
            f.buffer@ == current_name@,
            f.feedback is NoFeedback,
            f.editing,
    {
        RenameNameForm {
            scope,
            current_name: String::from_str(current_name),
            buffer: String::from_str(current_name),
            feedback: NameFormFeedback::NoFeedback,
            editing: true,
        }
    }

    /// Commit: an unchanged name just closes the field; otherwise only a
    /// `RenameDefinedName` is dispatched, and an accepted rename closes the
    /// field while a rejection keeps it open with the reason.
    pub fn commit<D: Dispatcher>(&mut self, dispatch: &mut D)
        ensures
            old(self).buffer@ == old(self).current_name@ ==> {
                &&& final(dispatch).dispatched() == old(dispatch).dispatched()
                &&& !final(self).editing
                &&& final(self).feedback == old(self).feedback
            },
            old(self).buffer@ != old(self).current_name@ ==> {
                &&& final(dispatch).dispatched().len() == old(dispatch).dispatched().len() + 1
                &&& final(dispatch).dispatched().last() matches WorkspaceIntent::RenameDefinedName {
                    scope: s,
                    old_name: o,
                    new_name: n,
                } && s == old(self).scope && o@ == old(self).current_name@ && n@ == old(
                    self,
                ).buffer@
                &&& final(dispatch).answered().len() == old(dispatch).answered().len() + 1
                &&& if final(dispatch).answered().last().accepted {
                    final(self).feedback is NoFeedback && !final(self).editing
                } else {
                    &&& final(self).feedback matches NameFormFeedback::EngineRejected { message }
                        && message@ == rejection_message(final(dispatch).answered().last())
                    &&& final(self).editing == old(self).editing
                }
            },
            final(self).buffer == old(self).buffer,
            final(self).current_name == old(self).current_name,
            final(self).scope == old(self).scope,
    {
        if str_equal(self.buffer.as_str(), self.current_name.as_str()) {
            self.editing = false;
            return;
        }
        let receipt = commit_rename(
            dispatch,
            copy_scope(&self.scope),
            self.current_name.as_str(),
            self.buffer.as_str(),
        );
        if receipt.accepted {
            self.feedback = NameFormFeedback::NoFeedback;
            self.editing = false;
        } else {
            self.feedback = NameFormFeedback::EngineRejected { message: rejection_message_of(&receipt) };
        }
    }

    /// Escape: restore the current name, clear the feedback and close the
    /// field; nothing is dispatched.
    pub fn revert(&mut self)
        ensures
            final(self).buffer == old(self).current_name,
            final(self).feedback is NoFeedback,
            !final(self).editing,
            final(self).current_name == old(self).current_name,
            final(self).scope == old(self).scope,
    {
        self.buffer = self.current_name.clone();
        self.feedback = NameFormFeedback::NoFeedback;
        self.editing = false;
    }
}

/// The inline message the rename field shows, if any.
pub open spec fn rename_feedback_text(f: NameFormFeedback) -> Option<Seq<char>> {
    match f {
        NameFormFeedback::NoFeedback => None,
        NameFormFeedback::DuplicateName { name } => Some("'"@ + name@ + "' is already defined"@),
        NameFormFeedback::EngineRejected { message } => Some(message@),
    }
}

/// The inline message the rename field shows, if any.
pub fn rename_form_message(feedback: &NameFormFeedback) -> (r: Option<String>)
    ensures
        r matches Some(t) ==> rename_feedback_text(*feedback) == Some(t@),
        r is None <==> rename_feedback_text(*feedback) is None,
{
    match feedback {
        NameFormFeedback::NoFeedback => None,
        NameFormFeedback::DuplicateName { name } => {
            let mut s = String::from_str("'");
            push_str(&mut s, name.as_str());
            push_str(&mut s, "' is already defined");
            Some(s)
        },
        NameFormFeedback::EngineRejected { message } => Some(message.clone()),
    }
}

} // verus!
