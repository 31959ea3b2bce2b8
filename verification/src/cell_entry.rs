//! The shared cell-entry editor's logic: one edit buffer over one backing
//! cell; Enter (or leaving the field) commits exactly one entry intent at
//! the cell's own address, Escape reverts the buffer and dispatches nothing;
//! the receipt's three-way outcome decides whether the editor closes or stays
//! open with its text and diagnostics.
use vstd::prelude::*;

use crate::cell_edit::{first_cell_entered, has_cell_entered, is_cell_entered};
use crate::intent::{
    copy_diagnostics, outcome_copy, Dispatcher, GridEntryDiagnosticProjection,
    GridEntryOutcomeProjection, IntentErrorKind, IntentReceipt, WorkspaceDeltaChange,
    WorkspaceIntent,
};
use crate::projection::NodeId;
use crate::text::{decimal_text, join_strings, joined, push_char, push_decimal, push_str, str_equal};

verus! {

/// The classified result of committing one cell entry.
#[derive(Debug, PartialEq)]
pub enum EntryCommitResult {
    /// The write was accepted; the engine's outcome when the receipt
    /// carried one.
    Committed { outcome: Option<GridEntryOutcomeProjection> },
    /// The entry verb refused the text with typed diagnostics.
    Rejected { diagnostics: Vec<GridEntryDiagnosticProjection> },
    /// Any other rejection, by its message.
    OtherError { message: String },
}

/// The message shown for a rejection that carries no error.
pub const ENGINE_REJECTED_MESSAGE: &'static str = "the engine rejected this change";

/// `r` is the classification of `receipt`.
pub open spec fn classifies(receipt: IntentReceipt, r: EntryCommitResult) -> bool {
    if receipt.accepted {
        r matches EntryCommitResult::Committed { outcome } && if has_cell_entered(
            receipt.delta.changes@,
        ) {
            outcome matches Some(o) && match receipt.delta.changes@[first_cell_entered(
                receipt.delta.changes@,
            )] {
                WorkspaceDeltaChange::GridCellEntered { outcome: src, .. } => outcome_copy(src, o),
                _ => false,
            }
        } else {
            outcome is None
        }
    } else {
        match receipt.error {
            Some(e) => match e.kind {
                IntentErrorKind::GridEntryRejected { diagnostics } => r matches EntryCommitResult::Rejected {
                    diagnostics: d,
                } && d@ == diagnostics@,
                _ => r matches EntryCommitResult::OtherError { message } && message@ == e.message@,
            },
            None => r matches EntryCommitResult::OtherError { message } && message@
                == ENGINE_REJECTED_MESSAGE@,
        }
    }
}

/// The engine's outcome carried by the receipt's first cell-entry change.
fn entry_outcome_of(receipt: &IntentReceipt) -> (o: Option<GridEntryOutcomeProjection>)
    ensures
        has_cell_entered(receipt.delta.changes@) ==> (o matches Some(x) && match receipt.delta.changes@[first_cell_entered(
            receipt.delta.changes@,
        )] {
            WorkspaceDeltaChange::GridCellEntered { outcome, .. } => outcome_copy(outcome, x),
            _ => false,
        }),
        !has_cell_entered(receipt.delta.changes@) ==> o is None,
{
    let changes = &receipt.delta.changes;
    let mut k: usize = 0;
    while k < changes.len()
        invariant
            k <= changes@.len(),
            *changes == receipt.delta.changes,
            forall|m: int| 0 <= m < k ==> !is_cell_entered(#[trigger] changes@[m]),
        decreases changes@.len() - k,
    {
        if let WorkspaceDeltaChange::GridCellEntered { outcome, .. } = &changes[k] {
            proof {
                assert(is_cell_entered(changes@[k as int]));
                let p = first_cell_entered(changes@);
                if p < k {
                    assert(!is_cell_entered(changes@[p]));
                } else if p > k {
                    assert(!is_cell_entered(changes@[k as int]));
                }
            }
            return Some(outcome.copy());
        }
        k += 1;
    }
    None
}

/// Classify a raw cell-entry receipt: an accepted receipt is committed
/// (with the engine's outcome when present), a typed entry rejection keeps
/// its diagnostics, any other rejection surfaces its message.
pub fn classify_entry_receipt(receipt: &IntentReceipt) -> (r: EntryCommitResult)
    ensures
        classifies(*receipt, r),
{
    if receipt.accepted {
        return EntryCommitResult::Committed { outcome: entry_outcome_of(receipt) };
    }
    match &receipt.error {
        Some(e) => match &e.kind {
            IntentErrorKind::GridEntryRejected { diagnostics } => EntryCommitResult::Rejected {
                diagnostics: copy_diagnostics(diagnostics),
            },
            _ => EntryCommitResult::OtherError { message: e.message.clone() },
        },
        None => EntryCommitResult::OtherError { message: String::from_str(ENGINE_REJECTED_MESSAGE) },
    }
}

/// The `#NAME?` note for a formula outcome that references undefined
/// names.
pub open spec fn name_note_text(names: Seq<String>) -> Seq<char> {
    "#NAME? \u{2014} "@ + joined(names, ", "@) + " is not defined; it self-heals once the name exists"@
}

/// The note a formula outcome shows while it references names that are
/// not defined: none for other outcomes or when every name resolves.
pub open spec fn unresolved_note(outcome: GridEntryOutcomeProjection) -> Option<Seq<char>> {
    match outcome {
        GridEntryOutcomeProjection::Formula { unresolved_names, .. } => if unresolved_names@.len()
            == 0 {
            None
        } else {
            Some(name_note_text(unresolved_names@))
        },
        _ => None,
    }
}

/// The unresolved-name note text for a formula outcome, or `None`.
pub fn unresolved_name_note(outcome: &GridEntryOutcomeProjection) -> (r: Option<String>)
    ensures
        r matches Some(t) ==> unresolved_note(*outcome) == Some(t@),
        r is None <==> unresolved_note(*outcome) is None,
{
    match outcome {
        GridEntryOutcomeProjection::Formula { unresolved_names, .. } => {
            if unresolved_names.len() == 0 {
                return None;
            }
            let names = join_strings(unresolved_names, ", ");
            let mut note = String::from_str("#NAME? \u{2014} ");
            push_str(&mut note, names.as_str());
            push_str(&mut note, " is not defined; it self-heals once the name exists");
            Some(note)
        },
        _ => None,
    }
}

/// What an editor shows after a commit attempt.
#[derive(Debug, Clone, PartialEq, Eq, Default)]
pub enum EntryFeedback {
    /// Nothing to show (fresh editor, or a clean commit).
    #[default]
    NoFeedback,
    /// A typed rejection: these rows render under the open editor.
    Rejected { diagnostics: Vec<GridEntryDiagnosticProjection> },
    /// A formula success referencing undefined names: a dismissable note.
    UnresolvedNames { note: String },
    /// Any other engine error: its message.
    OtherError { message: String },
}

/// `f` is the feedback for the commit result `r`.
pub open spec fn feedback_for(r: EntryCommitResult, f: EntryFeedback) -> bool {
    match r {
        EntryCommitResult::Committed { outcome } => match outcome {
            Some(o) => match unresolved_note(o) {
                Some(t) => f matches EntryFeedback::UnresolvedNames { note } && note@ == t,
                None => f is NoFeedback,
            },
            None => f is NoFeedback,
        },
        EntryCommitResult::Rejected { diagnostics } => f matches EntryFeedback::Rejected {
            diagnostics: d,
        } && d@ == diagnostics@,
        EntryCommitResult::OtherError { message } => f matches EntryFeedback::OtherError {
            message: m,
        } && m == message,
    }
}

impl EntryFeedback {
    /// The post-commit feedback of a classified result: a rejection keeps
    /// its diagnostics or message, a formula success with undefined names
    /// yields the note, every other success yields nothing.
    pub fn from_result(result: &EntryCommitResult) -> (f: Self)
        ensures
            feedback_for(*result, f),
    {
        match result {
            EntryCommitResult::Committed { outcome } => match outcome {
                Some(o) => match unresolved_name_note(o) {
                    Some(note) => EntryFeedback::UnresolvedNames { note },
                    None => EntryFeedback::NoFeedback,
                },
                None => EntryFeedback::NoFeedback,
            },
            EntryCommitResult::Rejected { diagnostics } => EntryFeedback::Rejected {
                diagnostics: copy_diagnostics(diagnostics),
            },
            EntryCommitResult::OtherError { message } => EntryFeedback::OtherError {
                message: message.clone(),
            },
        }
    }

    /// True when the commit was rejected (typed or generic): the editor
    /// stays open with its text.
    pub fn is_rejection(&self) -> (b: bool)
        ensures
            b == (self is Rejected || self is OtherError),
    {
        match self {
            EntryFeedback::Rejected { .. } => true,
            EntryFeedback::OtherError { .. } => true,
            _ => false,
        }
    }
}

/// The badge text of a diagnostic's character span: `chars a–b`.
pub open spec fn span_badge(span: (u32, u32)) -> Seq<char> {
    "chars "@ + decimal_text(span.0 as nat) + seq!['\u{2013}'] + decimal_text(span.1 as nat)
}

/// The span badge a diagnostic row shows next to its message; a row
/// without a span shows its message alone.
pub fn span_badge_text(diagnostic: &GridEntryDiagnosticProjection) -> (r: Option<String>)
    ensures
        diagnostic.span matches Some(sp) ==> (r matches Some(t) && t@ == span_badge(sp)),
        diagnostic.span is None ==> r is None,
{
    match diagnostic.span {
        Some((start, end)) => {
            let mut s = String::from_str("chars ");
            push_decimal(&mut s, start as u64);
            push_char(&mut s, '\u{2013}');
            push_decimal(&mut s, end as u64);
            Some(s)
        },
        None => None,
    }
}

/// The editor over one backing cell: its address, the live buffer, the
/// last committed text Escape reverts to, whether it is open, and its
/// feedback.
#[derive(Debug, Clone, PartialEq, Eq)]
pub struct CellEntryEditor {
    pub grid: NodeId,
    pub row: u32,
    pub col: u32,
    pub buffer: String,
    pub committed: String,
    pub editing: bool,
    pub feedback: EntryFeedback,
}

impl CellEntryEditor {
    /// An open editor over `(grid, row, col)` seeded from `initial_text`.
    pub fn new(grid: NodeId, row: u32, col: u32, initial_text: &str) -> (e: Self)
        ensures
            e.grid == grid,
            e.row == row,
            e.col == col,
            e.buffer@ == initial_text@,
            e.committed@ == initial_text@,
            e.editing,
            e.feedback is NoFeedback,
    {
        CellEntryEditor {
            grid,
            row,
            col,
            buffer: String::from_str(initial_text),
            committed: String::from_str(initial_text),
            editing: true,
            feedback: EntryFeedback::NoFeedback,
        }
    }

    /// The user typed: the buffer now holds `text`.
    pub fn input(&mut self, text: &str)
        ensures
            final(self).buffer@ == text@,
            final(self).grid == old(self).grid,
            final(self).row == old(self).row,
            final(self).col == old(self).col,
            final(self).committed == old(self).committed,
            final(self).editing == old(self).editing,
            final(self).feedback == old(self).feedback,
    {
        self.buffer = String::from_str(text);
    }

    /// Commit the buffer: dispatch exactly one entry intent at the editor's
    /// own cell and react to the classified receipt. A rejection keeps the
    /// editor open with its buffer and shows the diagnostics or message; a
    /// success records the buffer as committed, shows the note (if any) and
    /// closes the editor.
    pub fn commit<D: Dispatcher>(&mut self, dispatch: &mut D)
        ensures
            final(dispatch).dispatched() == old(dispatch).dispatched().push(
                WorkspaceIntent::EnterGridCell {
                    grid: old(self).grid,
                    row: old(self).row,
                    col: old(self).col,
                    text: old(self).buffer,
                },
            ),
            final(dispatch).answered().len() == old(dispatch).answered().len() + 1,
            exists|r: EntryCommitResult|
                classifies(final(dispatch).answered().last(), r) && feedback_for(
                    r,
                    final(self).feedback,
                ),
            final(self).feedback is Rejected || final(self).feedback is OtherError ==> {
                &&& final(self).editing == old(self).editing
                &&& final(self).committed == old(self).committed
            },
            !(final(self).feedback is Rejected || final(self).feedback is OtherError) ==> {
                &&& !final(self).editing
                &&& final(self).committed == old(self).buffer
            },
            final(self).buffer == old(self).buffer,
            final(self).grid == old(self).grid,
            final(self).row == old(self).row,
            final(self).col == old(self).col,
    {
        let text = self.buffer.clone();
        let receipt = dispatch.dispatch(
            WorkspaceIntent::EnterGridCell {
                grid: self.grid.copy(),
                row: self.row,
                col: self.col,
                text: text.clone(),
            },
        );
        let result = classify_entry_receipt(&receipt);
        let next = EntryFeedback::from_result(&result);
        if next.is_rejection() {
            self.feedback = next;
        } else {
            self.committed = text;
            self.feedback = next;
            self.editing = false;
        }
    }

    /// Escape: revert the buffer to the committed text, clear the feedback
    /// and close the editor; nothing is dispatched.
    pub fn revert(&mut self)
        ensures
            final(self).buffer == old(self).committed,
            final(self).committed == old(self).committed,
            final(self).feedback is NoFeedback,
            !final(self).editing,
            final(self).grid == old(self).grid,
            final(self).row == old(self).row,
            final(self).col == old(self).col,
    {
        self.buffer = self.committed.clone();
        self.feedback = EntryFeedback::NoFeedback;
        self.editing = false;
    }

    /// A key pressed in the editor: Enter commits, Escape reverts, any
    /// other key leaves everything as it was.
    pub fn key_down<D: Dispatcher>(&mut self, key: &str, dispatch: &mut D)
        ensures
            key@ != "Enter"@ ==> final(dispatch).dispatched() == old(dispatch).dispatched(),
            key@ == "Enter"@ ==> final(dispatch).dispatched() == old(dispatch).dispatched().push(
                WorkspaceIntent::EnterGridCell {
                    grid: old(self).grid,
                    row: old(self).row,
                    col: old(self).col,
                    text: old(self).buffer,
                },
            ),
            key@ == "Escape"@ ==> (final(self).buffer == old(self).committed && !final(self).editing
                && final(self).feedback is NoFeedback),
            key@ != "Enter"@ && key@ != "Escape"@ ==> *final(self) == *old(self),
    {
        proof {
            reveal_strlit("Enter");
            reveal_strlit("Escape");
            assert("Enter"@.len() != "Escape"@.len());
        }
        if str_equal(key, "Enter") {
            self.commit(dispatch);
        } else if str_equal(key, "Escape") {
            self.revert();
        }
    }
}

} // verus!
