//! The Notebook stage's keyboard grammar: a declarative table mapping a
//! normalized chord to a Notebook action, with stable ids an Atlas can
//! enumerate and rebind. Reordering and prose blocks are reserved chords
//! whose actions are honest disabled-with-reason degrades.
use vstd::prelude::*;

pub use crate::key_chord::{chord_view, ChordView, KeyChord};
use crate::key_chord::{
    chords_are_unique, first_action, ids_are_unique, lemma_unique_chords_resolve_to_their_rows,
    same_chord, table_chord,
};
use crate::text::contains_text;

verus! {

/// The Notebook stage's closed set of keyboard actions.
#[derive(Debug, Clone, Copy, PartialEq, Eq, Structural, Hash)]
pub enum NotebookAction {
    /// Open (focus) the focused block's editor.
    OpenEditor,
    /// Commit the focused block's edit, then advance focus to the next block.
    CommitAndAdvance,
    /// Move the focused block one position earlier (degraded).
    ReorderUp,
    /// Move the focused block one position later (degraded).
    ReorderDown,
    /// Insert a new prose block (degraded).
    NewProse,
    /// Open the name-first authoring form (live).
    NewName,
}

/// The stable, telemetry-friendly id of an action.
pub open spec fn action_stable_id(action: NotebookAction) -> Seq<char> {
    match action {
        NotebookAction::OpenEditor => "open-editor"@,
        NotebookAction::CommitAndAdvance => "commit-advance"@,
        NotebookAction::ReorderUp => "reorder-up"@,
        NotebookAction::ReorderDown => "reorder-down"@,
        NotebookAction::NewProse => "new-prose"@,
        NotebookAction::NewName => "new-name"@,
    }
}

impl NotebookAction {
    /// A stable, telemetry-friendly id for the action.
    pub fn stable_id(self) -> (s: &'static str)
        ensures
            s@ == action_stable_id(self),
    {
        match self {
            NotebookAction::OpenEditor => "open-editor",
            NotebookAction::CommitAndAdvance => "commit-advance",
            NotebookAction::ReorderUp => "reorder-up",
            NotebookAction::ReorderDown => "reorder-down",
            NotebookAction::NewProse => "new-prose",
            NotebookAction::NewName => "new-name",
        }
    }
}

/// Why reordering is unavailable (both directions).
pub const REORDER_DEFERRED_REASON: &'static str =
    "reorder not available — block ordering persistence deferred (ask #1)";

/// Why a new prose block is unavailable.
pub const NEW_PROSE_DEFERRED_REASON: &'static str = "new prose block deferred (ask #1)";

/// Whether an action performs its effect or is an honest disabled-with-
/// reason degrade that must surface its reason and mutate nothing.
#[derive(Debug, Clone, Copy, PartialEq, Eq)]
pub enum ActionAvailability {
    /// The action is wired and performs its effect.
    Live,
    /// The action is deliberately not built; the reason cites `ask #1`.
    DisabledWithReason(&'static str),
}

/// One row of the keymap: a stable id, its chord, its action, and a label.
#[derive(Debug, Clone, PartialEq, Eq)]
pub struct KeyBinding {
    pub id: &'static str,
    pub chord: KeyChord,
    pub action: NotebookAction,
    pub label: &'static str,
}

/// A binding as plain values: `((id, chord), (action, label))`.
pub type BindingView = ((Seq<char>, ChordView), (NotebookAction, Seq<char>));

/// The plain-value view of a binding.
pub open spec fn binding_view(b: KeyBinding) -> BindingView {
    ((b.id@, chord_view(b.chord)), (b.action, b.label@))
}

/// The Notebook grammar as a table of plain values, in lookup order.
pub open spec fn notebook_keymap_table() -> Seq<BindingView> {
    seq![
        (("notebook.open-editor"@, ("Enter"@, false, false, false)), (NotebookAction::OpenEditor, "Open editor"@)),
        (("notebook.commit-advance"@, ("Enter"@, true, false, false)), (NotebookAction::CommitAndAdvance, "Commit and next block"@)),
        (("notebook.reorder-up"@, ("ArrowUp"@, false, false, true)), (NotebookAction::ReorderUp, "Move block up"@)),
        (("notebook.reorder-down"@, ("ArrowDown"@, false, false, true)), (NotebookAction::ReorderDown, "Move block down"@)),
        (("notebook.new-prose"@, ("m"@, true, true, false)), (NotebookAction::NewProse, "New prose block"@)),
        (("notebook.new-name"@, ("n"@, true, true, false)), (NotebookAction::NewName, "New name block"@)),
    ]
}

fn binding(
    id: &'static str,
    key: &str,
    shift: bool,
    ctrl: bool,
    alt: bool,
    action: NotebookAction,
    label: &'static str,
) -> (b: KeyBinding)
    ensures
        binding_view(b) == ((id@, (key@, shift, ctrl, alt)), (action, label@)),
{
    KeyBinding { id, chord: table_chord(key, shift, ctrl, alt), action, label }
}

/// The Notebook stage's whole keyboard grammar: one binding per action,
/// ids namespaced under `notebook.`.
pub fn notebook_keymap() -> (v: Vec<KeyBinding>)
    ensures
        v@.map_values(|b: KeyBinding| binding_view(b)) == notebook_keymap_table(),
{
    let v = vec![
        binding("notebook.open-editor", "Enter", false, false, false, NotebookAction::OpenEditor, "Open editor"),
        binding("notebook.commit-advance", "Enter", true, false, false, NotebookAction::CommitAndAdvance, "Commit and next block"),
        binding("notebook.reorder-up", "ArrowUp", false, false, true, NotebookAction::ReorderUp, "Move block up"),
        binding("notebook.reorder-down", "ArrowDown", false, false, true, NotebookAction::ReorderDown, "Move block down"),
        binding("notebook.new-prose", "m", true, true, false, NotebookAction::NewProse, "New prose block"),
        binding("notebook.new-name", "n", true, true, false, NotebookAction::NewName, "New name block"),
    ];
    assert(v@.map_values(|b: KeyBinding| binding_view(b)) =~= notebook_keymap_table());
    v
}

/// Resolve a chord to its action against `keymap`: a first-match lookup,
/// `None` for an unbound chord (which then bubbles to the shell).
pub fn resolve_action(keymap: &[KeyBinding], chord: &KeyChord) -> (a: Option<NotebookAction>)
    ensures
        a == first_action(keymap@.map_values(|b: KeyBinding| binding_view(b)), chord_view(*chord)),
{
    let ghost table = keymap@.map_values(|b: KeyBinding| binding_view(b));
    let mut i: usize = 0;
    assert(table.skip(0) =~= table);
    while i < keymap.len()
        invariant
            0 <= i <= keymap@.len(),
            table == keymap@.map_values(|b: KeyBinding| binding_view(b)),
            first_action(table, chord_view(*chord)) == first_action(
                table.skip(i as int),
                chord_view(*chord),
            ),
        decreases keymap@.len() - i,
    {
        proof {
            assert(table.skip(i as int)[0] == binding_view(keymap@[i as int]));
            assert(table.skip(i as int).drop_first() =~= table.skip(i + 1));
        }
        if same_chord(&keymap[i].chord, chord) {
            return Some(keymap[i].action);
        }
        i = i + 1;
    }
    assert(table.skip(i as int).len() == 0);
    None
}

/// The reason an action is disabled, or `None` when it is live.
pub open spec fn availability_of(action: NotebookAction) -> Option<Seq<char>> {
    match action {
        NotebookAction::ReorderUp | NotebookAction::ReorderDown => Some(REORDER_DEFERRED_REASON@),
        NotebookAction::NewProse => Some(NEW_PROSE_DEFERRED_REASON@),
        _ => None,
    }
}

/// `OpenEditor` / `CommitAndAdvance` / `NewName` are live; reordering and
/// new prose blocks are disabled with a reason citing `ask #1`.
pub fn action_availability(action: NotebookAction) -> (a: ActionAvailability)
    ensures
        match a {
            ActionAvailability::Live => availability_of(action).is_none(),
            ActionAvailability::DisabledWithReason(r) => availability_of(action) == Some(r@),
        },
{
    match action {
        NotebookAction::OpenEditor | NotebookAction::CommitAndAdvance | NotebookAction::NewName => {
            ActionAvailability::Live
        },
        NotebookAction::ReorderUp | NotebookAction::ReorderDown => {
            ActionAvailability::DisabledWithReason(REORDER_DEFERRED_REASON)
        },
        NotebookAction::NewProse => ActionAvailability::DisabledWithReason(NEW_PROSE_DEFERRED_REASON),
    }
}

/// Some row of the table targets `a`.
pub open spec fn action_has_binding(a: NotebookAction) -> bool {
    exists|i: int| 0 <= i < notebook_keymap_table().len() && (#[trigger] notebook_keymap_table()[i]).1.0 == a
}

proof fn lemma_index_below_6(i: int)
    requires
        0 <= i < 6,
    ensures
        i == 0 || i == 1 || i == 2 || i == 3 || i == 4 || i == 5,
{
}

/// Law: the Notebook grammar is well formed — exactly one binding per
/// action, no chord or id bound twice, and so every declared chord resolves
/// to its own row's action.
pub proof fn lemma_notebook_keymap_is_well_formed()
    ensures
        chords_are_unique(notebook_keymap_table()),
        ids_are_unique(notebook_keymap_table()),
        forall|a: NotebookAction| #[trigger] action_has_binding(a),
        forall|i: int, j: int|
            0 <= i < notebook_keymap_table().len() && 0 <= j < notebook_keymap_table().len()
                && notebook_keymap_table()[i].1.0 == notebook_keymap_table()[j].1.0 ==> i == j,
        forall|i: int|
            0 <= i < notebook_keymap_table().len() ==> first_action(
                notebook_keymap_table(),
                #[trigger] notebook_keymap_table()[i].0.1,
            ) == Some(notebook_keymap_table()[i].1.0),
{
    reveal_strlit("notebook.open-editor");
    reveal_strlit("notebook.commit-advance");
    reveal_strlit("notebook.reorder-up");
    reveal_strlit("notebook.reorder-down");
    reveal_strlit("notebook.new-prose");
    reveal_strlit("notebook.new-name");
    reveal_strlit("ArrowDown");
    reveal_strlit("ArrowUp");
    reveal_strlit("Enter");
    reveal_strlit("m");
    reveal_strlit("n");
    assert("notebook.open-editor"@.len() != "notebook.commit-advance"@.len());
    assert("notebook.open-editor"@.len() != "notebook.reorder-up"@.len());
    assert("notebook.open-editor"@.len() != "notebook.reorder-down"@.len());
    assert("notebook.open-editor"@.len() != "notebook.new-prose"@.len());
    assert("notebook.open-editor"@.len() != "notebook.new-name"@.len());
    assert("notebook.commit-advance"@.len() != "notebook.reorder-up"@.len());
    assert("notebook.commit-advance"@.len() != "notebook.reorder-down"@.len());
    assert("notebook.commit-advance"@.len() != "notebook.new-prose"@.len());
    assert("notebook.commit-advance"@.len() != "notebook.new-name"@.len());
    assert("notebook.reorder-up"@.len() != "notebook.reorder-down"@.len());
    assert("notebook.reorder-up"@.len() != "notebook.new-prose"@.len());
    assert("notebook.reorder-up"@.len() != "notebook.new-name"@.len());
    assert("notebook.reorder-down"@.len() != "notebook.new-prose"@.len());
    assert("notebook.reorder-down"@.len() != "notebook.new-name"@.len());
    assert("notebook.new-prose"@.len() != "notebook.new-name"@.len());
    assert("ArrowDown"@.len() != "ArrowUp"@.len());
    assert("ArrowDown"@.len() != "Enter"@.len());
    assert("ArrowDown"@.len() != "m"@.len());
    assert("ArrowDown"@.len() != "n"@.len());
    assert("ArrowUp"@.len() != "Enter"@.len());
    assert("ArrowUp"@.len() != "m"@.len());
    assert("ArrowUp"@.len() != "n"@.len());
    assert("Enter"@.len() != "m"@.len());
    assert("Enter"@.len() != "n"@.len());
    assert("m"@[0] != "n"@[0]);
    let t = notebook_keymap_table();
    assert(t[0].0.1 != t[1].0.1 && t[0].0.0 != t[1].0.0);
    assert(t[0].0.1 != t[2].0.1 && t[0].0.0 != t[2].0.0);
    assert(t[0].0.1 != t[3].0.1 && t[0].0.0 != t[3].0.0);
    assert(t[0].0.1 != t[4].0.1 && t[0].0.0 != t[4].0.0);
    assert(t[0].0.1 != t[5].0.1 && t[0].0.0 != t[5].0.0);
    assert(t[1].0.1 != t[2].0.1 && t[1].0.0 != t[2].0.0);
    assert(t[1].0.1 != t[3].0.1 && t[1].0.0 != t[3].0.0);
    assert(t[1].0.1 != t[4].0.1 && t[1].0.0 != t[4].0.0);
    assert(t[1].0.1 != t[5].0.1 && t[1].0.0 != t[5].0.0);
    assert(t[2].0.1 != t[3].0.1 && t[2].0.0 != t[3].0.0);
    assert(t[2].0.1 != t[4].0.1 && t[2].0.0 != t[4].0.0);
    assert(t[2].0.1 != t[5].0.1 && t[2].0.0 != t[5].0.0);
    assert(t[3].0.1 != t[4].0.1 && t[3].0.0 != t[4].0.0);
    assert(t[3].0.1 != t[5].0.1 && t[3].0.0 != t[5].0.0);
    assert(t[4].0.1 != t[5].0.1 && t[4].0.0 != t[5].0.0);
    assert forall|i: int, j: int| 0 <= i < j < t.len() implies t[i].0.1 != t[j].0.1 && t[i].0.0 != t[j].0.0 by {
        lemma_index_below_6(i);
        lemma_index_below_6(j);
    }
    assert forall|a: NotebookAction| #[trigger] action_has_binding(a) by {
        match a {
            NotebookAction::OpenEditor => assert(t[0].1.0 == a),
            NotebookAction::CommitAndAdvance => assert(t[1].1.0 == a),
            NotebookAction::ReorderUp => assert(t[2].1.0 == a),
            NotebookAction::ReorderDown => assert(t[3].1.0 == a),
            NotebookAction::NewProse => assert(t[4].1.0 == a),
            NotebookAction::NewName => assert(t[5].1.0 == a),
        }
    }
    assert forall|i: int, j: int| 0 <= i < t.len() && 0 <= j < t.len() && t[i].1.0 == t[j].1.0 implies i == j by {
        lemma_index_below_6(i);
        lemma_index_below_6(j);
    }
    assert forall|i: int| 0 <= i < t.len() implies first_action(t, #[trigger] t[i].0.1) == Some(t[i].1.0) by {
        lemma_unique_chords_resolve_to_their_rows(t, i);
    }
}

/// Law: every deferred action's reason cites `ask #1`.
pub proof fn lemma_every_degrade_cites_ask_1()
    ensures
        forall|a: NotebookAction| #[trigger] availability_of(a) is Some ==> contains_text(availability_of(a)->0, "ask #1"@),
{
    reveal_strlit("ask #1");
    reveal_strlit("reorder not available — block ordering persistence deferred (ask #1)");
    assert(REORDER_DEFERRED_REASON@.subrange(61, 61 + "ask #1"@.len() as int) =~= "ask #1"@);
    reveal_strlit("new prose block deferred (ask #1)");
    assert(NEW_PROSE_DEFERRED_REASON@.subrange(26, 26 + "ask #1"@.len() as int) =~= "ask #1"@);
}

} // verus!
