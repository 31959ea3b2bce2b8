//! Verified core of the DNA Calc skin layer: Strand design tokens, the Sheet
//! and Notebook stages' pure grammars and derivations.
use vstd::prelude::*;

pub mod atlas;
pub mod audit_log;
pub mod block_geometry;
pub mod cell_edit;
pub mod cell_entry;
pub mod contrast;
pub mod css;
pub mod identity;
pub mod name_form;
pub mod intent;
pub mod key_chord;
pub mod notebook_blocks;
pub mod notebook_keyboard;
pub mod notebook_model;
pub mod palette;
pub mod projection;
pub mod sheet_canvas;
pub mod sheet_keys;
pub mod sheet_render_plan;
pub mod sheet_selection;
pub mod sheet_session;
pub mod sheet_stage;
pub mod sheet_viewport;
pub mod text;
pub mod theme;
pub mod workspace;

verus! {

} // verus!
