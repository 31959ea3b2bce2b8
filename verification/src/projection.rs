//! The workspace projection as the stages read it: plain-value mirrors of
//! the host's published cells, values, names and receipts. The stages derive
//! their display lists and outcomes from these values only.
use vstd::prelude::*;

use crate::text::{decimal_text, push_decimal, push_str};

verus! {

/// A stable node identity (a grid's id, for example `"Sheet1"`).
#[derive(Debug, Clone, PartialEq, Eq, Hash)]
pub struct NodeId {
    pub id: String,
}

impl NodeId {
    /// A node id from its text.
    pub fn new(id: &str) -> (n: Self)
        ensures
            n.id@ == id@,
    {
        NodeId { id: String::from_str(id) }
    }

    /// A copy of the id.
    pub fn copy(&self) -> (r: Self)
        ensures
            r == *self,
    {
        NodeId { id: self.id.clone() }
    }

    /// The id's text.
    pub fn as_str(&self) -> (s: &str)
        ensures
            s@ == self.id@,
    {
        self.id.as_str()
    }
}

/// A projected cell or node value.
#[derive(Debug, PartialEq)]
pub enum NodeValueProjection {
    /// Not evaluated yet.
    Unevaluated,
    /// A calculation is in flight.
    Pending,
    /// A legacy scalar, as text.
    Scalar(String),
    /// A number: the engine's raw text and its display text.
    Number { raw: String, display: String },
    /// Text.
    Text(String),
    /// A logical value and its display text.
    Logical { value: bool, display: String },
    /// An error, with its diagnostic message.
    Error(String),
    /// An empty value.
    Empty,
    /// A missing value.
    Missing,
    /// A reference, with the engine's target text.
    Reference { target: String },
    /// An array: its shape and its cells, row by row. Displays summarize
    /// it by shape only, never by its cells.
    Array { rows: usize, cols: usize, cells: Vec<Vec<NodeValueProjection>> },
}

/// `b` is a faithful copy of `a`: equal outright for every scalar variant,
/// and for an array the same shape and, cell by cell, a copy again.
pub open spec fn value_copy(a: NodeValueProjection, b: NodeValueProjection) -> bool
    decreases a,
{
    match a {
        NodeValueProjection::Array { rows, cols, cells } => match b {
            NodeValueProjection::Array { rows: rows2, cols: cols2, cells: cells2 } => {
                &&& rows2 == rows
                &&& cols2 == cols
                &&& cells2@.len() == cells@.len()
                &&& forall|i: int|
                    0 <= i < cells@.len() ==> #[trigger] cells2@[i]@.len() == cells@[i]@.len()
                &&& forall|i: int, j: int|
                    0 <= i < cells@.len() && 0 <= j < cells@[i]@.len() ==> value_copy(
                        #[trigger] cells@[i]@[j],
                        cells2@[i]@[j],
                    )
            },
            _ => false,
        },
        _ => b == a,
    }
}

impl NodeValueProjection {
    /// A deep copy of the value.
    #[verifier::loop_isolation(false)]
    pub fn copy(&self) -> (r: Self)
        ensures
            value_copy(*self, r),
        decreases self,
    {
        match self {
            NodeValueProjection::Unevaluated => NodeValueProjection::Unevaluated,
            NodeValueProjection::Pending => NodeValueProjection::Pending,
            NodeValueProjection::Scalar(t) => NodeValueProjection::Scalar(t.clone()),
            NodeValueProjection::Number { raw, display } => NodeValueProjection::Number {
                raw: raw.clone(),
                display: display.clone(),
            },
            NodeValueProjection::Text(t) => NodeValueProjection::Text(t.clone()),
            NodeValueProjection::Logical { value, display } => NodeValueProjection::Logical {
                value: *value,
                display: display.clone(),
            },
            NodeValueProjection::Error(m) => NodeValueProjection::Error(m.clone()),
            NodeValueProjection::Empty => NodeValueProjection::Empty,
            NodeValueProjection::Missing => NodeValueProjection::Missing,
            NodeValueProjection::Reference { target } => NodeValueProjection::Reference {
                target: target.clone(),
            },
            NodeValueProjection::Array { rows, cols, cells } => {
                let mut out: Vec<Vec<NodeValueProjection>> = Vec::new();
                let mut i: usize = 0;
                while i < cells.len()
                    invariant
                        i <= cells@.len(),
                        out@.len() == i,
                        forall|k: int| 0 <= k < i ==> #[trigger] out@[k]@.len() == cells@[k]@.len(),
                        forall|k: int, j: int|
                            0 <= k < i && 0 <= j < cells@[k]@.len() ==> value_copy(
                                #[trigger] cells@[k]@[j],
                                out@[k]@[j],
                            ),
                    decreases cells@.len() - i,
                {
                    let row = &cells[i];
                    let mut new_row: Vec<NodeValueProjection> = Vec::new();
                    let mut j: usize = 0;
                    while j < row.len()
                        invariant
                            j <= row@.len(),
                            *row == cells@[i as int],
                            new_row@.len() == j,
                            forall|m: int| 0 <= m < j ==> value_copy(#[trigger] row@[m], new_row@[m]),
                        decreases row@.len() - j,
                    {
                        proof {
                            assert(decreases_to!(*self => *cells));
                            assert(decreases_to!(*cells => cells@));
                            assert(decreases_to!(cells@ => cells@[i as int]));
                            assert(decreases_to!(cells@[i as int] => cells@[i as int]@));
                            assert(decreases_to!(cells@[i as int]@ => row@[j as int]));
                        }
                        let c = row[j].copy();
                        new_row.push(c);
                        j += 1;
                    }
                    out.push(new_row);
                    i += 1;
                }
                NodeValueProjection::Array { rows: *rows, cols: *cols, cells: out }
            },
        }
    }
}

/// The bounded shape summary of an array (`3×2 array`).
pub open spec fn array_summary(rows: usize, cols: usize) -> Seq<char> {
    decimal_text(rows as nat) + seq!['\u{00d7}'] + decimal_text(cols as nat) + " array"@
}

/// The bounded shape summary for an array result.
pub fn array_shape_summary(rows: usize, cols: usize) -> (s: String)
    ensures
        s@ == array_summary(rows, cols),
{
    let mut s = String::new();
    push_decimal(&mut s, rows as u64);
    crate::text::push_char(&mut s, '\u{00d7}');
    push_decimal(&mut s, cols as u64);
    push_str(&mut s, " array");
    s
}

/// The honest display text of a value: the engine's own display for numbers
/// and logicals, text verbatim, the error's message, the reference target,
/// a parenthesized marker for absent or in-flight states, and a shape
/// summary (never the cells) for an array.
pub open spec fn value_display_text(v: NodeValueProjection) -> Seq<char> {
    match v {
        NodeValueProjection::Number { display, .. } => display@,
        NodeValueProjection::Logical { display, .. } => display@,
        NodeValueProjection::Text(text) => text@,
        NodeValueProjection::Scalar(text) => text@,
        NodeValueProjection::Error(message) => message@,
        NodeValueProjection::Reference { target } => target@,
        NodeValueProjection::Empty => "(empty)"@,
        NodeValueProjection::Missing => "(missing)"@,
        NodeValueProjection::Unevaluated => "(unevaluated)"@,
        NodeValueProjection::Pending => "(pending)"@,
        NodeValueProjection::Array { rows, cols, .. } => array_summary(rows, cols),
    }
}

/// The display text of a value (see [`value_display_text`]).
pub fn value_display(value: &NodeValueProjection) -> (s: String)
    ensures
        s@ == value_display_text(*value),
{
    match value {
        NodeValueProjection::Number { display, .. } => display.clone(),
        NodeValueProjection::Logical { display, .. } => display.clone(),
        NodeValueProjection::Text(text) => text.clone(),
        NodeValueProjection::Scalar(text) => text.clone(),
        NodeValueProjection::Error(message) => message.clone(),
        NodeValueProjection::Reference { target } => target.clone(),
        NodeValueProjection::Empty => String::from_str("(empty)"),
        NodeValueProjection::Missing => String::from_str("(missing)"),
        NodeValueProjection::Unevaluated => String::from_str("(unevaluated)"),
        NodeValueProjection::Pending => String::from_str("(pending)"),
        NodeValueProjection::Array { rows, cols, .. } => array_shape_summary(*rows, *cols),
    }
}

/// A window-clipped overlay rectangle: its 1-based cell span, and which
/// edges the window cut off (the overlay continues beyond them).
#[derive(Debug, Clone, Copy, PartialEq, Eq, Structural)]
pub struct GridOverlayRect {
    pub top_row: u32,
    pub left_col: u32,
    pub bottom_row: u32,
    pub right_col: u32,
    pub clipped_top: bool,
    pub clipped_left: bool,
    pub clipped_bottom: bool,
    pub clipped_right: bool,
}

} // verus!
