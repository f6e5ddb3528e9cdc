//! What can be missing from a palette.

use vstd::prelude::*;
use vstd::string::*;
use crate::document::{KeyView, NodeKey};
use crate::text::{append_decimal, decimal};

verus! {

/// A node, a block or an entry that the palette should have and has not.
#[derive(Clone, Debug, PartialEq, Eq)]
pub enum ShapeError {
    /// The document has no top-level node of this name.
    MissingNode { name: String },
    /// The palette node has no block of children.
    MissingChildren,
    /// The swatch at this place, counted from 0, has no block of children in which
    /// the child of this name could be.
    MissingSwatchChildren { swatch: usize, child: String },
    /// The swatch at this place has no child of this name.
    MissingChild { swatch: usize, child: String },
    /// The child of this name, of the swatch at this place, has no entry for this key.
    MissingValue { swatch: usize, child: String, key: NodeKey },
}

/// A `ShapeError` with its names as sequences of characters.
pub enum ShapeErrorView {
    MissingNode { name: Seq<char> },
    MissingChildren,
    MissingSwatchChildren { swatch: usize, child: Seq<char> },
    MissingChild { swatch: usize, child: Seq<char> },
    MissingValue { swatch: usize, child: Seq<char>, key: KeyView },
}

impl View for ShapeError {
    type V = ShapeErrorView;

    open spec fn view(&self) -> ShapeErrorView {
        match self {
            ShapeError::MissingNode { name } => ShapeErrorView::MissingNode { name: name@ },
            ShapeError::MissingChildren => ShapeErrorView::MissingChildren,
            ShapeError::MissingSwatchChildren { swatch, child } => {
                ShapeErrorView::MissingSwatchChildren { swatch: *swatch, child: child@ }
            },
            ShapeError::MissingChild { swatch, child } => ShapeErrorView::MissingChild {
                swatch: *swatch,
                child: child@,
            },
            ShapeError::MissingValue { swatch, child, key } => ShapeErrorView::MissingValue {
                swatch: *swatch,
                child: child@,
                key: key@,
            },
        }
    }
}

/// How a key reads in a message: `argument 0`, or `property "ui"`.
pub open spec fn key_text(key: KeyView) -> Seq<char> {
    match key {
        KeyView::Index(i) => "argument "@ + decimal(i as nat),
        KeyView::Key(k) => "property \""@ + k + "\""@,
    }
}

/// The message of an error: what was looked for, and where.
pub open spec fn message_text(error: ShapeErrorView) -> Seq<char> {
    match error {
        ShapeErrorView::MissingNode { name } => "Error finding the node ("@ + name + ")"@,
        ShapeErrorView::MissingChildren => "Error finding the nodes (swatch)"@,
        ShapeErrorView::MissingSwatchChildren { swatch, child } => "Error finding the child ("@
            + child + ") of the swatch #"@ + decimal(swatch as nat)
            + ": the swatch has no children"@,
        ShapeErrorView::MissingChild { swatch, child } => "Error finding the child ("@ + child
            + ") of the swatch #"@ + decimal(swatch as nat),
        ShapeErrorView::MissingValue { swatch, child, key } => "Error finding the value "@
            + key_text(key) + " in the node ("@ + child + ") of the swatch #"@ + decimal(
            swatch as nat,
        ),
    }
}

impl ShapeError {
    /// The message of the error.
    pub fn message(&self) -> (text: String)
        ensures
            text@ == message_text(self@),
    {
        match self {
            ShapeError::MissingNode { name } => {
                let mut text = String::from_str("Error finding the node (");
                text.append(name.as_str());
                text.append(")");
                text
            },
            ShapeError::MissingChildren => String::from_str("Error finding the nodes (swatch)"),
            ShapeError::MissingSwatchChildren { swatch, child } => {
                let mut text = String::from_str("Error finding the child (");
                text.append(child.as_str());
                text.append(") of the swatch #");
                append_decimal(&mut text, *swatch as u64);
                text.append(": the swatch has no children");
                text
            },
            ShapeError::MissingChild { swatch, child } => {
                let mut text = String::from_str("Error finding the child (");
                text.append(child.as_str());
                text.append(") of the swatch #");
                append_decimal(&mut text, *swatch as u64);
                text
            },
            ShapeError::MissingValue { swatch, child, key } => {
                let mut text = String::from_str("Error finding the value ");
                match key {
                    NodeKey::Index(i) => {
                        text.append("argument ");
                        append_decimal(&mut text, *i as u64);
                    },
                    NodeKey::Key(k) => {
                        text.append("property \"");
                        text.append(k.as_str());
                        text.append("\"");
                    },
                }
                text.append(" in the node (");
                text.append(child.as_str());
                text.append(") of the swatch #");
                append_decimal(&mut text, *swatch as u64);
                text
            },
        }
    }
}

} // verus!
