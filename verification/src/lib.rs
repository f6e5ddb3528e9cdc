//! Renders a colour palette, written as a tree of named nodes, into an HTML table.
//!
//! A palette is a document with a top-level node `palette` whose children are the
//! swatches. Each swatch names a colour for the dark theme (`midnight`) and one for the
//! light theme (`sunlight`), a type label and two notes. The table shows every colour
//! as a hex code, as `rgb(..)` and as `hsl(..)`.

pub mod color;
pub mod command;
pub mod document;
pub mod error;
pub mod generate;
pub mod guard;
pub mod laws;
pub mod palette;
pub mod render;
pub mod source;
pub mod swatch;
pub mod tags;
pub mod text;
