//! From the text of a document to the text of its table.

use vstd::prelude::*;
use crate::error::{ShapeError, ShapeErrorView};
use crate::render::{render_table, rendered};
use crate::source::{document_of, parse_document, SyntaxError};

verus! {

/// Why no table was made.
#[derive(Clone, Debug, PartialEq, Eq)]
pub enum Error {
    /// The text is no document.
    Syntax(SyntaxError),
    /// The document is no palette.
    Shape(ShapeError),
}

/// Makes the table of the palette that `text` describes: the table of the document
/// that the parser reads from the text. A text that is no document gives
/// `Error::Syntax`, a document that is no palette `Error::Shape` with what it lacks.
pub fn generate_html_table(text: &str) -> (outcome: Result<String, Error>)
    ensures
        match outcome {
            Ok(html) => document_of(text@) matches Some(doc) && rendered(doc) == Ok::<
                Seq<char>,
                ShapeErrorView,
            >(html@),
            Err(Error::Shape(e)) => document_of(text@) matches Some(doc) && rendered(doc) == Err::<
                Seq<char>,
                ShapeErrorView,
            >(e@),
            Err(Error::Syntax(_)) => document_of(text@) is None,
        },
{
    match parse_document(text) {
        Err(e) => Err(Error::Syntax(e)),
        Ok(doc) => match render_table(&doc) {
            Ok(html) => Ok(html),
            Err(e) => Err(Error::Shape(e)),
        },
    }
}

} // verus!
