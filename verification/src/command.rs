//! The command line: which subcommand a word names, and which files a run reads and
//! writes.

use vstd::prelude::*;
use vstd::string::*;
use crate::text::str_eq;

verus! {

/// What the first word of the command line asks for.
#[derive(Clone, Copy, Debug, PartialEq, Eq, Structural)]
pub enum Subcommand {
    Help,
    Generate,
    /// Any other word: nothing is done.
    Nothing,
}

/// The two files of a run, or the lack of one of them.
#[derive(Clone, Debug, PartialEq, Eq)]
pub enum Paths {
    /// No path was given: the two default files.
    Defaults { source: String, target: String },
    /// Both paths were given.
    Given { source: String, target: String },
    /// Only one path was given: nothing is generated.
    Incomplete,
}

/// `Paths` with its paths as sequences of characters.
pub enum PathsView {
    Defaults { source: Seq<char>, target: Seq<char> },
    Given { source: Seq<char>, target: Seq<char> },
    Incomplete,
}

impl View for Paths {
    type V = PathsView;

    open spec fn view(&self) -> PathsView {
        match self {
            Paths::Defaults { source, target } => PathsView::Defaults {
                source: source@,
                target: target@,
            },
            Paths::Given { source, target } => PathsView::Given { source: source@, target: target@ },
            Paths::Incomplete => PathsView::Incomplete,
        }
    }
}

/// The subcommand that a word names.
pub open spec fn subcommand_of(word: Seq<char>) -> Subcommand {
    if word == "help"@ {
        Subcommand::Help
    } else if word == "generate"@ {
        Subcommand::Generate
    } else {
        Subcommand::Nothing
    }
}

/// The files of a run. An empty path counts as not given.
pub open spec fn paths_of(source: Seq<char>, target: Seq<char>) -> PathsView {
    if source.len() == 0 && target.len() == 0 {
        PathsView::Defaults { source: "data.kdl"@, target: "html_result.html"@ }
    } else if source.len() == 0 || target.len() == 0 {
        PathsView::Incomplete
    } else {
        PathsView::Given { source, target }
    }
}

/// Reads the subcommand.
pub fn parse_subcommand(word: &str) -> (subcommand: Subcommand)
    ensures
        subcommand == subcommand_of(word@),
{
    if str_eq(word, "help") {
        Subcommand::Help
    } else if str_eq(word, "generate") {
        Subcommand::Generate
    } else {
        Subcommand::Nothing
    }
}

/// Chooses the files of a run from the two paths of the command line.
pub fn select_paths(source: &str, target: &str) -> (paths: Paths)
    ensures
        paths@ == paths_of(source@, target@),
{
    if source.is_empty() && target.is_empty() {
        Paths::Defaults {
            source: String::from_str("data.kdl"),
            target: String::from_str("html_result.html"),
        }
    } else if source.is_empty() || target.is_empty() {
        Paths::Incomplete
    } else {
        Paths::Given { source: String::from_str(source), target: String::from_str(target) }
    }
}

} // verus!
