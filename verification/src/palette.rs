//! The palette of a document: where its swatches are, and what they say.

use vstd::prelude::*;
use vstd::string::*;
use crate::document::{first_named, nodes_view, nodes_view_at, Document, Node, NodeView};
use crate::error::{ShapeError, ShapeErrorView};
use crate::swatch::{decode_swatch, decoded, Swatch, SwatchView};

verus! {

/// The swatch nodes of a document: the children of its first top-level node named
/// `palette`, in order. A palette with an empty block has no swatches; one without
/// a block is an error.
pub open spec fn palette_of(doc: Seq<NodeView>) -> Result<Seq<NodeView>, ShapeErrorView> {
    match first_named(doc, "palette"@, 0) {
        None => Err(ShapeErrorView::MissingNode { name: "palette"@ }),
        Some(k) => match doc[k].children {
            None => Err(ShapeErrorView::MissingChildren),
            Some(children) => Ok(children),
        },
    }
}

/// The views of a sequence of swatches.
pub open spec fn swatch_views(swatches: Seq<Swatch>) -> Seq<SwatchView> {
    swatches.map_values(|s: Swatch| s@)
}

/// What the first `upto` swatch nodes say, or what the first of them that lacks
/// something lacks. A node's place in `nodes` is the swatch's place in the errors.
pub open spec fn decoded_rows(nodes: Seq<NodeView>, upto: int) -> Result<
    Seq<SwatchView>,
    ShapeErrorView,
>
    decreases upto,
{
    if upto <= 0 || upto > nodes.len() {
        Ok(Seq::empty())
    } else {
        match decoded_rows(nodes, upto - 1) {
            Err(e) => Err(e),
            Ok(rows) => match decoded(nodes[upto - 1], (upto - 1) as usize) {
                Err(e) => Err(e),
                Ok(row) => Ok(rows.push(row)),
            },
        }
    }
}

/// An error among the first swatches is the error of the whole palette.
pub proof fn first_error_stays(nodes: Seq<NodeView>, upto: int, later: int)
    requires
        0 <= upto <= later <= nodes.len(),
        decoded_rows(nodes, upto) is Err,
    ensures
        decoded_rows(nodes, later) == decoded_rows(nodes, upto),
    decreases later - upto,
{
    if upto < later {
        first_error_stays(nodes, upto, later - 1);
    }
}

/// Whether a list of nodes or an error is the one that `model` names.
pub open spec fn nodes_are(
    got: Result<&Vec<Node>, ShapeError>,
    model: Result<Seq<NodeView>, ShapeErrorView>,
) -> bool {
    match got {
        Ok(nodes) => model == Ok::<Seq<NodeView>, ShapeErrorView>(nodes_view(nodes@)),
        Err(e) => model == Err::<Seq<NodeView>, ShapeErrorView>(e@),
    }
}

/// Whether a list of swatches or an error is the one that `model` names.
pub open spec fn swatches_are(
    got: Result<Vec<Swatch>, ShapeError>,
    model: Result<Seq<SwatchView>, ShapeErrorView>,
) -> bool {
    match got {
        Ok(swatches) => model == Ok::<Seq<SwatchView>, ShapeErrorView>(swatch_views(swatches@)),
        Err(e) => model == Err::<Seq<SwatchView>, ShapeErrorView>(e@),
    }
}

/// Finds the swatch nodes of a document.
pub fn extract_palette(doc: &Document) -> (found: Result<&Vec<Node>, ShapeError>)
    ensures
        nodes_are(found, palette_of(doc@)),
{
    match doc.get("palette") {
        None => Err(ShapeError::MissingNode { name: String::from_str("palette") }),
        Some(palette) => {
            match &palette.children {
                None => Err(ShapeError::MissingChildren),
                Some(children) => Ok(children),
            }
        },
    }
}

/// Reads the swatch nodes in order and stops at the first that lacks something.
pub fn decode_swatches(nodes: &Vec<Node>) -> (outcome: Result<Vec<Swatch>, ShapeError>)
    ensures
        swatches_are(
            outcome,
            decoded_rows(nodes_view(nodes@), nodes_view(nodes@).len() as int),
        ),
{
    let mut swatches: Vec<Swatch> = Vec::new();
    let mut i: usize = 0;
    assert(swatch_views(swatches@) =~= Seq::empty());
    proof {
        nodes_view_at(nodes@);
    }
    while i < nodes.len()
        invariant
            i <= nodes.len(),
            nodes_view(nodes@).len() == nodes@.len(),
            forall|k: int| 0 <= k < nodes@.len() ==> #[trigger] nodes_view(nodes@)[k] == nodes@[k]@,
            decoded_rows(nodes_view(nodes@), i as int) == Ok::<Seq<SwatchView>, ShapeErrorView>(
                swatch_views(swatches@),
            ),
        decreases nodes.len() - i,
    {
        match decode_swatch(&nodes[i], i) {
            Ok(swatch) => {
                assert(swatch_views(swatches@.push(swatch)) =~= swatch_views(swatches@).push(
                    swatch@,
                ));
                swatches.push(swatch);
            },
            Err(e) => {
                proof {
                    first_error_stays(nodes_view(nodes@), i + 1, nodes@.len() as int);
                }
                return Err(e);
            },
        }
        i += 1;
    }
    Ok(swatches)
}

} // verus!
