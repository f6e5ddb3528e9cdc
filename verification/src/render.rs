//! The HTML table: a header row, then for each swatch a row of two cells and a row of
//! notes.

use vstd::prelude::*;
use vstd::string::*;
use crate::color::{bare_hex, hsl_text, rgb_text, ColorTriple, ColorView};
use crate::document::{Document, NodeView};
use crate::error::{ShapeError, ShapeErrorView};
use crate::palette::{decode_swatches, decoded_rows, extract_palette, palette_of, swatch_views};
use crate::swatch::{Swatch, SwatchView};

verus! {

/// The markup of a cell before the colour of its square.
pub open spec fn before_image_color() -> Seq<char> {
    "\n        <img src=\"https://fakeimg.pl/12x12/"@
}

/// The markup between the two colours of a square.
pub open spec fn between_image_colors() -> Seq<char> {
    "/"@
}

/// The markup between the square and the name.
pub open spec fn before_name() -> Seq<char> {
    "/\" width=\"12\" height=\"12\" />\n        <strong>"@
}

/// The markup between the name and the type label.
pub open spec fn before_type() -> Seq<char> {
    "</strong></br>\n        <code>"@
}

/// The markup between two of the lines in `code`.
pub open spec fn between_codes() -> Seq<char> {
    "</code></br>\n        <code>"@
}

/// The markup that ends a cell.
pub open spec fn after_codes() -> Seq<char> {
    "</code></br>\n    "@
}

/// The markup that opens the rows of a swatch.
pub open spec fn before_midnight() -> Seq<char> {
    "\n    <tr><td>"@
}

/// The markup between the two cells.
pub open spec fn before_sunlight() -> Seq<char> {
    "</td><td>"@
}

/// The markup between the cells and the first note.
pub open spec fn before_ui() -> Seq<char> {
    "</td></tr>\n    <tr><td colspan=\"2\">\n        <ul>\n            <li><strong>UI:</strong> "@
}

/// The markup between the two notes.
pub open spec fn before_code() -> Seq<char> {
    "</li>\n            <li><strong>Code:</strong> "@
}

/// The markup that ends the rows of a swatch.
pub open spec fn after_code() -> Seq<char> {
    "</li>\n        </ul>\n    </td></tr>"@
}

/// The start of the table, with the header row.
pub open spec fn table_open() -> Seq<char> {
    "<table>\n    <tr><th>Midnight</th><th>Sunlight</th></tr>"@
}

/// The end of the table.
pub open spec fn table_close() -> Seq<char> {
    "\n</table>"@
}

/// The cell of one theme: a square in the colour, the name, the type label, and the
/// colour in its three notations.
pub open spec fn cell_html(name: Seq<char>, type_label: Seq<char>, color: ColorView) -> Seq<char> {
    before_image_color() + bare_hex(color.hex) + between_image_colors() + bare_hex(color.hex)
        + before_name() + name + before_type() + type_label + between_codes() + color.hex
        + between_codes() + rgb_text(color.rgb) + between_codes() + hsl_text(color.hsl)
        + after_codes()
}

/// The two rows of one swatch: the cells of the two themes, then the notes. The texts
/// stand in the markup as they are.
pub open spec fn swatch_html(swatch: SwatchView) -> Seq<char> {
    before_midnight() + cell_html(swatch.midnight_name, swatch.type_label, swatch.midnight)
        + before_sunlight() + cell_html(swatch.sunlight_name, swatch.type_label, swatch.sunlight)
        + before_ui() + swatch.ui + before_code() + swatch.code + after_code()
}

/// Appends the cell of one theme to `out`.
fn append_cell(out: &mut String, name: &str, type_label: &str, color: &ColorTriple)
    ensures
        final(out)@ == old(out)@ + cell_html(name@, type_label@, color@),
{
    let bare = color.bare_hex();
    let rgb = color.rgb.text();
    let hsl = color.hsl.text();
    out.append("\n        <img src=\"https://fakeimg.pl/12x12/");
    out.append(bare.as_str());
    out.append("/");
    out.append(bare.as_str());
    out.append("/\" width=\"12\" height=\"12\" />\n        <strong>");
    out.append(name);
    out.append("</strong></br>\n        <code>");
    out.append(type_label);
    out.append("</code></br>\n        <code>");
    out.append(color.hex.as_str());
    out.append("</code></br>\n        <code>");
    out.append(rgb.as_str());
    out.append("</code></br>\n        <code>");
    out.append(hsl.as_str());
    out.append("</code></br>\n    ");
    assert(out@ =~= old(out)@ + cell_html(name@, type_label@, color@));
}

/// Appends the two rows of one swatch to `out`.
pub fn append_swatch(out: &mut String, swatch: &Swatch)
    ensures
        final(out)@ == old(out)@ + swatch_html(swatch@),
{
    out.append("\n    <tr><td>");
    append_cell(out, swatch.midnight_name.as_str(), swatch.type_label.as_str(), &swatch.midnight);
    out.append("</td><td>");
    append_cell(out, swatch.sunlight_name.as_str(), swatch.type_label.as_str(), &swatch.sunlight);
    out.append(
        "</td></tr>\n    <tr><td colspan=\"2\">\n        <ul>\n            <li><strong>UI:</strong> ",
    );
    out.append(swatch.ui.as_str());
    out.append("</li>\n            <li><strong>Code:</strong> ");
    out.append(swatch.code.as_str());
    out.append("</li>\n        </ul>\n    </td></tr>");
    assert(out@ =~= old(out)@ + swatch_html(swatch@));
}

/// The two rows of one swatch.
pub fn render_swatch(swatch: &Swatch) -> (html: String)
    ensures
        html@ == swatch_html(swatch@),
{
    let mut html = String::new();
    append_swatch(&mut html, swatch);
    assert(html@ =~= swatch_html(swatch@));
    html
}

/// The rows of the swatches, one after the other.
pub open spec fn rows_html(rows: Seq<SwatchView>) -> Seq<char>
    decreases rows.len(),
{
    if rows.len() == 0 {
        Seq::empty()
    } else {
        rows_html(rows.drop_last()) + swatch_html(rows.last())
    }
}

/// The table: the header row, the rows of the swatches in order, and the end of the
/// table.
pub open spec fn table_html(rows: Seq<SwatchView>) -> Seq<char> {
    table_open() + rows_html(rows) + table_close()
}

/// The table of a document, or what its palette lacks.
pub open spec fn rendered(doc: Seq<NodeView>) -> Result<Seq<char>, ShapeErrorView> {
    match palette_of(doc) {
        Err(e) => Err(e),
        Ok(nodes) => match decoded_rows(nodes, nodes.len() as int) {
            Err(e) => Err(e),
            Ok(rows) => Ok(table_html(rows)),
        },
    }
}

/// Whether a text or an error is the one that `model` names.
pub open spec fn text_is(
    got: Result<String, ShapeError>,
    model: Result<Seq<char>, ShapeErrorView>,
) -> bool {
    match got {
        Ok(text) => model == Ok::<Seq<char>, ShapeErrorView>(text@),
        Err(e) => model == Err::<Seq<char>, ShapeErrorView>(e@),
    }
}

/// The table of a list of swatches.
pub fn render_swatches(swatches: &Vec<Swatch>) -> (html: String)
    ensures
        html@ == table_html(swatch_views(swatches@)),
{
    let ghost rows = swatch_views(swatches@);
    let mut html = String::from_str("<table>\n    <tr><th>Midnight</th><th>Sunlight</th></tr>");
    let mut i: usize = 0;
    assert(rows.take(0) =~= Seq::empty());
    while i < swatches.len()
        invariant
            i <= swatches.len(),
            rows == swatch_views(swatches@),
            html@ == table_open() + rows_html(rows.take(i as int)),
        decreases swatches.len() - i,
    {
        assert(rows.take(i + 1).drop_last() =~= rows.take(i as int));
        assert(rows.take(i + 1).last() == swatches@[i as int]@);
        append_swatch(&mut html, &swatches[i]);
        i += 1;
    }
    assert(rows.take(i as int) =~= rows);
    html.append("\n</table>");
    html
}

/// The table of a document. Nothing is rendered where the palette lacks something.
pub fn render_table(doc: &Document) -> (outcome: Result<String, ShapeError>)
    ensures
        text_is(outcome, rendered(doc@)),
{
    let nodes = match extract_palette(doc) {
        Ok(nodes) => nodes,
        Err(e) => return Err(e),
    };
    match decode_swatches(nodes) {
        Ok(swatches) => Ok(render_swatches(&swatches)),
        Err(e) => Err(e),
    }
}

} // verus!
