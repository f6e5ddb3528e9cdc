//! What holds of the library as a whole.

use vstd::prelude::*;
use vstd::string::*;
use crate::color::{
    code_rgb, color_of_text, color_of_value, fallback_triple, hex_code_of, hex_digit_value,
    hex_pair, hex_text, is_hex_code, is_hex_color, is_hex_digit, upper_case, upper_cased,
    upper_hex_digit, uses_fallback_color, ColorView, Hsl, Rgb,
};
use crate::document::{first_named, plain_text, KeyView, NodeView, ValueView};
use crate::error::{message_text, ShapeErrorView};
use crate::palette::{decoded_rows, palette_of};
use crate::render::{rendered, rows_html, swatch_html, table_close, table_html, table_open};
use crate::swatch::{decoded, swatch_child, swatch_child_value, theme_of, SwatchView};

verus! {

/// The upper-case digit of a hex digit's value is the digit in upper case.
proof fn digit_round_trip(c: char)
    requires
        is_hex_digit(c),
    ensures
        hex_digit_value(c) < 16,
        upper_hex_digit(hex_digit_value(c)) == upper_case(c),
{
}

/// The two digits of the byte that two hex digits write are these digits in upper case.
proof fn pair_round_trip(hi: char, lo: char)
    requires
        is_hex_digit(hi),
        is_hex_digit(lo),
    ensures
        upper_hex_digit(hex_pair(hi, lo) as nat / 16) == upper_case(hi),
        upper_hex_digit(hex_pair(hi, lo) as nat % 16) == upper_case(lo),
{
    digit_round_trip(hi);
    digit_round_trip(lo);
}

/// From hex to channels and back: the code of the channels that a colour code writes
/// is that code with its letters in upper case.
pub proof fn hex_round_trip(code: Seq<char>)
    requires
        is_hex_code(code),
    ensures
        hex_text(code_rgb(code)) == upper_cased(code),
{
    let digits = code.skip(1);
    assert forall|i: int| 1 <= i < 7 implies is_hex_digit(code[i]) by {
        assert(digits[i - 1] == code[i]);
    }
    pair_round_trip(code[1], code[2]);
    pair_round_trip(code[3], code[4]);
    pair_round_trip(code[5], code[6]);
    assert(hex_text(code_rgb(code)) =~= upper_cased(code));
}

/// The same for a colour as the palette may write it, with or without `#`: the code
/// shown for it is `#` and its six digits in upper case.
pub proof fn shown_code_is_upper_case(text: Seq<char>)
    requires
        is_hex_color(text),
    ensures
        color_of_text(text).hex == upper_cased(hex_code_of(text)),
        color_of_text(text).hex.len() == 7,
{
    let code = hex_code_of(text);
    if text.len() == 6 {
        assert(code.skip(1) =~= text);
    }
    hex_round_trip(code);
}

/// The fallback colour is the grey `#888888`.
pub proof fn fallback_is_grey()
    ensures
        fallback_triple().hex == "#888888"@,
        fallback_triple().rgb == (Rgb { r: 136, g: 136, b: 136 }),
{
    reveal_strlit("#888888");
    assert(fallback_triple().hex =~= "#888888"@);
}

/// Black is `hsl(0, 0%, 0%)`, white `hsl(0, 0%, 100%)` and the full red
/// `hsl(0, 100%, 50%)`, in every colour that the library reads.
pub proof fn black_white_and_red(color: ColorView)
    requires
        color.well_formed(),
    ensures
        color.rgb == (Rgb { r: 0, g: 0, b: 0 }) ==> color.hsl == (Hsl { h: 0, s: 0, l: 0 }),
        color.rgb == (Rgb { r: 255, g: 255, b: 255 }) ==> color.hsl == (Hsl { h: 0, s: 0, l: 100 }),
        color.rgb == (Rgb { r: 255, g: 0, b: 0 }) ==> color.hsl == (Hsl { h: 0, s: 100, l: 50 }),
{
}

/// A value that is no text, a number for one, is shown in the fallback colour.
pub proof fn other_values_use_fallback(value: ValueView)
    requires
        !(value is String),
    ensures
        uses_fallback_color(value),
        color_of_value(value) == fallback_triple(),
{
}

/// A theme whose colour value uses the fallback is no error: the swatch has the
/// theme's name and the grey `#888888`.
pub proof fn fallback_is_no_error(
    theme: Seq<char>,
    swatch: NodeView,
    i: usize,
    child: NodeView,
    name: ValueView,
    value: ValueView,
)
    requires
        swatch_child(theme, swatch, i) == Ok::<NodeView, ShapeErrorView>(child),
        swatch_child_value(child, KeyView::Index(0), i) == Ok::<ValueView, ShapeErrorView>(name),
        swatch_child_value(child, KeyView::Key("value"@), i) == Ok::<ValueView, ShapeErrorView>(
            value,
        ),
        uses_fallback_color(value),
    ensures
        theme_of(theme, swatch, i) == Ok::<(Seq<char>, ColorView), ShapeErrorView>(
            (plain_text(name), fallback_triple()),
        ),
        fallback_triple().hex == "#888888"@,
{
    fallback_is_grey();
}

/// The rows of a palette that lacks nothing: one for each swatch node, each what its
/// node says at its place.
pub proof fn rows_follow_nodes(nodes: Seq<NodeView>, upto: int, rows: Seq<SwatchView>)
    requires
        0 <= upto <= nodes.len(),
        decoded_rows(nodes, upto) == Ok::<Seq<SwatchView>, ShapeErrorView>(rows),
    ensures
        rows.len() == upto,
        forall|i: int|
            0 <= i < upto ==> decoded(#[trigger] nodes[i], i as usize) == Ok::<
                SwatchView,
                ShapeErrorView,
            >(rows[i]),
    decreases upto,
{
    if upto > 0 {
        let before = decoded_rows(nodes, upto - 1)->Ok_0;
        rows_follow_nodes(nodes, upto - 1, before);
    }
}

/// The fragments of the rows, one for each swatch.
pub open spec fn row_fragments(rows: Seq<SwatchView>) -> Seq<Seq<char>> {
    rows.map_values(|row: SwatchView| swatch_html(row))
}

/// The rows of a table are the fragments of its swatches, joined in order.
pub proof fn rows_are_joined_fragments(rows: Seq<SwatchView>)
    ensures
        rows_html(rows) == row_fragments(rows).flatten(),
    decreases rows.len(),
{
    row_fragments(rows).lemma_flatten_and_flatten_alt_are_equivalent();
    if rows.len() > 0 {
        rows_are_joined_fragments(rows.drop_last());
        row_fragments(rows.drop_last()).lemma_flatten_and_flatten_alt_are_equivalent();
        assert(row_fragments(rows).drop_last() =~= row_fragments(rows.drop_last()));
    }
}

/// A table has the header row, then one fragment for each swatch of the palette, in the
/// palette's order, then the end of the table.
pub proof fn table_follows_palette(doc: Seq<NodeView>, nodes: Seq<NodeView>, html: Seq<char>)
    requires
        palette_of(doc) == Ok::<Seq<NodeView>, ShapeErrorView>(nodes),
        rendered(doc) == Ok::<Seq<char>, ShapeErrorView>(html),
    ensures
        exists|rows: Seq<SwatchView>|
            {
                &&& rows.len() == nodes.len()
                &&& forall|i: int|
                    0 <= i < nodes.len() ==> decoded(#[trigger] nodes[i], i as usize) == Ok::<
                        SwatchView,
                        ShapeErrorView,
                    >(rows[i])
                &&& html == table_open() + #[trigger] row_fragments(rows).flatten()
                    + table_close()
                &&& row_fragments(rows).len() == nodes.len()
            },
{
    let rows = decoded_rows(nodes, nodes.len() as int)->Ok_0;
    rows_follow_nodes(nodes, nodes.len() as int, rows);
    rows_are_joined_fragments(rows);
}

/// A palette without swatches gives the header row and nothing else.
pub proof fn empty_palette_is_header_only(doc: Seq<NodeView>)
    requires
        palette_of(doc) == Ok::<Seq<NodeView>, ShapeErrorView>(Seq::empty()),
    ensures
        rendered(doc) == Ok::<Seq<char>, ShapeErrorView>(table_open() + table_close()),
{
    assert(table_html(Seq::empty()) =~= table_open() + table_close());
}

/// No node named `name` from `from` on means that `first_named` finds none.
proof fn none_named(nodes: Seq<NodeView>, name: Seq<char>, from: int)
    requires
        0 <= from,
        forall|i: int| from <= i < nodes.len() ==> (#[trigger] nodes[i]).name != name,
    ensures
        first_named(nodes, name, from) is None,
    decreases nodes.len() - from,
{
    if from < nodes.len() {
        none_named(nodes, name, from + 1);
    }
}

/// A document without a top-level node named `palette` gives no table but the error
/// that names `palette`.
pub proof fn missing_palette_is_an_error(doc: Seq<NodeView>)
    requires
        forall|i: int| 0 <= i < doc.len() ==> (#[trigger] doc[i]).name != "palette"@,
    ensures
        rendered(doc) == Err::<Seq<char>, ShapeErrorView>(
            ShapeErrorView::MissingNode { name: "palette"@ },
        ),
        message_text(ShapeErrorView::MissingNode { name: "palette"@ })
            == "Error finding the node ("@ + "palette"@ + ")"@,
{
    none_named(doc, "palette"@, 0);
}

/// The plain text of a text is the text itself: no quotes stand around it, and what
/// it holds is kept as it is.
pub proof fn plain_text_is_verbatim(s: Seq<char>)
    ensures
        plain_text(ValueView::String(s)) == s,
{
}

} // verus!
