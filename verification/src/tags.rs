//! Counting the row tags of a table: with texts that hold no `<tr` of their own, the
//! table holds one for the header row and two for each swatch.

use vstd::prelude::*;
use vstd::string::*;
use crate::color::{bare_hex, hex_text, hsl_text, rgb_text, ColorView, Hsl, Rgb};
use crate::document::NodeView;
use crate::error::ShapeErrorView;
use crate::laws::rows_follow_nodes;
use crate::palette::{decoded_rows, palette_of};
use crate::render::{
    after_code, after_codes, before_code, before_image_color, before_midnight, before_name,
    before_sunlight, before_type, before_ui, between_codes, between_image_colors, cell_html,
    rendered, rows_html, swatch_html, table_close, table_html, table_open,
};
use crate::swatch::{decoded, SwatchView};
use crate::text::decimal;

verus! {

/// Whether `<tr` stands in `s` at place `i`.
pub open spec fn row_tag_at(s: Seq<char>, i: int) -> bool {
    0 <= i && i + 3 <= s.len() && s[i] == '<' && s[i + 1] == 't' && s[i + 2] == 'r'
}

/// The number of places below `upto` at which `<tr` stands in `s`.
pub open spec fn row_tags_below(s: Seq<char>, upto: int) -> nat
    decreases upto,
{
    if upto <= 0 {
        0
    } else if row_tag_at(s, upto - 1) {
        row_tags_below(s, upto - 1) + 1
    } else {
        row_tags_below(s, upto - 1)
    }
}

/// The number of times that `<tr` stands in `s`.
pub open spec fn row_tags(s: Seq<char>) -> nat {
    row_tags_below(s, s.len() as int)
}

/// Whether the texts of a swatch hold no `<tr`.
pub open spec fn texts_hold_no_row_tag(row: SwatchView) -> bool {
    &&& row_tags(row.midnight_name) == 0
    &&& row_tags(row.sunlight_name) == 0
    &&& row_tags(row.type_label) == 0
    &&& row_tags(row.ui) == 0
    &&& row_tags(row.code) == 0
}

/// Whether the code of a colour is that of its channels.
pub open spec fn code_is_of_channels(color: ColorView) -> bool {
    color.hex == hex_text(color.rgb)
}

/// Whether `s` ends with a character that begins no `<tr`.
spec fn ends_plain(s: Seq<char>) -> bool {
    s.len() > 0 && s.last() != '<' && s.last() != 't'
}

/// Whether `s` begins with a character that ends no `<tr`.
spec fn starts_plain(s: Seq<char>) -> bool {
    s.len() > 0 && s[0] != 't' && s[0] != 'r'
}

/// Whether no `<tr` begins in `x` and ends in `y` where `y` follows `x`.
spec fn no_straddle(x: Seq<char>, y: Seq<char>) -> bool {
    !row_tag_at(x + y, x.len() - 1) && !row_tag_at(x + y, x.len() - 2)
}

/// Whether `s` holds no `<`.
spec fn holds_no_bracket(s: Seq<char>) -> bool {
    forall|i: int| 0 <= i < s.len() ==> #[trigger] s[i] != '<'
}

proof fn tags_of_left(x: Seq<char>, y: Seq<char>, n: int)
    requires
        no_straddle(x, y),
        0 <= n <= x.len(),
    ensures
        row_tags_below(x + y, n) == row_tags_below(x, n),
    decreases n,
{
    if n > 0 {
        tags_of_left(x, y, n - 1);
        if n - 1 + 3 <= x.len() {
            assert((x + y)[n - 1] == x[n - 1]);
            assert((x + y)[n] == x[n]);
            assert((x + y)[n + 1] == x[n + 1]);
        }
    }
}

proof fn tags_of_right(x: Seq<char>, y: Seq<char>, m: int)
    requires
        0 <= m <= y.len(),
    ensures
        row_tags_below(x + y, x.len() + m) == row_tags_below(x + y, x.len() as int)
            + row_tags_below(y, m),
    decreases m,
{
    if m > 0 {
        tags_of_right(x, y, m - 1);
        if m - 1 + 3 <= y.len() {
            assert((x + y)[x.len() + m - 1] == y[m - 1]);
            assert((x + y)[x.len() + m] == y[m]);
            assert((x + y)[x.len() + m + 1] == y[m + 1]);
        }
    }
}

/// Where no `<tr` lies across the joint, the tags of two texts add up.
proof fn tags_of_joined(x: Seq<char>, y: Seq<char>)
    requires
        no_straddle(x, y),
    ensures
        row_tags(x + y) == row_tags(x) + row_tags(y),
{
    tags_of_left(x, y, x.len() as int);
    tags_of_right(x, y, y.len() as int);
}

proof fn plain_end_joins(x: Seq<char>, y: Seq<char>)
    requires
        ends_plain(x),
    ensures
        no_straddle(x, y),
{
    if x.len() >= 2 {
        assert((x + y)[x.len() - 1] == x.last());
    }
    assert((x + y)[x.len() - 1] == x.last());
}

proof fn plain_start_joins(x: Seq<char>, y: Seq<char>)
    requires
        starts_plain(y),
    ensures
        no_straddle(x, y),
{
    assert((x + y)[x.len() as int] == y[0]);
}

/// A literal piece after a piece without tags: the tags add up, and the end is plain.
proof fn tags_of_step(acc: Seq<char>, v: Seq<char>, piece: Seq<char>)
    requires
        ends_plain(acc),
        row_tags(v) == 0,
        starts_plain(piece),
        ends_plain(piece),
    ensures
        row_tags(acc + v + piece) == row_tags(acc) + row_tags(piece),
        ends_plain(acc + v + piece),
        (acc + v + piece)[0] == acc[0],
{
    plain_end_joins(acc, v);
    tags_of_joined(acc, v);
    plain_start_joins(acc + v, piece);
    tags_of_joined(acc + v, piece);
    assert((acc + v + piece).last() == piece.last());
}

proof fn no_bracket_no_tag(s: Seq<char>, upto: int)
    requires
        holds_no_bracket(s),
        upto <= s.len(),
    ensures
        row_tags_below(s, upto) == 0,
    decreases upto,
{
    if upto > 0 {
        no_bracket_no_tag(s, upto - 1);
    }
}

proof fn decimal_holds_no_bracket(n: nat)
    ensures
        holds_no_bracket(decimal(n)),
    decreases n,
{
    if n >= 10 {
        decimal_holds_no_bracket(n / 10);
    }
}

proof fn rgb_text_has_no_tag(rgb: Rgb)
    ensures
        row_tags(rgb_text(rgb)) == 0,
{
    reveal_strlit("rgb(");
    reveal_strlit(", ");
    reveal_strlit(")");
    decimal_holds_no_bracket(rgb.r as nat);
    decimal_holds_no_bracket(rgb.g as nat);
    decimal_holds_no_bracket(rgb.b as nat);
    assert(holds_no_bracket(rgb_text(rgb)));
    no_bracket_no_tag(rgb_text(rgb), rgb_text(rgb).len() as int);
}

proof fn hsl_text_has_no_tag(hsl: Hsl)
    ensures
        row_tags(hsl_text(hsl)) == 0,
{
    reveal_strlit("hsl(");
    reveal_strlit(", ");
    reveal_strlit("%, ");
    reveal_strlit("%)");
    decimal_holds_no_bracket(hsl.h as nat);
    decimal_holds_no_bracket(hsl.s as nat);
    decimal_holds_no_bracket(hsl.l as nat);
    assert(holds_no_bracket(hsl_text(hsl)));
    no_bracket_no_tag(hsl_text(hsl), hsl_text(hsl).len() as int);
}

proof fn code_has_no_tag(rgb: Rgb)
    ensures
        row_tags(hex_text(rgb)) == 0,
        row_tags(bare_hex(hex_text(rgb))) == 0,
{
    let code = hex_text(rgb);
    assert(holds_no_bracket(code));
    assert(holds_no_bracket(bare_hex(code)));
    no_bracket_no_tag(code, code.len() as int);
    no_bracket_no_tag(bare_hex(code), bare_hex(code).len() as int);
}

proof fn cell_pieces()
    ensures
        ends_plain(before_image_color()) && before_image_color()[0] == '\n' && row_tags(
            before_image_color(),
        ) == 0,
        starts_plain(between_image_colors()) && ends_plain(between_image_colors()) && row_tags(
            between_image_colors(),
        ) == 0,
        starts_plain(before_name()) && ends_plain(before_name()) && row_tags(before_name()) == 0,
        starts_plain(before_type()) && ends_plain(before_type()) && row_tags(before_type()) == 0,
        starts_plain(between_codes()) && ends_plain(between_codes()) && row_tags(between_codes())
            == 0,
        starts_plain(after_codes()) && ends_plain(after_codes()) && row_tags(after_codes()) == 0,
{
    reveal_strlit("\n        <img src=\"https://fakeimg.pl/12x12/");
    reveal_strlit("/");
    reveal_strlit("/\" width=\"12\" height=\"12\" />\n        <strong>");
    reveal_strlit("</strong></br>\n        <code>");
    reveal_strlit("</code></br>\n        <code>");
    reveal_strlit("</code></br>\n    ");
    reveal_with_fuel(row_tags_below, 60);
}

proof fn row_pieces()
    ensures
        ends_plain(before_midnight()) && before_midnight()[0] == '\n' && row_tags(
            before_midnight(),
        ) == 1,
        starts_plain(before_sunlight()) && ends_plain(before_sunlight()) && row_tags(
            before_sunlight(),
        ) == 0,
        starts_plain(before_ui()) && ends_plain(before_ui()) && row_tags(before_ui()) == 1,
        starts_plain(before_code()) && ends_plain(before_code()) && row_tags(before_code()) == 0,
        starts_plain(after_code()) && ends_plain(after_code()) && row_tags(after_code()) == 0,
{
    reveal_strlit("\n    <tr><td>");
    reveal_strlit("</td><td>");
    reveal_strlit(
        "</td></tr>\n    <tr><td colspan=\"2\">\n        <ul>\n            <li><strong>UI:</strong> ",
    );
    reveal_strlit("</li>\n            <li><strong>Code:</strong> ");
    reveal_strlit("</li>\n        </ul>\n    </td></tr>");
    reveal_with_fuel(row_tags_below, 100);
}

proof fn table_pieces()
    ensures
        ends_plain(table_open()) && row_tags(table_open()) == 1,
        starts_plain(table_close()) && row_tags(table_close()) == 0,
{
    reveal_strlit("<table>\n    <tr><th>Midnight</th><th>Sunlight</th></tr>");
    reveal_strlit("\n</table>");
    reveal_with_fuel(row_tags_below, 60);
}

/// A cell whose name and type label hold no `<tr` holds none.
proof fn cell_has_no_tag(name: Seq<char>, type_label: Seq<char>, color: ColorView)
    requires
        row_tags(name) == 0,
        row_tags(type_label) == 0,
        code_is_of_channels(color),
    ensures
        row_tags(cell_html(name, type_label, color)) == 0,
        ends_plain(cell_html(name, type_label, color)),
        starts_plain(cell_html(name, type_label, color)),
{
    cell_pieces();
    code_has_no_tag(color.rgb);
    rgb_text_has_no_tag(color.rgb);
    hsl_text_has_no_tag(color.hsl);
    let bare = bare_hex(color.hex);
    let a1 = before_image_color() + bare + between_image_colors();
    tags_of_step(before_image_color(), bare, between_image_colors());
    let a2 = a1 + bare + before_name();
    tags_of_step(a1, bare, before_name());
    let a3 = a2 + name + before_type();
    tags_of_step(a2, name, before_type());
    let a4 = a3 + type_label + between_codes();
    tags_of_step(a3, type_label, between_codes());
    let a5 = a4 + color.hex + between_codes();
    tags_of_step(a4, color.hex, between_codes());
    let a6 = a5 + rgb_text(color.rgb) + between_codes();
    tags_of_step(a5, rgb_text(color.rgb), between_codes());
    let a7 = a6 + hsl_text(color.hsl) + after_codes();
    tags_of_step(a6, hsl_text(color.hsl), after_codes());
    assert(a7 == cell_html(name, type_label, color));
}

/// Whether a swatch can be counted: its texts hold no `<tr`, and the codes of its two
/// colours are those of their channels.
pub open spec fn is_countable(row: SwatchView) -> bool {
    texts_hold_no_row_tag(row) && code_is_of_channels(row.midnight) && code_is_of_channels(
        row.sunlight,
    )
}

/// The rows of such a swatch hold two `<tr`: one of the row of cells, one of the row of
/// notes.
pub proof fn swatch_has_two_row_tags(row: SwatchView)
    requires
        is_countable(row),
    ensures
        row_tags(swatch_html(row)) == 2,
{
    swatch_counts(row);
}

proof fn swatch_counts(row: SwatchView)
    requires
        is_countable(row),
    ensures
        row_tags(swatch_html(row)) == 2,
        ends_plain(swatch_html(row)),
        starts_plain(swatch_html(row)),
{
    row_pieces();
    let midnight = cell_html(row.midnight_name, row.type_label, row.midnight);
    let sunlight = cell_html(row.sunlight_name, row.type_label, row.sunlight);
    cell_has_no_tag(row.midnight_name, row.type_label, row.midnight);
    cell_has_no_tag(row.sunlight_name, row.type_label, row.sunlight);
    let a1 = before_midnight() + midnight + before_sunlight();
    tags_of_step(before_midnight(), midnight, before_sunlight());
    let a2 = a1 + sunlight + before_ui();
    tags_of_step(a1, sunlight, before_ui());
    let a3 = a2 + row.ui + before_code();
    tags_of_step(a2, row.ui, before_code());
    let a4 = a3 + row.code + after_code();
    tags_of_step(a3, row.code, after_code());
    assert(a4 == swatch_html(row));
}

proof fn open_table_counts(rows: Seq<SwatchView>)
    requires
        forall|i: int| 0 <= i < rows.len() ==> is_countable(#[trigger] rows[i]),
    ensures
        row_tags(table_open() + rows_html(rows)) == 1 + 2 * rows.len(),
        ends_plain(table_open() + rows_html(rows)),
    decreases rows.len(),
{
    table_pieces();
    if rows.len() == 0 {
        assert(table_open() + rows_html(rows) =~= table_open());
    } else {
        let before = rows.drop_last();
        let last = swatch_html(rows.last());
        open_table_counts(before);
        swatch_counts(rows.last());
        let x = table_open() + rows_html(before);
        plain_end_joins(x, last);
        tags_of_joined(x, last);
        assert(table_open() + rows_html(rows) =~= x + last);
        assert((x + last).last() == last.last());
    }
}

/// A table of swatches whose texts hold no `<tr` holds one `<tr` for the header row and
/// two for each swatch.
pub proof fn table_has_two_row_tags_per_swatch(rows: Seq<SwatchView>)
    requires
        forall|i: int| 0 <= i < rows.len() ==> is_countable(#[trigger] rows[i]),
    ensures
        row_tags(table_html(rows)) == 2 * rows.len() + 1,
{
    table_pieces();
    open_table_counts(rows);
    let x = table_open() + rows_html(rows);
    plain_end_joins(x, table_close());
    tags_of_joined(x, table_close());
}

/// The table of a document whose names, type labels and notes hold no `<tr` holds
/// `2n + 1` of them for a palette of `n` swatches.
pub proof fn rendered_table_counts_rows(doc: Seq<NodeView>, nodes: Seq<NodeView>, html: Seq<char>)
    requires
        palette_of(doc) == Ok::<Seq<NodeView>, ShapeErrorView>(nodes),
        rendered(doc) == Ok::<Seq<char>, ShapeErrorView>(html),
        forall|i: int|
            0 <= i < nodes.len() ==> (decoded(#[trigger] nodes[i], i as usize) matches Ok(row)
                ==> texts_hold_no_row_tag(row)),
    ensures
        row_tags(html) == 2 * nodes.len() + 1,
{
    let rows = decoded_rows(nodes, nodes.len() as int)->Ok_0;
    rows_follow_nodes(nodes, nodes.len() as int, rows);
    assert forall|i: int| 0 <= i < rows.len() implies is_countable(#[trigger] rows[i]) by {
        assert(decoded(nodes[i], i as usize) == Ok::<SwatchView, ShapeErrorView>(rows[i]));
    }
    table_has_two_row_tags_per_swatch(rows);
}

} // verus!
