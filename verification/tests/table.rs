use palette_table::document::{Document, Entry, Node, Value};
use palette_table::error::ShapeError;
use palette_table::generate::{generate_html_table, Error};
use palette_table::palette::{decode_swatches, extract_palette};
use palette_table::render::{render_swatch, render_swatches, render_table};
use palette_table::swatch::decode_swatch;

fn header() -> &'static str {
    "<table>\n    <tr><th>Midnight</th><th>Sunlight</th></tr>"
}

fn two_swatches() -> &'static str {
    r##"palette {
    swatch {
        midnight "Night Sky" value="#1a2b3c"
        sunlight "Day Sky" value="#ffffff"
        type "background"
        info ui="Main window" code="Editor pane"
    }
    swatch {
        midnight "Ember" value="ff0000"
        sunlight "Coal" value=42
        type "accent"
        info ui="Buttons" code="Keywords"
    }
}
"##
}

fn golden() -> &'static str {
    r##"<table>
    <tr><th>Midnight</th><th>Sunlight</th></tr>
    <tr><td>
        <img src="https://fakeimg.pl/12x12/1A2B3C/1A2B3C/" width="12" height="12" />
        <strong>Night Sky</strong></br>
        <code>background</code></br>
        <code>#1A2B3C</code></br>
        <code>rgb(26, 43, 60)</code></br>
        <code>hsl(210, 40%, 17%)</code></br>
    </td><td>
        <img src="https://fakeimg.pl/12x12/FFFFFF/FFFFFF/" width="12" height="12" />
        <strong>Day Sky</strong></br>
        <code>background</code></br>
        <code>#FFFFFF</code></br>
        <code>rgb(255, 255, 255)</code></br>
        <code>hsl(0, 0%, 100%)</code></br>
    </td></tr>
    <tr><td colspan="2">
        <ul>
            <li><strong>UI:</strong> Main window</li>
            <li><strong>Code:</strong> Editor pane</li>
        </ul>
    </td></tr>
    <tr><td>
        <img src="https://fakeimg.pl/12x12/FF0000/FF0000/" width="12" height="12" />
        <strong>Ember</strong></br>
        <code>accent</code></br>
        <code>#FF0000</code></br>
        <code>rgb(255, 0, 0)</code></br>
        <code>hsl(0, 100%, 50%)</code></br>
    </td><td>
        <img src="https://fakeimg.pl/12x12/888888/888888/" width="12" height="12" />
        <strong>Coal</strong></br>
        <code>accent</code></br>
        <code>#888888</code></br>
        <code>rgb(136, 136, 136)</code></br>
        <code>hsl(0, 0%, 53%)</code></br>
    </td></tr>
    <tr><td colspan="2">
        <ul>
            <li><strong>UI:</strong> Buttons</li>
            <li><strong>Code:</strong> Keywords</li>
        </ul>
    </td></tr>
</table>"##
}

fn text(s: &str) -> Value {
    Value::String(String::from(s))
}

fn leaf(name: &str, entries: Vec<Entry>) -> Node {
    Node { name: String::from(name), entries, children: None }
}

fn swatch(name: &str, color: &str) -> Node {
    let theme = |theme: &str| {
        leaf(
            theme,
            vec![
                Entry { name: None, value: text(name) },
                Entry { name: Some(String::from("value")), value: text(color) },
            ],
        )
    };
    Node {
        name: String::from("swatch"),
        entries: vec![],
        children: Some(vec![
            theme("midnight"),
            theme("sunlight"),
            leaf("type", vec![Entry { name: None, value: text("kind") }]),
            leaf(
                "info",
                vec![
                    Entry { name: Some(String::from("ui")), value: text("u") },
                    Entry { name: Some(String::from("code")), value: text("c") },
                ],
            ),
        ]),
    }
}

fn palette(swatches: Option<Vec<Node>>) -> Document {
    Document {
        nodes: vec![
            leaf("title", vec![]),
            Node { name: String::from("palette"), entries: vec![], children: swatches },
        ],
    }
}

fn count(haystack: &str, needle: &str) -> usize {
    haystack.matches(needle).count()
}

#[test]
fn two_swatches_give_the_golden_table() {
    assert_eq!(generate_html_table(two_swatches()), Ok(String::from(golden())));
}

#[test]
fn an_empty_palette_gives_the_header_only() {
    let expected = format!("{}\n</table>", header());
    assert_eq!(generate_html_table("palette {\n}\n"), Ok(expected.clone()));
    assert_eq!(render_table(&palette(Some(vec![]))), Ok(expected.clone()));
    assert_eq!(render_swatches(&vec![]), expected);
    assert_eq!(count(&expected, "<tr"), 1);
}

#[test]
fn a_document_without_palette_is_an_error() {
    let missing = ShapeError::MissingNode { name: String::from("palette") };
    assert_eq!(generate_html_table("colors {\n}\n"), Err(Error::Shape(missing.clone())));
    assert_eq!(generate_html_table(""), Err(Error::Shape(missing.clone())));
    assert_eq!(
        generate_html_table("outer {\n  palette {\n  }\n}\n"),
        Err(Error::Shape(missing.clone()))
    );
    assert_eq!(render_table(&Document { nodes: vec![] }), Err(missing.clone()));
    assert!(missing.message().contains("palette"));
}

#[test]
fn a_palette_without_a_block_is_an_error() {
    assert_eq!(generate_html_table("palette\n"), Err(Error::Shape(ShapeError::MissingChildren)));
    assert_eq!(render_table(&palette(None)), Err(ShapeError::MissingChildren));
    assert_eq!(extract_palette(&palette(None)), Err(ShapeError::MissingChildren));
}

#[test]
fn the_first_palette_node_counts() {
    let mut doc = palette(Some(vec![swatch("a", "#000000")]));
    doc.nodes.push(Node { name: String::from("palette"), entries: vec![], children: None });
    assert_eq!(extract_palette(&doc), Ok(doc.nodes[1].children.as_ref().unwrap()));
}

#[test]
fn a_text_that_is_no_document_gives_a_syntax_error() {
    assert!(matches!(generate_html_table("palette {"), Err(Error::Syntax(_))));
    assert!(matches!(generate_html_table("(true)"), Err(Error::Syntax(_))));
    assert!(matches!(generate_html_table("palette {\n}\nnode (null)1\n"), Err(Error::Syntax(_))));
}

#[test]
fn a_broken_swatch_stops_the_run_with_its_place() {
    let text = r##"palette {
    swatch {
        midnight "a" value="#000000"
        sunlight "b" value="#ffffff"
        type "t"
        info ui="u" code="c"
    }
    swatch {
        midnight "a" value="#000000"
        sunlight "b" value="#ffffff"
        info ui="u" code="c"
    }
    swatch
}
"##;
    assert_eq!(
        generate_html_table(text),
        Err(Error::Shape(ShapeError::MissingChild { swatch: 1, child: String::from("type") }))
    );
    let mut nodes = vec![swatch("a", "#000000"), swatch("b", "#111111"), leaf("swatch", vec![])];
    let no_block = |swatch: usize| ShapeError::MissingSwatchChildren {
        swatch,
        child: String::from("midnight"),
    };
    assert_eq!(decode_swatches(&nodes), Err(no_block(2)));
    nodes.insert(0, leaf("swatch", vec![]));
    assert_eq!(decode_swatches(&nodes), Err(no_block(0)));
}

#[test]
fn every_child_of_the_palette_is_a_swatch() {
    let mut other = swatch("named otherwise", "#123456");
    other.name = String::from("entry");
    let doc = palette(Some(vec![swatch("a", "#000000"), other]));
    let html = render_table(&doc).unwrap();
    assert!(html.contains("<strong>named otherwise</strong>"));
}

#[test]
fn rows_follow_the_swatches_in_order() {
    let names = ["zero", "one", "two", "three", "four"];
    let doc = palette(Some(names.iter().map(|n| swatch(n, "#abcdef")).collect()));
    let html = render_table(&doc).unwrap();
    let nodes = extract_palette(&doc).unwrap();
    let mut expected = String::from(header());
    for (i, node) in nodes.iter().enumerate() {
        expected.push_str(&render_swatch(&decode_swatch(node, i).unwrap()));
    }
    expected.push_str("\n</table>");
    assert_eq!(html, expected);
    assert_eq!(count(&html, "\n    <tr><td>\n"), names.len());
    assert_eq!(count(&html, "<tr><td colspan=\"2\">"), names.len());
    assert_eq!(count(&html, "<tr><th>"), 1);
    assert_eq!(count(&html, "<tr"), 2 * names.len() + 1);
    let mut from = 0;
    for name in names {
        let at = html[from..].find(&format!("<strong>{}</strong>", name)).expect(name);
        from += at;
    }
    assert_eq!(decode_swatches(nodes).unwrap().len(), names.len());
}

#[test]
fn a_name_with_a_row_tag_adds_to_the_count() {
    let doc = palette(Some(vec![swatch("<tr><td>", "#000000")]));
    let html = render_table(&doc).unwrap();
    assert_eq!(count(&html, "<tr"), 5);
}

#[test]
fn a_name_that_ends_in_part_of_a_tag_adds_nothing() {
    let doc = palette(Some(vec![swatch("<t", "#000000"), swatch("<", "#ffffff")]));
    let html = render_table(&doc).unwrap();
    assert_eq!(count(&html, "<tr"), 5);
}

#[test]
fn texts_stand_in_the_markup_as_they_are() {
    let doc = palette(Some(vec![swatch("<b>bold</b> & </table>", "#000000")]));
    let html = render_table(&doc).unwrap();
    assert_eq!(count(&html, "<strong><b>bold</b> & </table></strong>"), 2);
}

#[test]
fn quotes_and_backslashes_inside_a_name_are_shown_as_they_are() {
    let text = "palette {\n    swatch {\n        midnight \"say \\\"hi\\\"\" value=\"#000000\"\n        sunlight \"C:\\\\dir\" value=\"#ffffff\"\n        type \"t\"\n        info ui=\"u\" code=\"c\"\n    }\n}\n";
    let html = generate_html_table(text).unwrap();
    assert!(html.contains("<strong>say \"hi\"</strong>"));
    assert!(html.contains("<strong>C:\\dir</strong>"));
}

#[test]
fn quotes_around_names_are_not_shown() {
    let html = generate_html_table(two_swatches()).unwrap();
    assert!(!html.contains("\"Night Sky\""));
    assert!(!html.contains("\"background\""));
    assert!(!html.contains("\"Main window\""));
}

#[test]
fn a_number_for_a_colour_is_shown_in_the_fallback() {
    let text = r##"palette {
    swatch {
        midnight "Night" value=123456
        sunlight "Day" value="#00ff00"
        type "t"
        info ui="u" code="c"
    }
}
"##;
    let html = generate_html_table(text).unwrap();
    assert_eq!(count(&html, "<code>#888888</code>"), 1);
    assert_eq!(count(&html, "fakeimg.pl/12x12/888888/888888/"), 1);
    assert_eq!(count(&html, "<code>#00FF00</code>"), 1);
}

#[test]
fn a_raw_text_is_a_text() {
    let text = "palette {\n    swatch {\n        midnight r\"Night\" value=r\"#0000ff\"\n        sunlight \"Day\" value=\"#00ff00\"\n        type \"t\"\n        info ui=\"u\" code=\"c\"\n    }\n}\n";
    let html = generate_html_table(text).unwrap();
    assert!(html.contains("<strong>Night</strong>"));
    assert!(html.contains("<code>#0000FF</code>"));
}
