use kdl::KdlDocument;
use palette_table::document::{Entry, Node, Value};
use palette_table::error::ShapeError;
use palette_table::generate::{generate_html_table, Error};
use palette_table::guard::{identifier_char, newline, place_behind, readable, Lexing};
use palette_table::source::parse_document;

fn text_node(name: &str, argument: &str) -> Node {
    Node {
        name: String::from(name),
        entries: vec![Entry { name: None, value: Value::String(String::from(argument)) }],
        children: None,
    }
}

fn pieces() -> Vec<&'static str> {
    vec![
        "(true)", "(null)", "(false)", "(true", "(null", "\"", "\\", "r", "#", "//", "/*", "*/",
        "/-", "\n", " ", "node", "a", "=", "1", "\u{e9}", "\u{20ac}", "{", "}", "/", "*", "(", ")",
        ";", "\r", "x)", "r#\"", "\"#",
    ]
}

#[test]
fn a_reserved_word_in_a_quoted_text_is_read() {
    for text in ["a \"(null\"", "a \"(true)\"", "a \"\\\"(false\"", "a \"x\\\\\" \"(true\"", "\"(null\""] {
        assert!(readable(text), "{:?}", text);
        assert!(parse_document(text).is_ok(), "{:?}", text);
    }
    assert_eq!(parse_document("a \"(null\"").unwrap().nodes, vec![text_node("a", "(null")]);
    assert_eq!(
        generate_html_table("a \"(null\""),
        Err(Error::Shape(ShapeError::MissingNode { name: String::from("palette") }))
    );
}

#[test]
fn a_reserved_word_in_a_raw_text_is_read() {
    for text in [
        "a r\"(null\"", "a r#\"(true)\"#", "a r##\"x\"#(false\"##", "a r\"\\\" \"(fine)\"",
        "a r#\"\"(null\"#", "r\"(true\"",
    ] {
        assert!(readable(text), "{:?}", text);
        assert!(parse_document(text).is_ok(), "{:?}", text);
    }
    assert_eq!(parse_document("a r#\"\"(null\"#").unwrap().nodes, vec![text_node("a", "\"(null")]);
}

#[test]
fn a_reserved_word_in_a_comment_is_read() {
    let header = "<table>\n    <tr><th>Midnight</th><th>Sunlight</th></tr>\n</table>";
    for text in [
        "palette {}//(null", "palette {}\n//(true)", "palette {} /*(false*/", "/*(null)*/palette {}",
        "palette {} /* a /* (true */ (null */", "//(null\u{e9}\npalette {}", "palette {}//(true\r",
        "palette {\n}//(true\u{85}", "palette {} /*/(null*/", "palette {} /**(true**/",
    ] {
        assert!(readable(text), "{:?}", text);
        assert_eq!(generate_html_table(text), Ok(String::from(header)), "{:?}", text);
    }
}

#[test]
fn a_comment_before_a_palette_leaves_its_rows() {
    let text = "//(null\u{e9}\npalette {\n    swatch {\n        midnight \"Night\" value=\"#000000\"\n        sunlight \"Day\" value=\"#ffffff\"\n        type \"t\"\n        info ui=\"u\" code=\"c\"\n    }\n}\n";
    let html = generate_html_table(text).unwrap();
    assert_eq!(html.matches("<tr").count(), 3);
    assert!(html.contains("<strong>Night</strong>"));
    assert!(html.contains("<code>hsl(0, 0%, 100%)</code>"));
}

#[test]
fn a_longer_name_is_no_reserved_word() {
    for text in ["(truex)", "(nullable)a", "(true-)", "(false\u{e9})b", "(true#)", "a (null_)1"] {
        assert!(readable(text), "{:?}", text);
    }
    assert!(parse_document("(nullable)a").is_ok());
    assert!(parse_document("(false\u{e9})b 1").is_ok());
}

#[test]
fn a_reserved_word_as_annotation_stops_the_parser_near_the_end() {
    for text in [
        "(true)", "(null)", "(false)", "(true", "(false", "(null", "a (true)1", "a k=(null)1",
        "(true)\u{e9}\u{e9}", "(null)ab\u{20ac}", "(false)abc\u{e9}", "(null);\u{1f600}", "(true) 1",
        "a {\n(null)\n}", "a \"x\" (true)", "a r\"x\" (null)", "/*c*/(true)", "//c\n(null)",
        "a \"x\\\"\" (true)", "a //c\r(null)", "r(true)", "/(null)", "a r#\"x\"# (true)", "/-(null)",
        "a /* /* */ */ (true)", "a r#\"\"\"# (null)", "(null)\u{e9}\u{e9}", "(true)\u{1f600}",
        "a (false)\u{20ac}\u{e9}",
    ] {
        assert!(!readable(text), "{:?}", text);
        assert!(parse_document(text).is_err(), "{:?}", text);
        assert!(matches!(generate_html_table(text), Err(Error::Syntax(_))), "{:?}", text);
    }
}

#[test]
fn a_reserved_word_as_annotation_is_left_to_the_parser_where_it_can_word_it() {
    for text in [
        "(true)node", "(null)a 1\n", "(false)12345", "(true)\u{e9}1", "(null)\u{e9}1\u{e9}",
        "(true)abc\u{e9}", "a (false)\u{20ac}1\u{e9}", "(null)\u{20ac}1", "(false)\u{1f600}",
    ] {
        assert!(readable(text), "{:?}", text);
        assert!(parse_document(text).is_err(), "{:?}", text);
    }
}

#[test]
fn next_place_follows_texts_and_comments() {
    assert_eq!(place_behind(""), Lexing::Code);
    assert_eq!(place_behind("node 1"), Lexing::Code);
    assert_eq!(place_behind("a \"x"), Lexing::Text);
    assert_eq!(place_behind("a \"x\\"), Lexing::Escape);
    assert_eq!(place_behind("a \"x\\\""), Lexing::Text);
    assert_eq!(place_behind("a \"x\""), Lexing::Code);
    assert_eq!(place_behind("a r"), Lexing::AfterR(0));
    assert_eq!(place_behind("a r##"), Lexing::AfterR(2));
    assert_eq!(place_behind("a r##\"x"), Lexing::Raw(2));
    assert_eq!(place_behind("a r##\"x\"#"), Lexing::RawEnd(2, 1));
    assert_eq!(place_behind("a r##\"x\"#\""), Lexing::RawEnd(2, 0));
    assert_eq!(place_behind("a r##\"x\"#y"), Lexing::Raw(2));
    assert_eq!(place_behind("a r##\"x\"##"), Lexing::Code);
    assert_eq!(place_behind("a r\"x\\\""), Lexing::Code);
    assert_eq!(place_behind("a /"), Lexing::AfterSlash);
    assert_eq!(place_behind("a //c"), Lexing::Line);
    assert_eq!(place_behind("a //c\n"), Lexing::Code);
    assert_eq!(place_behind("a //c\u{2028}"), Lexing::Code);
    assert_eq!(place_behind("a /-"), Lexing::Code);
    assert_eq!(place_behind("a /*"), Lexing::Block(1));
    assert_eq!(place_behind("a /*/"), Lexing::BlockSlash(1));
    assert_eq!(place_behind("a /*/*"), Lexing::Block(2));
    assert_eq!(place_behind("a /*/**"), Lexing::BlockStar(2));
    assert_eq!(place_behind("a /*/**/"), Lexing::Block(1));
    assert_eq!(place_behind("a /*/**/*/"), Lexing::Code);
    assert_eq!(place_behind("a /***/"), Lexing::Code);
}

#[test]
fn identifier_characters_are_those_of_names() {
    for c in "abcXYZ019_-+.#!?*&%$@^~|'`:\u{e9}\u{20ac}\u{1f600}".chars() {
        assert!(identifier_char(c), "{:?}", c);
    }
    for c in "\\/(){}<>;[]=,\" \t\r\n\u{85}\u{c}\u{2028}\u{2029}\u{feff}\u{a0}\u{1680}\u{2000}\u{2005}\u{200a}\u{202f}\u{205f}\u{3000}\u{0}\u{1f}".chars() {
        assert!(!identifier_char(c), "{:?}", c);
    }
    assert!(identifier_char('\u{200b}'));
    for c in "\r\n\u{85}\u{c}\u{2028}\u{2029}".chars() {
        assert!(newline(c), "{:?}", c);
    }
    assert!(!newline(' ') && !newline('\u{b}') && !newline('n'));
}

fn check(text: &str, readable_texts: &mut usize) {
    if readable(text) {
        *readable_texts += 1;
        assert_eq!(parse_document(text).is_ok(), text.parse::<KdlDocument>().is_ok(), "{:?}", text);
    } else {
        assert!(parse_document(text).is_err(), "{:?}", text);
    }
}

#[test]
fn texts_of_three_pieces_are_read_where_they_are_readable() {
    let pieces = pieces();
    let mut readable_texts = 0;
    let mut texts = 0;
    for a in &pieces {
        for b in &pieces {
            for c in &pieces {
                check(&format!("{}{}{}", a, b, c), &mut readable_texts);
                texts += 1;
            }
        }
    }
    assert!(readable_texts > texts / 2 && readable_texts < texts);
}

#[test]
fn texts_around_a_reserved_word_are_read_where_they_are_readable() {
    let pieces = pieces();
    let mut readable_texts = 0;
    for word in ["(true)", "(null", "(false)x", "(true)\u{e9}", "(null)abc", "(true)abcd"] {
        for a in &pieces {
            for b in &pieces {
                for c in &pieces {
                    check(&format!("{}{}{}{}", a, b, word, c), &mut readable_texts);
                    check(&format!("a {}{}{}{}", a, word, b, c), &mut readable_texts);
                }
            }
        }
    }
    assert!(readable_texts > 0);
}

#[test]
fn a_reserved_word_behind_marks_is_read_where_it_is_readable() {
    let marks = ["\"", "\\", "r", "#", "/", "*", "-", "\n", " ", "a", "=", "{", "}", ";", "(x)"];
    let mut readable_texts = 0;
    let mut refused = 0;
    for a in marks {
        for b in marks {
            for c in marks {
                for d in marks {
                    for end in ["(true)", " (null)\n", "\n(false)\"", "(null)*/"] {
                        let text = format!("{}{}{}{}{}", a, b, c, d, end);
                        if readable(&text) {
                            readable_texts += 1;
                            let parsed = text.parse::<KdlDocument>().is_ok();
                            assert_eq!(parse_document(&text).is_ok(), parsed, "{:?}", text);
                        } else {
                            refused += 1;
                        }
                    }
                }
            }
        }
    }
    assert!(readable_texts > 1000 && refused > 1000);
}
