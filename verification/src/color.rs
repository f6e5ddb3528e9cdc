//! Colours: the hex notation, its three channels, and the hue, saturation and lightness
//! that go with them.

use vstd::prelude::*;
use vstd::string::*;
use easy_color::{Hex, IntoHSL, IntoRGB, RGB};
use crate::document::{Value, ValueView};
use crate::text::{append_decimal, decimal, digit_char};

verus! {

/// The red, green and blue channels of a colour.
#[derive(Clone, Copy, Debug, PartialEq, Eq, Structural)]
pub struct Rgb {
    pub r: u8,
    pub g: u8,
    pub b: u8,
}

/// Hue in degrees, saturation and lightness in percent.
#[derive(Clone, Copy, Debug, PartialEq, Eq, Structural)]
pub struct Hsl {
    pub h: u32,
    pub s: u32,
    pub l: u32,
}

/// One colour in its three notations.
#[derive(Clone, Debug, PartialEq, Eq)]
pub struct ColorTriple {
    /// `#` and six upper-case hex digits.
    pub hex: String,
    pub rgb: Rgb,
    pub hsl: Hsl,
}

/// A `ColorTriple` with its code as a sequence of characters.
pub struct ColorView {
    pub hex: Seq<char>,
    pub rgb: Rgb,
    pub hsl: Hsl,
}

impl View for ColorTriple {
    type V = ColorView;

    open spec fn view(&self) -> ColorView {
        ColorView { hex: self.hex@, rgb: self.rgb, hsl: self.hsl }
    }
}

/// A colour code as read: its channels, and its text with upper-case digits.
struct HexColor {
    rgb: Rgb,
    text: String,
}

/// Whether `c` is one of `0-9`, `a-f`, `A-F`.
pub open spec fn is_hex_digit(c: char) -> bool {
    ('0' <= c && c <= '9') || ('a' <= c && c <= 'f') || ('A' <= c && c <= 'F')
}

/// The number that a hex digit stands for.
pub open spec fn hex_digit_value(c: char) -> nat
    recommends
        is_hex_digit(c),
{
    if '0' <= c && c <= '9' {
        (c as int - '0' as int) as nat
    } else if 'a' <= c && c <= 'f' {
        (c as int - 'a' as int + 10) as nat
    } else {
        (c as int - 'A' as int + 10) as nat
    }
}

/// The upper-case hex digit of a number below 16.
pub open spec fn upper_hex_digit(v: nat) -> char
    recommends
        v < 16,
{
    if v < 10 {
        digit_char(v)
    } else if v == 10 {
        'A'
    } else if v == 11 {
        'B'
    } else if v == 12 {
        'C'
    } else if v == 13 {
        'D'
    } else if v == 14 {
        'E'
    } else {
        'F'
    }
}

/// A letter from `a` to `f` in upper case; any other character as it is.
pub open spec fn upper_case(c: char) -> char {
    if 'a' <= c && c <= 'f' {
        (c as int - 'a' as int + 'A' as int) as char
    } else {
        c
    }
}

/// A text with its letters from `a` to `f` in upper case.
pub open spec fn upper_cased(s: Seq<char>) -> Seq<char> {
    s.map_values(|c: char| upper_case(c))
}

/// Whether every character of `s` is a hex digit.
pub open spec fn all_hex_digits(s: Seq<char>) -> bool {
    forall|i: int| 0 <= i < s.len() ==> is_hex_digit(#[trigger] s[i])
}

/// A colour code in full: `#` and six hex digits.
pub open spec fn is_hex_code(s: Seq<char>) -> bool {
    s.len() == 7 && s[0] == '#' && all_hex_digits(s.skip(1))
}

/// A colour as the palette may write it: six hex digits, with or without `#` before them.
pub open spec fn is_hex_color(s: Seq<char>) -> bool {
    is_hex_code(s) || (s.len() == 6 && all_hex_digits(s))
}

/// The colour code of a colour that `is_hex_color` accepts: the same digits behind one `#`.
pub open spec fn hex_code_of(s: Seq<char>) -> Seq<char> {
    if s.len() == 6 {
        seq!['#'] + s
    } else {
        s
    }
}

/// The byte that two hex digits write.
pub open spec fn hex_pair(hi: char, lo: char) -> u8 {
    (16 * hex_digit_value(hi) + hex_digit_value(lo)) as u8
}

/// The channels that a colour code writes.
pub open spec fn code_rgb(code: Seq<char>) -> Rgb
    recommends
        is_hex_code(code),
{
    Rgb {
        r: hex_pair(code[1], code[2]),
        g: hex_pair(code[3], code[4]),
        b: hex_pair(code[5], code[6]),
    }
}

/// The colour code of three channels, with upper-case digits.
pub open spec fn hex_text(rgb: Rgb) -> Seq<char> {
    seq![
        '#',
        upper_hex_digit(rgb.r as nat / 16),
        upper_hex_digit(rgb.r as nat % 16),
        upper_hex_digit(rgb.g as nat / 16),
        upper_hex_digit(rgb.g as nat % 16),
        upper_hex_digit(rgb.b as nat / 16),
        upper_hex_digit(rgb.b as nat % 16),
    ]
}

/// Hue, saturation and lightness of three channels, as easy_color computes them in
/// single-precision arithmetic and rounds them to whole degrees and percents.
pub uninterp spec fn hsl_of_rgb(r: u8, g: u8, b: u8) -> (u32, u32, u32);

/// Whether a hue is at most 360 degrees, and saturation and lightness at most 100
/// percent.
pub open spec fn in_range(h: u32, s: u32, l: u32) -> bool {
    h <= 360 && s <= 100 && l <= 100
}

/// What the computation of hue, saturation and lightness plainly gives: a grey has
/// hue 0 and saturation 0, black has lightness 0 and white lightness 100, and the full
/// red is `hsl(0, 100%, 50%)`.
pub open spec fn is_known_hsl(r: u8, g: u8, b: u8, h: u32, s: u32, l: u32) -> bool {
    &&& (r == g && g == b ==> h == 0 && s == 0)
    &&& (r == 0 && g == 0 && b == 0 ==> l == 0)
    &&& (r == 255 && g == 255 && b == 255 ==> l == 100)
    &&& (r == 255 && g == 0 && b == 0 ==> h == 0 && s == 100 && l == 50)
}

/// The `Hsl` that belongs to three channels.
pub open spec fn rgb_hsl(rgb: Rgb) -> Hsl {
    let t = hsl_of_rgb(rgb.r, rgb.g, rgb.b);
    Hsl { h: t.0, s: t.1, l: t.2 }
}

/// Parses a colour code with easy_color's `Hex::try_from`, reads its channels through
/// `to_rgb` and its text through `to_string`.
///
/// On `#` and six hex digits the parser trims and lower-cases, drops the `#`, reads the
/// digits two by two in base 16 and leaves the colour opaque, so that `to_rgb` hands the
/// three bytes back and the text is `#` with each byte as two upper-case hex digits.
#[verifier::external_body]
fn read_code(code: &str) -> (parsed: Option<HexColor>)
    requires
        is_hex_code(code@),
    ensures
        parsed is Some,
        parsed->0.rgb == code_rgb(code@),
        parsed->0.text@ == hex_text(code_rgb(code@)),
{
    match Hex::try_from(code) {
        Ok(hex) => {
            let rgb = hex.to_rgb();
            let rgb = Rgb { r: rgb.red(), g: rgb.green(), b: rgb.blue() };
            Some(HexColor { rgb, text: hex.to_string() })
        },
        Err(_) => None,
    }
}

/// Converts three channels with easy_color's `RGB::try_from` and `to_hsl`.
///
/// `RGB::try_from` accepts every triple of bytes; what `to_hsl` computes from them is
/// named by `hsl_of_rgb`. Of its size the computation shows this much: the hue is 60
/// times a quotient of two channel differences, the divisor being the largest of
/// them, plus 0, 2 or 4, and 360 more where that is negative; the saturation is the
/// spread of the channels over a bound that the spread does not pass but by rounding;
/// the lightness is the mean of two channels, each at most 1. Rounded to whole
/// numbers, the hue is at most 360 and the two percentages are at most 100.
///
/// Where the three channels are equal their spread is 0, and hue and saturation are
/// set to 0; the lightness is then the channel over 255, 0 for black and 1 for white.
/// For the full red the quotient is 0, the lightness a half and the saturation 1.
#[verifier::external_body]
fn read_hsl(r: u8, g: u8, b: u8) -> (hsl: Option<(u32, u32, u32)>)
    ensures
        hsl == Some(hsl_of_rgb(r, g, b)),
        hsl matches Some((h, s, l)) ==> in_range(h, s, l),
        hsl matches Some((h, s, l)) ==> is_known_hsl(r, g, b, h, s, l),
{
    match RGB::try_from((r, g, b)) {
        Ok(rgb) => {
            let hsl = rgb.to_hsl();
            Some((hsl.hue(), hsl.saturation(), hsl.lightness()))
        },
        Err(_) => None,
    }
}

impl ColorView {
    /// Whether the three notations are of one colour, and in range: the code is that of
    /// the channels, so are hue, saturation and lightness, the hue is at most 360, the
    /// two percentages are at most 100, and grey, black, white and red have the hue,
    /// saturation and lightness that are known of them.
    pub open spec fn well_formed(self) -> bool {
        &&& self.hex == hex_text(self.rgb)
        &&& self.hsl == rgb_hsl(self.rgb)
        &&& in_range(self.hsl.h, self.hsl.s, self.hsl.l)
        &&& is_known_hsl(
            self.rgb.r,
            self.rgb.g,
            self.rgb.b,
            self.hsl.h,
            self.hsl.s,
            self.hsl.l,
        )
    }
}

/// The three notations of the colour that a colour code writes.
pub open spec fn code_triple(code: Seq<char>) -> ColorView
    recommends
        is_hex_code(code),
{
    let rgb = code_rgb(code);
    ColorView { hex: hex_text(rgb), rgb, hsl: rgb_hsl(rgb) }
}

/// The grey that stands in for a colour that cannot be read.
pub open spec fn fallback_triple() -> ColorView {
    code_triple("#888888"@)
}

/// The colour that a text stands for: its own where it is a hex colour, else the
/// fallback.
pub open spec fn color_of_text(s: Seq<char>) -> ColorView {
    if is_hex_color(s) {
        code_triple(hex_code_of(s))
    } else {
        fallback_triple()
    }
}

/// Whether a value is shown in the fallback colour: it is no text, or no hex colour.
pub open spec fn uses_fallback_color(value: ValueView) -> bool {
    !(value matches ValueView::String(s) && is_hex_color(s))
}

/// The colour that a value stands for.
pub open spec fn color_of_value(value: ValueView) -> ColorView {
    match value {
        ValueView::String(s) => color_of_text(s),
        _ => fallback_triple(),
    }
}

/// `rgb(r, g, b)`, the channels in decimal.
pub open spec fn rgb_text(rgb: Rgb) -> Seq<char> {
    "rgb("@ + decimal(rgb.r as nat) + ", "@ + decimal(rgb.g as nat) + ", "@ + decimal(
        rgb.b as nat,
    ) + ")"@
}

/// `hsl(h, s%, l%)`, the three numbers in decimal.
pub open spec fn hsl_text(hsl: Hsl) -> Seq<char> {
    "hsl("@ + decimal(hsl.h as nat) + ", "@ + decimal(hsl.s as nat) + "%, "@ + decimal(
        hsl.l as nat,
    ) + "%)"@
}

/// A colour code without the `#` that it begins with.
pub open spec fn bare_hex(hex: Seq<char>) -> Seq<char> {
    if hex.len() > 0 && hex[0] == '#' {
        hex.skip(1)
    } else {
        hex
    }
}

/// Whether `c` is a hex digit.
pub fn hex_digit(c: char) -> (yes: bool)
    ensures
        yes == is_hex_digit(c),
{
    ('0' <= c && c <= '9') || ('a' <= c && c <= 'f') || ('A' <= c && c <= 'F')
}

/// Whether the characters of `text` from `from` up to `upto` are hex digits.
fn hex_digits_in(text: &str, from: usize, upto: usize) -> (yes: bool)
    requires
        from <= upto <= text@.len(),
    ensures
        yes == all_hex_digits(text@.subrange(from as int, upto as int)),
{
    let mut i: usize = from;
    while i < upto
        invariant
            from <= i <= upto <= text@.len(),
            all_hex_digits(text@.subrange(from as int, i as int)),
        decreases upto - i,
    {
        if !hex_digit(text.get_char(i)) {
            assert(text@.subrange(from as int, upto as int)[i - from] == text@[i as int]);
            return false;
        }
        assert forall|k: int| 0 <= k < i + 1 - from implies is_hex_digit(
            #[trigger] text@.subrange(from as int, i + 1)[k],
        ) by {
            if k < i - from {
                assert(text@.subrange(from as int, i as int)[k] == text@[from + k]);
            }
        }
        i += 1;
    }
    true
}

/// Whether `text` is a hex colour: six hex digits, with or without `#` before them.
pub fn hex_color(text: &str) -> (yes: bool)
    ensures
        yes == is_hex_color(text@),
{
    let n = text.unicode_len();
    if n == 7 {
        assert(text@.skip(1) =~= text@.subrange(1, 7));
        text.get_char(0) == '#' && hex_digits_in(text, 1, 7)
    } else if n == 6 {
        assert(text@ =~= text@.subrange(0, 6));
        hex_digits_in(text, 0, 6)
    } else {
        false
    }
}

/// Whether a value is shown in the fallback colour.
pub fn uses_fallback(value: &Value) -> (yes: bool)
    ensures
        yes == uses_fallback_color(value@),
{
    match value {
        Value::String(s) => !hex_color(s.as_str()),
        _ => true,
    }
}

impl Rgb {
    /// The channels as `rgb(r, g, b)`.
    pub fn text(&self) -> (text: String)
        ensures
            text@ == rgb_text(*self),
    {
        let mut text = String::from_str("rgb(");
        append_decimal(&mut text, self.r as u64);
        text.append(", ");
        append_decimal(&mut text, self.g as u64);
        text.append(", ");
        append_decimal(&mut text, self.b as u64);
        text.append(")");
        text
    }
}

impl Hsl {
    /// Hue, saturation and lightness as `hsl(h, s%, l%)`.
    pub fn text(&self) -> (text: String)
        ensures
            text@ == hsl_text(*self),
    {
        let mut text = String::from_str("hsl(");
        append_decimal(&mut text, self.h as u64);
        text.append(", ");
        append_decimal(&mut text, self.s as u64);
        text.append("%, ");
        append_decimal(&mut text, self.l as u64);
        text.append("%)");
        text
    }
}

impl ColorTriple {
    /// The three notations of a colour code.
    fn from_code(code: &str) -> (triple: ColorTriple)
        requires
            is_hex_code(code@),
        ensures
            triple@ == code_triple(code@),
            triple@.well_formed(),
    {
        let parsed = read_code(code).unwrap();
        let rgb = parsed.rgb;
        let hsl = read_hsl(rgb.r, rgb.g, rgb.b).unwrap();
        ColorTriple { hex: parsed.text, rgb, hsl: Hsl { h: hsl.0, s: hsl.1, l: hsl.2 } }
    }

    /// Reads a colour: six hex digits, with or without `#` before them. Any other text
    /// is no colour.
    pub fn parse(text: &str) -> (parsed: Option<ColorTriple>)
        ensures
            parsed is Some == is_hex_color(text@),
            parsed matches Some(triple) ==> triple@ == code_triple(hex_code_of(text@))
                && triple@.well_formed(),
    {
        if !hex_color(text) {
            None
        } else if text.unicode_len() == 7 {
            Some(ColorTriple::from_code(text))
        } else {
            let code = String::from_str("#").concat(text);
            proof {
                reveal_strlit("#");
                assert(code@ =~= seq!['#'] + text@);
                assert(code@.skip(1) =~= text@);
            }
            Some(ColorTriple::from_code(code.as_str()))
        }
    }

    /// The grey `#888888`.
    pub fn fallback() -> (triple: ColorTriple)
        ensures
            triple@ == fallback_triple(),
            triple@.well_formed(),
    {
        proof {
            reveal_strlit("#888888");
            assert("#888888"@.skip(1) =~= seq!['8', '8', '8', '8', '8', '8']);
        }
        ColorTriple::from_code("#888888")
    }

    /// The colour that a text stands for.
    pub fn from_text(text: &str) -> (triple: ColorTriple)
        ensures
            triple@ == color_of_text(text@),
            triple@.well_formed(),
    {
        match ColorTriple::parse(text) {
            Some(triple) => triple,
            None => ColorTriple::fallback(),
        }
    }

    /// The colour that a value stands for. A value that is no text, or no hex colour,
    /// is shown in the fallback colour; that is no error.
    pub fn from_value(value: &Value) -> (triple: ColorTriple)
        ensures
            triple@ == color_of_value(value@),
            triple@.well_formed(),
            uses_fallback_color(value@) ==> triple@ == fallback_triple(),
    {
        match value {
            Value::String(s) => ColorTriple::from_text(s.as_str()),
            _ => ColorTriple::fallback(),
        }
    }

    /// The colour code without its `#`.
    pub fn bare_hex(&self) -> (bare: String)
        ensures
            bare@ == bare_hex(self.hex@),
    {
        let code = self.hex.as_str();
        let n = code.unicode_len();
        if n > 0 && code.get_char(0) == '#' {
            String::from_str(code.substring_char(1, n))
        } else {
            String::from_str(code)
        }
    }
}

} // verus!
