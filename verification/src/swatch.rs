//! One entry of the palette: a colour for the dark theme, one for the light theme, and
//! what the pair is used for.

use vstd::prelude::*;
use vstd::string::*;
use crate::color::{color_of_value, ColorTriple, ColorView};
use crate::document::{
    entry_index, find_node, first_named, plain_text, KeyView, Node, NodeKey, NodeView,
    Value, ValueView,
};
use crate::error::{ShapeError, ShapeErrorView};

verus! {

/// What one swatch node says.
#[derive(Clone, Debug, PartialEq, Eq)]
pub struct Swatch {
    pub midnight_name: String,
    pub midnight: ColorTriple,
    pub sunlight_name: String,
    pub sunlight: ColorTriple,
    /// The type label, shared by the two themes.
    pub type_label: String,
    pub ui: String,
    pub code: String,
}

/// A `Swatch` with its texts as sequences of characters.
pub struct SwatchView {
    pub midnight_name: Seq<char>,
    pub midnight: ColorView,
    pub sunlight_name: Seq<char>,
    pub sunlight: ColorView,
    pub type_label: Seq<char>,
    pub ui: Seq<char>,
    pub code: Seq<char>,
}

impl View for Swatch {
    type V = SwatchView;

    open spec fn view(&self) -> SwatchView {
        SwatchView {
            midnight_name: self.midnight_name@,
            midnight: self.midnight@,
            sunlight_name: self.sunlight_name@,
            sunlight: self.sunlight@,
            type_label: self.type_label@,
            ui: self.ui@,
            code: self.code@,
        }
    }
}

/// The first child of `swatch` named `name`; `swatch` is the swatch at place `i`.
pub open spec fn swatch_child(name: Seq<char>, swatch: NodeView, i: usize) -> Result<
    NodeView,
    ShapeErrorView,
> {
    match swatch.children {
        None => Err(ShapeErrorView::MissingSwatchChildren { swatch: i, child: name }),
        Some(children) => match first_named(children, name, 0) {
            Some(k) => Ok(children[k]),
            None => Err(ShapeErrorView::MissingChild { swatch: i, child: name }),
        },
    }
}

/// The value that `key` asks for in `child`, a child of the swatch at place `i`.
pub open spec fn swatch_child_value(child: NodeView, key: KeyView, i: usize) -> Result<
    ValueView,
    ShapeErrorView,
> {
    match entry_index(child.entries, key) {
        Some(k) => Ok(child.entries[k].value),
        None => Err(ShapeErrorView::MissingValue { swatch: i, child: child.name, key }),
    }
}

/// The name and the colour value of a theme: argument 0 and the property `value` of
/// the child named `theme`.
pub open spec fn theme_of(theme: Seq<char>, swatch: NodeView, i: usize) -> Result<
    (Seq<char>, ColorView),
    ShapeErrorView,
> {
    match swatch_child(theme, swatch, i) {
        Err(e) => Err(e),
        Ok(child) => match swatch_child_value(child, KeyView::Index(0), i) {
            Err(e) => Err(e),
            Ok(name) => match swatch_child_value(child, KeyView::Key("value"@), i) {
                Err(e) => Err(e),
                Ok(value) => Ok((plain_text(name), color_of_value(value))),
            },
        },
    }
}

/// The type label: argument 0 of the child named `type`.
pub open spec fn type_of(swatch: NodeView, i: usize) -> Result<Seq<char>, ShapeErrorView> {
    match swatch_child("type"@, swatch, i) {
        Err(e) => Err(e),
        Ok(child) => match swatch_child_value(child, KeyView::Index(0), i) {
            Err(e) => Err(e),
            Ok(label) => Ok(plain_text(label)),
        },
    }
}

/// The two notes: the properties `ui` and `code` of the child named `info`.
pub open spec fn info_of(swatch: NodeView, i: usize) -> Result<
    (Seq<char>, Seq<char>),
    ShapeErrorView,
> {
    match swatch_child("info"@, swatch, i) {
        Err(e) => Err(e),
        Ok(child) => match swatch_child_value(child, KeyView::Key("ui"@), i) {
            Err(e) => Err(e),
            Ok(ui) => match swatch_child_value(child, KeyView::Key("code"@), i) {
                Err(e) => Err(e),
                Ok(code) => Ok((plain_text(ui), plain_text(code))),
            },
        },
    }
}

/// What the swatch at place `i` says, or the first thing that it lacks, looking for
/// `midnight`, `sunlight`, `type` and `info` in this order.
pub open spec fn decoded(swatch: NodeView, i: usize) -> Result<SwatchView, ShapeErrorView> {
    match theme_of("midnight"@, swatch, i) {
        Err(e) => Err(e),
        Ok(midnight) => match theme_of("sunlight"@, swatch, i) {
            Err(e) => Err(e),
            Ok(sunlight) => match type_of(swatch, i) {
                Err(e) => Err(e),
                Ok(type_label) => match info_of(swatch, i) {
                    Err(e) => Err(e),
                    Ok(info) => Ok(
                        SwatchView {
                            midnight_name: midnight.0,
                            midnight: midnight.1,
                            sunlight_name: sunlight.0,
                            sunlight: sunlight.1,
                            type_label,
                            ui: info.0,
                            code: info.1,
                        },
                    ),
                },
            },
        },
    }
}

/// Whether a node or an error is the one that `model` names.
pub open spec fn node_is(
    got: Result<&Node, ShapeError>,
    model: Result<NodeView, ShapeErrorView>,
) -> bool {
    match got {
        Ok(node) => model == Ok::<NodeView, ShapeErrorView>(node@),
        Err(e) => model == Err::<NodeView, ShapeErrorView>(e@),
    }
}

/// Whether a value or an error is the one that `model` names.
pub open spec fn value_is(
    got: Result<&Value, ShapeError>,
    model: Result<ValueView, ShapeErrorView>,
) -> bool {
    match got {
        Ok(value) => model == Ok::<ValueView, ShapeErrorView>(value@),
        Err(e) => model == Err::<ValueView, ShapeErrorView>(e@),
    }
}

/// Whether a swatch or an error is the one that `model` names.
pub open spec fn swatch_is(
    got: Result<Swatch, ShapeError>,
    model: Result<SwatchView, ShapeErrorView>,
) -> bool {
    match got {
        Ok(swatch) => model == Ok::<SwatchView, ShapeErrorView>(swatch@),
        Err(e) => model == Err::<SwatchView, ShapeErrorView>(e@),
    }
}

/// The first child of the swatch that is named `child_name`. `i` is the place of the
/// swatch in the palette and goes into the error.
pub fn get_swatch_child<'a>(child_name: &str, swatch: &'a Node, i: usize) -> (found: Result<
    &'a Node,
    ShapeError,
>)
    ensures
        node_is(found, swatch_child(child_name@, swatch@, i)),
{
    match &swatch.children {
        None => Err(
            ShapeError::MissingSwatchChildren { swatch: i, child: String::from_str(child_name) },
        ),
        Some(children) => match find_node(children, child_name) {
            Some(node) => Ok(node),
            None => Err(
                ShapeError::MissingChild { swatch: i, child: String::from_str(child_name) },
            ),
        },
    }
}

/// The value that `key` asks for in a child of the swatch at place `i`.
pub fn get_swatch_child_value<'a>(swatch_child: &'a Node, key: &NodeKey, i: usize) -> (found:
    Result<&'a Value, ShapeError>)
    ensures
        value_is(found, swatch_child_value(swatch_child@, key@, i)),
{
    match swatch_child.get(key) {
        Some(entry) => Ok(&entry.value),
        None => {
            let lost = match key {
                NodeKey::Index(k) => NodeKey::Index(*k),
                NodeKey::Key(k) => NodeKey::Key(k.clone()),
            };
            Err(ShapeError::MissingValue { swatch: i, child: swatch_child.name.clone(), key: lost })
        },
    }
}

/// Reads the swatch at place `i`: the names and colours of its two themes, its type
/// label and its two notes. Stops at the first thing that is missing.
pub fn decode_swatch(swatch: &Node, i: usize) -> (outcome: Result<Swatch, ShapeError>)
    ensures
        swatch_is(outcome, decoded(swatch@, i)),
{
    let first = NodeKey::Index(0);
    let value_key = NodeKey::Key(String::from_str("value"));
    let ui_key = NodeKey::Key(String::from_str("ui"));
    let code_key = NodeKey::Key(String::from_str("code"));

    let midnight = match get_swatch_child("midnight", swatch, i) {
        Ok(node) => node,
        Err(e) => return Err(e),
    };
    let midnight_name = match get_swatch_child_value(midnight, &first, i) {
        Ok(value) => value,
        Err(e) => return Err(e),
    };
    let midnight_value = match get_swatch_child_value(midnight, &value_key, i) {
        Ok(value) => value,
        Err(e) => return Err(e),
    };
    let sunlight = match get_swatch_child("sunlight", swatch, i) {
        Ok(node) => node,
        Err(e) => return Err(e),
    };
    let sunlight_name = match get_swatch_child_value(sunlight, &first, i) {
        Ok(value) => value,
        Err(e) => return Err(e),
    };
    let sunlight_value = match get_swatch_child_value(sunlight, &value_key, i) {
        Ok(value) => value,
        Err(e) => return Err(e),
    };
    let kind = match get_swatch_child("type", swatch, i) {
        Ok(node) => node,
        Err(e) => return Err(e),
    };
    let type_label = match get_swatch_child_value(kind, &first, i) {
        Ok(value) => value,
        Err(e) => return Err(e),
    };
    let info = match get_swatch_child("info", swatch, i) {
        Ok(node) => node,
        Err(e) => return Err(e),
    };
    let ui = match get_swatch_child_value(info, &ui_key, i) {
        Ok(value) => value,
        Err(e) => return Err(e),
    };
    let code = match get_swatch_child_value(info, &code_key, i) {
        Ok(value) => value,
        Err(e) => return Err(e),
    };
    Ok(
        Swatch {
            midnight_name: midnight_name.plain_text(),
            midnight: ColorTriple::from_value(midnight_value),
            sunlight_name: sunlight_name.plain_text(),
            sunlight: ColorTriple::from_value(sunlight_value),
            type_label: type_label.plain_text(),
            ui: ui.plain_text(),
            code: code.plain_text(),
        },
    )
}

} // verus!
