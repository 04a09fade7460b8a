//! Visual variants shared by every component, and the class tokens that
//! stand for them in a rendered class attribute.

use vstd::prelude::*;
use vstd::string::StringExecFns;

verus! {

/// Colour family of a component.
#[derive(Clone, Copy, Debug, PartialEq, Eq, Structural)]
pub enum Palette {
    Standard,
    Primary,
    Secondary,
    Success,
    Info,
    Link,
    Warning,
    Danger,
    Clean,
}

/// Rendering weight of a component.
#[derive(Clone, Copy, Debug, PartialEq, Eq, Structural)]
pub enum Style {
    Regular,
    Light,
    Outline,
}

/// One of the three standard sizes.
#[derive(Clone, Copy, Debug, PartialEq, Eq, Structural)]
pub enum Size {
    Small,
    Medium,
    Big,
}

/// The class token of a palette.
pub open spec fn palette_class(palette: Palette) -> Seq<char> {
    match palette {
        Palette::Standard => "standard"@,
        Palette::Primary => "primary"@,
        Palette::Secondary => "secondary"@,
        Palette::Success => "success"@,
        Palette::Info => "info"@,
        Palette::Link => "link"@,
        Palette::Warning => "warning"@,
        Palette::Danger => "danger"@,
        Palette::Clean => "clean"@,
    }
}

/// The class token of a style.
pub open spec fn style_class(style: Style) -> Seq<char> {
    match style {
        Style::Regular => "regular"@,
        Style::Light => "light"@,
        Style::Outline => "outline"@,
    }
}

/// The class token of a size.
pub open spec fn size_class(size: Size) -> Seq<char> {
    match size {
        Size::Small => "small"@,
        Size::Medium => "medium"@,
        Size::Big => "big"@,
    }
}

/// Class token for `palette`.
pub fn get_palette(palette: Palette) -> (class: String)
    ensures
        class@ == palette_class(palette),
{
    match palette {
        Palette::Standard => String::from_str("standard"),
        Palette::Primary => String::from_str("primary"),
        Palette::Secondary => String::from_str("secondary"),
        Palette::Success => String::from_str("success"),
        Palette::Info => String::from_str("info"),
        Palette::Link => String::from_str("link"),
        Palette::Warning => String::from_str("warning"),
        Palette::Danger => String::from_str("danger"),
        Palette::Clean => String::from_str("clean"),
    }
}

/// Class token for `style`.
pub fn get_style(style: Style) -> (class: String)
    ensures
        class@ == style_class(style),
{
    match style {
        Style::Regular => String::from_str("regular"),
        Style::Light => String::from_str("light"),
        Style::Outline => String::from_str("outline"),
    }
}

/// Class token for `size`.
pub fn get_size(size: Size) -> (class: String)
    ensures
        class@ == size_class(size),
{
    match size {
        Size::Small => String::from_str("small"),
        Size::Medium => String::from_str("medium"),
        Size::Big => String::from_str("big"),
    }
}

/// A class line with one more token: `line`, a space, then `token`.
pub open spec fn with_class(line: Seq<char>, token: Seq<char>) -> Seq<char> {
    line + " "@ + token
}

/// Appends a space and `token` to a class line.
pub fn push_class(line: &mut String, token: &str)
    ensures
        final(line)@ == with_class(old(line)@, token@),
{
    line.append(" ");
    line.append(token);
}

} // verus!
