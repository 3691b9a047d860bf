//! A resume as a static web page.
//!
//! A [`Resume`] is projected onto a tree of document nodes ([`HTML`]), and
//! the tree is compiled to markup under a [`Theme`], which decides what
//! the colour names look like, which stylesheet the page carries and how a
//! card is drawn. The tree knows colours by name only.
//!
//! - `html`: the tree, what it stands for, and the compiler.
//! - `theme`: what a theme decides; `themes`: the themes that come along.
//! - `resume`: the record and its page.
//! - `wizard`: collecting a record screen by screen.
//! - `text`: numerals, joining, and reading a number.
//! - `laws`: what holds of every tree, theme and record.

use vstd::prelude::*;

pub mod html;
pub mod laws;
pub mod resume;
pub mod text;
pub mod theme;
pub mod themes;
pub mod wizard;

pub use html::{CompileError, Node, HTML};
pub use resume::{ContactInfo, Degree, Education, Proficiency, Resume, TextPolicy, Work};
pub use theme::Theme;
pub use themes::{DefaultTheme, DraculaTheme, ForestTheme, ThemeOption};
pub use wizard::{Action, Message, Step, Steps};

verus! {

/// A colour by name. What a name looks like is the theme's decision, so the
/// five `Default*` roles may or may not coincide with a named hue.
#[derive(Clone, Copy, Debug, PartialEq, Eq, PartialOrd, Ord)]
pub enum Color {
    Red,
    Pink,
    Orange,
    Yellow,
    Green,
    Blue,
    Violet,
    Brown,
    Black,
    White,
    Grey,
    DefaultTitle,
    DefaultSectionTitle,
    DefaultSubtitle,
    DefaultForeground,
    DefaultBackground,
}

/// Where a node stands between left and right. `SameAsParent` leaves the
/// placement to what surrounds the node.
#[derive(Clone, Copy, Debug, PartialEq, Eq, PartialOrd, Ord)]
pub enum HorizontalAlignment {
    Center,
    Left,
    Right,
    SameAsParent,
}

/// Where a node stands between top and bottom. `SameAsParent` leaves the
/// placement to what surrounds the node.
#[derive(Clone, Copy, Debug, PartialEq, Eq, PartialOrd, Ord)]
pub enum VerticalAlignment {
    Center,
    Top,
    Bottom,
    SameAsParent,
}

/// The side from which a node fades in.
#[derive(Clone, Copy, Debug, PartialEq, Eq, PartialOrd, Ord)]
pub enum Direction {
    Left,
    Right,
    Up,
    Down,
}

} // verus!
