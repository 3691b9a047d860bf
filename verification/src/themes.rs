//! The themes that come with the library, and the choice among them.

use vstd::prelude::*;
use crate::Color;
use crate::theme::{default_css, default_section, Theme};

verus! {

/// Black on white, with the web's plain colours.
pub struct DefaultTheme;

/// Light on dark, after the Dracula palette.
pub struct DraculaTheme;

/// Pale green on deep blue.
pub struct ForestTheme;

impl Theme for DefaultTheme {
    open spec fn color_rgb(&self, color: Color) -> (u8, u8, u8) {
        match color {
            Color::DefaultForeground | Color::Black => (0, 0, 0),
            Color::DefaultBackground | Color::White => (255, 255, 255),
            Color::Red => (255, 0, 0),
            Color::Green => (0, 255, 0),
            Color::DefaultSectionTitle | Color::Blue => (0, 0, 255),
            Color::Yellow => (255, 255, 0),
            Color::Orange => (255, 165, 0),
            Color::Pink => (255, 192, 203),
            Color::DefaultSubtitle => (255, 0, 255),
            Color::Grey => (128, 128, 128),
            Color::DefaultTitle | Color::Violet => (127, 0, 255),
            Color::Brown => (165, 42, 42),
        }
    }

    fn get_color_rgb(&self, color: Color) -> (rgb: (u8, u8, u8)) {
        match color {
            Color::DefaultForeground | Color::Black => (0, 0, 0),
            Color::DefaultBackground | Color::White => (255, 255, 255),
            Color::Red => (255, 0, 0),
            Color::Green => (0, 255, 0),
            Color::DefaultSectionTitle | Color::Blue => (0, 0, 255),
            Color::Yellow => (255, 255, 0),
            Color::Orange => (255, 165, 0),
            Color::Pink => (255, 192, 203),
            Color::DefaultSubtitle => (255, 0, 255),
            Color::Grey => (128, 128, 128),
            Color::DefaultTitle | Color::Violet => (127, 0, 255),
            Color::Brown => (165, 42, 42),
        }
    }

    fn get_document_css(&self) -> (css: String) {
        default_css()
    }

    fn compile_section_html(&self, content: String) -> (html: String) {
        default_section(content)
    }
}

impl Theme for DraculaTheme {
    open spec fn color_rgb(&self, color: Color) -> (u8, u8, u8) {
        match color {
            Color::Black | Color::DefaultBackground => (40, 42, 54),
            Color::White | Color::DefaultForeground => (248, 248, 242),
            Color::Red => (255, 85, 85),
            Color::Orange => (255, 184, 108),
            Color::Yellow => (241, 250, 140),
            Color::Green => (80, 250, 123),
            Color::DefaultSectionTitle | Color::Blue => (139, 233, 253),
            Color::DefaultTitle | Color::Violet => (189, 147, 249),
            Color::Grey => (68, 71, 90),
            Color::DefaultSubtitle | Color::Pink => (255, 121, 198),
            Color::Brown => (165, 42, 42),
        }
    }

    fn get_color_rgb(&self, color: Color) -> (rgb: (u8, u8, u8)) {
        match color {
            Color::Black | Color::DefaultBackground => (40, 42, 54),
            Color::White | Color::DefaultForeground => (248, 248, 242),
            Color::Red => (255, 85, 85),
            Color::Orange => (255, 184, 108),
            Color::Yellow => (241, 250, 140),
            Color::Green => (80, 250, 123),
            Color::DefaultSectionTitle | Color::Blue => (139, 233, 253),
            Color::DefaultTitle | Color::Violet => (189, 147, 249),
            Color::Grey => (68, 71, 90),
            Color::DefaultSubtitle | Color::Pink => (255, 121, 198),
            Color::Brown => (165, 42, 42),
        }
    }

    fn get_document_css(&self) -> (css: String) {
        default_css()
    }

    fn compile_section_html(&self, content: String) -> (html: String) {
        default_section(content)
    }
}

impl Theme for ForestTheme {
    open spec fn color_rgb(&self, color: Color) -> (u8, u8, u8) {
        match color {
            Color::Black => (40, 42, 54),
            Color::White | Color::DefaultForeground => (237, 245, 225),
            Color::Red => (255, 85, 85),
            Color::Orange => (255, 184, 108),
            Color::Yellow => (241, 250, 140),
            Color::Green => (80, 250, 123),
            Color::DefaultSectionTitle => (55, 150, 131),
            Color::Blue | Color::DefaultBackground => (5, 56, 107),
            Color::DefaultTitle => (142, 228, 175),
            Color::Violet => (189, 147, 249),
            Color::Grey => (68, 71, 90),
            Color::DefaultSubtitle => (219, 92, 162),
            Color::Pink => (255, 121, 198),
            Color::Brown => (165, 42, 42),
        }
    }

    fn get_color_rgb(&self, color: Color) -> (rgb: (u8, u8, u8)) {
        match color {
            Color::Black => (40, 42, 54),
            Color::White | Color::DefaultForeground => (237, 245, 225),
            Color::Red => (255, 85, 85),
            Color::Orange => (255, 184, 108),
            Color::Yellow => (241, 250, 140),
            Color::Green => (80, 250, 123),
            Color::DefaultSectionTitle => (55, 150, 131),
            Color::Blue | Color::DefaultBackground => (5, 56, 107),
            Color::DefaultTitle => (142, 228, 175),
            Color::Violet => (189, 147, 249),
            Color::Grey => (68, 71, 90),
            Color::DefaultSubtitle => (219, 92, 162),
            Color::Pink => (255, 121, 198),
            Color::Brown => (165, 42, 42),
        }
    }

    fn get_document_css(&self) -> (css: String) {
        default_css()
    }

    fn compile_section_html(&self, content: String) -> (html: String) {
        default_section(content)
    }
}

/// The choice among the themes that come with the library.
#[derive(Debug, Clone, Copy, PartialEq, Eq, PartialOrd, Ord)]
pub enum ThemeOption {
    Default,
    Dracula,
    Forest,
}

impl ThemeOption {
    /// All choices, in the order in which they are offered.
    pub fn all() -> (options: [Self; 3])
        ensures
            options@ == seq![ThemeOption::Default, ThemeOption::Dracula, ThemeOption::Forest],
    {
        let options = [ThemeOption::Default, ThemeOption::Dracula, ThemeOption::Forest];
        assert(options@ =~= seq![ThemeOption::Default, ThemeOption::Dracula, ThemeOption::Forest]);
        options
    }
}

/// A choice is itself a theme: the one that it names.
impl Theme for ThemeOption {
    open spec fn color_rgb(&self, color: Color) -> (u8, u8, u8) {
        match self {
            ThemeOption::Default => DefaultTheme.color_rgb(color),
            ThemeOption::Dracula => DraculaTheme.color_rgb(color),
            ThemeOption::Forest => ForestTheme.color_rgb(color),
        }
    }

    open spec fn document_css(&self) -> Seq<char> {
        match self {
            ThemeOption::Default => DefaultTheme.document_css(),
            ThemeOption::Dracula => DraculaTheme.document_css(),
            ThemeOption::Forest => ForestTheme.document_css(),
        }
    }

    open spec fn section_html(&self, content: Seq<char>) -> Seq<char> {
        match self {
            ThemeOption::Default => DefaultTheme.section_html(content),
            ThemeOption::Dracula => DraculaTheme.section_html(content),
            ThemeOption::Forest => ForestTheme.section_html(content),
        }
    }

    fn get_color_rgb(&self, color: Color) -> (rgb: (u8, u8, u8)) {
        match self {
            ThemeOption::Default => DefaultTheme.get_color_rgb(color),
            ThemeOption::Dracula => DraculaTheme.get_color_rgb(color),
            ThemeOption::Forest => ForestTheme.get_color_rgb(color),
        }
    }

    fn get_document_css(&self) -> (css: String) {
        match self {
            ThemeOption::Default => DefaultTheme.get_document_css(),
            ThemeOption::Dracula => DraculaTheme.get_document_css(),
            ThemeOption::Forest => ForestTheme.get_document_css(),
        }
    }

    fn compile_section_html(&self, content: String) -> (html: String) {
        match self {
            ThemeOption::Default => DefaultTheme.compile_section_html(content),
            ThemeOption::Dracula => DraculaTheme.compile_section_html(content),
            ThemeOption::Forest => ForestTheme.compile_section_html(content),
        }
    }
}

} // verus!
