//! The seam between content and presentation: what a theme decides.

use vstd::prelude::*;
use crate::Color;
use crate::text::{hex_color, hex_color_string, is_hex_color};

verus! {

/// The stock stylesheet: the font imports and the page-wide font rule.
pub open spec fn default_document_css() -> Seq<char> {
    "\n@import url('https://fonts.googleapis.com/css2?family=Merriweather:wght@300&display=swap');\n// @import url('https://fonts.googleapis.com/css2?family=Roboto&display=swap');\n@import url('https://fonts.googleapis.com/css2?family=Roboto:ital@1&display=swap');\n* {\n    // font-family: 'Merriweather', serif;\n    font-family: 'Roboto', sans-serif;\n}\n"@
}

/// The stock card: `content` inside a card and a card body, both filling
/// the space they are given.
pub open spec fn default_section_html(content: Seq<char>) -> Seq<char> {
    "<div class=\"card\" style=\"height:100%; width:100%;\"><div class=\"card-body\" style=\"height:100%; width:100%;\">"@
        + content + "</div></div>"@
}

/// The stock stylesheet, for themes that bring none of their own.
pub fn default_css() -> (css: String)
    ensures
        css@ == default_document_css(),
{
    String::from_str(
        "\n@import url('https://fonts.googleapis.com/css2?family=Merriweather:wght@300&display=swap');\n// @import url('https://fonts.googleapis.com/css2?family=Roboto&display=swap');\n@import url('https://fonts.googleapis.com/css2?family=Roboto:ital@1&display=swap');\n* {\n    // font-family: 'Merriweather', serif;\n    font-family: 'Roboto', sans-serif;\n}\n",
    )
}

/// The stock card around `content`, for themes that bring none of their own.
pub fn default_section(content: String) -> (html: String)
    ensures
        html@ == default_section_html(content@),
{
    let mut html = String::from_str(
        "<div class=\"card\" style=\"height:100%; width:100%;\"><div class=\"card-body\" style=\"height:100%; width:100%;\">",
    );
    html.append(content.as_str());
    html.append("</div></div>");
    html
}

/// What a theme decides: the concrete colour of every colour name, the
/// page's stylesheet, and the markup of a card.
///
/// Each executable method answers with what the spec function beside it
/// says, so that what a page looks like under a theme is a function of the
/// theme's three spec functions alone. A theme states its colour table in
/// `color_rgb`, for every colour name: there is no stock colour. The
/// `#rrggbb` notation is derived from the table and has the same shape
/// under every theme. A theme without a stylesheet or a card of its own
/// leaves `document_css` and `section_html` as they are and answers with
/// `default_css` and `default_section`.
///
/// Of a theme that is implemented in verified code all of this is proved.
/// One that is implemented elsewhere is taken at its word: it has to
/// answer the same question with the same text every time.
pub trait Theme {
    /// The colour table of this theme.
    open spec fn color_rgb(&self, color: Color) -> (u8, u8, u8) {
        arbitrary()
    }

    /// The stylesheet text of this theme.
    open spec fn document_css(&self) -> Seq<char> {
        default_document_css()
    }

    /// The card that this theme puts around `content`.
    open spec fn section_html(&self, content: Seq<char>) -> Seq<char> {
        default_section_html(content)
    }

    /// The red, green and blue of `color`, each from 0 to 255.
    fn get_color_rgb(&self, color: Color) -> (rgb: (u8, u8, u8))
        ensures
            rgb == self.color_rgb(color),
    ;

    /// `color` as `#rrggbb`: two lowercase hexadecimal digits per
    /// channel, seven characters in all.
    fn get_color_hex(&self, color: Color) -> (hex: String)
        ensures
            hex@ == hex_color(self.color_rgb(color)),
            is_hex_color(hex@),
    {
        let (r, g, b) = self.get_color_rgb(color);
        hex_color_string(r, g, b)
    }

    /// The stylesheet text that goes into the head of every page.
    fn get_document_css(&self) -> (css: String)
        ensures
            css@ == self.document_css(),
    ;

    /// `content`, which is markup already, inside this theme's card.
    fn compile_section_html(&self, content: String) -> (html: String)
        ensures
            html@ == self.section_html(content@),
    ;
}

} // verus!
