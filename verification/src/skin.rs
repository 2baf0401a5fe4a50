//! The formatter: how fragments are styled for the terminal.
//!
//! The library says which style marks what; `termimad` renders.

use vstd::prelude::*;

verus! {

/// A foreground colour.
#[derive(Clone, Copy, Debug, PartialEq, Eq, Structural)]
pub enum Color {
    /// The terminal's yellow.
    Yellow,
    /// A colour by its red, green and blue parts.
    Rgb { r: u8, g: u8, b: u8 },
}

/// A way of setting text off.
#[derive(Clone, Copy, Debug, PartialEq, Eq, Structural)]
pub enum Attribute {
    Bold,
    Underlined,
}

/// What a kind of emphasis gets on top of the renderer's own style for it.
#[derive(Debug)]
pub struct Style {
    pub foreground: Color,
    pub attributes: Vec<Attribute>,
}

/// `termimad::MadSkin`, built once from the styles and handed to the
/// renderer with every fragment.
#[verifier::external_type_specification]
#[verifier::external_body]
pub struct ExMadSkin(termimad::MadSkin);

/// The style configuration of a session. It is set once and never changes.
pub struct Skin {
    bold: Style,
    italic: Style,
    renderer: termimad::MadSkin,
}

/// The accent of bold text.
pub open spec fn bold_accent() -> Color {
    Color::Yellow
}

/// The accent of italic text.
pub open spec fn italic_accent() -> Color {
    Color::Rgb { r: 32, g: 157, b: 224 }
}

/// Builds `termimad`'s default skin and puts the two styles on its bold and
/// its italic: `set_fg` for the colour, `add_attr` for each attribute.
/// Nothing is claimed of the result.
#[verifier::external_body]
fn renderer_for(bold: &Style, italic: &Style) -> (renderer: termimad::MadSkin) {
    let mut renderer = termimad::MadSkin::default();
    for (style, target) in [(bold, &mut renderer.bold), (italic, &mut renderer.italic)] {
        target.set_fg(match style.foreground {
            Color::Yellow => termimad::crossterm::style::Color::Yellow,
            Color::Rgb { r, g, b } => termimad::rgb(r, g, b),
        });
        for attribute in style.attributes.iter() {
            target.add_attr(match attribute {
                Attribute::Bold => termimad::crossterm::style::Attribute::Bold,
                Attribute::Underlined => termimad::crossterm::style::Attribute::Underlined,
            });
        }
    }
    renderer
}

/// Calls `termimad::MadSkin::inline` and writes the result out as text. The
/// escape sequences in it depend on the process's environment, so nothing
/// is claimed of the text.
#[verifier::external_body]
fn render_inline(renderer: &termimad::MadSkin, text: &str) -> (shown: String) {
    format!("{}", renderer.inline(text))
}

impl Skin {
    /// The style of bold text.
    pub closed spec fn bold_style(self) -> Style {
        self.bold
    }

    /// The style of italic text.
    pub closed spec fn italic_style(self) -> Style {
        self.italic
    }

    /// Returns the style of bold text.
    pub fn bold(&self) -> (style: &Style)
        ensures
            *style == self.bold_style(),
    {
        &self.bold
    }

    /// Returns the style of italic text.
    pub fn italic(&self) -> (style: &Style)
        ensures
            *style == self.italic_style(),
    {
        &self.italic
    }

    /// Styles one fragment, or any text that stays within a line, for the
    /// terminal.
    pub fn inline(&self, text: &str) -> (shown: String) {
        render_inline(&self.renderer, text)
    }
}

/// Builds the skin of a session: bold text in yellow; italic text
/// underlined, bold, and in a blue of its own.
pub fn get_skin() -> (skin: Skin)
    ensures
        skin.bold_style().foreground == bold_accent(),
        skin.bold_style().attributes@ == Seq::<Attribute>::empty(),
        skin.italic_style().foreground == italic_accent(),
        skin.italic_style().attributes@ == seq![Attribute::Underlined, Attribute::Bold],
{
    let bold = Style { foreground: Color::Yellow, attributes: Vec::new() };
    let mut marks: Vec<Attribute> = Vec::new();
    marks.push(Attribute::Underlined);
    marks.push(Attribute::Bold);
    let italic = Style { foreground: Color::Rgb { r: 32, g: 157, b: 224 }, attributes: marks };
    let renderer = renderer_for(&bold, &italic);
    let skin = Skin { bold, italic, renderer };
    assert(skin.italic_style().attributes@ =~= seq![Attribute::Underlined, Attribute::Bold]);
    skin
}

} // verus!
