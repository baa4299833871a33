//! Colours, styles and glyphs of the overlay.

use ratatui::style::{Color, Style};
use vstd::prelude::*;

use crate::screen::{bold, style_parts, StyleModel, BOLD};

verus! {

/// The colours and glyphs that the overlay is drawn with.
pub struct Theme {
    pub bg_light: Color,
    pub accent_user: Color,
    pub accent_error: Color,
    pub gray: Color,
    pub gray_dim: Color,
    pub text_primary: Color,
    pub warning: Color,
    /// Applied over the row that has the cursor.
    pub selection_overlay: Style,
    /// The bar down the left edge.
    pub accent_bar: &'static str,
    /// The marker of the row that has the cursor.
    pub filled_dot: &'static str,
}

/// The role of a line of text above the choices.
#[derive(Debug, Clone, Copy, PartialEq, Eq, Structural)]
pub enum Tone {
    Title,
    ErrorTitle,
    Body,
    Muted,
    Warning,
}

/// A style that sets the foreground alone.
pub open spec fn ink(color: Color) -> StyleModel {
    StyleModel { fg: Some(color), bg: None, add: 0, remove: 0 }
}

/// A style that sets the background alone.
pub open spec fn paper(color: Color) -> StyleModel {
    StyleModel { fg: None, bg: Some(color), add: 0, remove: 0 }
}

/// A style that sets both colours.
pub open spec fn ink_on(color: Color, background: Color) -> StyleModel {
    StyleModel { fg: Some(color), bg: Some(background), add: 0, remove: 0 }
}

/// `style`, in bold when `on`.
pub open spec fn bold_if(style: StyleModel, on: bool) -> StyleModel {
    if on {
        StyleModel { add: style.add | BOLD, remove: style.remove & !BOLD, ..style }
    } else {
        style
    }
}

/// The style of a line.
pub open spec fn tone_style(theme: Theme, tone: Tone) -> StyleModel {
    match tone {
        Tone::Title => bold_if(ink(theme.accent_user), true),
        Tone::ErrorTitle => bold_if(ink(theme.accent_error), true),
        Tone::Body => ink(theme.text_primary),
        Tone::Muted => ink(theme.gray),
        Tone::Warning => ink(theme.warning),
    }
}

/// A style that sets the foreground alone.
pub fn inked(color: Color) -> (s: Style)
    ensures
        style_parts(s) == ink(color),
{
    Style::default().fg(color)
}

/// A style that sets the background alone.
pub fn papered(color: Color) -> (s: Style)
    ensures
        style_parts(s) == paper(color),
{
    Style::default().bg(color)
}

/// A style that sets both colours, in bold when `strong`.
pub fn inked_on(color: Color, background: Color, strong: bool) -> (s: Style)
    ensures
        style_parts(s) == bold_if(ink_on(color, background), strong),
{
    let s = Style::default().fg(color).bg(background);
    if strong {
        bold(s)
    } else {
        s
    }
}

impl Theme {
    /// The style of a line.
    pub fn tone(&self, tone: Tone) -> (s: Style)
        ensures
            style_parts(s) == tone_style(*self, tone),
    {
        match tone {
            Tone::Title => bold(inked(self.accent_user)),
            Tone::ErrorTitle => bold(inked(self.accent_error)),
            Tone::Body => inked(self.text_primary),
            Tone::Muted => inked(self.gray),
            Tone::Warning => inked(self.warning),
        }
    }
}

} // verus!
