//! The resolved appearance a theme hands the bar for drawing.
//!
//! The bar itself only carries an opaque style token; before a draw pass
//! the host resolves that token, for each of the four (hovered, selected)
//! states, to a record of colors and border metrics.

use vstd::prelude::*;

verus! {

/// An sRGB color with an alpha channel.
#[derive(Clone, Copy, PartialEq, Eq, Structural, Debug)]
pub struct Color {
    pub red: u8,
    pub green: u8,
    pub blue: u8,
    pub alpha: u8,
}

/// The fully transparent color, painted where a theme resolves no color.
pub open spec fn transparent() -> Color {
    Color { red: 0, green: 0, blue: 0, alpha: 0 }
}

/// The color a theme resolved, or transparent where it resolved none.
pub open spec fn color_or_transparent(c: Option<Color>) -> Color {
    match c {
        Some(c) => c,
        None => transparent(),
    }
}

/// The colors and border metrics for one bar-or-tab state.
#[derive(Clone, Copy, PartialEq, Eq, Structural, Debug)]
pub struct Appearance {
    /// The background of the whole bar, if any.
    pub background: Option<Color>,
    /// The border color of the whole bar, if any.
    pub border_color: Option<Color>,
    /// The border width of the whole bar.
    pub border_width: u16,
    /// The background of a tab.
    pub tab_label_background: Color,
    /// The border color of a tab.
    pub tab_label_border_color: Color,
    /// The border width of a tab.
    pub tab_label_border_width: u16,
    /// The color of icon glyphs, the close glyph included.
    pub icon_color: Color,
    /// The color of label texts.
    pub text_color: Color,
}

/// A style token resolved for every state a draw pass can ask about:
/// resting or hovered, crossed with unselected or selected.
#[derive(Clone, Copy, PartialEq, Eq, Structural, Debug)]
pub struct StyleSheet {
    /// Resting, not the active tab; also the resting bar itself.
    pub active_base: Appearance,
    /// Resting, the active tab.
    pub active_selected: Appearance,
    /// Hovered, not the active tab; also the hovered bar itself.
    pub hovered_base: Appearance,
    /// Hovered, the active tab.
    pub hovered_selected: Appearance,
}

impl StyleSheet {
    /// The appearance of a resting bar or tab.
    pub open spec fn spec_active(self, is_selected: bool) -> Appearance {
        if is_selected {
            self.active_selected
        } else {
            self.active_base
        }
    }

    /// The appearance of a hovered bar or tab.
    pub open spec fn spec_hovered(self, is_selected: bool) -> Appearance {
        if is_selected {
            self.hovered_selected
        } else {
            self.hovered_base
        }
    }

    /// Picks the appearance of a resting bar or tab.
    pub fn active(&self, is_selected: bool) -> (a: Appearance)
        ensures
            a == self.spec_active(is_selected),
    {
        if is_selected {
            self.active_selected
        } else {
            self.active_base
        }
    }

    /// Picks the appearance of a hovered bar or tab.
    pub fn hovered(&self, is_selected: bool) -> (a: Appearance)
        ensures
            a == self.spec_hovered(is_selected),
    {
        if is_selected {
            self.hovered_selected
        } else {
            self.hovered_base
        }
    }
}

} // verus!
