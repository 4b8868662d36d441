//! The list of drawing primitives a draw pass hands the host's renderer,
//! and the exact contents that list must have.
//!
//! The order matches the paint order: the bar's own background quad first,
//! then, tab by tab, the tab's background quad, its label glyphs, and the
//! close glyph when the close affordance is enabled. The close glyph grows
//! by one pixel while the pointer hovers its slot.

use vstd::prelude::*;

use crate::geometry::{Point, Rect};
use crate::layout::TabBarLayoutV;
use crate::style::{color_or_transparent, Appearance, Color, StyleSheet};
use crate::tab_bar::{Font, TabBarV};
use crate::tab_label::TabLabelV;

verus! {

/// One drawing primitive. A `font` of `None` asks for the host's default
/// font for that primitive's class; the close glyph always uses the
/// host's icon font.
#[derive(Debug)]
pub enum Primitive {
    /// A filled, bordered rectangle.
    Quad { bounds: Rect, border_width: u16, border_color: Color, background: Color },
    /// An icon glyph centered at a point.
    Icon { glyph: char, at: Point, size: u32, color: Color, font: Option<Font> },
    /// A run of text centered at a point.
    Text { content: String, at: Point, size: u32, color: Color, font: Option<Font> },
    /// The built-in close glyph centered at a point.
    CloseIcon { at: Point, size: u32, color: Color },
}

/// The mathematical shape of a [`Primitive`].
pub ghost enum PrimitiveV {
    Quad { bounds: Rect, border_width: u16, border_color: Color, background: Color },
    Icon { glyph: char, at: Point, size: u32, color: Color, font: Option<Font> },
    Text { content: Seq<char>, at: Point, size: u32, color: Color, font: Option<Font> },
    CloseIcon { at: Point, size: u32, color: Color },
}

impl View for Primitive {
    type V = PrimitiveV;

    open spec fn view(&self) -> PrimitiveV {
        match self {
            Primitive::Quad { bounds, border_width, border_color, background } => (
            PrimitiveV::Quad {
                bounds: *bounds,
                border_width: *border_width,
                border_color: *border_color,
                background: *background,
            }),
            Primitive::Icon { glyph, at, size, color, font } => (PrimitiveV::Icon {
                glyph: *glyph,
                at: *at,
                size: *size,
                color: *color,
                font: *font,
            }),
            Primitive::Text { content, at, size, color, font } => (PrimitiveV::Text {
                content: content@,
                at: *at,
                size: *size,
                color: *color,
                font: *font,
            }),
            Primitive::CloseIcon { at, size, color } => (PrimitiveV::CloseIcon {
                at: *at,
                size: *size,
                color: *color,
            }),
        }
    }
}

/// The mathematical shape of a whole list of primitives.
pub open spec fn prims_view(ps: Seq<Primitive>) -> Seq<PrimitiveV> {
    ps.map_values(|p: Primitive| p@)
}

/// The appearance the bar's own background is painted with: the hovered
/// lookup when the pointer is inside the bar's bounds, else the resting
/// one, never the selected variant.
pub open spec fn bar_style(sheet: StyleSheet, l: TabBarLayoutV, cursor: Option<Point>) -> Appearance {
    if l.bounds.spec_contains(crate::event::pointer_or_origin(cursor)) {
        sheet.spec_hovered(false)
    } else {
        sheet.spec_active(false)
    }
}

/// The bar's own background quad.
pub open spec fn bar_quad(sheet: StyleSheet, l: TabBarLayoutV, cursor: Option<Point>) -> PrimitiveV {
    let a = bar_style(sheet, l, cursor);
    PrimitiveV::Quad {
        bounds: l.bounds,
        border_width: a.border_width,
        border_color: color_or_transparent(a.border_color),
        background: color_or_transparent(a.background),
    }
}

/// The appearance tab `i` is painted with: hovered when the pointer is
/// inside the tab's bounds, selected when the tab is the active one.
pub open spec fn tab_style(
    bar: TabBarV,
    sheet: StyleSheet,
    l: TabBarLayoutV,
    cursor: Option<Point>,
    i: int,
) -> Appearance {
    let hovered = l.tabs[i].bounds.spec_contains(crate::event::pointer_or_origin(cursor));
    let selected = i == bar.active_tab;
    if hovered {
        sheet.spec_hovered(selected)
    } else {
        sheet.spec_active(selected)
    }
}

/// Whether the pointer hovers tab `i`'s close slot. Unlike the tab hit
/// tests, a missing pointer position hovers nothing.
pub open spec fn close_hovered(l: TabBarLayoutV, cursor: Option<Point>, i: int) -> bool {
    cursor matches Some(p) && l.tabs[i].close matches Some(c) && c.spec_contains(p)
}

/// The glyph primitives of tab `i`'s label, centered in the icon and text
/// rectangles its laid-out region names.
pub open spec fn label_prims(
    bar: TabBarV,
    sheet: StyleSheet,
    l: TabBarLayoutV,
    cursor: Option<Point>,
    i: int,
) -> Seq<PrimitiveV> {
    let a = tab_style(bar, sheet, l, cursor, i);
    let t = l.tabs[i];
    match bar.labels[i] {
        TabLabelV::Icon(g) => seq![
            PrimitiveV::Icon {
                glyph: g,
                at: t.icon->0.spec_center(),
                size: bar.icon_size as u32,
                color: a.icon_color,
                font: bar.icon_font,
            },
        ],
        TabLabelV::Text(content) => seq![
            PrimitiveV::Text {
                content: content,
                at: t.text->0.spec_center(),
                size: bar.text_size as u32,
                color: a.text_color,
                font: bar.text_font,
            },
        ],
        TabLabelV::IconText(g, content) => seq![
            PrimitiveV::Icon {
                glyph: g,
                at: t.icon->0.spec_center(),
                size: bar.icon_size as u32,
                color: a.icon_color,
                font: bar.icon_font,
            },
            PrimitiveV::Text {
                content: content,
                at: t.text->0.spec_center(),
                size: bar.text_size as u32,
                color: a.text_color,
                font: bar.text_font,
            },
        ],
    }
}

/// The close glyph of tab `i`, present exactly when its region carries a
/// close slot, one pixel larger while the pointer hovers that slot.
pub open spec fn close_prims(
    bar: TabBarV,
    sheet: StyleSheet,
    l: TabBarLayoutV,
    cursor: Option<Point>,
    i: int,
) -> Seq<PrimitiveV> {
    let a = tab_style(bar, sheet, l, cursor, i);
    match l.tabs[i].close {
        Some(c) => seq![
            PrimitiveV::CloseIcon {
                at: c.spec_center(),
                size: (bar.close_size + (if close_hovered(l, cursor, i) {
                    1int
                } else {
                    0int
                })) as u32,
                color: a.icon_color,
            },
        ],
        None => Seq::empty(),
    }
}

/// Everything painted for tab `i`: its background quad, its label glyphs,
/// and its close glyph.
pub open spec fn tab_prims(
    bar: TabBarV,
    sheet: StyleSheet,
    l: TabBarLayoutV,
    cursor: Option<Point>,
    i: int,
) -> Seq<PrimitiveV> {
    let a = tab_style(bar, sheet, l, cursor, i);
    let quad = PrimitiveV::Quad {
        bounds: l.tabs[i].bounds,
        border_width: a.tab_label_border_width,
        border_color: a.tab_label_border_color,
        background: a.tab_label_background,
    };
    seq![quad] + label_prims(bar, sheet, l, cursor, i) + close_prims(bar, sheet, l, cursor, i)
}

/// Everything painted for the first `n` tabs, in display order.
pub open spec fn tabs_prims(
    bar: TabBarV,
    sheet: StyleSheet,
    l: TabBarLayoutV,
    cursor: Option<Point>,
    n: int,
) -> Seq<PrimitiveV>
    decreases n,
{
    if n <= 0 {
        Seq::empty()
    } else {
        tabs_prims(bar, sheet, l, cursor, n - 1) + tab_prims(bar, sheet, l, cursor, n - 1)
    }
}

/// Everything a draw pass paints: the bar's background quad, then every
/// tab.
pub open spec fn draw_prims(
    bar: TabBarV,
    sheet: StyleSheet,
    l: TabBarLayoutV,
    cursor: Option<Point>,
) -> Seq<PrimitiveV> {
    seq![bar_quad(sheet, l, cursor)] + tabs_prims(bar, sheet, l, cursor, l.tabs.len() as int)
}

} // verus!
