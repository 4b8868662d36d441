//! The laid-out geometry of a bar: one rectangle per tab, with named
//! sub-rectangles for the icon, the text and the close affordance.
//!
//! The bar lays itself out at origin `(0, 0)`: tab `i + 1` starts `spacing`
//! pixels right of tab `i`, every tab is `padding` pixels of rim around a
//! label block of the configured width, followed by a square close slot of
//! `close_size + 1` pixels when the close affordance is enabled.

use vstd::prelude::*;

use crate::geometry::Rect;
use crate::tab_bar::{Length, TabBarV};
use crate::tab_label::TabLabelV;

verus! {

/// The largest extent a laid-out row may reach, leaving the coordinate
/// space enough slack that every sub-rectangle's far edge still fits.
pub const MAX_EXTENT: i32 = 0x7ffe_0000;

/// The rectangles of one laid-out tab. The close rectangle is present if
/// and only if the bar's close affordance is enabled; the icon and text
/// rectangles are present as the tab's label shows an icon or a text.
#[derive(Clone, Copy, PartialEq, Eq, Structural, Debug)]
pub struct TabRegion {
    /// The whole tab, the rectangle presses are tested against.
    pub bounds: Rect,
    /// Where the icon glyph is centered, when the label shows one.
    pub icon: Option<Rect>,
    /// Where the text is centered, when the label shows one.
    pub text: Option<Rect>,
    /// The close slot, when the close affordance is enabled.
    pub close: Option<Rect>,
}

/// The laid-out geometry of a whole bar.
pub struct TabBarLayout {
    /// The bar's outer bounds.
    pub bounds: Rect,
    /// One region per tab, in display order.
    pub tabs: Vec<TabRegion>,
}

/// The mathematical shape of a [`TabBarLayout`].
#[verifier::ext_equal]
pub ghost struct TabBarLayoutV {
    pub bounds: Rect,
    pub tabs: Seq<TabRegion>,
}

impl View for TabBarLayout {
    type V = TabBarLayoutV;

    open spec fn view(&self) -> TabBarLayoutV {
        TabBarLayoutV { bounds: self.bounds, tabs: self.tabs@ }
    }
}

/// The integer with the smaller value.
pub open spec fn min_int(a: int, b: int) -> int {
    if a <= b {
        a
    } else {
        b
    }
}

/// The integer with the larger value.
pub open spec fn max_int(a: int, b: int) -> int {
    if a >= b {
        a
    } else {
        b
    }
}

/// The offset that centers an extent of `inner` inside an extent of
/// `outer`, clamped at zero when the content is larger than the room.
pub open spec fn center_off(outer: int, inner: int) -> int {
    if inner <= outer {
        (outer - inner) / 2
    } else {
        0
    }
}

/// The width of the close slot: a square of `close_size + 1` pixels when
/// the close affordance is enabled, else nothing.
pub open spec fn close_extent(bar: TabBarV) -> int {
    if bar.on_close {
        bar.close_size + 1
    } else {
        0
    }
}

/// The width a label asks for when a tab is sized to its content.
pub open spec fn label_intrinsic_width(bar: TabBarV, l: TabLabelV) -> int {
    match l {
        TabLabelV::Icon(_) => bar.icon_size,
        TabLabelV::Text(_) => bar.text_size,
        TabLabelV::IconText(_, _) => max_int(bar.icon_size, bar.text_size),
    }
}

/// The height a label asks for: the icon sits above the text, so both
/// contribute.
pub open spec fn label_intrinsic_height(bar: TabBarV, l: TabLabelV) -> int {
    match l {
        TabLabelV::Icon(_) => bar.icon_size,
        TabLabelV::Text(_) => bar.text_size,
        TabLabelV::IconText(_, _) => bar.icon_size + bar.text_size,
    }
}

/// The label width of one tab when the tabs fill the available width: the
/// space left after the spacing gaps, divided evenly.
pub open spec fn fill_share(bar: TabBarV, avail_width: int) -> int {
    let n = bar.labels.len() as int;
    if n == 0 {
        0
    } else {
        let rem = avail_width - bar.spacing * (n - 1);
        if rem >= 0 {
            rem / n
        } else {
            0
        }
    }
}

/// The width of tab `i`'s label block.
pub open spec fn label_width(bar: TabBarV, avail_width: int, i: int) -> int {
    match bar.tab_width {
        Length::Fixed(w) => w as int,
        Length::Fill => fill_share(bar, avail_width),
        Length::Shrink => label_intrinsic_width(bar, bar.labels[i]),
    }
}

/// The full width of tab `i`: rim, label block, and close slot.
pub open spec fn tab_width_at(bar: TabBarV, avail_width: int, i: int) -> int {
    2 * bar.padding + label_width(bar, avail_width, i) + close_extent(bar)
}

/// The x coordinate where tab `i` starts.
pub open spec fn tab_x(bar: TabBarV, avail_width: int, i: int) -> int
    decreases i,
{
    if i <= 0 {
        0
    } else {
        tab_x(bar, avail_width, i - 1) + tab_width_at(bar, avail_width, i - 1) + bar.spacing
    }
}

/// The total width of the laid-out row of tabs.
pub open spec fn row_extent(bar: TabBarV, avail_width: int) -> int {
    let n = bar.labels.len() as int;
    if n == 0 {
        0
    } else {
        tab_x(bar, avail_width, n - 1) + tab_width_at(bar, avail_width, n - 1)
    }
}

/// The largest height any of the first `i` labels asks for.
pub open spec fn max_label_height(bar: TabBarV, i: int) -> int
    decreases i,
{
    if i <= 0 {
        0
    } else {
        max_int(max_label_height(bar, i - 1), label_intrinsic_height(bar, bar.labels[i - 1]))
    }
}

/// The height the bar asks for when sized to its content.
pub open spec fn content_height(bar: TabBarV) -> int {
    2 * bar.padding + max_int(max_label_height(bar, bar.labels.len() as int), close_extent(bar))
}

/// The bar's laid-out height, capped by `max_height`.
pub open spec fn bar_height(bar: TabBarV, avail_height: int) -> int {
    let wanted = match bar.height {
        Length::Fixed(h) => h as int,
        Length::Fill => avail_height,
        Length::Shrink => content_height(bar),
    };
    min_int(wanted, bar.max_height)
}

/// The bar's laid-out width.
pub open spec fn bar_width(bar: TabBarV, avail_width: int) -> int {
    match bar.width {
        Length::Fixed(w) => w as int,
        Length::Fill => avail_width,
        Length::Shrink => row_extent(bar, avail_width),
    }
}

/// Whether a rectangle sits exactly at the given coordinates.
pub open spec fn rect_is(r: Rect, x: int, y: int, width: int, height: int) -> bool {
    &&& r.x == x
    &&& r.y == y
    &&& r.width == width
    &&& r.height == height
}

/// The exact geometry of tab `i`'s region.
pub open spec fn tab_region_is(
    bar: TabBarV,
    avail_width: int,
    avail_height: int,
    i: int,
    t: TabRegion,
) -> bool {
    let x = tab_x(bar, avail_width, i);
    let h = bar_height(bar, avail_height);
    let lx = x + bar.padding;
    let ly = bar.padding;
    let lw = label_width(bar, avail_width, i);
    let lh = max_int(h - 2 * bar.padding, 0);
    let ce = close_extent(bar);
    &&& rect_is(t.bounds, x, 0, tab_width_at(bar, avail_width, i), h)
    &&& match bar.labels[i] {
        TabLabelV::Icon(_) => {
            &&& t.icon matches Some(r) && rect_is(
                r,
                lx + center_off(lw, bar.icon_size),
                ly + center_off(lh, bar.icon_size),
                bar.icon_size,
                bar.icon_size,
            )
            &&& t.text is None
        },
        TabLabelV::Text(_) => {
            &&& t.icon is None
            &&& t.text matches Some(r) && rect_is(r, lx, ly, lw, lh)
        },
        TabLabelV::IconText(_, _) => {
            &&& t.icon matches Some(r) && rect_is(
                r,
                lx + center_off(lw, bar.icon_size),
                ly,
                bar.icon_size,
                bar.icon_size,
            )
            &&& t.text matches Some(r) && rect_is(
                r,
                lx,
                ly + bar.icon_size,
                lw,
                max_int(lh - bar.icon_size, 0),
            )
        },
    }
    &&& if bar.on_close {
        t.close matches Some(r) && rect_is(
            r,
            x + bar.padding + lw,
            center_off(h, ce),
            ce,
            ce,
        )
    } else {
        t.close is None
    }
}

/// The exact geometry of a whole laid-out bar.
pub open spec fn layout_is(bar: TabBarV, avail_width: int, avail_height: int, l: TabBarLayoutV) -> bool {
    &&& rect_is(l.bounds, 0, 0, bar_width(bar, avail_width), bar_height(bar, avail_height))
    &&& l.tabs.len() == bar.labels.len()
    &&& forall|i: int|
        0 <= i < l.tabs.len() ==> tab_region_is(bar, avail_width, avail_height, i, #[trigger] l.tabs[i])
}

/// The structural agreement between a bar and a laid-out geometry that the
/// event and draw passes walk: one region per tab, a close rectangle on
/// every tab exactly when the close affordance is enabled, and icon and
/// text rectangles as each label shows them. Well-formed rectangles keep
/// every center computable.
pub open spec fn layout_consistent(bar: TabBarV, l: TabBarLayoutV) -> bool {
    &&& l.tabs.len() == bar.labels.len()
    &&& l.bounds.wf()
    &&& forall|i: int| 0 <= i < l.tabs.len() ==> (#[trigger] l.tabs[i]).bounds.wf()
    &&& forall|i: int|
        0 <= i < l.tabs.len() ==> ((#[trigger] l.tabs[i]).close is Some <==> bar.on_close)
    &&& forall|i: int|
        0 <= i < l.tabs.len() ==> ((#[trigger] l.tabs[i]).close matches Some(r) ==> r.wf())
    &&& forall|i: int|
        0 <= i < l.tabs.len() ==> ((#[trigger] l.tabs[i]).icon is Some <==> bar.labels[i].has_icon())
    &&& forall|i: int|
        0 <= i < l.tabs.len() ==> ((#[trigger] l.tabs[i]).icon matches Some(r) ==> r.wf())
    &&& forall|i: int|
        0 <= i < l.tabs.len() ==> ((#[trigger] l.tabs[i]).text is Some <==> bar.labels[i].has_text())
    &&& forall|i: int|
        0 <= i < l.tabs.len() ==> ((#[trigger] l.tabs[i]).text matches Some(r) ==> r.wf())
}

/// The sizing configuration a bar can actually carry: every size fits a
/// 16-bit pixel count.
pub open spec fn config_wf(bar: TabBarV) -> bool {
    &&& 0 <= bar.max_height <= u16::MAX
    &&& 0 <= bar.icon_size <= u16::MAX
    &&& 0 <= bar.text_size <= u16::MAX
    &&& 0 <= bar.close_size <= u16::MAX
    &&& 0 <= bar.padding <= u16::MAX
    &&& 0 <= bar.spacing <= u16::MAX
}

/// The offset that centers content never leaves the room: it is not
/// negative, and content that fits stays inside the outer extent.
pub proof fn lemma_center_off(outer: int, inner: int)
    requires
        0 <= inner,
    ensures
        0 <= center_off(outer, inner),
        inner <= outer ==> center_off(outer, inner) + inner <= outer,
        center_off(outer, inner) <= max_int(outer, 0),
{
    if inner <= outer {
        let d = outer - inner;
        vstd::arithmetic::div_mod::lemma_div_pos_is_pos(d, 2);
        vstd::arithmetic::div_mod::lemma_div_nonincreasing(d, 2);
    }
}

/// Every label width fits a 16-bit pixel count, so every tab width is
/// non-negative and bounded.
pub proof fn lemma_tab_width_bounds(bar: TabBarV, avail_width: int, i: int)
    requires
        config_wf(bar),
        0 <= avail_width <= u16::MAX,
    ensures
        0 <= label_width(bar, avail_width, i) <= u16::MAX,
        0 <= tab_width_at(bar, avail_width, i),
        tab_width_at(bar, avail_width, i) <= 5 * (u16::MAX as int) + 1,
{
    let n = bar.labels.len() as int;
    if bar.tab_width is Fill && n > 0 {
        let rem = avail_width - bar.spacing * (n - 1);
        if rem >= 0 {
            assert(0 <= rem <= avail_width) by (nonlinear_arith)
                requires
                    rem == avail_width - bar.spacing * (n - 1),
                    0 <= bar.spacing,
                    n >= 1,
                    rem >= 0,
            ;
            vstd::arithmetic::div_mod::lemma_div_pos_is_pos(rem, n);
            vstd::arithmetic::div_mod::lemma_div_nonincreasing(rem, n);
        }
    }
}

/// Tab `i` ends at or before the start of tab `i + 1`, so the whole row of
/// any bar with `i < n` tabs stays within the row extent.
pub proof fn lemma_tab_x_bounds(bar: TabBarV, avail_width: int, i: int)
    requires
        config_wf(bar),
        0 <= avail_width <= u16::MAX,
        0 <= i < bar.labels.len(),
    ensures
        0 <= tab_x(bar, avail_width, i),
        tab_x(bar, avail_width, i) + tab_width_at(bar, avail_width, i) <= row_extent(
            bar,
            avail_width,
        ),
    decreases bar.labels.len() - i,
{
    let n = bar.labels.len() as int;
    if i > 0 {
        lemma_tab_x_bounds_low(bar, avail_width, i);
    }
    if i + 1 < n {
        lemma_tab_width_bounds(bar, avail_width, i + 1);
        lemma_tab_x_bounds(bar, avail_width, i + 1);
        assert(tab_x(bar, avail_width, i + 1) == tab_x(bar, avail_width, i) + tab_width_at(
            bar,
            avail_width,
            i,
        ) + bar.spacing);
    }
}

/// Tabs come one after the other: an earlier tab ends at or before a
/// later tab starts.
pub proof fn lemma_tab_x_increasing(bar: TabBarV, avail_width: int, j: int, k: int)
    requires
        config_wf(bar),
        0 <= avail_width <= u16::MAX,
        0 <= j < k,
    ensures
        tab_x(bar, avail_width, j) + tab_width_at(bar, avail_width, j) <= tab_x(
            bar,
            avail_width,
            k,
        ),
    decreases k - j,
{
    if k == j + 1 {
    } else {
        lemma_tab_x_increasing(bar, avail_width, j, k - 1);
        lemma_tab_width_bounds(bar, avail_width, k - 1);
    }
}

/// Every tab starts at a non-negative x coordinate.
proof fn lemma_tab_x_bounds_low(bar: TabBarV, avail_width: int, i: int)
    requires
        config_wf(bar),
        0 <= avail_width <= u16::MAX,
        0 <= i,
    ensures
        0 <= tab_x(bar, avail_width, i),
    decreases i,
{
    if i > 0 {
        lemma_tab_x_bounds_low(bar, avail_width, i - 1);
        lemma_tab_width_bounds(bar, avail_width, i - 1);
    }
}

/// The height of the bar stays within the 18-bit range the coordinate
/// space's slack accounts for.
pub proof fn lemma_bar_height_bounds(bar: TabBarV, avail_height: int)
    requires
        config_wf(bar),
        0 <= avail_height <= u16::MAX,
    ensures
        0 <= bar_height(bar, avail_height) <= 4 * (u16::MAX as int) + 1,
{
    lemma_max_label_height_bounds(bar, bar.labels.len() as int);
}

/// The largest label height is bounded by the two configured sizes.
proof fn lemma_max_label_height_bounds(bar: TabBarV, i: int)
    requires
        config_wf(bar),
    ensures
        0 <= max_label_height(bar, i) <= 2 * (u16::MAX as int),
    decreases i,
{
    if i > 0 {
        lemma_max_label_height_bounds(bar, i - 1);
    }
}

/// A laid-out geometry that meets [`layout_is`] also meets the structural
/// agreement [`layout_consistent`] that the event and draw passes require.
pub proof fn lemma_layout_is_consistent(
    bar: TabBarV,
    avail_width: int,
    avail_height: int,
    l: TabBarLayoutV,
)
    requires
        config_wf(bar),
        0 <= avail_width <= u16::MAX,
        0 <= avail_height <= u16::MAX,
        row_extent(bar, avail_width) <= MAX_EXTENT,
        layout_is(bar, avail_width, avail_height, l),
    ensures
        layout_consistent(bar, l),
{
    let n = bar.labels.len() as int;
    lemma_bar_height_bounds(bar, avail_height);
    if n > 0 {
        lemma_tab_x_bounds(bar, avail_width, n - 1);
        lemma_tab_width_bounds(bar, avail_width, n - 1);
    }
    assert(l.bounds.wf());
    assert forall|i: int| 0 <= i < l.tabs.len() implies (#[trigger] l.tabs[i]).bounds.wf()
        && (l.tabs[i].close matches Some(r) ==> r.wf()) && (l.tabs[i].icon matches Some(r)
        ==> r.wf()) && (l.tabs[i].text matches Some(r) ==> r.wf()) && (l.tabs[i].close is Some
        <==> bar.on_close) && (l.tabs[i].icon is Some <==> bar.labels[i].has_icon()) && (
    l.tabs[i].text is Some <==> bar.labels[i].has_text()) by {
        let h = bar_height(bar, avail_height);
        let lw = label_width(bar, avail_width, i);
        let lh = max_int(h - 2 * bar.padding, 0);
        lemma_tab_x_bounds(bar, avail_width, i);
        lemma_tab_width_bounds(bar, avail_width, i);
        lemma_center_off(lw, bar.icon_size);
        lemma_center_off(lh, bar.icon_size);
        lemma_center_off(h, close_extent(bar));
    }
}

} // verus!
