//! The tab bar state: an ordered list of (id, label) entries, the index of
//! the active tab, and the sizing and style configuration.

use vstd::prelude::*;

use crate::draw::{bar_quad, draw_prims, prims_view, tab_prims, tab_style, tabs_prims, Primitive};
use crate::style::{Color, StyleSheet};
use crate::event::{
    close_hit, event_response, first_hit, hover_interaction, lemma_first_hit, Event, Interaction,
    Message, MouseButton, Status,
};
use crate::geometry::{Point, Rect};
use crate::layout::{
    bar_height, bar_width, center_off, close_extent, config_wf, fill_share, label_width,
    layout_consistent, layout_is, lemma_layout_is_consistent, lemma_tab_width_bounds,
    lemma_tab_x_bounds, max_label_height, row_extent, tab_region_is, tab_width_at, tab_x,
    TabBarLayout, TabRegion, MAX_EXTENT,
};
use crate::tab_label::{labels_view, TabLabel, TabLabelV};

verus! {

/// The default icon size.
pub const DEFAULT_ICON_SIZE: u16 = 32;

/// The default text size.
pub const DEFAULT_TEXT_SIZE: u16 = 16;

/// The default size of the close icon.
pub const DEFAULT_CLOSE_SIZE: u16 = 16;

/// The default padding between the tabs.
pub const DEFAULT_PADDING: u16 = 5;

/// The default spacing around the tabs.
pub const DEFAULT_SPACING: u16 = 0;

/// An opaque, caller-defined identifier for one tab. The caller maps its own
/// notion of a tab to such an id; the bar only compares and hands back ids.
#[derive(Clone, Copy, PartialEq, Eq, Structural, Debug, Hash)]
pub struct TabId(pub u64);

/// A sizing strategy for the bar or for a single tab.
#[derive(Clone, Copy, PartialEq, Eq, Structural, Debug)]
pub enum Length {
    /// Take all the space the host offers.
    Fill,
    /// Take as much space as the content needs.
    Shrink,
    /// Take a fixed number of pixels.
    Fixed(u16),
}

/// An opaque key naming a font the host has loaded.
#[derive(Clone, Copy, PartialEq, Eq, Structural, Debug)]
pub struct Font(pub u64);

/// An opaque key selecting a themed appearance variant; the host resolves it
/// to concrete colors when it draws.
#[derive(Clone, Copy, PartialEq, Eq, Structural, Debug)]
pub struct StyleToken(pub u64);

/// A tab bar to show tabs.
///
/// The value is built fluently: construct it, push `(id, label)` entries one
/// at a time, and configure sizes and styles; every setter consumes the bar
/// and returns the transformed copy.
pub struct TabBar {
    /// The index of the currently active tab.
    pub(crate) active_tab: usize,
    /// The labels of the tabs, in display order.
    pub(crate) tab_labels: Vec<TabLabel>,
    /// The ids of the tabs, in the same order as the labels.
    pub(crate) tab_indices: Vec<TabId>,
    /// Whether a close affordance is drawn and hit-tested on every tab.
    pub(crate) on_close: bool,
    /// The width of the whole bar.
    pub(crate) width: Length,
    /// The width of each tab.
    pub(crate) tab_width: Length,
    /// The height of the bar.
    pub(crate) height: Length,
    /// The maximum height of the bar.
    pub(crate) max_height: u16,
    /// The icon size.
    pub(crate) icon_size: u16,
    /// The text size.
    pub(crate) text_size: u16,
    /// The size of the close icon.
    pub(crate) close_size: u16,
    /// The padding around a tab's content.
    pub(crate) padding: u16,
    /// The spacing between the tabs.
    pub(crate) spacing: u16,
    /// The font for icon glyphs, if the host's default is not wanted.
    pub(crate) icon_font: Option<Font>,
    /// The font for label texts, if the host's default is not wanted.
    pub(crate) text_font: Option<Font>,
    /// The style token the host resolves when drawing.
    pub(crate) style: StyleToken,
}

/// The mathematical shape of a [`TabBar`].
#[verifier::ext_equal]
pub ghost struct TabBarV {
    pub active_tab: int,
    pub ids: Seq<TabId>,
    pub labels: Seq<TabLabelV>,
    pub on_close: bool,
    pub width: Length,
    pub tab_width: Length,
    pub height: Length,
    pub max_height: int,
    pub icon_size: int,
    pub text_size: int,
    pub close_size: int,
    pub padding: int,
    pub spacing: int,
    pub icon_font: Option<Font>,
    pub text_font: Option<Font>,
    pub style: StyleToken,
}

impl View for TabBar {
    type V = TabBarV;

    closed spec fn view(&self) -> TabBarV {
        TabBarV {
            active_tab: self.active_tab as int,
            ids: self.tab_indices@,
            labels: labels_view(self.tab_labels@),
            on_close: self.on_close,
            width: self.width,
            tab_width: self.tab_width,
            height: self.height,
            max_height: self.max_height as int,
            icon_size: self.icon_size as int,
            text_size: self.text_size as int,
            close_size: self.close_size as int,
            padding: self.padding as int,
            spacing: self.spacing as int,
            icon_font: self.icon_font,
            text_font: self.text_font,
            style: self.style,
        }
    }
}

impl TabBarV {
    /// The bar's invariant: labels and ids pair up, and the active index is
    /// valid, or the bar is empty and the index is zero.
    pub open spec fn wf(self) -> bool {
        &&& self.labels.len() == self.ids.len()
        &&& self.ids.len() == 0 ==> self.active_tab == 0
        &&& self.ids.len() > 0 ==> 0 <= self.active_tab < self.ids.len()
    }

    /// The shape of a freshly built bar holding the given entries.
    pub open spec fn initial(ids: Seq<TabId>, labels: Seq<TabLabelV>) -> TabBarV {
        TabBarV {
            active_tab: 0,
            ids: ids,
            labels: labels,
            on_close: false,
            width: Length::Fill,
            tab_width: Length::Fill,
            height: Length::Shrink,
            max_height: u16::MAX as int,
            icon_size: DEFAULT_ICON_SIZE as int,
            text_size: DEFAULT_TEXT_SIZE as int,
            close_size: DEFAULT_CLOSE_SIZE as int,
            padding: DEFAULT_PADDING as int,
            spacing: DEFAULT_SPACING as int,
            icon_font: None,
            text_font: None,
            style: StyleToken(0),
        }
    }
}

/// The ids of a list of `(id, label)` entries, in order.
pub open spec fn entry_ids(ps: Seq<(TabId, TabLabel)>) -> Seq<TabId> {
    ps.map_values(|p: (TabId, TabLabel)| p.0)
}

/// The label shapes of a list of `(id, label)` entries, in order.
pub open spec fn entry_labels(ps: Seq<(TabId, TabLabel)>) -> Seq<TabLabelV> {
    ps.map_values(|p: (TabId, TabLabel)| p.1@)
}

/// The index of the first entry of `ids` equal to `id`, or 0 when no entry
/// matches.
pub open spec fn first_position(ids: Seq<TabId>, id: TabId) -> int
    decreases ids.len(),
{
    if ids.len() == 0 {
        0
    } else if ids[0] == id {
        0
    } else if ids.skip(1).contains(id) {
        1 + first_position(ids.skip(1), id)
    } else {
        0
    }
}

/// What [`first_position`] delivers: for a present id, the least index that
/// carries it; for an absent id, index 0.
pub proof fn lemma_first_position(ids: Seq<TabId>, id: TabId)
    ensures
        ids.contains(id) ==> 0 <= first_position(ids, id) < ids.len(),
        ids.contains(id) ==> ids[first_position(ids, id)] == id,
        forall|j: int| 0 <= j < first_position(ids, id) ==> ids[j] != id,
        !ids.contains(id) ==> first_position(ids, id) == 0,
    decreases ids.len(),
{
    if ids.len() == 0 {
    } else if ids[0] == id {
        assert(ids.contains(id));
    } else {
        let rest = ids.skip(1);
        lemma_first_position(rest, id);
        assert(forall|j: int| 0 <= j < rest.len() ==> rest[j] == ids[j + 1]);
        if ids.contains(id) {
            let w = choose|w: int| 0 <= w < ids.len() && ids[w] == id;
            assert(rest[w - 1] == id);
            assert(rest.contains(id));
        }
        if rest.contains(id) {
            let k = first_position(rest, id);
            assert(ids[k + 1] == rest[k]);
            let v = choose|v: int| 0 <= v < rest.len() && rest[v] == id;
            assert(ids[v + 1] == id);
            assert(ids.contains(id));
        }
        assert forall|j: int| 0 <= j < first_position(ids, id) implies ids[j] != id by {
            if j > 0 {
                assert(rest[j - 1] != id);
            }
        }
    }
}

/// The round trip of marking and reading the active tab: after
/// `set_active_tab` with an id the bar holds, the active index is valid
/// and `get_active_tab_id` hands that id back.
pub proof fn lemma_set_active_round_trip(bar: TabBarV, id: TabId)
    requires
        bar.wf(),
        bar.ids.contains(id),
    ensures
        0 <= first_position(bar.ids, id) < bar.ids.len(),
        bar.ids[first_position(bar.ids, id)] == id,
{
    lemma_first_position(bar.ids, id);
}

impl TabBar {
    /// Creates a new [`TabBar`] with no tabs. A press on a tab produces a
    /// [`Message`](crate::event::Message) value; the host decides how to
    /// dispatch it.
    pub fn new() -> (t: TabBar)
        ensures
            t@ == TabBarV::initial(Seq::empty(), Seq::empty()),
    {
        Self::with_tab_labels(Vec::new())
    }

    /// Like [`TabBar::new`], but starting from a given list of `(id, label)`
    /// entries.
    pub fn with_tab_labels(tab_labels: Vec<(TabId, TabLabel)>) -> (t: TabBar)
        ensures
            t@ == TabBarV::initial(entry_ids(tab_labels@), entry_labels(tab_labels@)),
    {
        let n = tab_labels.len();
        let mut ids: Vec<TabId> = Vec::new();
        let mut labels: Vec<TabLabel> = Vec::new();
        let mut i: usize = 0;
        while i < n
            invariant
                n == tab_labels.len(),
                i <= n,
                ids@ =~= entry_ids(tab_labels@.subrange(0, i as int)),
                labels@.len() == i,
                forall|k: int| 0 <= k < i ==> labels@[k]@ == tab_labels@[k].1@,
            decreases n - i,
        {
            ids.push(tab_labels[i].0);
            let l = tab_labels[i].1.clone();
            assert(l@ == tab_labels@[i as int].1@);
            labels.push(l);
            proof {
                assert(tab_labels@.subrange(0, i + 1 as int) =~= tab_labels@.subrange(
                    0,
                    i as int,
                ).push(tab_labels@[i as int]));
            }
            i = i + 1;
        }
        proof {
            assert(tab_labels@.subrange(0, n as int) =~= tab_labels@);
            assert(labels_view(labels@) =~= entry_labels(tab_labels@));
        }
        TabBar {
            active_tab: 0,
            tab_labels: labels,
            tab_indices: ids,
            on_close: false,
            width: Length::Fill,
            tab_width: Length::Fill,
            height: Length::Shrink,
            max_height: u16::MAX,
            icon_size: DEFAULT_ICON_SIZE,
            text_size: DEFAULT_TEXT_SIZE,
            close_size: DEFAULT_CLOSE_SIZE,
            padding: DEFAULT_PADDING,
            spacing: DEFAULT_SPACING,
            icon_font: None,
            text_font: None,
            style: StyleToken(0),
        }
    }

    /// Gets the index of the currently active tab.
    pub fn get_active_tab_idx(&self) -> (r: usize)
        ensures
            r == self@.active_tab,
    {
        self.active_tab
    }

    /// Gets the id of the currently active tab, or `None` when the bar holds
    /// no tabs.
    pub fn get_active_tab_id(&self) -> (r: Option<TabId>)
        requires
            self@.wf(),
        ensures
            self@.ids.len() > 0 ==> r == Some(self@.ids[self@.active_tab]),
            self@.ids.len() == 0 ==> r is None,
    {
        if self.active_tab < self.tab_indices.len() {
            Some(self.tab_indices[self.active_tab])
        } else {
            None
        }
    }

    /// Gets the number of tabs.
    pub fn size(&self) -> (r: usize)
        ensures
            r == self@.ids.len(),
    {
        self.tab_indices.len()
    }

    /// Enables the close affordance: an icon on every tab whose press
    /// produces a close message instead of a select message.
    pub fn on_close(self) -> (t: TabBar)
        ensures
            t@ == (TabBarV { on_close: true, ..self@ }),
    {
        let mut t = self;
        t.on_close = true;
        t
    }

    /// Sets the width of the bar.
    pub fn width(self, width: Length) -> (t: TabBar)
        ensures
            t@ == (TabBarV { width: width, ..self@ }),
    {
        let mut t = self;
        t.width = width;
        t
    }

    /// Gets the width of the bar.
    pub fn get_width(&self) -> (r: Length)
        ensures
            r == self@.width,
    {
        self.width
    }

    /// Sets the width of a tab on the bar.
    pub fn tab_width(self, width: Length) -> (t: TabBar)
        ensures
            t@ == (TabBarV { tab_width: width, ..self@ }),
    {
        let mut t = self;
        t.tab_width = width;
        t
    }

    /// Sets the height of the bar.
    pub fn height(self, height: Length) -> (t: TabBar)
        ensures
            t@ == (TabBarV { height: height, ..self@ }),
    {
        let mut t = self;
        t.height = height;
        t
    }

    /// Gets the height of the bar.
    pub fn get_height(&self) -> (r: Length)
        ensures
            r == self@.height,
    {
        self.height
    }

    /// Sets the maximum height of the bar.
    pub fn max_height(self, max_height: u16) -> (t: TabBar)
        ensures
            t@ == (TabBarV { max_height: max_height as int, ..self@ }),
    {
        let mut t = self;
        t.max_height = max_height;
        t
    }

    /// Sets the icon size of the tabs.
    pub fn icon_size(self, icon_size: u16) -> (t: TabBar)
        ensures
            t@ == (TabBarV { icon_size: icon_size as int, ..self@ }),
    {
        let mut t = self;
        t.icon_size = icon_size;
        t
    }

    /// Sets the text size of the tabs.
    pub fn text_size(self, text_size: u16) -> (t: TabBar)
        ensures
            t@ == (TabBarV { text_size: text_size as int, ..self@ }),
    {
        let mut t = self;
        t.text_size = text_size;
        t
    }

    /// Sets the size of the close icon of the tabs.
    pub fn close_size(self, close_size: u16) -> (t: TabBar)
        ensures
            t@ == (TabBarV { close_size: close_size as int, ..self@ }),
    {
        let mut t = self;
        t.close_size = close_size;
        t
    }

    /// Sets the padding around the content of a tab.
    pub fn padding(self, padding: u16) -> (t: TabBar)
        ensures
            t@ == (TabBarV { padding: padding as int, ..self@ }),
    {
        let mut t = self;
        t.padding = padding;
        t
    }

    /// Sets the spacing between the tabs.
    pub fn spacing(self, spacing: u16) -> (t: TabBar)
        ensures
            t@ == (TabBarV { spacing: spacing as int, ..self@ }),
    {
        let mut t = self;
        t.spacing = spacing;
        t
    }

    /// Sets the font of the icon glyphs.
    pub fn icon_font(self, icon_font: Font) -> (t: TabBar)
        ensures
            t@ == (TabBarV { icon_font: Some(icon_font), ..self@ }),
    {
        let mut t = self;
        t.icon_font = Some(icon_font);
        t
    }

    /// Sets the font of the label texts.
    pub fn text_font(self, text_font: Font) -> (t: TabBar)
        ensures
            t@ == (TabBarV { text_font: Some(text_font), ..self@ }),
    {
        let mut t = self;
        t.text_font = Some(text_font);
        t
    }

    /// Sets the style token of the bar.
    pub fn style(self, style: StyleToken) -> (t: TabBar)
        ensures
            t@ == (TabBarV { style: style, ..self@ }),
    {
        let mut t = self;
        t.style = style;
        t
    }

    /// Pushes one `(id, label)` entry onto the end of the bar.
    pub fn push(self, id: TabId, tab_label: TabLabel) -> (t: TabBar)
        ensures
            t@ == (TabBarV {
                ids: self@.ids.push(id),
                labels: self@.labels.push(tab_label@),
                ..self@
            }),
    {
        let mut t = self;
        t.tab_labels.push(tab_label);
        t.tab_indices.push(id);
        proof {
            assert(labels_view(t.tab_labels@) =~= self@.labels.push(
                t.tab_labels@[t.tab_labels@.len() - 1]@,
            ));
        }
        t
    }

    /// Marks the first tab carrying `active_tab` as the active one, or tab 0
    /// when no tab carries it. No error is raised for an absent id.
    pub fn set_active_tab(self, active_tab: &TabId) -> (t: TabBar)
        ensures
            t@ == (TabBarV { active_tab: first_position(self@.ids, *active_tab), ..self@ }),
    {
        let ghost ids = self@.ids;
        let mut t = self;
        let n = t.tab_indices.len();
        let mut i: usize = 0;
        let mut found: usize = 0;
        let mut any: bool = false;
        while i < n && !any
            invariant
                n == t.tab_indices.len(),
                ids == t.tab_indices@,
                i <= n,
                !any ==> found == 0,
                !any ==> forall|j: int| 0 <= j < i ==> ids[j] != *active_tab,
                any ==> 0 <= found < n && ids[found as int] == *active_tab && forall|j: int|
                    0 <= j < found ==> ids[j] != *active_tab,
            decreases n - i + (if any { 0int } else { 1int }),
        {
            if t.tab_indices[i] == *active_tab {
                found = i;
                any = true;
            } else {
                i = i + 1;
            }
        }
        proof {
            lemma_first_position(ids, *active_tab);
            if any {
                assert(ids.contains(*active_tab));
                let k = first_position(ids, *active_tab);
                assert(k <= found as int);
                assert(found as int <= k);
            } else {
                if ids.contains(*active_tab) {
                    let w = choose|w: int| 0 <= w < ids.len() && ids[w] == *active_tab;
                    assert(false);
                }
            }
        }
        t.active_tab = found;
        t
    }
}


/// The offset that centers an extent of `inner` inside an extent of
/// `outer`, clamped at zero.
fn center_off_px(outer: i32, inner: i32) -> (r: i32)
    requires
        0 <= inner,
        0 <= outer,
    ensures
        r == center_off(outer as int, inner as int),
        0 <= r <= outer,
{
    proof {
        crate::layout::lemma_center_off(outer as int, inner as int);
    }
    if inner <= outer {
        (outer - inner) / 2
    } else {
        0
    }
}

impl TabBar {
    /// Every size a bar carries fits a 16-bit pixel count.
    pub proof fn lemma_config_wf(&self)
        ensures
            config_wf(self@),
    {
    }

    /// The even label width of one tab when the tabs fill the available
    /// width.
    fn fill_share_px(&self, avail_width: u16) -> (r: u16)
        ensures
            r as int == fill_share(self@, avail_width as int),
    {
        let n = self.tab_labels.len();
        if n == 0 {
            0
        } else {
            let m: u128 = (n - 1) as u128;
            proof {
                assert((self.spacing as u128) * m <= (u16::MAX as u128) * (u64::MAX as u128))
                    by (nonlinear_arith)
                    requires
                        self.spacing as u128 <= u16::MAX as u128,
                        m <= u64::MAX as u128,
                ;
            }
            let gaps: u128 = (self.spacing as u128) * m;
            if (avail_width as u128) >= gaps {
                let rem: u128 = avail_width as u128 - gaps;
                let share: u128 = rem / (n as u128);
                proof {
                    vstd::arithmetic::div_mod::lemma_div_pos_is_pos(rem as int, n as int);
                    vstd::arithmetic::div_mod::lemma_div_nonincreasing(rem as int, n as int);
                }
                share as u16
            } else {
                0
            }
        }
    }

    /// The width of tab `i`'s label block, given the precomputed fill
    /// share.
    fn label_width_px(&self, share: u16, i: usize, Ghost(aw): Ghost<int>) -> (r: u16)
        requires
            i < self.tab_labels@.len(),
            share as int == fill_share(self@, aw),
        ensures
            r as int == label_width(self@, aw, i as int),
    {
        match self.tab_width {
            Length::Fixed(w) => w,
            Length::Fill => share,
            Length::Shrink => match &self.tab_labels[i] {
                TabLabel::Icon(_) => self.icon_size,
                TabLabel::Text(_) => self.text_size,
                TabLabel::IconText(_, _) => {
                    if self.icon_size >= self.text_size {
                        self.icon_size
                    } else {
                        self.text_size
                    }
                },
            },
        }
    }

    /// The bar's laid-out height in pixels.
    fn bar_height_px(&self, avail_height: u16) -> (r: i32)
        ensures
            r as int == bar_height(self@, avail_height as int),
            0 <= r <= 4 * (u16::MAX as int) + 1,
    {
        let ghost bar = self@;
        let n = self.tab_labels.len();
        let close_e: i32 = if self.on_close {
            self.close_size as i32 + 1
        } else {
            0
        };
        let mut mh: i32 = 0;
        let mut j: usize = 0;
        while j < n
            invariant
                n == self.tab_labels@.len(),
                bar == self@,
                j <= n,
                mh as int == max_label_height(bar, j as int),
                0 <= mh <= 2 * (u16::MAX as int),
            decreases n - j,
        {
            let lh: i32 = match &self.tab_labels[j] {
                TabLabel::Icon(_) => self.icon_size as i32,
                TabLabel::Text(_) => self.text_size as i32,
                TabLabel::IconText(_, _) => self.icon_size as i32 + self.text_size as i32,
            };
            if lh > mh {
                mh = lh;
            }
            j = j + 1;
        }
        let content: i32 = 2 * (self.padding as i32) + (if mh >= close_e {
            mh
        } else {
            close_e
        });
        let wanted: i32 = match self.height {
            Length::Fixed(h) => h as i32,
            Length::Fill => avail_height as i32,
            Length::Shrink => content,
        };
        let cap: i32 = self.max_height as i32;
        if wanted <= cap {
            wanted
        } else {
            cap
        }
    }

    /// Whether the whole row of tabs fits the coordinate space, which is
    /// what [`TabBar::layout`] asks of its caller.
    pub fn layout_fits(&self, avail_width: u16) -> (r: bool)
        ensures
            r == (row_extent(self@, avail_width as int) <= MAX_EXTENT as int),
    {
        proof {
            self.lemma_config_wf();
        }
        let ghost bar = self@;
        let ghost aw = avail_width as int;
        let n = self.tab_labels.len();
        let share = self.fill_share_px(avail_width);
        let close_e: i32 = if self.on_close {
            self.close_size as i32 + 1
        } else {
            0
        };
        let mut x: i64 = 0;
        let mut i: usize = 0;
        while i < n
            invariant
                n == self.tab_labels@.len(),
                bar == self@,
                aw == avail_width as int,
                share as int == fill_share(bar, aw),
                close_e as int == close_extent(bar),
                i <= n,
                x as int == tab_x(bar, aw, i as int),
                0 <= x <= MAX_EXTENT as int + 6 * (u16::MAX as int),
                i > 0 ==> tab_x(bar, aw, i - 1) + tab_width_at(bar, aw, i - 1) <= MAX_EXTENT
                    as int,
            decreases n - i,
        {
            proof {
                lemma_tab_x_bounds(bar, aw, i as int);
                lemma_tab_width_bounds(bar, aw, i as int);
            }
            let lw = self.label_width_px(share, i, Ghost(aw));
            let tw: i64 = 2 * (self.padding as i64) + lw as i64 + close_e as i64;
            if x + tw > MAX_EXTENT as i64 {
                return false;
            }
            x = x + tw + self.spacing as i64;
            i = i + 1;
        }
        if n == 0 {
            true
        } else {
            proof {
                lemma_tab_x_bounds(bar, aw, n - 1 as int);
            }
            true
        }
    }

    /// Lays the bar out at origin `(0, 0)` within the given available
    /// space, producing the bar's outer bounds and one named region per
    /// tab. [`TabBar::layout_fits`] decides the precondition.
    pub fn layout(&self, avail_width: u16, avail_height: u16) -> (r: TabBarLayout)
        requires
            row_extent(self@, avail_width as int) <= MAX_EXTENT as int,
        ensures
            layout_is(self@, avail_width as int, avail_height as int, r@),
            layout_consistent(self@, r@),
    {
        proof {
            self.lemma_config_wf();
        }
        let ghost bar = self@;
        let ghost aw = avail_width as int;
        let ghost ah = avail_height as int;
        let n = self.tab_labels.len();
        let share = self.fill_share_px(avail_width);
        let bar_h = self.bar_height_px(avail_height);
        let close_e: i32 = if self.on_close {
            self.close_size as i32 + 1
        } else {
            0
        };
        let pad: i32 = self.padding as i32;
        let isz: i32 = self.icon_size as i32;
        let lh: i32 = if bar_h - 2 * pad >= 0 {
            bar_h - 2 * pad
        } else {
            0
        };
        let mut tabs: Vec<TabRegion> = Vec::new();
        let mut x: i64 = 0;
        let mut ext: i64 = 0;
        let mut i: usize = 0;
        while i < n
            invariant
                n == self.tab_labels@.len(),
                bar == self@,
                aw == avail_width as int,
                ah == avail_height as int,
                row_extent(bar, aw) <= MAX_EXTENT as int,
                share as int == fill_share(bar, aw),
                close_e as int == close_extent(bar),
                bar_h as int == bar_height(bar, ah),
                0 <= bar_h <= 4 * (u16::MAX as int) + 1,
                pad == self.padding as int,
                isz == self.icon_size as int,
                lh as int == (if bar_height(bar, ah) - 2 * bar.padding >= 0 {
                    bar_height(bar, ah) - 2 * bar.padding
                } else {
                    0
                }),
                i <= n,
                x as int == tab_x(bar, aw, i as int),
                0 <= x <= MAX_EXTENT as int + 6 * (u16::MAX as int),
                i == 0 ==> ext == 0,
                i > 0 ==> ext as int == tab_x(bar, aw, i - 1) + tab_width_at(bar, aw, i - 1),
                tabs@.len() == i,
                forall|k: int| 0 <= k < i ==> tab_region_is(bar, aw, ah, k, #[trigger] tabs@[k]),
            decreases n - i,
        {
            proof {
                lemma_tab_x_bounds(bar, aw, i as int);
                lemma_tab_width_bounds(bar, aw, i as int);
            }
            let lw = self.label_width_px(share, i, Ghost(aw));
            let tw: i32 = 2 * pad + lw as i32 + close_e;
            let xi: i32 = x as i32;
            let lx: i32 = xi + pad;
            let ly: i32 = pad;
            let lwx: i32 = lw as i32;
            let (icon, text): (Option<Rect>, Option<Rect>) = match &self.tab_labels[i] {
                TabLabel::Icon(_) => (
                    Some(
                        Rect {
                            x: lx + center_off_px(lwx, isz),
                            y: ly + center_off_px(lh, isz),
                            width: isz,
                            height: isz,
                        },
                    ),
                    None,
                ),
                TabLabel::Text(_) => (
                    None,
                    Some(Rect { x: lx, y: ly, width: lwx, height: lh }),
                ),
                TabLabel::IconText(_, _) => (
                    Some(
                        Rect {
                            x: lx + center_off_px(lwx, isz),
                            y: ly,
                            width: isz,
                            height: isz,
                        },
                    ),
                    Some(
                        Rect {
                            x: lx,
                            y: ly + isz,
                            width: lwx,
                            height: if lh - isz >= 0 {
                                lh - isz
                            } else {
                                0
                            },
                        },
                    ),
                ),
            };
            let close: Option<Rect> = if self.on_close {
                Some(
                    Rect {
                        x: xi + pad + lwx,
                        y: center_off_px(bar_h, close_e),
                        width: close_e,
                        height: close_e,
                    },
                )
            } else {
                None
            };
            let region = TabRegion {
                bounds: Rect { x: xi, y: 0, width: tw, height: bar_h },
                icon,
                text,
                close,
            };
            assert(tab_region_is(bar, aw, ah, i as int, region));
            tabs.push(region);
            ext = x + tw as i64;
            x = x + tw as i64 + self.spacing as i64;
            i = i + 1;
        }
        let bw: i32 = match self.width {
            Length::Fixed(w) => w as i32,
            Length::Fill => avail_width as i32,
            Length::Shrink => ext as i32,
        };
        let r = TabBarLayout { bounds: Rect { x: 0, y: 0, width: bw, height: bar_h }, tabs };
        proof {
            lemma_layout_is_consistent(bar, aw, ah, r@);
        }
        r
    }
}


impl TabBar {
    /// Reacts to one input event against the laid-out geometry: a press on
    /// a tab consumes the event and produces the select message, or the
    /// close message when it lands on the enabled close slot; everything
    /// else is left unconsumed. A missing pointer position hit-tests as
    /// the origin.
    pub fn on_event(&self, layout: &TabBarLayout, event: Event, cursor: Option<Point>) -> (r: (
        Option<Message>,
        Status,
    ))
        requires
            self@.wf(),
            layout_consistent(self@, layout@),
        ensures
            r == event_response(self@, layout@, event, cursor),
    {
        let ghost bar = self@;
        let ghost lv = layout@;
        let press = match event {
            Event::MouseButtonPressed(MouseButton::Left) => true,
            Event::TouchFingerPressed => true,
            _ => false,
        };
        if !press {
            return (None, Status::Ignored);
        }
        let p = match cursor {
            Some(q) => q,
            None => Point { x: 0, y: 0 },
        };
        if !layout.bounds.contains(p) {
            return (None, Status::Ignored);
        }
        let n = layout.tabs.len();
        let mut i: usize = 0;
        while i < n
            invariant
                bar == self@,
                lv == layout@,
                n == layout.tabs@.len(),
                i <= n,
                self@.wf(),
                layout_consistent(bar, lv),
                p == crate::event::pointer_or_origin(cursor),
                crate::event::is_press(event),
                lv.bounds.spec_contains(p),
                forall|j: int| 0 <= j < i ==> !(#[trigger] lv.tabs[j]).bounds.spec_contains(p),
            decreases n - i,
        {
            if layout.tabs[i].bounds.contains(p) {
                proof {
                    lemma_first_hit(lv.tabs, p);
                    match first_hit(lv.tabs, p) {
                        Some(m) => {
                            assert(m == i as int);
                        },
                        None => {
                            assert(!lv.tabs[i as int].bounds.spec_contains(p));
                        },
                    }
                }
                let close_hit_now: bool = if self.on_close {
                    match layout.tabs[i].close {
                        Some(c) => c.contains(p),
                        None => {
                            proof {
                                assert(false);
                            }
                            false
                        },
                    }
                } else {
                    false
                };
                assert(close_hit_now == close_hit(bar, lv, i as int, p));
                let id = self.tab_indices[i];
                if close_hit_now {
                    return (Some(Message::Close(id)), Status::Captured);
                } else {
                    return (Some(Message::Select(id)), Status::Captured);
                }
            }
            i = i + 1;
        }
        proof {
            lemma_first_hit(lv.tabs, p);
            match first_hit(lv.tabs, p) {
                Some(m) => {
                    assert(!lv.tabs[m].bounds.spec_contains(p));
                },
                None => {},
            }
        }
        (None, Status::Ignored)
    }

    /// The cursor affordance for the current pointer: a clickable pointer
    /// exactly when the pointer lies within some tab's rectangle. A
    /// missing pointer position hit-tests as the origin.
    pub fn mouse_interaction(&self, layout: &TabBarLayout, cursor: Option<Point>) -> (r:
        Interaction)
        ensures
            r == hover_interaction(layout@, cursor),
    {
        let p = match cursor {
            Some(q) => q,
            None => Point { x: 0, y: 0 },
        };
        let n = layout.tabs.len();
        let mut i: usize = 0;
        while i < n
            invariant
                n == layout.tabs@.len(),
                i <= n,
                p == crate::event::pointer_or_origin(cursor),
                forall|j: int|
                    0 <= j < i ==> !(#[trigger] layout.tabs@[j]).bounds.spec_contains(p),
            decreases n - i,
        {
            if layout.tabs[i].bounds.contains(p) {
                return Interaction::Pointer;
            }
            i = i + 1;
        }
        Interaction::Idle
    }
}


impl TabBar {
    /// Paints one tab into `out`: its background quad, its label glyphs
    /// centered in the rectangles its region names, and its close glyph
    /// when the region carries a close slot.
    fn draw_tab(
        &self,
        layout: &TabBarLayout,
        i: usize,
        cursor: Option<Point>,
        sheet: &StyleSheet,
        out: &mut Vec<Primitive>,
    )
        requires
            self@.wf(),
            layout_consistent(self@, layout@),
            i < layout.tabs@.len(),
        ensures
            prims_view(final(out)@) == prims_view(old(out)@) + tab_prims(
                self@,
                *sheet,
                layout@,
                cursor,
                i as int,
            ),
    {
        let ghost bar = self@;
        let ghost lv = layout@;
        let t = layout.tabs[i];
        let p = match cursor {
            Some(q) => q,
            None => Point { x: 0, y: 0 },
        };
        let hovered = t.bounds.contains(p);
        let selected = i == self.active_tab;
        let a = if hovered {
            sheet.hovered(selected)
        } else {
            sheet.active(selected)
        };
        assert(a == tab_style(bar, *sheet, lv, cursor, i as int));
        out.push(
            Primitive::Quad {
                bounds: t.bounds,
                border_width: a.tab_label_border_width,
                border_color: a.tab_label_border_color,
                background: a.tab_label_background,
            },
        );
        match &self.tab_labels[i] {
            TabLabel::Icon(g) => {
                let ir = match t.icon {
                    Some(r) => r,
                    None => {
                        proof {
                            assert(false);
                        }
                        Rect { x: 0, y: 0, width: 0, height: 0 }
                    },
                };
                out.push(
                    Primitive::Icon {
                        glyph: *g,
                        at: ir.center(),
                        size: self.icon_size as u32,
                        color: a.icon_color,
                        font: self.icon_font,
                    },
                );
            },
            TabLabel::Text(s) => {
                let tr = match t.text {
                    Some(r) => r,
                    None => {
                        proof {
                            assert(false);
                        }
                        Rect { x: 0, y: 0, width: 0, height: 0 }
                    },
                };
                out.push(
                    Primitive::Text {
                        content: s.clone(),
                        at: tr.center(),
                        size: self.text_size as u32,
                        color: a.text_color,
                        font: self.text_font,
                    },
                );
            },
            TabLabel::IconText(g, s) => {
                let ir = match t.icon {
                    Some(r) => r,
                    None => {
                        proof {
                            assert(false);
                        }
                        Rect { x: 0, y: 0, width: 0, height: 0 }
                    },
                };
                let tr = match t.text {
                    Some(r) => r,
                    None => {
                        proof {
                            assert(false);
                        }
                        Rect { x: 0, y: 0, width: 0, height: 0 }
                    },
                };
                out.push(
                    Primitive::Icon {
                        glyph: *g,
                        at: ir.center(),
                        size: self.icon_size as u32,
                        color: a.icon_color,
                        font: self.icon_font,
                    },
                );
                out.push(
                    Primitive::Text {
                        content: s.clone(),
                        at: tr.center(),
                        size: self.text_size as u32,
                        color: a.text_color,
                        font: self.text_font,
                    },
                );
            },
        }
        match t.close {
            Some(c) => {
                let ch = match cursor {
                    Some(q) => c.contains(q),
                    None => false,
                };
                let size: u32 = self.close_size as u32 + (if ch {
                    1
                } else {
                    0
                });
                out.push(Primitive::CloseIcon { at: c.center(), size, color: a.icon_color });
            },
            None => {},
        }
        proof {
            assert(prims_view(out@) =~= prims_view(old(out)@) + tab_prims(
                bar,
                *sheet,
                lv,
                cursor,
                i as int,
            ));
        }
    }

    /// Lists everything a renderer has to paint for the bar: the bar's
    /// background quad, styled by whether the pointer is inside the bar,
    /// then every tab in display order. A missing pointer position
    /// hit-tests as the origin, except that it hovers no close slot.
    pub fn draw(&self, layout: &TabBarLayout, cursor: Option<Point>, sheet: &StyleSheet) -> (r:
        Vec<Primitive>)
        requires
            self@.wf(),
            layout_consistent(self@, layout@),
        ensures
            prims_view(r@) == draw_prims(self@, *sheet, layout@, cursor),
    {
        let ghost bar = self@;
        let ghost lv = layout@;
        let p = match cursor {
            Some(q) => q,
            None => Point { x: 0, y: 0 },
        };
        let hovered = layout.bounds.contains(p);
        let a = if hovered {
            sheet.hovered(false)
        } else {
            sheet.active(false)
        };
        let bg = match a.background {
            Some(c) => c,
            None => Color { red: 0, green: 0, blue: 0, alpha: 0 },
        };
        let bc = match a.border_color {
            Some(c) => c,
            None => Color { red: 0, green: 0, blue: 0, alpha: 0 },
        };
        let mut out: Vec<Primitive> = Vec::new();
        out.push(
            Primitive::Quad {
                bounds: layout.bounds,
                border_width: a.border_width,
                border_color: bc,
                background: bg,
            },
        );
        proof {
            assert(prims_view(out@) =~= seq![bar_quad(*sheet, lv, cursor)] + tabs_prims(
                bar,
                *sheet,
                lv,
                cursor,
                0,
            ));
        }
        let n = layout.tabs.len();
        let mut i: usize = 0;
        while i < n
            invariant
                bar == self@,
                lv == layout@,
                n == layout.tabs@.len(),
                i <= n,
                self@.wf(),
                layout_consistent(bar, lv),
                prims_view(out@) == seq![bar_quad(*sheet, lv, cursor)] + tabs_prims(
                    bar,
                    *sheet,
                    lv,
                    cursor,
                    i as int,
                ),
            decreases n - i,
        {
            self.draw_tab(layout, i, cursor, sheet, &mut out);
            proof {
                assert(prims_view(out@) =~= seq![bar_quad(*sheet, lv, cursor)] + tabs_prims(
                    bar,
                    *sheet,
                    lv,
                    cursor,
                    i + 1,
                ));
            }
            i = i + 1;
        }
        out
    }
}


} // verus!
