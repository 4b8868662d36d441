//! The visual content of one tab: an icon glyph, a text, or both.

use vstd::prelude::*;

verus! {

/// The label of a tab. Immutable once pushed onto a bar.
#[derive(Debug)]
pub enum TabLabel {
    /// An icon glyph alone.
    Icon(char),
    /// A text alone.
    Text(String),
    /// An icon glyph above a text.
    IconText(char, String),
}

/// The mathematical shape of a [`TabLabel`]: the text as a sequence of
/// characters.
pub ghost enum TabLabelV {
    Icon(char),
    Text(Seq<char>),
    IconText(char, Seq<char>),
}

impl View for TabLabel {
    type V = TabLabelV;

    open spec fn view(&self) -> TabLabelV {
        match self {
            TabLabel::Icon(c) => TabLabelV::Icon(*c),
            TabLabel::Text(s) => TabLabelV::Text(s@),
            TabLabel::IconText(c, s) => TabLabelV::IconText(*c, s@),
        }
    }
}

impl Clone for TabLabel {
    /// A clone shows the same glyph and the same characters.
    fn clone(&self) -> (r: Self)
        ensures
            r@ == self@,
    {
        match self {
            TabLabel::Icon(c) => TabLabel::Icon(*c),
            TabLabel::Text(s) => TabLabel::Text(s.clone()),
            TabLabel::IconText(c, s) => TabLabel::IconText(*c, s.clone()),
        }
    }
}

/// The mathematical shape of a whole list of labels.
pub open spec fn labels_view(ls: Seq<TabLabel>) -> Seq<TabLabelV> {
    ls.map_values(|l: TabLabel| l@)
}

impl TabLabelV {
    /// Whether this label shows an icon glyph.
    pub open spec fn has_icon(self) -> bool {
        self is Icon || self is IconText
    }

    /// Whether this label shows a text.
    pub open spec fn has_text(self) -> bool {
        self is Text || self is IconText
    }
}

} // verus!
