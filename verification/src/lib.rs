//! A selectable tab-bar control, modelled over integer pixel geometry.
//!
//! The crate keeps the state of a horizontal strip of tabs (a label and an
//! opaque id per tab, one tab active), computes the rectangles the tabs
//! occupy, decides which message a pointer press produces, reports the hover
//! affordance, and lists the drawing primitives a renderer has to paint.
//! All of that is pure: a host toolkit feeds plain values in (available
//! space, pointer position, resolved styles) and performs the painting and
//! message dispatch itself.

pub mod geometry;
pub mod tab_label;
pub mod layout;
pub mod event;
pub mod style;
pub mod draw;
pub mod tab_bar;
