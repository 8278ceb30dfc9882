//! The dynamic combinators: a child rebuilt from a prototype during the
//! widget pass, and a watcher that detects out-of-band data mutation.

use vstd::prelude::*;

use crate::data::Data;
use crate::widget::Widget;

verus! {

/// Rebuilds its entire child as a fresh copy of a prototype during the
/// widget pass; before the first rebuild it has no child and behaves as
/// empty.
#[derive(Debug)]
pub struct Dynamic<E> {
    pub child: Option<Box<Widget<E>>>,
    pub proto: Box<Widget<E>>,
}

impl<E> Dynamic<E> {
    pub open spec fn spec_new(proto: Widget<E>) -> Dynamic<E> {
        Dynamic { child: None, proto: Box::new(proto) }
    }

    pub fn new(proto: Widget<E>) -> (r: Dynamic<E>)
        ensures
            r == Dynamic::spec_new(proto),
    {
        Dynamic { child: None, proto: Box::new(proto) }
    }

    pub fn into_widget(self) -> (r: Widget<E>)
        ensures
            r == Widget::Dynamic(self),
    {
        Widget::Dynamic(self)
    }
}

/// Which of the three invalidation levels a watcher raises when the data it
/// sees changed since the last frame.
#[derive(Clone, Copy, PartialEq, Eq, Structural, Debug)]
pub enum WatchLevel {
    Paint,
    Layout,
    Widget,
}

/// Compares the data it sees against the previous frame's value every
/// update and raises the configured invalidation level on a change.
/// The comparison is structural.
#[derive(Debug)]
pub struct Watch<E> {
    pub child: Box<Widget<E>>,
    pub data: Option<Data>,
    pub level: WatchLevel,
}

impl<E> Watch<E> {
    pub open spec fn spec_new(child: Widget<E>) -> Watch<E> {
        Watch { child: Box::new(child), data: None, level: WatchLevel::Paint }
    }

    pub fn new(child: Widget<E>) -> (r: Watch<E>)
        ensures
            r == Watch::spec_new(child),
    {
        Watch { child: Box::new(child), data: None, level: WatchLevel::Paint }
    }

    /// Raises only a repaint on change.
    pub fn paint(self) -> (r: Watch<E>)
        ensures
            r == (Watch { level: WatchLevel::Paint, ..self }),
    {
        Watch { level: WatchLevel::Paint, ..self }
    }

    /// Raises a layout recompute on change.
    pub fn layout(self) -> (r: Watch<E>)
        ensures
            r == (Watch { level: WatchLevel::Layout, ..self }),
    {
        Watch { level: WatchLevel::Layout, ..self }
    }

    /// Raises a widget-level recompute on change.
    pub fn widget(self) -> (r: Watch<E>)
        ensures
            r == (Watch { level: WatchLevel::Widget, ..self }),
    {
        Watch { level: WatchLevel::Widget, ..self }
    }

    pub fn into_widget(self) -> (r: Widget<E>)
        ensures
            r == Widget::Watch(self),
    {
        Widget::Watch(self)
    }
}

} // verus!
