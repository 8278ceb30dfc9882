//! The layout combinators: the empty leaf, fixed sizes, alignment inside
//! surplus space, fixed margins, and the space-dividing flex container.

use vstd::prelude::*;

use crate::geom::{Rect, Vec2};
use crate::widget::{Childs, Widget};

pub mod flex;

pub use flex::{Flex, FlexLayout};

verus! {

/// A leaf that needs no space and does nothing.
#[derive(Debug)]
pub struct Empty;

impl Empty {
    pub fn into_widget<E>(self) -> (r: Widget<E>)
        ensures
            r == Widget::<E>::Empty(self),
    {
        Widget::Empty(self)
    }
}

/// Overrides the child's width or height unconditionally.
#[derive(Debug)]
pub struct Fix<E> {
    pub child: Box<Widget<E>>,
    pub width: Option<i64>,
    pub height: Option<i64>,
}

impl<E> Fix<E> {
    pub open spec fn spec_new(child: Widget<E>) -> Fix<E> {
        Fix { child: Box::new(child), width: None, height: None }
    }

    pub fn new(child: Widget<E>) -> (r: Fix<E>)
        ensures
            r == Fix::spec_new(child),
    {
        Fix { child: Box::new(child), width: None, height: None }
    }

    pub fn width(self, width: i64) -> (r: Fix<E>)
        ensures
            r == (Fix { width: Some(width), ..self }),
    {
        Fix { width: Some(width), ..self }
    }

    pub fn height(self, height: i64) -> (r: Fix<E>)
        ensures
            r == (Fix { height: Some(height), ..self }),
    {
        Fix { height: Some(height), ..self }
    }

    pub fn into_widget(self) -> (r: Widget<E>)
        ensures
            r == Widget::Fix(self),
    {
        Widget::Fix(self)
    }
}

/// Where a child sits along one axis of its surplus space.
#[derive(Clone, Copy, PartialEq, Eq, Structural, Debug)]
pub enum AlignLayout {
    Front,
    Mid,
    Back,
}

/// Positions the child inside the space the parent grants beyond the
/// child's own need. Between the passes the cached vector holds the child's
/// inquired size; after a compute pass it holds the child's offset.
#[derive(Debug)]
pub struct Align<E> {
    pub child: Box<Widget<E>>,
    pub horizontal: AlignLayout,
    pub vertical: AlignLayout,
    pub size_or_offset: Vec2,
}

impl<E> Align<E> {
    pub open spec fn spec_new(child: Widget<E>) -> Align<E> {
        Align {
            child: Box::new(child),
            horizontal: AlignLayout::Front,
            vertical: AlignLayout::Front,
            size_or_offset: Vec2 { x: 0i64, y: 0i64 },
        }
    }

    pub fn new(child: Widget<E>) -> (r: Align<E>)
        ensures
            r == Align::spec_new(child),
    {
        Align {
            child: Box::new(child),
            horizontal: AlignLayout::Front,
            vertical: AlignLayout::Front,
            size_or_offset: Vec2 { x: 0, y: 0 },
        }
    }

    pub fn horizontal(self, layout: AlignLayout) -> (r: Align<E>)
        ensures
            r == (Align { horizontal: layout, ..self }),
    {
        Align { horizontal: layout, ..self }
    }

    pub fn vertical(self, layout: AlignLayout) -> (r: Align<E>)
        ensures
            r == (Align { vertical: layout, ..self }),
    {
        Align { vertical: layout, ..self }
    }

    pub fn left(self) -> (r: Align<E>)
        ensures
            r == (Align { horizontal: AlignLayout::Front, ..self }),
    {
        self.horizontal(AlignLayout::Front)
    }

    pub fn right(self) -> (r: Align<E>)
        ensures
            r == (Align { horizontal: AlignLayout::Back, ..self }),
    {
        self.horizontal(AlignLayout::Back)
    }

    pub fn up(self) -> (r: Align<E>)
        ensures
            r == (Align { vertical: AlignLayout::Front, ..self }),
    {
        self.vertical(AlignLayout::Front)
    }

    pub fn down(self) -> (r: Align<E>)
        ensures
            r == (Align { vertical: AlignLayout::Back, ..self }),
    {
        self.vertical(AlignLayout::Back)
    }

    pub fn center_h(self) -> (r: Align<E>)
        ensures
            r == (Align { horizontal: AlignLayout::Mid, ..self }),
    {
        self.horizontal(AlignLayout::Mid)
    }

    pub fn center_v(self) -> (r: Align<E>)
        ensures
            r == (Align { vertical: AlignLayout::Mid, ..self }),
    {
        self.vertical(AlignLayout::Mid)
    }

    pub fn center(self) -> (r: Align<E>)
        ensures
            r == (Align { horizontal: AlignLayout::Mid, vertical: AlignLayout::Mid, ..self }),
    {
        self.center_h().center_v()
    }

    pub fn into_widget(self) -> (r: Widget<E>)
        ensures
            r == Widget::Align(self),
    {
        Widget::Align(self)
    }
}

/// Adds fixed margins around the child. The margin rectangle's corners are
/// the left/top and right/bottom margins.
#[derive(Debug)]
pub struct Padding<E> {
    pub child: Box<Widget<E>>,
    pub padding: Rect,
}

impl<E> Padding<E> {
    pub open spec fn spec_new(child: Widget<E>) -> Padding<E> {
        Padding {
            child: Box::new(child),
            padding: Rect {
                min: Vec2 { x: 0i64, y: 0i64 },
                max: Vec2 { x: 0i64, y: 0i64 },
            },
        }
    }

    pub fn new(child: Widget<E>) -> (r: Padding<E>)
        ensures
            r == Padding::spec_new(child),
    {
        Padding {
            child: Box::new(child),
            padding: Rect { min: Vec2 { x: 0, y: 0 }, max: Vec2 { x: 0, y: 0 } },
        }
    }

    pub fn left(self, padding: i64) -> (r: Padding<E>)
        ensures
            r.child == self.child,
            r.padding == (Rect {
                min: Vec2 { x: padding, y: self.padding.min.y },
                max: self.padding.max,
            }),
    {
        let p = Rect { min: Vec2 { x: padding, y: self.padding.min.y }, max: self.padding.max };
        Padding { padding: p, ..self }
    }

    pub fn right(self, padding: i64) -> (r: Padding<E>)
        ensures
            r.child == self.child,
            r.padding == (Rect {
                min: self.padding.min,
                max: Vec2 { x: padding, y: self.padding.max.y },
            }),
    {
        let p = Rect { min: self.padding.min, max: Vec2 { x: padding, y: self.padding.max.y } };
        Padding { padding: p, ..self }
    }

    pub fn up(self, padding: i64) -> (r: Padding<E>)
        ensures
            r.child == self.child,
            r.padding == (Rect {
                min: Vec2 { x: self.padding.min.x, y: padding },
                max: self.padding.max,
            }),
    {
        let p = Rect { min: Vec2 { x: self.padding.min.x, y: padding }, max: self.padding.max };
        Padding { padding: p, ..self }
    }

    pub fn down(self, padding: i64) -> (r: Padding<E>)
        ensures
            r.child == self.child,
            r.padding == (Rect {
                min: self.padding.min,
                max: Vec2 { x: self.padding.max.x, y: padding },
            }),
    {
        let p = Rect { min: self.padding.min, max: Vec2 { x: self.padding.max.x, y: padding } };
        Padding { padding: p, ..self }
    }

    pub fn horizontal(self, padding: i64) -> (r: Padding<E>)
        ensures
            r.child == self.child,
            r.padding == (Rect {
                min: Vec2 { x: padding, y: self.padding.min.y },
                max: Vec2 { x: padding, y: self.padding.max.y },
            }),
    {
        let p = Rect {
            min: Vec2 { x: padding, y: self.padding.min.y },
            max: Vec2 { x: padding, y: self.padding.max.y },
        };
        Padding { padding: p, ..self }
    }

    pub fn vertical(self, padding: i64) -> (r: Padding<E>)
        ensures
            r.child == self.child,
            r.padding == (Rect {
                min: Vec2 { x: self.padding.min.x, y: padding },
                max: Vec2 { x: self.padding.max.x, y: padding },
            }),
    {
        let p = Rect {
            min: Vec2 { x: self.padding.min.x, y: padding },
            max: Vec2 { x: self.padding.max.x, y: padding },
        };
        Padding { padding: p, ..self }
    }

    pub fn all(self, padding: i64) -> (r: Padding<E>)
        ensures
            r.child == self.child,
            r.padding == (Rect {
                min: Vec2 { x: padding, y: padding },
                max: Vec2 { x: padding, y: padding },
            }),
    {
        let p = Rect { min: Vec2 { x: padding, y: padding }, max: Vec2 { x: padding, y: padding } };
        Padding { padding: p, ..self }
    }

    pub fn into_widget(self) -> (r: Widget<E>)
        ensures
            r == Widget::Padding(self),
    {
        Widget::Padding(self)
    }
}

} // verus!
