//! The flex container: a row or column that negotiates space with its
//! children in two phases and distributes the slack by a selectable policy.

use vstd::prelude::*;

use crate::widget::{Childs, Widget};

verus! {

/// Where a flex container puts the slack left after its children's minimum
/// sizes are met.
#[derive(Clone, Copy, PartialEq, Eq, Structural, Debug)]
pub enum FlexLayout {
    /// All slack after the last child.
    Front,
    /// Half the slack before the first child, half after the last.
    Center,
    /// All slack before the first child.
    Back,
    /// The slack split evenly into the gaps between children.
    PadBetween,
    /// The slack split evenly into the gaps and the two ends.
    PadAll,
    /// The slack split evenly onto the children's own sizes.
    GrowChilds,
}

/// A row (`row == true`) or column of children sharing the primary axis.
#[derive(Debug)]
pub struct Flex<E> {
    pub childs: Childs<E>,
    pub row: bool,
    pub padding: i64,
    pub layout: FlexLayout,
    pub total_primary_size: i64,
}

impl<E> Flex<E> {
    pub open spec fn spec_new(row: bool) -> Flex<E> {
        Flex {
            childs: Childs::Nil,
            row,
            padding: 0i64,
            layout: FlexLayout::Front,
            total_primary_size: 0i64,
        }
    }

    /// An empty row.
    pub fn row() -> (r: Flex<E>)
        ensures
            r == Flex::<E>::spec_new(true),
    {
        Flex {
            childs: Childs::Nil,
            row: true,
            padding: 0,
            layout: FlexLayout::Front,
            total_primary_size: 0,
        }
    }

    /// An empty column.
    pub fn column() -> (r: Flex<E>)
        ensures
            r == Flex::<E>::spec_new(false),
    {
        Flex {
            childs: Childs::Nil,
            row: false,
            padding: 0,
            layout: FlexLayout::Front,
            total_primary_size: 0,
        }
    }

    /// The fixed gap between neighbouring children, in milli-units.
    pub fn padding(self, padding: i64) -> (r: Flex<E>)
        ensures
            r == (Flex { padding, ..self }),
    {
        Flex { padding, ..self }
    }

    /// The slack distribution policy.
    pub fn layout(self, layout: FlexLayout) -> (r: Flex<E>)
        ensures
            r == (Flex { layout, ..self }),
    {
        Flex { layout, ..self }
    }

    /// The container with `widget` appended as its last child.
    pub fn with(self, widget: Widget<E>) -> (r: Flex<E>)
        ensures
            r == (Flex { childs: self.childs.appended(widget), ..self }),
    {
        let mut s = self;
        s.childs.push_back(widget);
        s
    }

    /// The container with a boxed child appended.
    pub fn with_box(self, widget: Box<Widget<E>>) -> (r: Flex<E>)
        ensures
            r == (Flex { childs: self.childs.appended(*widget), ..self }),
    {
        let mut s = self;
        s.childs.push_back(*widget);
        s
    }

    /// Appends `widget` as the last child.
    pub fn add(&mut self, widget: Widget<E>)
        ensures
            *final(self) == (Flex { childs: old(self).childs.appended(widget), ..*old(self) }),
    {
        self.childs.push_back(widget);
    }

    /// Appends a boxed child.
    pub fn add_box(&mut self, widget: Box<Widget<E>>)
        ensures
            *final(self) == (Flex { childs: old(self).childs.appended(*widget), ..*old(self) }),
    {
        self.childs.push_back(*widget);
    }

    pub fn into_widget(self) -> (r: Widget<E>)
        ensures
            r == Widget::Flex(self),
    {
        Widget::Flex(self)
    }
}

} // verus!
