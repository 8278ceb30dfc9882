//! The composition combinators: conditional inclusion, a parallel pair, and
//! a dynamic collection of children over one data value.

use vstd::prelude::*;

use crate::lens::Lens;
use crate::widget::{Childs, Widget};

verus! {

/// Gated inclusion: the child takes part in the passes only while the
/// boolean read through the condition lens holds. A transition between
/// active and inactive requests a widget-level recompute.
#[derive(Debug)]
pub struct Maybe<E> {
    pub child: Box<Widget<E>>,
    pub condition: Lens,
    pub active: bool,
}

impl<E> Maybe<E> {
    pub open spec fn spec_new(child: Widget<E>, condition: Lens) -> Maybe<E> {
        Maybe { child: Box::new(child), condition, active: false }
    }

    pub fn new(child: Widget<E>, condition: Lens) -> (r: Maybe<E>)
        ensures
            r == Maybe::spec_new(child, condition),
    {
        Maybe { child: Box::new(child), condition, active: false }
    }

    pub fn into_widget(self) -> (r: Widget<E>)
        ensures
            r == Widget::Maybe(self),
    {
        Widget::Maybe(self)
    }
}

/// Parallel composition of two children sharing one data value and one
/// space: sizes combine by the componentwise maximum, responses by or.
#[derive(Debug)]
pub struct And<E> {
    pub child1: Box<Widget<E>>,
    pub child2: Box<Widget<E>>,
}

impl<E> And<E> {
    pub open spec fn spec_new(child1: Widget<E>, child2: Widget<E>) -> And<E> {
        And { child1: Box::new(child1), child2: Box::new(child2) }
    }

    pub fn new(child1: Widget<E>, child2: Widget<E>) -> (r: And<E>)
        ensures
            r == And::spec_new(child1, child2),
    {
        And { child1: Box::new(child1), child2: Box::new(child2) }
    }

    pub fn into_widget(self) -> (r: Widget<E>)
        ensures
            r == Widget::And(self),
    {
        Widget::And(self)
    }
}

/// Parallel composition of any number of children sharing one data value
/// and one space.
#[derive(Debug)]
pub struct Collection<E> {
    pub childs: Childs<E>,
}

impl<E> Collection<E> {
    pub open spec fn spec_new() -> Collection<E> {
        Collection { childs: Childs::Nil }
    }

    pub fn new() -> (r: Collection<E>)
        ensures
            r == Collection::<E>::spec_new(),
    {
        Collection { childs: Childs::Nil }
    }

    /// A collection of the given children, in order.
    pub fn from(widgets: Vec<Widget<E>>) -> (r: Collection<E>)
        ensures
            r.childs == appended_all(Childs::<E>::Nil, widgets@),
    {
        let mut c = Collection { childs: Childs::Nil };
        let mut rest = widgets;
        while rest.len() > 0
            invariant
                appended_all(Childs::<E>::Nil, widgets@) == appended_all(c.childs, rest@),
            decreases rest@.len(),
        {
            let ghost before = rest@;
            let w = rest.remove(0);
            assert(before.remove(0) =~= before.drop_first());
            c.childs.push_back(w);
        }
        c
    }

    /// The collection with `widget` appended as its last child.
    pub fn with(self, widget: Widget<E>) -> (r: Collection<E>)
        ensures
            r == (Collection { childs: self.childs.appended(widget) }),
    {
        let mut s = self;
        s.childs.push_back(widget);
        s
    }

    /// The collection with a boxed child appended.
    pub fn with_box(self, widget: Box<Widget<E>>) -> (r: Collection<E>)
        ensures
            r == (Collection { childs: self.childs.appended(*widget) }),
    {
        let mut s = self;
        s.childs.push_back(*widget);
        s
    }

    /// Appends `widget` as the last child.
    pub fn add(&mut self, widget: Widget<E>)
        ensures
            *final(self) == (Collection { childs: old(self).childs.appended(widget) }),
    {
        self.childs.push_back(widget);
    }

    /// Appends a boxed child.
    pub fn add_box(&mut self, widget: Box<Widget<E>>)
        ensures
            *final(self) == (Collection { childs: old(self).childs.appended(*widget) }),
    {
        self.childs.push_back(*widget);
    }

    pub fn into_widget(self) -> (r: Widget<E>)
        ensures
            r == Widget::Collection(self),
    {
        Widget::Collection(self)
    }
}

/// The list with every widget of `ws` appended in order.
pub open spec fn appended_all<E>(l: Childs<E>, ws: Seq<Widget<E>>) -> Childs<E>
    decreases ws.len(),
{
    if ws.len() == 0 {
        l
    } else {
        appended_all(l.appended(ws[0]), ws.drop_first())
    }
}


} // verus!
