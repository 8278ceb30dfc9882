//! The data-scoping combinators: lens projection, owned data, and a
//! projected snapshot recomputed each layout inquire.

use vstd::prelude::*;

use crate::data::Data;
use crate::lens::Lens;
use crate::widget::Widget;

verus! {

/// Projects the surrounding data through a lens for every pass the child
/// takes part in.
#[derive(Debug)]
pub struct Lensing<E> {
    pub child: Box<Widget<E>>,
    pub lens: Lens,
}

impl<E> Lensing<E> {
    pub open spec fn spec_new(child: Widget<E>, lens: Lens) -> Lensing<E> {
        Lensing { child: Box::new(child), lens }
    }

    pub fn new(child: Widget<E>, lens: Lens) -> (r: Lensing<E>)
        ensures
            r == Lensing::spec_new(child, lens),
    {
        Lensing { child: Box::new(child), lens }
    }

    pub fn into_widget(self) -> (r: Widget<E>)
        ensures
            r == Widget::Lensing(self),
    {
        Widget::Lensing(self)
    }
}

/// Gives the child data owned by the combinator itself; the surrounding
/// data is ignored, and the mutating passes skip the child.
#[derive(Debug)]
pub struct Owning<E> {
    pub child: Box<Widget<E>>,
    pub data: Data,
}

impl<E> Owning<E> {
    pub open spec fn spec_new(child: Widget<E>, data: Data) -> Owning<E> {
        Owning { child: Box::new(child), data }
    }

    pub fn new(child: Widget<E>, data: Data) -> (r: Owning<E>)
        ensures
            r == Owning::spec_new(child, data),
    {
        Owning { child: Box::new(child), data }
    }

    pub fn into_widget(self) -> (r: Widget<E>)
        ensures
            r == Widget::Owning(self),
    {
        Widget::Owning(self)
    }
}

/// Feeds the child a transient snapshot projected out of the surrounding
/// data. The snapshot is recomputed at each layout inquire and reused by
/// the compute and paint calls of the same pass, so an inquire must always
/// come first.
#[derive(Debug)]
pub struct Mapped<E> {
    pub child: Box<Widget<E>>,
    pub lens: Lens,
    pub data: Option<Data>,
}

impl<E> Mapped<E> {
    pub open spec fn spec_new(child: Widget<E>, lens: Lens) -> Mapped<E> {
        Mapped { child: Box::new(child), lens, data: None }
    }

    pub fn new(child: Widget<E>, lens: Lens) -> (r: Mapped<E>)
        ensures
            r == Mapped::spec_new(child, lens),
    {
        Mapped { child: Box::new(child), lens, data: None }
    }

    pub fn into_widget(self) -> (r: Widget<E>)
        ensures
            r == Widget::Mapped(self),
    {
        Widget::Mapped(self)
    }
}

} // verus!
