//! The widget tree.
//!
//! A tree node is one variant of the closed [`Widget`] enum: a leaf that
//! draws or edits a value, or a combinator that wraps children and alters
//! how data, geometry or events reach them. The four per-frame passes walk
//! this tree; each pass is verified against a functional model of the same
//! walk, stated in [`model`].

use vstd::prelude::*;

use crate::data::Data;
use crate::lens::Lens;

pub mod compose;
pub mod data;
pub mod dynamic;
pub mod interact;
pub mod laws;
pub mod layout;
pub mod model;
pub mod passes;
pub mod primitive;

use compose::{And, Collection, Maybe};
use data::{Lensing, Mapped, Owning};
use dynamic::{Dynamic, Watch};
use interact::Response;
use layout::{Align, Fix, Flex, Padding};
use primitive::{Bg, Check, Edit, Label, Slider, Text, VSlider};

verus! {

/// One node of the widget tree, generic over the application's logic-event
/// tag type.
#[derive(Debug)]
pub enum Widget<E> {
    Empty(layout::Empty),
    Bg(Bg<E>),
    Label(Label),
    Text(Text),
    Check(Check),
    Slider(Slider),
    VSlider(VSlider),
    Edit(Edit),
    Fix(Fix<E>),
    Align(Align<E>),
    Padding(Padding<E>),
    Flex(Flex<E>),
    Response(Response<E>),
    Lensing(Lensing<E>),
    Owning(Owning<E>),
    Mapped(Mapped<E>),
    Maybe(Maybe<E>),
    And(And<E>),
    Collection(Collection<E>),
    Dynamic(Dynamic<E>),
    Watch(Watch<E>),
}

/// The children of a space-sharing combinator, in dispatch order. Each cell
/// carries the layout cache of its child: the child's minimum primary size
/// after an inquire pass, its primary-axis offset after a compute pass.
#[derive(Debug)]
pub enum Childs<E> {
    Nil,
    Cons { node: Box<Widget<E>>, off: i64, next: Box<Childs<E>> },
}

impl<E> Childs<E> {
    /// The number of children.
    pub open spec fn len(self) -> nat
        decreases self,
    {
        match self {
            Childs::Nil => 0,
            Childs::Cons { next, .. } => 1 + next.len(),
        }
    }

    /// The list with a fresh cell for `w` appended at its end.
    pub open spec fn appended(self, w: Widget<E>) -> Childs<E>
        decreases self,
    {
        match self {
            Childs::Nil => Childs::Cons { node: Box::new(w), off: 0i64, next: Box::new(Childs::Nil) },
            Childs::Cons { node, off, next } => Childs::Cons {
                node,
                off,
                next: Box::new(next.appended(w)),
            },
        }
    }

    pub fn new() -> (r: Childs<E>)
        ensures
            r == Childs::<E>::Nil,
    {
        Childs::Nil
    }

    /// Appends a fresh cell for `w` at the end of the list.
    pub fn push_back(&mut self, w: Widget<E>)
        ensures
            *final(self) == old(self).appended(w),
        decreases *old(self),
    {
        match self {
            Childs::Nil => {
                *self = Childs::Cons { node: Box::new(w), off: 0, next: Box::new(Childs::Nil) };
            },
            Childs::Cons { next, .. } => {
                next.push_back(w);
            },
        }
    }

    /// The number of children, pressed into `usize` if it would not fit.
    pub fn len_sat(&self) -> (r: usize)
        ensures
            r as int == if self.len() <= usize::MAX {
                self.len() as int
            } else {
                usize::MAX as int
            },
        decreases *self,
    {
        match self {
            Childs::Nil => 0,
            Childs::Cons { next, .. } => {
                let n: usize = next.len_sat();
                if n < usize::MAX {
                    n + 1
                } else {
                    n
                }
            },
        }
    }
}

impl<E> Widget<E> {
    /// An empty leaf.
    pub fn empty() -> (r: Widget<E>)
        ensures
            r == Widget::<E>::Empty(layout::Empty),
    {
        Widget::Empty(layout::Empty)
    }

    /// Wraps this node in a state-colored background.
    pub fn bg(self) -> (r: Bg<E>)
        ensures
            r == Bg::<E>::spec_new(self),
    {
        Bg::new(self)
    }

    /// Scopes this node's data through a lens.
    pub fn lens(self, lens: Lens) -> (r: Lensing<E>)
        ensures
            r == Lensing::<E>::spec_new(self, lens),
    {
        Lensing::new(self, lens)
    }

    /// Gives this node data owned by the wrapper itself.
    pub fn own(self, data: Data) -> (r: Owning<E>)
        ensures
            r == Owning::<E>::spec_new(self, data),
    {
        Owning::new(self, data)
    }

    /// Feeds this node a snapshot projected out of the data each layout
    /// inquire.
    pub fn map(self, lens: Lens) -> (r: Mapped<E>)
        ensures
            r == Mapped::<E>::spec_new(self, lens),
    {
        Mapped::new(self, lens)
    }

    /// Overrides this node's size.
    pub fn fix(self) -> (r: Fix<E>)
        ensures
            r == Fix::<E>::spec_new(self),
    {
        Fix::new(self)
    }

    /// Positions this node inside surplus space.
    pub fn align(self) -> (r: Align<E>)
        ensures
            r == Align::<E>::spec_new(self),
    {
        Align::new(self)
    }

    /// Surrounds this node with fixed margins.
    pub fn pad(self) -> (r: Padding<E>)
        ensures
            r == Padding::<E>::spec_new(self),
    {
        Padding::new(self)
    }

    /// Makes this node interactive: hover and press tracking, commits on
    /// release.
    pub fn response(self) -> (r: Response<E>)
        ensures
            r == Response::<E>::spec_new(self),
    {
        Response::new(self)
    }

    /// Shows this node only while the condition read through `condition`
    /// holds.
    pub fn maybe(self, condition: Lens) -> (r: Maybe<E>)
        ensures
            r == Maybe::<E>::spec_new(self, condition),
    {
        Maybe::new(self, condition)
    }

    /// Pairs this node with another over the same data and space.
    pub fn and(self, other: Widget<E>) -> (r: And<E>)
        ensures
            r == And::<E>::spec_new(self, other),
    {
        And::new(self, other)
    }

    /// Watches the data this node sees and raises invalidation when it
    /// changes from outside.
    pub fn watch(self) -> (r: Watch<E>)
        ensures
            r == Watch::<E>::spec_new(self),
    {
        Watch::new(self)
    }
}

} // verus!
