//! The interaction wrapper: hover and press tracking over a child's bounds,
//! committing an action and a logic event on release.

use vstd::prelude::*;

use crate::data::Data;
use crate::geom::Vec2;
use crate::lens::Lens;
use crate::widget::Widget;

verus! {

/// The interaction state an interactive node is in, threaded through the
/// paint pass as ambient context.
#[derive(Clone, Copy, PartialEq, Eq, Structural, Debug)]
pub enum WidgetState {
    Cold,
    Hot,
    Hover,
}

/// A committed effect on the application data, bound to an interactive node
/// and applied through a lens when the node commits.
#[derive(Debug)]
pub enum Action {
    /// Writes the value at the lens.
    Put(Lens, Data),
    /// Negates the boolean at the lens; any other value is left alone.
    Toggle(Lens),
}

impl Action {
    /// The data after the action runs on `d`.
    pub open spec fn apply(self, d: Data) -> Data {
        match self {
            Action::Put(lens, v) => lens.write(d, v),
            Action::Toggle(lens) => match lens.read(d) {
                Data::Bool(b) => lens.write(d, Data::Bool(!b)),
                _ => d,
            },
        }
    }

    /// Runs the action on `d`.
    pub fn apply_to(&self, d: &mut Data)
        ensures
            *final(d) == self.apply(*old(d)),
    {
        match self {
            Action::Put(lens, v) => {
                lens.put(d, v.duplicate());
            },
            Action::Toggle(lens) => {
                let cur = lens.get(d);
                match cur {
                    Data::Bool(b) => {
                        lens.put(d, Data::Bool(!b));
                    },
                    _ => {},
                }
            },
        }
    }

    /// A deep copy, equal to the original.
    pub fn duplicate(&self) -> (r: Action)
        ensures
            r == *self,
    {
        match self {
            Action::Put(lens, v) => Action::Put(lens.duplicate(), v.duplicate()),
            Action::Toggle(lens) => Action::Toggle(lens.duplicate()),
        }
    }
}

/// The interaction wrapper around one child.
#[derive(Debug)]
pub struct Response<E> {
    pub child: Box<Widget<E>>,
    pub size: Vec2,
    pub state: WidgetState,
    pub action: Option<Action>,
    pub event: Option<E>,
}

impl<E> Response<E> {
    pub open spec fn spec_new(child: Widget<E>) -> Response<E> {
        Response {
            child: Box::new(child),
            size: Vec2 { x: 0i64, y: 0i64 },
            state: WidgetState::Cold,
            action: None,
            event: None,
        }
    }

    pub fn new(child: Widget<E>) -> (r: Response<E>)
        ensures
            r == Response::spec_new(child),
    {
        Response {
            child: Box::new(child),
            size: Vec2 { x: 0, y: 0 },
            state: WidgetState::Cold,
            action: None,
            event: None,
        }
    }

    /// Binds an action committed on release inside bounds.
    pub fn action(self, action: Action) -> (r: Response<E>)
        ensures
            r == (Response { action: Some(action), ..self }),
    {
        Response { action: Some(action), ..self }
    }

    /// Attaches the tag emitted with this node's logic events.
    pub fn event(self, tag: E) -> (r: Response<E>)
        ensures
            r == (Response { event: Some(tag), ..self }),
    {
        Response { event: Some(tag), ..self }
    }

    pub fn into_widget(self) -> (r: Widget<E>)
        ensures
            r == Widget::Response(self),
    {
        Widget::Response(self)
    }
}

} // verus!
