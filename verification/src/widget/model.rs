//! The functional model of the per-frame passes.
//!
//! Each executable pass in [`super::passes`] promises to equal one of the
//! functions here. The model walks the same tree, in the same order, over
//! plain values: what a pass does to the tree, the data, the event under
//! dispatch, the invalidation tracker and the output sequences is stated
//! here once and proved of the code.

use vstd::prelude::*;

use crate::data::{Chars, Data};
use crate::event::{Event, EventPod, HardwareEvent, LogicEvent, MouseButton};
use crate::geom::{sat64, tdiv, Rect, Vec2, MILLI};
use crate::metrics::{TextAlign, TextMetrics};
use crate::paint::{DrawCmd, Painter};
use crate::style::StyleSet;
use crate::ui::Request;
use crate::widget::compose::{And, Collection, Maybe};
use crate::widget::data::{Lensing, Mapped, Owning};
use crate::widget::dynamic::{Dynamic, Watch, WatchLevel};
use crate::widget::interact::{Response, WidgetState};
use crate::widget::layout::{Align, AlignLayout, Fix, Flex, FlexLayout, Padding};
use crate::widget::primitive::{Bg, CharFilter, Check, Edit, Label, Slider, Text, VSlider};
use crate::widget::{Childs, Widget};

verus! {

// ---------------------------------------------------------------------------
// Shared small helpers
// ---------------------------------------------------------------------------

/// The primary-axis component of a vector: x for a row, y for a column.
pub open spec fn primary(row: bool, v: Vec2) -> i64 {
    if row {
        v.x
    } else {
        v.y
    }
}

/// The secondary-axis component of a vector.
pub open spec fn secondary(row: bool, v: Vec2) -> i64 {
    if row {
        v.y
    } else {
        v.x
    }
}

/// A vector from its primary and secondary components.
pub open spec fn make_size(row: bool, p: i64, s: i64) -> Vec2 {
    if row {
        Vec2 { x: p, y: s }
    } else {
        Vec2 { x: s, y: p }
    }
}

/// A vector along the primary axis.
pub open spec fn axis_vec(row: bool, v: i64) -> Vec2 {
    if row {
        Vec2 { x: v, y: 0i64 }
    } else {
        Vec2 { x: 0i64, y: v }
    }
}

/// The child count pressed into `usize` and then into a nonnegative `i64`.
pub open spec fn len_i64<E>(l: Childs<E>) -> i64 {
    let n: int = if l.len() <= usize::MAX {
        l.len() as int
    } else {
        usize::MAX as int
    };
    if n > i64::MAX {
        i64::MAX
    } else {
        n as i64
    }
}

/// `v` pressed into `[lo, hi]`, the upper bound winning when they cross.
pub open spec fn clamp_int(v: int, lo: int, hi: int) -> int {
    if (if v > lo {
        v
    } else {
        lo
    }) < hi {
        (if v > lo {
            v
        } else {
            lo
        })
    } else {
        hi
    }
}

/// Division rounding to the nearest integer, halves up; for a nonnegative
/// numerator and positive denominator.
pub open spec fn round_div(n: int, d: int) -> int
    recommends
        n >= 0,
        d > 0,
{
    n / d + if 2 * (n % d) >= d {
        1int
    } else {
        0int
    }
}

/// The value a slider at fraction `pos` out of `sz` takes: the nearest step
/// between `min` and `max`. Meaningful when `0 <= pos <= sz`, `sz > 0`,
/// `step > 0` and `min < max`.
pub open spec fn slider_value(pos: i64, sz: i64, min: i64, max: i64, step: i64) -> i64 {
    sat64(min + round_div(pos as int * (max - min), sz as int * step as int) * step)
}

/// The value a scroll of `delta` steps moves a slider to, pressed into
/// `[min, max]`.
pub open spec fn scroll_value(v: i64, delta: i64, step: i64, min: i64, max: i64) -> i64 {
    clamp_int(v as int + delta as int * step as int, min as int, max as int) as i64
}

/// The text with every character of `s` that passes `f` appended in order.
pub open spec fn append_filtered(t: Chars, s: Seq<char>, f: CharFilter) -> Chars
    decreases s.len(),
{
    if s.len() == 0 {
        t
    } else if f.spec_allows(s[0]) {
        append_filtered(t.pushed(s[0]), s.drop_first(), f)
    } else {
        append_filtered(t, s.drop_first(), f)
    }
}

/// The clipboard text as a character sequence, if one was fetched.
pub open spec fn clip_view(c: Option<Vec<char>>) -> Option<Seq<char>> {
    match c {
        Some(v) => Some(v@),
        None => None,
    }
}

/// The character count of a text pressed into `usize`.
pub open spec fn chars_len_sat(t: Chars) -> int {
    if t.seq().len() <= usize::MAX {
        t.seq().len() as int
    } else {
        usize::MAX as int
    }
}

// ---------------------------------------------------------------------------
// The respond pass
// ---------------------------------------------------------------------------

/// The model of the respond pass: what a node does when an interaction
/// wrapper above it commits a pointer-button release. Returns the new node,
/// the new data, and whether the data changed in a way that warrants a
/// repaint. `clip` is the clipboard text fetched for this frame, if any.
pub open spec fn rsp<E>(w: Widget<E>, d: Data, button: Option<MouseButton>, clip: Option<
    Seq<char>,
>) -> (Widget<E>, Data, bool)
    decreases w,
{
    match w {
        Widget::Empty(_) => (w, d, false),
        Widget::Bg(b) => {
            let (c, d1, r) = rsp(*b.child, d, button, clip);
            (Widget::Bg(Bg { child: Box::new(c), ..b }), d1, r)
        },
        Widget::Label(_) => (w, d, false),
        Widget::Text(_) => (w, d, false),
        Widget::Check(_) => {
            if button == Some(MouseButton::Primary) {
                match d {
                    Data::Bool(b) => (w, Data::Bool(!b), true),
                    _ => (w, d, false),
                }
            } else {
                (w, d, false)
            }
        },
        Widget::Slider(_) => (w, d, false),
        Widget::VSlider(_) => (w, d, false),
        Widget::Edit(e) => {
            let active = button is Some;
            let d1 = if button == Some(MouseButton::Secondary) {
                match (d, clip) {
                    (Data::Text(t), Some(s)) => Data::Text(append_filtered(t, s, e.filter)),
                    _ => d,
                }
            } else {
                d
            };
            (Widget::Edit(Edit { active, ..e }), d1, true)
        },
        Widget::Fix(f) => {
            let (c, d1, r) = rsp(*f.child, d, button, clip);
            (Widget::Fix(Fix { child: Box::new(c), ..f }), d1, r)
        },
        Widget::Align(a) => {
            let (c, d1, r) = rsp(*a.child, d, button, clip);
            (Widget::Align(Align { child: Box::new(c), ..a }), d1, r)
        },
        Widget::Padding(p) => {
            let (c, d1, r) = rsp(*p.child, d, button, clip);
            (Widget::Padding(Padding { child: Box::new(c), ..p }), d1, r)
        },
        Widget::Flex(_) => (w, d, false),
        Widget::Response(_) => (w, d, false),
        Widget::Lensing(l) => {
            let sub = l.lens.read(d);
            let (c, sub1, r) = rsp(*l.child, sub, button, clip);
            (
                Widget::Lensing(Lensing { child: Box::new(c), ..l }),
                l.lens.write(d, sub1),
                r,
            )
        },
        Widget::Owning(_) => (w, d, false),
        Widget::Mapped(_) => (w, d, false),
        Widget::Maybe(m) => {
            if m.active {
                let (c, d1, r) = rsp(*m.child, d, button, clip);
                (Widget::Maybe(Maybe { child: Box::new(c), ..m }), d1, r)
            } else {
                (w, d, false)
            }
        },
        Widget::And(a) => {
            let (c1, d1, r1) = rsp(*a.child1, d, button, clip);
            let (c2, d2, r2) = rsp(*a.child2, d1, button, clip);
            (Widget::And(And { child1: Box::new(c1), child2: Box::new(c2) }), d2, r1 || r2)
        },
        Widget::Collection(c) => {
            let (l, d1, r) = rsp_list(c.childs, d, button, clip);
            (Widget::Collection(Collection { childs: l }), d1, r)
        },
        Widget::Dynamic(dy) => match dy.child {
            Some(c) => {
                let (c1, d1, r) = rsp(*c, d, button, clip);
                (Widget::Dynamic(Dynamic { child: Some(Box::new(c1)), ..dy }), d1, r)
            },
            None => (w, d, false),
        },
        Widget::Watch(wa) => {
            let (c, d1, r) = rsp(*wa.child, d, button, clip);
            (Widget::Watch(Watch { child: Box::new(c), ..wa }), d1, r)
        },
    }
}

/// The respond pass over a child list, in order, or-ing the results.
pub open spec fn rsp_list<E>(l: Childs<E>, d: Data, button: Option<MouseButton>, clip: Option<
    Seq<char>,
>) -> (Childs<E>, Data, bool)
    decreases l,
{
    match l {
        Childs::Nil => (l, d, false),
        Childs::Cons { node, off, next } => {
            let (n1, d1, r1) = rsp(*node, d, button, clip);
            let (rest, d2, r2) = rsp_list(*next, d1, button, clip);
            (Childs::Cons { node: Box::new(n1), off, next: Box::new(rest) }, d2, r1 || r2)
        },
    }
}

// ---------------------------------------------------------------------------
// The event pass
// ---------------------------------------------------------------------------

/// The mutable surroundings of the event pass: the invalidation tracker,
/// the event under dispatch, the output sequence so far, and the clipboard
/// text fetched for this frame.
pub struct EvState<E> {
    pub request: Request,
    pub pod: EventPod,
    pub out: Seq<Event<E>>,
    pub clip: Option<Seq<char>>,
}

/// The model-level view of an event context.
pub open spec fn ev_state_of<E>(c: crate::ui::EventCtx<E>) -> EvState<E> {
    EvState { request: c.request, pod: c.event, out: c.events@, clip: clip_view(c.clipboard) }
}

/// `s` with its event shifted by `v`.
pub open spec fn ev_offset<E>(s: EvState<E>, v: Vec2) -> EvState<E> {
    EvState { pod: EventPod { event: s.pod.event.spec_offset(v), used: s.pod.used }, ..s }
}

/// The model of the interaction state machine: what one [`Response`] node
/// does to its own state and surroundings once its child has seen the
/// event. Mirrors the transition table: pointer-gone cools, motion tracks
/// hover over the cached bounds, an unconsumed press inside turns hot and
/// consumes, a release inside while hot commits.
pub open spec fn response_step<E>(r: Response<E>, child: Widget<E>, s: EvState<E>, d: Data) -> (
    Response<E>,
    EvState<E>,
    Data,
)
    decreases child,
{
    match s.pod.event {
        HardwareEvent::PointerGone => {
            (
                Response { child: Box::new(child), state: WidgetState::Cold, ..r },
                EvState { request: paint_requested(s.request), ..s },
                d,
            )
        },
        HardwareEvent::PointerMoved { pos, .. } => {
            let hover = Rect::spec_new_origin(r.size).spec_contains_linf(pos);
            let (state1, update) = if !hover && r.state != WidgetState::Cold {
                (WidgetState::Cold, true)
            } else if hover && r.state == WidgetState::Cold {
                (WidgetState::Hover, true)
            } else {
                (r.state, false)
            };
            (
                Response { child: Box::new(child), state: state1, ..r },
                if update {
                    EvState { request: paint_requested(s.request), ..s }
                } else {
                    s
                },
                d,
            )
        },
        HardwareEvent::PointerClicked { pos, button, pressed } => {
            let hover = Rect::spec_new_origin(r.size).spec_contains_linf(pos);
            let press_fires = hover && pressed && !s.pod.used;
            let state1 = if press_fires {
                WidgetState::Hot
            } else {
                r.state
            };
            let release_fires = hover && state1 == WidgetState::Hot && !pressed;
            let state2 = if release_fires {
                WidgetState::Hover
            } else {
                state1
            };
            let used1 = s.pod.used || press_fires || release_fires;
            let maybe_button: Option<MouseButton> = if release_fires {
                Some(button)
            } else {
                None
            };
            let (child1, d1, responded) = if !pressed {
                rsp(child, d, maybe_button, s.clip)
            } else {
                (child, d, false)
            };
            let d2 = if maybe_button is Some {
                match r.action {
                    Some(a) => a.apply(d1),
                    None => d1,
                }
            } else {
                d1
            };
            let out1 = if maybe_button is Some {
                match r.event {
                    Some(tag) => s.out.push(Event::Logic(LogicEvent::Clicked(tag, button))),
                    None => s.out,
                }
            } else {
                s.out
            };
            let update = press_fires || release_fires || responded;
            (
                Response { child: Box::new(child1), state: state2, ..r },
                EvState {
                    request: if update {
                        paint_requested(s.request)
                    } else {
                        s.request
                    },
                    pod: EventPod { event: s.pod.event, used: used1 },
                    out: out1,
                    clip: s.clip,
                },
                d2,
            )
        },
        HardwareEvent::Key { key, pressed } => {
            let out1 = match r.event {
                Some(tag) => s.out.push(Event::Logic(LogicEvent::Pressed(tag, key, pressed))),
                None => s.out,
            };
            (Response { child: Box::new(child), ..r }, EvState { out: out1, ..s }, d)
        },
        _ => (Response { child: Box::new(child), ..r }, s, d),
    }
}

/// The tracker with a repaint asked for.
pub open spec fn paint_requested(r: Request) -> Request {
    Request { widget: r.widget, layout: r.layout, paint: true }
}

/// The model of the slider's event handling along one axis: `along` reads
/// the primary coordinate, `across` the other one. Mirrors the widget: an
/// unconsumed primary press inside the bounds starts a drag and jumps the
/// value, motion while dragged follows, a release or pointer-gone ends the
/// drag, a scroll inside nudges the value by whole steps.
pub open spec fn slider_step<E>(
    min: i64,
    max: i64,
    step: i64,
    size_along: i64,
    size_across: i64,
    dragged: bool,
    scroll_neg: bool,
    scroll_uses: bool,
    row: bool,
    s: EvState<E>,
    d: Data,
) -> (bool, EvState<E>, Data) {
    if s.pod.used {
        (dragged, s, d)
    } else {
        match s.pod.event {
            HardwareEvent::PointerClicked { pos, button: MouseButton::Primary, pressed } => {
                let along = primary(row, pos);
                let across = secondary(row, pos);
                if pressed {
                    if 0 <= across <= size_across {
                        let grab = -500 <= along <= size_along.wrapping_add(500);
                        let strict = 0 <= along <= size_along;
                        let can = size_along > 0 && step > 0 && min < max;
                        let d1 = if strict && can {
                            match d {
                                Data::Int(_) => Data::Int(
                                    slider_value(along, size_along, min, max, step),
                                ),
                                _ => d,
                            }
                        } else {
                            d
                        };
                        (
                            grab || dragged,
                            EvState {
                                request: if strict && can {
                                    paint_requested(s.request)
                                } else {
                                    s.request
                                },
                                pod: EventPod { event: s.pod.event, used: s.pod.used || grab },
                                ..s
                            },
                            d1,
                        )
                    } else {
                        (dragged, s, d)
                    }
                } else {
                    if dragged {
                        (
                            false,
                            EvState {
                                request: paint_requested(s.request),
                                pod: EventPod { event: s.pod.event, used: true },
                                ..s
                            },
                            d,
                        )
                    } else {
                        (dragged, s, d)
                    }
                }
            },
            HardwareEvent::PointerGone => {
                if dragged {
                    (false, EvState { request: paint_requested(s.request), ..s }, d)
                } else {
                    (dragged, s, d)
                }
            },
            HardwareEvent::PointerMoved { pos, .. } => {
                if dragged {
                    let along = primary(row, pos);
                    let clamped = if along < 0 {
                        0i64
                    } else if along > size_along {
                        size_along
                    } else {
                        along
                    };
                    let can = size_along > 0 && step > 0 && min < max;
                    match d {
                        Data::Int(v) => {
                            let nv = if can {
                                slider_value(clamped, size_along, min, max, step)
                            } else {
                                v
                            };
                            if nv != v {
                                (
                                    dragged,
                                    EvState { request: paint_requested(s.request), ..s },
                                    Data::Int(nv),
                                )
                            } else {
                                (dragged, s, d)
                            }
                        },
                        _ => (dragged, s, d),
                    }
                } else {
                    (dragged, s, d)
                }
            },
            HardwareEvent::Scroll { pos, delta } => {
                let along = primary(row, pos);
                let across = secondary(row, pos);
                let inside = 0 <= across <= size_across && -500 <= along <= size_along.wrapping_add(
                    500,
                );
                let dy = if scroll_neg {
                    (0i64).wrapping_sub(delta.y)
                } else {
                    delta.y
                };
                let d1 = if inside {
                    match d {
                        Data::Int(v) => Data::Int(scroll_value(v, dy, step, min, max)),
                        _ => d,
                    }
                } else {
                    d
                };
                if scroll_uses {
                    if inside {
                        (
                            dragged,
                            EvState {
                                request: paint_requested(s.request),
                                pod: EventPod { event: s.pod.event, used: true },
                                ..s
                            },
                            d1,
                        )
                    } else {
                        (dragged, s, d)
                    }
                } else {
                    (dragged, EvState { request: paint_requested(s.request), ..s }, d1)
                }
            },
            _ => (dragged, s, d),
        }
    }
}

/// The model of the editor's event handling: while active and unconsumed,
/// a character is appended if the filter and the length limit admit it,
/// and backspace removes the last character.
pub open spec fn edit_step<E>(e: Edit, s: EvState<E>, d: Data) -> (EvState<E>, Data) {
    if !e.active || s.pod.used {
        (s, d)
    } else {
        match s.pod.event {
            HardwareEvent::Char(ch) => {
                let fits = match e.max_length {
                    Some(m) => match d {
                        Data::Text(t) => chars_len_sat(t) < m as int,
                        _ => true,
                    },
                    None => true,
                };
                let d1 = if e.filter.spec_allows(ch) && fits {
                    match d {
                        Data::Text(t) => Data::Text(t.pushed(ch)),
                        _ => d,
                    }
                } else {
                    d
                };
                (
                    EvState {
                        request: paint_requested(s.request),
                        pod: EventPod { event: s.pod.event, used: true },
                        ..s
                    },
                    d1,
                )
            },
            HardwareEvent::Key { key: crate::event::Key::Back, pressed: true } => {
                let d1 = match d {
                    Data::Text(t) => Data::Text(t.popped()),
                    _ => d,
                };
                (
                    EvState {
                        request: paint_requested(s.request),
                        pod: EventPod { event: s.pod.event, used: true },
                        ..s
                    },
                    d1,
                )
            },
            _ => (s, d),
        }
    }
}

/// The model of the event pass: events descend pre-order, offsetting nodes
/// shift the event into child coordinates and shift it back afterwards,
/// and the interaction machine runs after the child has seen the event.
pub open spec fn ev<E>(w: Widget<E>, s: EvState<E>, d: Data) -> (Widget<E>, EvState<E>, Data)
    decreases w,
{
    match w {
        Widget::Empty(_) => (w, s, d),
        Widget::Bg(b) => {
            let (c, s1, d1) = ev(*b.child, s, d);
            (Widget::Bg(Bg { child: Box::new(c), ..b }), s1, d1)
        },
        Widget::Label(_) => (w, s, d),
        Widget::Text(_) => (w, s, d),
        Widget::Check(_) => (w, s, d),
        Widget::Slider(sl) => {
            let (dragged, s1, d1) = slider_step(
                sl.min,
                sl.max,
                sl.step,
                sl.actual_size.x,
                sl.actual_size.y,
                sl.dragged,
                false,
                true,
                true,
                s,
                d,
            );
            (Widget::Slider(Slider { dragged, ..sl }), s1, d1)
        },
        Widget::VSlider(sl) => {
            let (dragged, s1, d1) = slider_step(
                sl.min,
                sl.max,
                sl.step,
                sl.actual_size.y,
                sl.actual_size.x,
                sl.dragged,
                true,
                false,
                false,
                s,
                d,
            );
            (Widget::VSlider(VSlider { dragged, ..sl }), s1, d1)
        },
        Widget::Edit(e) => {
            let (s1, d1) = edit_step(e, s, d);
            (w, s1, d1)
        },
        Widget::Fix(f) => {
            let (c, s1, d1) = ev(*f.child, s, d);
            (Widget::Fix(Fix { child: Box::new(c), ..f }), s1, d1)
        },
        Widget::Align(a) => {
            let (c, s1, d1) = ev(*a.child, ev_offset(s, a.size_or_offset.spec_wneg()), d);
            (Widget::Align(Align { child: Box::new(c), ..a }), ev_offset(s1, a.size_or_offset), d1)
        },
        Widget::Padding(p) => {
            let (c, s1, d1) = ev(*p.child, ev_offset(s, p.padding.min.spec_wneg()), d);
            (Widget::Padding(Padding { child: Box::new(c), ..p }), ev_offset(s1, p.padding.min), d1)
        },
        Widget::Flex(f) => {
            let (l, s1, d1) = ev_list_offset(f.childs, f.row, s, d);
            (Widget::Flex(Flex { childs: l, ..f }), s1, d1)
        },
        Widget::Response(r) => {
            let (c, s1, d1) = ev(*r.child, s, d);
            let (r2, s2, d2) = response_step(r, c, s1, d1);
            (Widget::Response(r2), s2, d2)
        },
        Widget::Lensing(l) => {
            let sub = l.lens.read(d);
            let (c, s1, sub1) = ev(*l.child, s, sub);
            (Widget::Lensing(Lensing { child: Box::new(c), ..l }), s1, l.lens.write(d, sub1))
        },
        Widget::Owning(_) => (w, s, d),
        Widget::Mapped(_) => (w, s, d),
        Widget::Maybe(m) => {
            if m.active {
                let (c, s1, d1) = ev(*m.child, s, d);
                (Widget::Maybe(Maybe { child: Box::new(c), ..m }), s1, d1)
            } else {
                (w, s, d)
            }
        },
        Widget::And(a) => {
            let (c1, s1, d1) = ev(*a.child1, s, d);
            let (c2, s2, d2) = ev(*a.child2, s1, d1);
            (Widget::And(And { child1: Box::new(c1), child2: Box::new(c2) }), s2, d2)
        },
        Widget::Collection(c) => {
            let (l, s1, d1) = ev_list_plain(c.childs, s, d);
            (Widget::Collection(Collection { childs: l }), s1, d1)
        },
        Widget::Dynamic(dy) => match dy.child {
            Some(c) => {
                let (c1, s1, d1) = ev(*c, s, d);
                (Widget::Dynamic(Dynamic { child: Some(Box::new(c1)), ..dy }), s1, d1)
            },
            None => (w, s, d),
        },
        Widget::Watch(wa) => {
            let (c, s1, d1) = ev(*wa.child, s, d);
            (Widget::Watch(Watch { child: Box::new(c), ..wa }), s1, d1)
        },
    }
}

/// The event pass over a child list without offsets, in order.
pub open spec fn ev_list_plain<E>(l: Childs<E>, s: EvState<E>, d: Data) -> (
    Childs<E>,
    EvState<E>,
    Data,
)
    decreases l,
{
    match l {
        Childs::Nil => (l, s, d),
        Childs::Cons { node, off, next } => {
            let (n1, s1, d1) = ev(*node, s, d);
            let (rest, s2, d2) = ev_list_plain(*next, s1, d1);
            (Childs::Cons { node: Box::new(n1), off, next: Box::new(rest) }, s2, d2)
        },
    }
}

/// The event pass over a flex child list: each child sees the event
/// shifted by the inverse of its cached offset along the primary axis, and
/// the shift is undone before the next sibling.
pub open spec fn ev_list_offset<E>(l: Childs<E>, row: bool, s: EvState<E>, d: Data) -> (
    Childs<E>,
    EvState<E>,
    Data,
)
    decreases l,
{
    match l {
        Childs::Nil => (l, s, d),
        Childs::Cons { node, off, next } => {
            let v = axis_vec(row, off);
            let (n1, s1, d1) = ev(*node, ev_offset(s, v.spec_wneg()), d);
            let (rest, s2, d2) = ev_list_offset(*next, row, ev_offset(s1, v), d1);
            (Childs::Cons { node: Box::new(n1), off, next: Box::new(rest) }, s2, d2)
        },
    }
}

// ---------------------------------------------------------------------------
// The update pass
// ---------------------------------------------------------------------------

/// The model of the update pass: it runs every frame, detects out-of-band
/// data changes, and raises invalidation flags.
pub open spec fn up<E>(w: Widget<E>, r: Request, d: Data) -> (Widget<E>, Request, Data)
    decreases w,
{
    match w {
        Widget::Empty(_) => (w, r, d),
        Widget::Bg(b) => {
            let (c, r1, d1) = up(*b.child, r, d);
            (Widget::Bg(Bg { child: Box::new(c), ..b }), r1, d1)
        },
        Widget::Label(_) => (w, r, d),
        Widget::Text(_) => (w, r, d),
        Widget::Check(_) => (w, r, d),
        Widget::Slider(_) => (w, r, d),
        Widget::VSlider(_) => (w, r, d),
        Widget::Edit(_) => (w, r, d),
        Widget::Fix(f) => {
            let (c, r1, d1) = up(*f.child, r, d);
            (Widget::Fix(Fix { child: Box::new(c), ..f }), r1, d1)
        },
        Widget::Align(a) => {
            let (c, r1, d1) = up(*a.child, r, d);
            (Widget::Align(Align { child: Box::new(c), ..a }), r1, d1)
        },
        Widget::Padding(p) => {
            let (c, r1, d1) = up(*p.child, r, d);
            (Widget::Padding(Padding { child: Box::new(c), ..p }), r1, d1)
        },
        Widget::Flex(f) => {
            let (l, r1, d1) = up_list(f.childs, r, d);
            (Widget::Flex(Flex { childs: l, ..f }), r1, d1)
        },
        Widget::Response(re) => {
            let (c, r1, d1) = up(*re.child, r, d);
            (Widget::Response(Response { child: Box::new(c), ..re }), r1, d1)
        },
        Widget::Lensing(l) => {
            let sub = l.lens.read(d);
            let (c, r1, sub1) = up(*l.child, r, sub);
            (Widget::Lensing(Lensing { child: Box::new(c), ..l }), r1, l.lens.write(d, sub1))
        },
        Widget::Owning(_) => (w, r, d),
        Widget::Mapped(_) => (w, r, d),
        Widget::Maybe(m) => {
            let current = l_is_true(m.condition, d);
            let r1 = if current != m.active {
                Request { widget: true, layout: true, paint: true }
            } else {
                r
            };
            if current {
                let (c, r2, d1) = up(*m.child, r1, d);
                (Widget::Maybe(Maybe { child: Box::new(c), active: current, ..m }), r2, d1)
            } else {
                (Widget::Maybe(Maybe { active: current, ..m }), r1, d)
            }
        },
        Widget::And(a) => {
            let (c1, r1, d1) = up(*a.child1, r, d);
            let (c2, r2, d2) = up(*a.child2, r1, d1);
            (Widget::And(And { child1: Box::new(c1), child2: Box::new(c2) }), r2, d2)
        },
        Widget::Collection(c) => {
            let (l, r1, d1) = up_list(c.childs, r, d);
            (Widget::Collection(Collection { childs: l }), r1, d1)
        },
        Widget::Dynamic(dy) => match dy.child {
            Some(c) => {
                let (c1, r1, d1) = up(*c, r, d);
                (Widget::Dynamic(Dynamic { child: Some(Box::new(c1)), ..dy }), r1, d1)
            },
            None => (w, r, d),
        },
        Widget::Watch(wa) => {
            let (c, r1, d1) = up(*wa.child, r, d);
            let changed = wa.data != Some(d1);
            let r2 = if changed {
                match wa.level {
                    WatchLevel::Paint => Request { widget: r1.widget, layout: r1.layout, paint: true },
                    WatchLevel::Layout => Request { widget: r1.widget, layout: true, paint: true },
                    WatchLevel::Widget => Request { widget: true, layout: true, paint: true },
                }
            } else {
                r1
            };
            let data1 = if changed {
                Some(d1)
            } else {
                wa.data
            };
            (Widget::Watch(Watch { child: Box::new(c), data: data1, ..wa }), r2, d1)
        },
    }
}

/// Whether the boolean read through `l` out of `d` holds.
pub open spec fn l_is_true(l: crate::lens::Lens, d: Data) -> bool {
    l.read(d) == Data::Bool(true)
}

/// The update pass over a child list, in order.
pub open spec fn up_list<E>(l: Childs<E>, r: Request, d: Data) -> (Childs<E>, Request, Data)
    decreases l,
{
    match l {
        Childs::Nil => (l, r, d),
        Childs::Cons { node, off, next } => {
            let (n1, r1, d1) = up(*node, r, d);
            let (rest, r2, d2) = up_list(*next, r1, d1);
            (Childs::Cons { node: Box::new(n1), off, next: Box::new(rest) }, r2, d2)
        },
    }
}

// ---------------------------------------------------------------------------
// The widget pass
// ---------------------------------------------------------------------------

/// The model of the widget pass: run only when the widget flag is set, it
/// lets dynamic nodes rebuild their child from the prototype.
pub open spec fn wc<E>(w: Widget<E>, d: Data) -> (Widget<E>, Data)
    decreases w, 1int,
{
    match w {
        Widget::Empty(_) => (w, d),
        Widget::Bg(b) => {
            let (c, d1) = wc(*b.child, d);
            (Widget::Bg(Bg { child: Box::new(c), ..b }), d1)
        },
        Widget::Label(_) => (w, d),
        Widget::Text(_) => (w, d),
        Widget::Check(_) => (w, d),
        Widget::Slider(_) => (w, d),
        Widget::VSlider(_) => (w, d),
        Widget::Edit(_) => (w, d),
        Widget::Fix(f) => {
            let (c, d1) = wc(*f.child, d);
            (Widget::Fix(Fix { child: Box::new(c), ..f }), d1)
        },
        Widget::Align(a) => {
            let (c, d1) = wc(*a.child, d);
            (Widget::Align(Align { child: Box::new(c), ..a }), d1)
        },
        Widget::Padding(p) => {
            let (c, d1) = wc(*p.child, d);
            (Widget::Padding(Padding { child: Box::new(c), ..p }), d1)
        },
        Widget::Flex(f) => {
            let (l, d1) = wc_list(f.childs, d);
            (Widget::Flex(Flex { childs: l, ..f }), d1)
        },
        Widget::Response(re) => {
            let (c, d1) = wc(*re.child, d);
            (Widget::Response(Response { child: Box::new(c), ..re }), d1)
        },
        Widget::Lensing(l) => {
            let sub = l.lens.read(d);
            let (c, sub1) = wc(*l.child, sub);
            (Widget::Lensing(Lensing { child: Box::new(c), ..l }), l.lens.write(d, sub1))
        },
        Widget::Owning(_) => (w, d),
        Widget::Mapped(_) => (w, d),
        Widget::Maybe(m) => {
            if m.active {
                let (c, d1) = wc(*m.child, d);
                (Widget::Maybe(Maybe { child: Box::new(c), ..m }), d1)
            } else {
                (w, d)
            }
        },
        Widget::And(a) => {
            let (c1, d1) = wc(*a.child1, d);
            let (c2, d2) = wc(*a.child2, d1);
            (Widget::And(And { child1: Box::new(c1), child2: Box::new(c2) }), d2)
        },
        Widget::Collection(c) => {
            let (l, d1) = wc_list(c.childs, d);
            (Widget::Collection(Collection { childs: l }), d1)
        },
        Widget::Dynamic(dy) => {
            let (c1, d1) = wc(*dy.proto, d);
            (Widget::Dynamic(Dynamic { child: Some(Box::new(c1)), proto: dy.proto }), d1)
        },
        Widget::Watch(wa) => {
            let (c, d1) = wc(*wa.child, d);
            (Widget::Watch(Watch { child: Box::new(c), ..wa }), d1)
        },
    }
}

/// The widget pass over a child list, in order.
pub open spec fn wc_list<E>(l: Childs<E>, d: Data) -> (Childs<E>, Data)
    decreases l, 0int,
{
    match l {
        Childs::Nil => (l, d),
        Childs::Cons { node, off, next } => {
            let (n1, d1) = wc(*node, d);
            let (rest, d2) = wc_list(*next, d1);
            (Childs::Cons { node: Box::new(n1), off, next: Box::new(rest) }, d2)
        },
    }
}

// ---------------------------------------------------------------------------
// The layout passes
// ---------------------------------------------------------------------------

/// The text a node reads out of its data value; a value of another shape
/// reads as the empty text.
pub open spec fn text_of(d: Data) -> Chars {
    match d {
        Data::Text(t) => t,
        _ => Chars::Nil,
    }
}

/// The width of `t` drawn at `size` under metrics `m`.
pub open spec fn text_width_of(m: TextMetrics, t: Chars, size: i64) -> i64 {
    sat64(tdiv(m.units(t) as int * size as int, MILLI as int))
}

/// The line count of `t` wrapped at `width` milli-ems, pressed into `u32`.
pub open spec fn lines_sat(m: TextMetrics, t: Chars, width: i64) -> int {
    if m.lines(t, width, 0) <= u32::MAX {
        m.lines(t, width, 0)
    } else {
        u32::MAX as int
    }
}

/// The wrapping width of a text block in milli-ems: its width in units
/// scaled down by the text size. A degenerate text size reads as zero.
pub open spec fn block_ems(width: i64, text_size: i64) -> i64 {
    if text_size > 0 {
        sat64(tdiv(width as int * MILLI as int, text_size as int))
    } else {
        0i64
    }
}

/// The size a text block takes: the wrapping width scaled back to units,
/// and one text size of height per wrapped line.
pub open spec fn block_size(m: TextMetrics, t: Chars, width: i64, text_size: i64) -> Vec2 {
    let ems = block_ems(width, text_size);
    let h = (lines_sat(m, t, ems) as i64).wrapping_mul(text_size);
    Vec2 { x: sat64(tdiv(ems as int * text_size as int, MILLI as int)), y: h }
}

/// The larger of two values.
pub open spec fn max64(a: i64, b: i64) -> i64 {
    if a >= b {
        a
    } else {
        b
    }
}

/// The model of the layout inquire phase: bottom-up minimum sizes, cached
/// where the compute phase or the paint pass will need them.
pub open spec fn inq<E>(w: Widget<E>, m: TextMetrics, d: Data) -> (Widget<E>, Vec2)
    decreases w,
{
    match w {
        Widget::Empty(_) => (w, Vec2 { x: 0i64, y: 0i64 }),
        Widget::Bg(b) => {
            let (c, sz) = inq(*b.child, m, d);
            (Widget::Bg(Bg { child: Box::new(c), ..b }), sz)
        },
        Widget::Label(la) => {
            let width = text_width_of(m, text_of(d), la.text_size);
            let sz = Vec2 { x: width, y: la.text_size };
            (Widget::Label(Label { size: sz, ..la }), sz)
        },
        Widget::Text(t) => {
            let sz = block_size(m, text_of(d), t.wish_width, t.text_size);
            (w, sz)
        },
        Widget::Check(c) => (w, Vec2 { x: c.size, y: c.size }),
        Widget::Slider(sl) => (w, sl.wish_size),
        Widget::VSlider(sl) => (w, sl.wish_size),
        Widget::Edit(e) => (w, e.wish_size),
        Widget::Fix(f) => {
            let (c, sz) = inq(*f.child, m, d);
            let sz1 = Vec2 {
                x: match f.width {
                    Some(x) => x,
                    None => sz.x,
                },
                y: match f.height {
                    Some(y) => y,
                    None => sz.y,
                },
            };
            (Widget::Fix(Fix { child: Box::new(c), ..f }), sz1)
        },
        Widget::Align(a) => {
            let (c, sz) = inq(*a.child, m, d);
            (Widget::Align(Align { child: Box::new(c), size_or_offset: sz, ..a }), sz)
        },
        Widget::Padding(p) => {
            let (c, sz) = inq(*p.child, m, d);
            (
                Widget::Padding(Padding { child: Box::new(c), ..p }),
                sz.spec_plus(p.padding.min).spec_plus(p.padding.max),
            )
        },
        Widget::Flex(f) => {
            let (l, sum, sec) = flex_inq_list(f.childs, f.row, m, d);
            let mids = max64(len_i64(f.childs), 1).wrapping_sub(1);
            let total = sum.wrapping_add(f.padding.wrapping_mul(mids));
            (
                Widget::Flex(Flex { childs: l, total_primary_size: total, ..f }),
                make_size(f.row, total, sec),
            )
        },
        Widget::Response(r) => {
            let (c, sz) = inq(*r.child, m, d);
            (Widget::Response(Response { child: Box::new(c), ..r }), sz)
        },
        Widget::Lensing(l) => {
            let (c, sz) = inq(*l.child, m, l.lens.read(d));
            (Widget::Lensing(Lensing { child: Box::new(c), ..l }), sz)
        },
        Widget::Owning(o) => {
            let (c, sz) = inq(*o.child, m, o.data);
            (Widget::Owning(Owning { child: Box::new(c), ..o }), sz)
        },
        Widget::Mapped(ma) => {
            let snap = ma.lens.read(d);
            let (c, sz) = inq(*ma.child, m, snap);
            (Widget::Mapped(Mapped { child: Box::new(c), data: Some(snap), ..ma }), sz)
        },
        Widget::Maybe(mb) => {
            if mb.active {
                let (c, sz) = inq(*mb.child, m, d);
                (Widget::Maybe(Maybe { child: Box::new(c), ..mb }), sz)
            } else {
                (w, Vec2 { x: 0i64, y: 0i64 })
            }
        },
        Widget::And(a) => {
            let (c1, s1) = inq(*a.child1, m, d);
            let (c2, s2) = inq(*a.child2, m, d);
            (
                Widget::And(And { child1: Box::new(c1), child2: Box::new(c2) }),
                s1.spec_component_max(s2),
            )
        },
        Widget::Collection(co) => {
            let (l, sz) = inq_list_max(co.childs, m, d);
            (Widget::Collection(Collection { childs: l }), sz)
        },
        Widget::Dynamic(dy) => match dy.child {
            Some(c) => {
                let (c1, sz) = inq(*c, m, d);
                (Widget::Dynamic(Dynamic { child: Some(Box::new(c1)), ..dy }), sz)
            },
            None => (w, Vec2 { x: 0i64, y: 0i64 }),
        },
        Widget::Watch(wa) => {
            let (c, sz) = inq(*wa.child, m, d);
            (Widget::Watch(Watch { child: Box::new(c), ..wa }), sz)
        },
    }
}

/// The inquire phase over a flex child list: each cell caches its child's
/// primary minimum, the primary minimums accumulate, the secondary is the
/// maximum.
pub open spec fn flex_inq_list<E>(l: Childs<E>, row: bool, m: TextMetrics, d: Data) -> (
    Childs<E>,
    i64,
    i64,
)
    decreases l,
{
    match l {
        Childs::Nil => (l, 0i64, 0i64),
        Childs::Cons { node, off, next } => {
            let (n1, sz) = inq(*node, m, d);
            let cp = primary(row, sz);
            let cs = secondary(row, sz);
            let (rest, sum, sec) = flex_inq_list(*next, row, m, d);
            (
                Childs::Cons { node: Box::new(n1), off: cp, next: Box::new(rest) },
                cp.wrapping_add(sum),
                max64(cs, sec),
            )
        },
    }
}

/// The inquire phase over a parallel child list: the componentwise maximum
/// of the children's minimums.
pub open spec fn inq_list_max<E>(l: Childs<E>, m: TextMetrics, d: Data) -> (Childs<E>, Vec2)
    decreases l,
{
    match l {
        Childs::Nil => (l, Vec2 { x: 0i64, y: 0i64 }),
        Childs::Cons { node, off, next } => {
            let (n1, sz) = inq(*node, m, d);
            let (rest, ms) = inq_list_max(*next, m, d);
            (
                Childs::Cons { node: Box::new(n1), off, next: Box::new(rest) },
                sz.spec_component_max(ms),
            )
        },
    }
}

/// The slack shares of a flex container: the pad before the first child,
/// between children, after the last child, and the growth added to each
/// child, for a given nonnegative slack `delta`.
pub open spec fn flex_shares(layout: FlexLayout, delta: i64, count: i64, mids: i64) -> (
    i64,
    i64,
    i64,
    i64,
)
    recommends
        delta >= 0,
        count >= 0,
        mids >= 0,
{
    match layout {
        FlexLayout::Front => (0i64, 0i64, delta, 0i64),
        FlexLayout::Center => ((delta as int / 2) as i64, 0i64, (delta as int / 2) as i64, 0i64),
        FlexLayout::Back => (delta, 0i64, 0i64, 0i64),
        FlexLayout::PadBetween => (
            0i64,
            (delta as int / max64(mids, 1) as int) as i64,
            0i64,
            0i64,
        ),
        FlexLayout::PadAll => {
            let pad = (delta as int / (mids + 1) as int) as i64;
            ((pad as int / 2) as i64, pad, (pad as int / 2) as i64, 0i64)
        },
        FlexLayout::GrowChilds => (0i64, 0i64, 0i64, (delta as int / max64(count, 1) as int) as i64),
    }
}

/// The model of the layout compute phase: top-down allotments, cached
/// geometry, and the soft does-not-fit flag.
pub open spec fn cmp<E>(w: Widget<E>, m: TextMetrics, d: Data, size: Vec2, fits: bool) -> (
    Widget<E>,
    Vec2,
    bool,
)
    decreases w,
{
    match w {
        Widget::Empty(_) => (w, size, fits),
        Widget::Bg(b) => {
            let (c, sz, f1) = cmp(*b.child, m, d, size, fits);
            (Widget::Bg(Bg { child: Box::new(c), size: sz }), sz, f1)
        },
        Widget::Label(la) => (w, la.size, fits),
        Widget::Text(t) => {
            let sz = block_size(m, text_of(d), max64(t.wish_width, size.x), t.text_size);
            (Widget::Text(Text { actual_size: sz, ..t }), sz, fits)
        },
        Widget::Check(c) => (w, Vec2 { x: c.size, y: c.size }, fits),
        Widget::Slider(sl) => {
            let sz = Vec2 { x: max64(sl.wish_size.x, size.x), y: sl.wish_size.y };
            (Widget::Slider(Slider { actual_size: sz, ..sl }), sz, fits)
        },
        Widget::VSlider(sl) => {
            let sz = Vec2 { x: sl.wish_size.x, y: max64(sl.wish_size.y, size.y) };
            (Widget::VSlider(VSlider { actual_size: sz, ..sl }), sz, fits)
        },
        Widget::Edit(e) => {
            let sz = Vec2 { x: max64(e.wish_size.x, size.x), y: e.wish_size.y };
            (Widget::Edit(Edit { actual_size: sz, ..e }), sz, fits)
        },
        Widget::Fix(f) => {
            let sz = Vec2 {
                x: match f.width {
                    Some(x) => x,
                    None => size.x,
                },
                y: match f.height {
                    Some(y) => y,
                    None => size.y,
                },
            };
            let (c, used, f1) = cmp(*f.child, m, d, sz, fits);
            (Widget::Fix(Fix { child: Box::new(c), ..f }), used, f1)
        },
        Widget::Align(a) => {
            let delta = Vec2 {
                x: max64(size.x.wrapping_sub(a.size_or_offset.x), 0),
                y: max64(size.y.wrapping_sub(a.size_or_offset.y), 0),
            };
            let off = Vec2 {
                x: match a.horizontal {
                    AlignLayout::Front => 0i64,
                    AlignLayout::Mid => (delta.x as int / 2) as i64,
                    AlignLayout::Back => delta.x,
                },
                y: match a.vertical {
                    AlignLayout::Front => 0i64,
                    AlignLayout::Mid => (delta.y as int / 2) as i64,
                    AlignLayout::Back => delta.y,
                },
            };
            let (c, csz, f1) = cmp(*a.child, m, d, size.spec_minus(delta), fits);
            (
                Widget::Align(Align { child: Box::new(c), size_or_offset: off, ..a }),
                Vec2 { x: max64(size.x, csz.x), y: max64(size.y, csz.y) },
                f1,
            )
        },
        Widget::Padding(p) => {
            let inner = size.spec_minus(p.padding.min).spec_minus(p.padding.max);
            let f1 = if inner.x <= 0 || inner.y <= 0 {
                false
            } else {
                fits
            };
            let (c, csz, f2) = cmp(*p.child, m, d, inner, f1);
            (
                Widget::Padding(Padding { child: Box::new(c), ..p }),
                csz.spec_plus(p.padding.min).spec_plus(p.padding.max),
                f2,
            )
        },
        Widget::Flex(f) => {
            let pr = primary(f.row, size);
            let sec = secondary(f.row, size);
            let delta0 = pr.wrapping_sub(f.total_primary_size);
            let delta = if delta0 < 0 {
                0i64
            } else {
                delta0
            };
            let f1 = if delta0 < 0 {
                false
            } else {
                fits
            };
            let count = len_i64(f.childs);
            let mids = max64(count, 1).wrapping_sub(1);
            let (pad_front, pad_mid0, pad_back, growth) = flex_shares(f.layout, delta, count, mids);
            let pad_mid = pad_mid0.wrapping_add(f.padding);
            let (l, off_end, f2) = flex_cmp_list(
                f.childs,
                f.row,
                m,
                d,
                sec,
                growth,
                pad_mid,
                pad_front,
                f1,
            );
            let off1 = if f.childs.len() > 0 {
                off_end.wrapping_sub(pad_mid)
            } else {
                off_end
            };
            let off2 = off1.wrapping_add(pad_back);
            (Widget::Flex(Flex { childs: l, ..f }), make_size(f.row, off2, sec), f2)
        },
        Widget::Response(r) => {
            let (c, sz, f1) = cmp(*r.child, m, d, size, fits);
            (Widget::Response(Response { child: Box::new(c), size: sz, ..r }), sz, f1)
        },
        Widget::Lensing(l) => {
            let (c, sz, f1) = cmp(*l.child, m, l.lens.read(d), size, fits);
            (Widget::Lensing(Lensing { child: Box::new(c), ..l }), sz, f1)
        },
        Widget::Owning(o) => {
            let (c, sz, f1) = cmp(*o.child, m, o.data, size, fits);
            (Widget::Owning(Owning { child: Box::new(c), ..o }), sz, f1)
        },
        Widget::Mapped(ma) => match ma.data {
            Some(snap) => {
                let (c, sz, f1) = cmp(*ma.child, m, snap, size, fits);
                (Widget::Mapped(Mapped { child: Box::new(c), ..ma }), sz, f1)
            },
            None => (w, Vec2 { x: 0i64, y: 0i64 }, fits),
        },
        Widget::Maybe(mb) => {
            if mb.active {
                let (c, sz, f1) = cmp(*mb.child, m, d, size, fits);
                (Widget::Maybe(Maybe { child: Box::new(c), ..mb }), sz, f1)
            } else {
                (w, Vec2 { x: 0i64, y: 0i64 }, fits)
            }
        },
        Widget::And(a) => {
            let (c1, s1, f1) = cmp(*a.child1, m, d, size, fits);
            let (c2, s2, f2) = cmp(*a.child2, m, d, size, f1);
            (
                Widget::And(And { child1: Box::new(c1), child2: Box::new(c2) }),
                s1.spec_component_max(s2),
                f2,
            )
        },
        Widget::Collection(co) => {
            let (l, sz, f1) = cmp_list_max(co.childs, m, d, size, fits);
            (Widget::Collection(Collection { childs: l }), sz, f1)
        },
        Widget::Dynamic(dy) => match dy.child {
            Some(c) => {
                let (c1, sz, f1) = cmp(*c, m, d, size, fits);
                (Widget::Dynamic(Dynamic { child: Some(Box::new(c1)), ..dy }), sz, f1)
            },
            None => (w, Vec2 { x: 0i64, y: 0i64 }, fits),
        },
        Widget::Watch(wa) => {
            let (c, sz, f1) = cmp(*wa.child, m, d, size, fits);
            (Widget::Watch(Watch { child: Box::new(c), ..wa }), sz, f1)
        },
    }
}

/// The compute phase over a flex child list: each child is allotted its
/// cached minimum plus the growth share, offsets accumulate with the gap,
/// and each cell caches its child's offset.
pub open spec fn flex_cmp_list<E>(
    l: Childs<E>,
    row: bool,
    m: TextMetrics,
    d: Data,
    sec: i64,
    growth: i64,
    pad_mid: i64,
    offset: i64,
    fits: bool,
) -> (Childs<E>, i64, bool)
    decreases l,
{
    match l {
        Childs::Nil => (l, offset, fits),
        Childs::Cons { node, off, next } => {
            let child_primary = off.wrapping_add(growth);
            let child_size = make_size(row, child_primary, sec);
            let (n1, _used, f1) = cmp(*node, m, d, child_size, fits);
            let offset1 = offset.wrapping_add(child_primary).wrapping_add(pad_mid);
            let (rest, off_end, f2) = flex_cmp_list(
                *next,
                row,
                m,
                d,
                sec,
                growth,
                pad_mid,
                offset1,
                f1,
            );
            (
                Childs::Cons { node: Box::new(n1), off: offset, next: Box::new(rest) },
                off_end,
                f2,
            )
        },
    }
}

/// The compute phase over a parallel child list: every child is allotted
/// the full size; the used sizes combine by the componentwise maximum.
pub open spec fn cmp_list_max<E>(l: Childs<E>, m: TextMetrics, d: Data, size: Vec2, fits: bool) -> (
    Childs<E>,
    Vec2,
    bool,
)
    decreases l,
{
    match l {
        Childs::Nil => (l, Vec2 { x: 0i64, y: 0i64 }, fits),
        Childs::Cons { node, off, next } => {
            let (n1, sz, f1) = cmp(*node, m, d, size, fits);
            let (rest, ms, f2) = cmp_list_max(*next, m, d, size, f1);
            (
                Childs::Cons { node: Box::new(n1), off, next: Box::new(rest) },
                sz.spec_component_max(ms),
                f2,
            )
        },
    }
}

// ---------------------------------------------------------------------------
// The paint pass
// ---------------------------------------------------------------------------

/// The mutable surroundings of the paint pass: the recorder's origin and
/// command sequence, the ambient interaction state, and the style table.
pub struct PtState {
    pub origin: Vec2,
    pub cmds: Seq<DrawCmd>,
    pub state: WidgetState,
    pub style: StyleSet,
}

/// The model-level view of a paint context.
pub open spec fn pt_state_of(c: crate::ui::PaintCtx) -> PtState {
    PtState { origin: c.painter.origin, cmds: c.painter.cmds@, state: c.state, style: c.style }
}

/// `p` with its origin moved by `v`.
pub open spec fn pt_offset(p: PtState, v: Vec2) -> PtState {
    PtState { origin: p.origin.spec_plus(v), ..p }
}

/// `p` with one primitive recorded at its origin.
pub open spec fn pt_push(p: PtState, cmd: DrawCmd) -> PtState {
    PtState { cmds: p.cmds.push(cmd), ..p }
}

/// A rectangle shifted by the paint origin.
pub open spec fn shifted(p: PtState, rect: Rect) -> Rect {
    Painter::spec_shifted(p.origin, rect)
}

/// The model of the paint pass: pre-order, in node-local coordinates, with
/// the ambient offset applied by the recorder.
pub open spec fn pt<E>(w: Widget<E>, p: PtState, d: Data) -> PtState
    decreases w,
{
    match w {
        Widget::Empty(_) => p,
        Widget::Bg(b) => {
            let p1 = pt_push(
                p,
                DrawCmd::Rect(
                    shifted(p, Rect::spec_new_origin(b.size)),
                    p.style.bg.spec_get(p.state),
                ),
            );
            pt(*b.child, p1, d)
        },
        Widget::Label(la) => pt_push(
            p,
            DrawCmd::Text(
                shifted(p, Rect::spec_new_origin(la.size)),
                text_of(d),
                la.text_size,
                TextAlign::Left,
                false,
                p.style.text,
            ),
        ),
        Widget::Text(t) => pt_push(
            p,
            DrawCmd::Text(
                shifted(p, Rect::spec_new_origin(t.actual_size)),
                text_of(d),
                t.text_size,
                t.align,
                true,
                p.style.text,
            ),
        ),
        Widget::Check(c) => {
            let s1 = c.size;
            let s2 = sat64(tdiv(s1 as int * 150, 1000));
            let s3 = sat64(tdiv(s1 as int * 700, 1000));
            let s4 = sat64(tdiv(s1 as int * 300, 1000));
            let s5 = sat64(tdiv(s1 as int * 400, 1000));
            let p1 = pt_push(
                p,
                DrawCmd::Rect(
                    shifted(p, Rect::spec_new_origin(Vec2 { x: s1, y: s1 })),
                    p.style.top,
                ),
            );
            let p2 = pt_push(
                p1,
                DrawCmd::Rect(
                    shifted(
                        p1,
                        Rect {
                            min: Vec2 { x: s2, y: s2 },
                            max: Vec2 { x: s2.wrapping_add(s3), y: s2.wrapping_add(s3) },
                        },
                    ),
                    p1.style.data.spec_get(p1.state),
                ),
            );
            if d == Data::Bool(true) {
                pt_push(
                    p2,
                    DrawCmd::Rhombus(
                        shifted(
                            p2,
                            Rect {
                                min: Vec2 { x: s4, y: s4 },
                                max: Vec2 { x: s4.wrapping_add(s5), y: s4.wrapping_add(s5) },
                            },
                        ),
                        p2.style.top,
                    ),
                )
            } else {
                p2
            }
        },
        Widget::Slider(sl) => {
            let size = sl.actual_size;
            let v = match d {
                Data::Int(v) => v,
                _ => sl.min,
            };
            let range = sl.max.wrapping_sub(sl.min);
            let pos = if range > 0 {
                sat64(tdiv(v.wrapping_sub(sl.min) as int * size.x as int, range as int))
            } else {
                0i64
            };
            let half = sat64(tdiv(size.y as int, 2));
            let y1 = sat64(tdiv(size.y as int, 3));
            let y2 = sat64(tdiv(size.y as int * 2, 3));
            let p1 = pt_push(
                p,
                DrawCmd::Rect(
                    shifted(
                        p,
                        Rect { min: Vec2 { x: 0i64, y: y1 }, max: Vec2 { x: size.x, y: y2 } },
                    ),
                    p.style.top,
                ),
            );
            pt_push(
                p1,
                DrawCmd::Rhombus(
                    shifted(
                        p1,
                        Rect {
                            min: Vec2 { x: pos.wrapping_sub(half), y: 0i64 },
                            max: Vec2 { x: pos.wrapping_add(half), y: size.y },
                        },
                    ),
                    if sl.dragged {
                        p1.style.data.hot
                    } else {
                        p1.style.data.spec_get(p1.state)
                    },
                ),
            )
        },
        Widget::VSlider(sl) => {
            let size = sl.actual_size;
            let v = match d {
                Data::Int(v) => v,
                _ => sl.min,
            };
            let range = sl.max.wrapping_sub(sl.min);
            let pos = if range > 0 {
                sat64(tdiv(v.wrapping_sub(sl.min) as int * size.y as int, range as int))
            } else {
                0i64
            };
            let half = sat64(tdiv(size.x as int, 2));
            let x1 = sat64(tdiv(size.x as int, 3));
            let x2 = sat64(tdiv(size.x as int * 2, 3));
            let p1 = pt_push(
                p,
                DrawCmd::Rect(
                    shifted(
                        p,
                        Rect { min: Vec2 { x: x1, y: 0i64 }, max: Vec2 { x: x2, y: size.y } },
                    ),
                    p.style.top,
                ),
            );
            pt_push(
                p1,
                DrawCmd::Rhombus(
                    shifted(
                        p1,
                        Rect {
                            min: Vec2 { x: 0i64, y: pos.wrapping_sub(half) },
                            max: Vec2 { x: size.x, y: pos.wrapping_add(half) },
                        },
                    ),
                    if sl.dragged {
                        p1.style.data.hot
                    } else {
                        p1.style.data.spec_get(p1.state)
                    },
                ),
            )
        },
        Widget::Edit(e) => {
            let size = e.actual_size;
            let rect = Rect::spec_new_origin(size);
            let t = text_of(d);
            let cursor = e.active && (match e.max_length {
                Some(m) => chars_len_sat(t) < m as int,
                None => true,
            });
            let display = if cursor {
                t.pushed('_')
            } else {
                t
            };
            let p1 = pt_push(
                p,
                DrawCmd::Rect(shifted(p, rect), p.style.data.spec_get(p.state)),
            );
            pt_push(
                p1,
                DrawCmd::Text(
                    shifted(p1, rect),
                    display,
                    size.y,
                    TextAlign::Left,
                    false,
                    p1.style.text,
                ),
            )
        },
        Widget::Fix(f) => pt(*f.child, p, d),
        Widget::Align(a) => {
            let p1 = pt(*a.child, pt_offset(p, a.size_or_offset), d);
            pt_offset(p1, a.size_or_offset.spec_wneg())
        },
        Widget::Padding(pa) => {
            let p1 = pt(*pa.child, pt_offset(p, pa.padding.min), d);
            pt_offset(p1, pa.padding.min.spec_wneg())
        },
        Widget::Flex(f) => pt_list_offset(f.childs, f.row, p, d),
        Widget::Response(r) => {
            let p1 = pt(*r.child, PtState { state: r.state, ..p }, d);
            PtState { state: p.state, ..p1 }
        },
        Widget::Lensing(l) => pt(*l.child, p, l.lens.read(d)),
        Widget::Owning(o) => pt(*o.child, p, o.data),
        Widget::Mapped(ma) => match ma.data {
            Some(snap) => pt(*ma.child, p, snap),
            None => p,
        },
        Widget::Maybe(mb) => {
            if mb.active {
                pt(*mb.child, p, d)
            } else {
                p
            }
        },
        Widget::And(a) => {
            let p1 = pt(*a.child1, p, d);
            pt(*a.child2, p1, d)
        },
        Widget::Collection(co) => pt_list_plain(co.childs, p, d),
        Widget::Dynamic(dy) => match dy.child {
            Some(c) => pt(*c, p, d),
            None => p,
        },
        Widget::Watch(wa) => pt(*wa.child, p, d),
    }
}

/// The paint pass over a child list without offsets, in order.
pub open spec fn pt_list_plain<E>(l: Childs<E>, p: PtState, d: Data) -> PtState
    decreases l,
{
    match l {
        Childs::Nil => p,
        Childs::Cons { node, off, next } => {
            let p1 = pt(*node, p, d);
            pt_list_plain(*next, p1, d)
        },
    }
}

/// The paint pass over a flex child list: each child paints at its cached
/// offset along the primary axis.
pub open spec fn pt_list_offset<E>(l: Childs<E>, row: bool, p: PtState, d: Data) -> PtState
    decreases l,
{
    match l {
        Childs::Nil => p,
        Childs::Cons { node, off, next } => {
            let v = axis_vec(row, off);
            let p1 = pt(*node, pt_offset(p, v), d);
            let p2 = pt_offset(p1, v.spec_wneg());
            pt_list_offset(*next, row, p2, d)
        },
    }
}

} // verus!
