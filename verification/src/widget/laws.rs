//! The laws the event machinery obeys, proved of the model that the
//! executable passes equal.

use vstd::prelude::*;

use crate::data::Data;
use crate::event::{Event, HardwareEvent, LogicEvent, MouseButton};
use crate::geom::Rect;
use crate::widget::compose::And;
use crate::widget::interact::{Response, WidgetState};
use crate::widget::layout::Empty;
use crate::widget::model::{ev, ev_list_offset, ev_list_plain, ev_offset, EvState};
use crate::widget::{Childs, Widget};

verus! {

/// Coordinate round-trip: the event pass hands the event back exactly as it
/// received it, whatever the tree. Every offsetting node applies the
/// inverse of its offset before recursing and the offset itself afterwards,
/// and the two cancel; no node changes the event in any other way. The
/// consumed flag is write-once: a consumed event stays consumed. The
/// clipboard text seen by the pass never changes.
pub proof fn lemma_event_roundtrip<E>(w: Widget<E>, s: EvState<E>, d: Data)
    ensures
        ({
            let (w1, s1, d1) = ev(w, s, d);
            &&& s1.pod.event == s.pod.event
            &&& (s.pod.used ==> s1.pod.used)
            &&& s1.clip == s.clip
        }),
    decreases w,
{
    match w {
        Widget::Empty(_) => {},
        Widget::Bg(b) => {
            lemma_event_roundtrip(*b.child, s, d);
        },
        Widget::Label(_) => {},
        Widget::Text(_) => {},
        Widget::Check(_) => {},
        Widget::Slider(_) => {},
        Widget::VSlider(_) => {},
        Widget::Edit(_) => {},
        Widget::Fix(f) => {
            lemma_event_roundtrip(*f.child, s, d);
        },
        Widget::Align(a) => {
            let v = a.size_or_offset;
            lemma_event_roundtrip(*a.child, ev_offset(s, v.spec_wneg()), d);
            crate::event::lemma_offset_roundtrip(s.pod.event, v);
        },
        Widget::Padding(p) => {
            let v = p.padding.min;
            lemma_event_roundtrip(*p.child, ev_offset(s, v.spec_wneg()), d);
            crate::event::lemma_offset_roundtrip(s.pod.event, v);
        },
        Widget::Flex(f) => {
            lemma_event_roundtrip_list_offset(f.childs, f.row, s, d);
        },
        Widget::Response(r) => {
            lemma_event_roundtrip(*r.child, s, d);
        },
        Widget::Lensing(l) => {
            lemma_event_roundtrip(*l.child, s, l.lens.read(d));
        },
        Widget::Owning(_) => {},
        Widget::Mapped(_) => {},
        Widget::Maybe(m) => {
            if m.active {
                lemma_event_roundtrip(*m.child, s, d);
            }
        },
        Widget::And(a) => {
            lemma_event_roundtrip(*a.child1, s, d);
            let (c1, s1, d1) = ev(*a.child1, s, d);
            lemma_event_roundtrip(*a.child2, s1, d1);
        },
        Widget::Collection(c) => {
            lemma_event_roundtrip_list_plain(c.childs, s, d);
        },
        Widget::Dynamic(dy) => {
            match dy.child {
                Some(c) => {
                    lemma_event_roundtrip(*c, s, d);
                },
                None => {},
            }
        },
        Widget::Watch(wa) => {
            lemma_event_roundtrip(*wa.child, s, d);
        },
    }
}

/// The round-trip law over a plain child list.
pub proof fn lemma_event_roundtrip_list_plain<E>(l: Childs<E>, s: EvState<E>, d: Data)
    ensures
        ({
            let (l1, s1, d1) = ev_list_plain(l, s, d);
            &&& s1.pod.event == s.pod.event
            &&& (s.pod.used ==> s1.pod.used)
            &&& s1.clip == s.clip
        }),
    decreases l,
{
    match l {
        Childs::Nil => {},
        Childs::Cons { node, off, next } => {
            lemma_event_roundtrip(*node, s, d);
            let (n1, s1, d1) = ev(*node, s, d);
            lemma_event_roundtrip_list_plain(*next, s1, d1);
        },
    }
}

/// The round-trip law over a flex child list with per-child offsets.
pub proof fn lemma_event_roundtrip_list_offset<E>(l: Childs<E>, row: bool, s: EvState<E>, d: Data)
    ensures
        ({
            let (l1, s1, d1) = ev_list_offset(l, row, s, d);
            &&& s1.pod.event == s.pod.event
            &&& (s.pod.used ==> s1.pod.used)
            &&& s1.clip == s.clip
        }),
    decreases l,
{
    match l {
        Childs::Nil => {},
        Childs::Cons { node, off, next } => {
            let v = crate::widget::model::axis_vec(row, off);
            lemma_event_roundtrip(*node, ev_offset(s, v.spec_wneg()), d);
            crate::event::lemma_offset_roundtrip(s.pod.event, v);
            let (n1, s1, d1) = ev(*node, ev_offset(s, v.spec_wneg()), d);
            lemma_event_roundtrip_list_offset(*next, row, ev_offset(s1, v), d1);
        },
    }
}

/// Single-consumer pointer dispatch: two sibling interactive nodes whose
/// bounds both contain an unconsumed press. Exactly the first sibling turns
/// hot and consumes the event; the second sees the consumed flag, keeps its
/// state, and emits nothing. Data and output sequence are untouched.
pub proof fn lemma_single_consumer<E>(
    r1: Response<E>,
    r2: Response<E>,
    s: EvState<E>,
    d: Data,
    pos: crate::geom::Vec2,
    button: MouseButton,
)
    requires
        s.pod.event == (HardwareEvent::PointerClicked { pos, button, pressed: true }),
        !s.pod.used,
        Rect::spec_new_origin(r1.size).spec_contains_linf(pos),
        Rect::spec_new_origin(r2.size).spec_contains_linf(pos),
        *r1.child == Widget::<E>::Empty(Empty),
        *r2.child == Widget::<E>::Empty(Empty),
    ensures
        ({
            let w = Widget::And(
                And {
                    child1: Box::new(Widget::Response(r1)),
                    child2: Box::new(Widget::Response(r2)),
                },
            );
            let (w1, s1, d1) = ev(w, s, d);
            &&& s1.pod.used
            &&& s1.pod.event == s.pod.event
            &&& w1 == Widget::And(
                And {
                    child1: Box::new(
                        Widget::Response(Response { state: WidgetState::Hot, ..r1 }),
                    ),
                    child2: Box::new(Widget::Response(r2)),
                },
            )
            &&& d1 == d
            &&& s1.out == s.out
        }),
{
    assert(ev(*r1.child, s, d) == (*r1.child, s, d));
    let (r1p, sq, dq) = crate::widget::model::response_step(r1, *r1.child, s, d);
    assert(r1p == Response { child: Box::new(*r1.child), state: WidgetState::Hot, ..r1 });
    assert(sq.pod.used && sq.pod.event == s.pod.event && sq.out == s.out && sq.clip == s.clip);
    assert(ev(Widget::Response(r1), s, d) == (Widget::Response(r1p), sq, dq));
    assert(ev(*r2.child, sq, dq) == (*r2.child, sq, dq));
    let (r2p, sr, dr) = crate::widget::model::response_step(r2, *r2.child, sq, dq);
    assert(r2p == Response { child: Box::new(*r2.child), ..r2 });
    assert(sr == sq && dr == dq);
    assert(ev(Widget::Response(r2), sq, dq) == (Widget::Response(r2p), sr, dr));
    assert(Widget::Response(r2p) == Widget::Response(r2));
}

/// Interaction commit: a press inside the bounds followed by a release
/// inside the bounds produces exactly one click event carrying the attached
/// tag and the release's button, and leaves the node hovering.
pub proof fn lemma_interaction_commit<E>(
    r: Response<E>,
    s1: EvState<E>,
    s2: EvState<E>,
    d: Data,
    pos1: crate::geom::Vec2,
    pos2: crate::geom::Vec2,
    b1: MouseButton,
    b2: MouseButton,
    tag: E,
)
    requires
        s1.pod.event == (HardwareEvent::PointerClicked { pos: pos1, button: b1, pressed: true }),
        s2.pod.event == (HardwareEvent::PointerClicked { pos: pos2, button: b2, pressed: false }),
        !s1.pod.used,
        !s2.pod.used,
        Rect::spec_new_origin(r.size).spec_contains_linf(pos1),
        Rect::spec_new_origin(r.size).spec_contains_linf(pos2),
        *r.child == Widget::<E>::Empty(Empty),
        r.event == Some(tag),
        r.action == Option::<crate::widget::interact::Action>::None,
    ensures
        ({
            let (w1, s1p, d1) = ev(Widget::Response(r), s1, d);
            let (w2, s2p, d2) = ev(w1, s2, d1);
            &&& s1p.out == s1.out
            &&& s2p.out == s2.out.push(Event::Logic(LogicEvent::Clicked(tag, b2)))
            &&& s1p.pod.used
            &&& s2p.pod.used
            &&& d2 == d
            &&& w2 == Widget::Response(Response { state: WidgetState::Hover, ..r })
        }),
{
    let (w1, s1p, d1) = ev(Widget::Response(r), s1, d);
    assert(ev(*r.child, s1, d) == (*r.child, s1, d));
    let (r1, s1q, d1q) = crate::widget::model::response_step(r, *r.child, s1, d);
    assert(r1 == Response { child: Box::new(*r.child), state: WidgetState::Hot, ..r });
    assert(w1 == Widget::Response(r1) && s1p == s1q && d1 == d1q);
    assert(ev(*r1.child, s2, d1) == (*r1.child, s2, d1));
    let (r2, s2q, d2q) = crate::widget::model::response_step(r1, *r1.child, s2, d1);
    assert(crate::widget::model::rsp(*r1.child, d1, Some(b2), s2.clip) == (
        *r1.child,
        d1,
        false,
    ));
    assert(r2 == Response { child: Box::new(*r.child), state: WidgetState::Hover, ..r });
    assert(ev(w1, s2, d1) == (Widget::Response(r2), s2q, d2q));
}

/// No commit without a release inside: after the press turns the node hot,
/// a pointer motion outside the bounds cools it, and a release outside the
/// bounds afterwards emits no click event at all.
pub proof fn lemma_interaction_drag_out<E>(
    r: Response<E>,
    s1: EvState<E>,
    s2: EvState<E>,
    s3: EvState<E>,
    d: Data,
    pos1: crate::geom::Vec2,
    pos2: crate::geom::Vec2,
    pos3: crate::geom::Vec2,
    delta: crate::geom::Vec2,
    b1: MouseButton,
    b3: MouseButton,
    tag: E,
)
    requires
        s1.pod.event == (HardwareEvent::PointerClicked { pos: pos1, button: b1, pressed: true }),
        s2.pod.event == (HardwareEvent::PointerMoved { pos: pos2, delta }),
        s3.pod.event == (HardwareEvent::PointerClicked { pos: pos3, button: b3, pressed: false }),
        !s1.pod.used,
        Rect::spec_new_origin(r.size).spec_contains_linf(pos1),
        !Rect::spec_new_origin(r.size).spec_contains_linf(pos2),
        !Rect::spec_new_origin(r.size).spec_contains_linf(pos3),
        *r.child == Widget::<E>::Empty(Empty),
        r.event == Some(tag),
        r.action == Option::<crate::widget::interact::Action>::None,
    ensures
        ({
            let (w1, s1p, d1) = ev(Widget::Response(r), s1, d);
            let (w2, s2p, d2) = ev(w1, s2, d1);
            let (w3, s3p, d3) = ev(w2, s3, d2);
            &&& s1p.out == s1.out
            &&& s2p.out == s2.out
            &&& s3p.out == s3.out
            &&& d3 == d
            &&& w3 == Widget::Response(Response { state: WidgetState::Cold, ..r })
        }),
{
    let (w1, s1p, d1) = ev(Widget::Response(r), s1, d);
    assert(ev(*r.child, s1, d) == (*r.child, s1, d));
    let (r1, s1q, d1q) = crate::widget::model::response_step(r, *r.child, s1, d);
    assert(r1 == Response { child: Box::new(*r.child), state: WidgetState::Hot, ..r });
    assert(w1 == Widget::Response(r1) && s1p == s1q && d1 == d1q);
    let (w2, s2p, d2) = ev(w1, s2, d1);
    assert(ev(*r1.child, s2, d1) == (*r1.child, s2, d1));
    let (r2, s2q, d2q) = crate::widget::model::response_step(r1, *r1.child, s2, d1);
    assert(r2 == Response { child: Box::new(*r.child), state: WidgetState::Cold, ..r });
    assert(w2 == Widget::Response(r2) && s2p == s2q && d2 == d2q);
    let (w3, s3p, d3) = ev(w2, s3, d2);
    assert(ev(*r2.child, s3, d2) == (*r2.child, s3, d2));
    let (r3, s3q, d3q) = crate::widget::model::response_step(r2, *r2.child, s3, d2);
    assert(crate::widget::model::rsp(*r2.child, d2, Option::<MouseButton>::None, s3.clip) == (
        *r2.child,
        d2,
        false,
    ));
    assert(r3 == Response { child: Box::new(*r.child), state: WidgetState::Cold, ..r });
    assert(w3 == Widget::Response(r3) && s3p == s3q && d3 == d3q);
}

} // verus!
