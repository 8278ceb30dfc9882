//! The executable per-frame passes over the widget tree, each verified
//! against its functional model in [`super::model`].

use vstd::prelude::*;
use vstd::arithmetic::div_mod::*;

use crate::data::{Chars, Data};
use crate::event::{HardwareEvent, LogicEvent, MouseButton};
use crate::geom::{div_nn, muldiv, Rect, Vec2, MILLI};
use crate::metrics::TextLayout;
use crate::ui::{EventCtx, LayoutComputeCtx, LayoutInquireCtx, PaintCtx};
use crate::widget::interact::WidgetState;
use crate::widget::model::{
    append_filtered, clip_view, ev, ev_list_offset, ev_list_plain, ev_state_of, round_div, rsp,
    rsp_list, scroll_value, slider_value,
};
use crate::widget::primitive::CharFilter;
use crate::widget::{Childs, Widget};

verus! {

/// Appends every clipboard character that passes the filter to `t`.
fn paste_filtered(t: &mut Chars, v: &Vec<char>, f: CharFilter)
    ensures
        *final(t) == append_filtered(*old(t), v@, f),
{
    let mut i: usize = 0;
    assert(v@.skip(0) =~= v@);
    while i < v.len()
        invariant
            i <= v@.len(),
            append_filtered(*old(t), v@, f) == append_filtered(*t, v@.skip(i as int), f),
        decreases v@.len() - i,
    {
        let c = v[i];
        assert(v@.skip(i as int).drop_first() =~= v@.skip(i as int + 1));
        assert(v@.skip(i as int)[0] == c);
        if f.allows(c) {
            t.push_back(c);
        }
        i = i + 1;
    }
}

/// The slider value for a pointer at `pos` out of `sz`.
fn slider_value_exec(pos: i64, sz: i64, min: i64, max: i64, step: i64) -> (r: i64)
    requires
        0 <= pos,
        pos <= sz,
        0 < sz,
        0 < step,
        min < max,
    ensures
        r == slider_value(pos, sz, min, max, step),
{
    let range: i128 = max as i128 - min as i128;
    proof {
        let po: int = pos as int;
        let szi: int = sz as int;
        let sti: int = step as int;
        let ra: int = range as int;
        assert(po * ra <= szi * ra) by (nonlinear_arith)
            requires
                po <= szi && ra > 0,
        ;
        assert(szi * ra < 0x8000_0000_0000_0000 * 0x1_0000_0000_0000_0000) by (nonlinear_arith)
            requires
                0 < szi < 0x8000_0000_0000_0000 && 0 < ra < 0x1_0000_0000_0000_0000,
        ;
        assert(0 <= po * ra) by (nonlinear_arith)
            requires
                0 <= po && 0 <= ra,
        ;
        assert(0 < szi * sti <= 0x8000_0000_0000_0000 * 0x8000_0000_0000_0000)
            by (nonlinear_arith)
            requires
                0 < szi <= 0x8000_0000_0000_0000 && 0 < sti <= 0x8000_0000_0000_0000,
        ;
    }
    let n: i128 = pos as i128 * range;
    let d: i128 = sz as i128 * step as i128;
    let q: u128 = (n as u128) / (d as u128);
    let rm: u128 = (n as u128) % (d as u128);
    proof {
        assert(q as int == n as int / d as int);
        assert(rm as int == n as int % d as int);
        // The quotient is at most range / step: scaling numerator and
        // denominator by sz leaves the quotient unchanged, and the
        // numerator only grew.
        lemma_fundamental_div_mod(range as int, step as int);
        let qq = range as int / step as int;
        let rr = range as int % step as int;
        assert(sz as int * range as int == qq * (sz as int * step as int) + sz as int * rr)
            by (nonlinear_arith)
            requires
                range as int == step as int * qq + rr,
        ;
        assert(0 <= sz as int * rr < sz as int * step as int) by (nonlinear_arith)
            requires
                0 <= rr < step as int && 0 < sz as int,
        ;
        lemma_fundamental_div_mod_converse(
            sz as int * range as int,
            sz as int * step as int,
            qq,
            sz as int * rr,
        );
        lemma_div_is_ordered(n as int, sz as int * range as int, d as int);
        assert(q as int <= qq);
    }
    let steps: i128 = if 2 * rm >= d as u128 {
        q as i128 + 1
    } else {
        q as i128
    };
    proof {
        let qq = range as int / step as int;
        let rr = range as int % step as int;
        assert(steps as int == round_div(n as int, d as int));
        assert(steps as int * step as int <= (qq + 1) * step as int) by (nonlinear_arith)
            requires
                steps as int <= qq + 1 && 0 < step as int,
        ;
        assert((qq + 1) * step as int == qq * step as int + step as int) by (nonlinear_arith);
        assert(qq * step as int <= range as int) by (nonlinear_arith)
            requires
                range as int == step as int * qq + rr && 0 <= rr,
        ;
        assert(0 <= steps as int * step as int) by (nonlinear_arith)
            requires
                0 <= steps as int && 0 < step as int,
        ;
    }
    let val: i128 = min as i128 + steps * step as i128;
    if val > i64::MAX as i128 {
        i64::MAX
    } else if val < i64::MIN as i128 {
        i64::MIN
    } else {
        val as i64
    }
}

/// The slider value after a scroll of `delta` steps.
fn scroll_value_exec(v: i64, delta: i64, step: i64, min: i64, max: i64) -> (r: i64)
    ensures
        r == scroll_value(v, delta, step, min, max),
{
    proof {
        let de: int = delta as int;
        let sti: int = step as int;
        assert(-(0x8000_0000_0000_0000 * 0x8000_0000_0000_0000) <= de * sti <= 0x8000_0000_0000_0000
            * 0x8000_0000_0000_0000) by (nonlinear_arith)
            requires
                -0x8000_0000_0000_0000 <= de < 0x8000_0000_0000_0000 && -0x8000_0000_0000_0000
                    <= sti < 0x8000_0000_0000_0000,
        ;
    }
    let s: i128 = v as i128 + delta as i128 * step as i128;
    let lo: i128 = min as i128;
    let hi: i128 = max as i128;
    let c: i128 = if s > lo {
        s
    } else {
        lo
    };
    let c2: i128 = if c < hi {
        c
    } else {
        hi
    };
    c2 as i64
}

/// The event handling shared by the two sliders, along one axis.
#[verifier::rlimit(30)]
fn slider_event<E: Copy>(
    min: i64,
    max: i64,
    step: i64,
    size_along: i64,
    size_across: i64,
    dragged: &mut bool,
    scroll_neg: bool,
    scroll_uses: bool,
    row: bool,
    ctx: &mut EventCtx<E>,
    data: &mut Data,
)
    ensures
        ({
            let (dr1, s1, d1) = crate::widget::model::slider_step(
                min,
                max,
                step,
                size_along,
                size_across,
                *old(dragged),
                scroll_neg,
                scroll_uses,
                row,
                ev_state_of(*old(ctx)),
                *old(data),
            );
            *final(dragged) == dr1 && ev_state_of(*final(ctx)) == s1 && *final(data) == d1
                && final(ctx).clipboard == old(ctx).clipboard
        }),
{
    if ctx.event.used {
        return ;
    }
    let evt = ctx.event.event;
    match evt {
        HardwareEvent::PointerClicked { pos, button: MouseButton::Primary, pressed } => {
            let along = if row {
                pos.x
            } else {
                pos.y
            };
            let across = if row {
                pos.y
            } else {
                pos.x
            };
            if pressed {
                if 0 <= across && across <= size_across {
                    if -500 <= along && along <= size_along.wrapping_add(500) {
                        *dragged = true;
                        ctx.event.used = true;
                    }
                    if 0 <= along && along <= size_along && size_along > 0 && step > 0 && min
                        < max {
                        match data {
                            Data::Int(v) => {
                                *v = slider_value_exec(along, size_along, min, max, step);
                            },
                            _ => {},
                        }
                        ctx.request.paint();
                    }
                }
            } else {
                if *dragged {
                    *dragged = false;
                    ctx.request.paint();
                    ctx.event.used = true;
                }
            }
        },
        HardwareEvent::PointerGone => {
            if *dragged {
                *dragged = false;
                ctx.request.paint();
            }
        },
        HardwareEvent::PointerMoved { pos, .. } => {
            if *dragged {
                let along = if row {
                    pos.x
                } else {
                    pos.y
                };
                let clamped = if along < 0 {
                    0
                } else if along > size_along {
                    size_along
                } else {
                    along
                };
                match data {
                    Data::Int(v) => {
                        let nv = if size_along > 0 && step > 0 && min < max {
                            slider_value_exec(clamped, size_along, min, max, step)
                        } else {
                            *v
                        };
                        if nv != *v {
                            *v = nv;
                            ctx.request.paint();
                        }
                    },
                    _ => {},
                }
            }
        },
        HardwareEvent::Scroll { pos, delta } => {
            let along = if row {
                pos.x
            } else {
                pos.y
            };
            let across = if row {
                pos.y
            } else {
                pos.x
            };
            let inside = 0 <= across && across <= size_across && -500 <= along && along
                <= size_along.wrapping_add(500);
            let dy = if scroll_neg {
                0i64.wrapping_sub(delta.y)
            } else {
                delta.y
            };
            if inside {
                match data {
                    Data::Int(v) => {
                        *v = scroll_value_exec(*v, dy, step, min, max);
                    },
                    _ => {},
                }
            }
            if scroll_uses {
                if inside {
                    ctx.request.paint();
                    ctx.event.used = true;
                }
            } else {
                ctx.request.paint();
            }
        },
        _ => {},
    }
}

/// The editor's event handling, verified against its model.
fn edit_event<E: Copy>(e: &crate::widget::primitive::Edit, ctx: &mut EventCtx<E>, data: &mut Data)
    ensures
        ({
            let (s1, d1) = crate::widget::model::edit_step(*e, ev_state_of(*old(ctx)), *old(data));
            ev_state_of(*final(ctx)) == s1 && *final(data) == d1
                && final(ctx).clipboard == old(ctx).clipboard
        }),
{
    if e.active && !ctx.event.used {
        let evt = ctx.event.event;
        match evt {
            HardwareEvent::Char(ch) => {
                ctx.event.used = true;
                let admitted = if e.filter.allows(ch) {
                    match &e.max_length {
                        Some(m) => match &*data {
                            Data::Text(t) => t.len_sat() < *m,
                            _ => true,
                        },
                        None => true,
                    }
                } else {
                    false
                };
                if admitted {
                    match data {
                        Data::Text(t) => {
                            t.push_back(ch);
                        },
                        _ => {},
                    }
                }
                ctx.request.paint();
            },
            HardwareEvent::Key { key: crate::event::Key::Back, pressed: true } => {
                ctx.event.used = true;
                match data {
                    Data::Text(t) => {
                        t.pop_back();
                    },
                    _ => {},
                }
                ctx.request.paint();
            },
            _ => {},
        }
    }
}

/// The interaction wrapper's event handling: the child sees the event
/// first, then the state machine runs over the wrapper's cached bounds.
#[verifier::rlimit(100)]
fn response_event<E: Copy>(
    r: &mut crate::widget::interact::Response<E>,
    ctx: &mut EventCtx<E>,
    data: &mut Data,
)
    ensures
        ({
            let (c1, s1, d1) = ev(*old(r).child, ev_state_of(*old(ctx)), *old(data));
            let (r2, s2, d2) = crate::widget::model::response_step(*old(r), c1, s1, d1);
            *final(r) == r2 && ev_state_of(*final(ctx)) == s2 && *final(data) == d2
                && final(ctx).clipboard == old(ctx).clipboard
        }),
    decreases *old(r),
{
    r.child.event(ctx, data);
    let mut update = false;
    let evt = ctx.event.event;
    match evt {
        HardwareEvent::PointerGone => {
            r.state = WidgetState::Cold;
            update = true;
        },
        HardwareEvent::PointerMoved { pos, .. } => {
            let hover = Rect::new_origin(r.size).contains_linf(pos);
            if !hover && r.state != WidgetState::Cold {
                r.state = WidgetState::Cold;
                update = true;
            }
            if hover && r.state == WidgetState::Cold {
                r.state = WidgetState::Hover;
                update = true;
            }
        },
        HardwareEvent::PointerClicked { pos, button, pressed } => {
            let mut maybe_button: Option<MouseButton> = None;
            let hover = Rect::new_origin(r.size).contains_linf(pos);
            if hover && pressed && !ctx.event.used {
                r.state = WidgetState::Hot;
                update = true;
                ctx.event.used = true;
            }
            if hover && r.state == WidgetState::Hot && !pressed {
                r.state = WidgetState::Hover;
                update = true;
                ctx.event.used = true;
                maybe_button = Some(button);
            }
            if !pressed {
                let responded = r.child.respond(data, maybe_button, &ctx.clipboard);
                if responded {
                    update = true;
                }
            }
            if maybe_button.is_some() {
                match &r.action {
                    Some(a) => {
                        a.apply_to(data);
                    },
                    None => {},
                }
                match &r.event {
                    Some(tag) => {
                        ctx.emit(LogicEvent::Clicked(*tag, button));
                    },
                    None => {},
                }
            }
        },
        HardwareEvent::Key { key, pressed } => {
            match &r.event {
                Some(tag) => {
                    ctx.emit(LogicEvent::Pressed(*tag, key, pressed));
                },
                None => {},
            }
        },
        _ => {},
    }
    if update {
        ctx.request.paint();
    }
}

impl<E: Copy> Widget<E> {
    /// The event pass: the event under dispatch descends pre-order through
    /// the tree, shifted into each child's coordinates and shifted back for
    /// the next sibling, and every interactive node runs its state machine.
    #[verifier::rlimit(100)]
    pub fn event(&mut self, ctx: &mut EventCtx<E>, data: &mut Data)
        ensures
            ({
                let (w1, s1, d1) = ev(*old(self), ev_state_of(*old(ctx)), *old(data));
                *final(self) == w1 && ev_state_of(*final(ctx)) == s1 && *final(data) == d1
                    && final(ctx).clipboard == old(ctx).clipboard
            }),
        decreases *old(self),
    {
        match self {
            Widget::Empty(_) => {},
            Widget::Bg(b) => {
                b.child.event(ctx, data);
            },
            Widget::Label(_) => {},
            Widget::Text(_) => {},
            Widget::Check(_) => {},
            Widget::Slider(sl) => {
                let along = sl.actual_size.x;
                let across = sl.actual_size.y;
                slider_event(
                    sl.min,
                    sl.max,
                    sl.step,
                    along,
                    across,
                    &mut sl.dragged,
                    false,
                    true,
                    true,
                    ctx,
                    data,
                );
            },
            Widget::VSlider(sl) => {
                let along = sl.actual_size.y;
                let across = sl.actual_size.x;
                slider_event(
                    sl.min,
                    sl.max,
                    sl.step,
                    along,
                    across,
                    &mut sl.dragged,
                    true,
                    false,
                    false,
                    ctx,
                    data,
                );
            },
            Widget::Edit(e) => {
                edit_event(e, ctx, data);
            },
            Widget::Fix(f) => {
                f.child.event(ctx, data);
            },
            Widget::Align(a) => {
                ctx.event.event.offset(a.size_or_offset.wneg());
                a.child.event(ctx, data);
                ctx.event.event.offset(a.size_or_offset);
            },
            Widget::Padding(p) => {
                ctx.event.event.offset(p.padding.min.wneg());
                p.child.event(ctx, data);
                ctx.event.event.offset(p.padding.min);
            },
            Widget::Flex(f) => {
                event_list_offset(&mut f.childs, f.row, ctx, data);
            },
            Widget::Response(r) => {
                response_event(r, ctx, data);
            },
            Widget::Lensing(l) => {
                let mut sub = l.lens.get(data);
                l.child.event(ctx, &mut sub);
                l.lens.put(data, sub);
            },
            Widget::Owning(_) => {},
            Widget::Mapped(_) => {},
            Widget::Maybe(m) => {
                if m.active {
                    m.child.event(ctx, data);
                }
            },
            Widget::And(a) => {
                a.child1.event(ctx, data);
                a.child2.event(ctx, data);
            },
            Widget::Collection(c) => {
                event_list_plain(&mut c.childs, ctx, data);
            },
            Widget::Dynamic(dy) => {
                match &mut dy.child {
                    Some(c) => {
                        c.event(ctx, data);
                    },
                    None => {},
                }
            },
            Widget::Watch(wa) => {
                wa.child.event(ctx, data);
            },
        }
    }
}

/// The event pass over a child list without offsets, in order.
fn event_list_plain<E: Copy>(l: &mut Childs<E>, ctx: &mut EventCtx<E>, data: &mut Data)
    ensures
        ({
            let (l1, s1, d1) = ev_list_plain(*old(l), ev_state_of(*old(ctx)), *old(data));
            *final(l) == l1 && ev_state_of(*final(ctx)) == s1 && *final(data) == d1
                && final(ctx).clipboard == old(ctx).clipboard
        }),
    decreases *old(l),
{
    match l {
        Childs::Nil => {},
        Childs::Cons { node, next, .. } => {
            node.event(ctx, data);
            event_list_plain(next, ctx, data);
        },
    }
}

/// The event pass over a flex child list: each child sees the event in its
/// own coordinates.
fn event_list_offset<E: Copy>(l: &mut Childs<E>, row: bool, ctx: &mut EventCtx<E>, data: &mut Data)
    ensures
        ({
            let (l1, s1, d1) = ev_list_offset(*old(l), row, ev_state_of(*old(ctx)), *old(data));
            *final(l) == l1 && ev_state_of(*final(ctx)) == s1 && *final(data) == d1
                && final(ctx).clipboard == old(ctx).clipboard
        }),
    decreases *old(l),
{
    match l {
        Childs::Nil => {},
        Childs::Cons { node, off, next } => {
            let v = if row {
                Vec2 { x: *off, y: 0 }
            } else {
                Vec2 { x: 0, y: *off }
            };
            ctx.event.event.offset(v.wneg());
            node.event(ctx, data);
            ctx.event.event.offset(v);
            event_list_offset(next, row, ctx, data);
        },
    }
}

impl<E: Copy> Widget<E> {
    /// The respond pass: a parent interaction wrapper committed a
    /// pointer-button release over this subtree. Returns whether the data
    /// changed in a way that warrants a repaint.
    pub fn respond(&mut self, data: &mut Data, button: Option<MouseButton>, clip: &Option<
        Vec<char>,
    >) -> (r: bool)
        ensures
            (*final(self), *final(data), r) == rsp(
                *old(self),
                *old(data),
                button,
                clip_view(*clip),
            ),
        decreases *old(self),
    {
        match self {
            Widget::Empty(_) => false,
            Widget::Bg(b) => b.child.respond(data, button, clip),
            Widget::Label(_) => false,
            Widget::Text(_) => false,
            Widget::Check(_) => {
                match button {
                    Some(MouseButton::Primary) => {
                        match data {
                            Data::Bool(v) => {
                                *v = !*v;
                                true
                            },
                            _ => false,
                        }
                    },
                    _ => false,
                }
            },
            Widget::Slider(_) => false,
            Widget::VSlider(_) => false,
            Widget::Edit(e) => {
                e.active = button.is_some();
                match button {
                    Some(MouseButton::Secondary) => {
                        match (data, clip) {
                            (Data::Text(t), Some(v)) => {
                                paste_filtered(t, v, e.filter);
                            },
                            _ => {},
                        }
                    },
                    _ => {},
                }
                true
            },
            Widget::Fix(f) => f.child.respond(data, button, clip),
            Widget::Align(a) => a.child.respond(data, button, clip),
            Widget::Padding(p) => p.child.respond(data, button, clip),
            Widget::Flex(_) => false,
            Widget::Response(_) => false,
            Widget::Lensing(l) => {
                let mut sub = l.lens.get(data);
                let r = l.child.respond(&mut sub, button, clip);
                l.lens.put(data, sub);
                r
            },
            Widget::Owning(_) => false,
            Widget::Mapped(_) => false,
            Widget::Maybe(m) => {
                if m.active {
                    m.child.respond(data, button, clip)
                } else {
                    false
                }
            },
            Widget::And(a) => {
                let r1 = a.child1.respond(data, button, clip);
                let r2 = a.child2.respond(data, button, clip);
                r1 || r2
            },
            Widget::Collection(c) => respond_list(&mut c.childs, data, button, clip),
            Widget::Dynamic(dy) => {
                match &mut dy.child {
                    Some(c) => c.respond(data, button, clip),
                    None => false,
                }
            },
            Widget::Watch(wa) => wa.child.respond(data, button, clip),
        }
    }
}

impl<E: Copy> Widget<E> {
    /// A deep copy of the subtree, equal to the original.
    pub fn duplicate(&self) -> (r: Widget<E>)
        ensures
            r == *self,
        decreases *self,
    {
        match self {
            Widget::Empty(_) => Widget::Empty(crate::widget::layout::Empty),
            Widget::Bg(b) => Widget::Bg(
                crate::widget::primitive::Bg { child: Box::new(b.child.duplicate()), size: b.size },
            ),
            Widget::Label(la) => Widget::Label(
                crate::widget::primitive::Label { text_size: la.text_size, size: la.size },
            ),
            Widget::Text(t) => Widget::Text(
                crate::widget::primitive::Text {
                    text_size: t.text_size,
                    align: t.align,
                    wish_width: t.wish_width,
                    actual_size: t.actual_size,
                },
            ),
            Widget::Check(c) => Widget::Check(crate::widget::primitive::Check { size: c.size }),
            Widget::Slider(sl) => Widget::Slider(
                crate::widget::primitive::Slider {
                    min: sl.min,
                    max: sl.max,
                    step: sl.step,
                    wish_size: sl.wish_size,
                    actual_size: sl.actual_size,
                    dragged: sl.dragged,
                },
            ),
            Widget::VSlider(sl) => Widget::VSlider(
                crate::widget::primitive::VSlider {
                    min: sl.min,
                    max: sl.max,
                    step: sl.step,
                    wish_size: sl.wish_size,
                    actual_size: sl.actual_size,
                    dragged: sl.dragged,
                },
            ),
            Widget::Edit(e) => Widget::Edit(
                crate::widget::primitive::Edit {
                    active: e.active,
                    filter: e.filter,
                    max_length: match &e.max_length {
                        Some(m) => Some(*m),
                        None => None,
                    },
                    wish_size: e.wish_size,
                    actual_size: e.actual_size,
                },
            ),
            Widget::Fix(f) => Widget::Fix(
                crate::widget::layout::Fix {
                    child: Box::new(f.child.duplicate()),
                    width: match &f.width {
                        Some(x) => Some(*x),
                        None => None,
                    },
                    height: match &f.height {
                        Some(y) => Some(*y),
                        None => None,
                    },
                },
            ),
            Widget::Align(a) => Widget::Align(
                crate::widget::layout::Align {
                    child: Box::new(a.child.duplicate()),
                    horizontal: a.horizontal,
                    vertical: a.vertical,
                    size_or_offset: a.size_or_offset,
                },
            ),
            Widget::Padding(p) => Widget::Padding(
                crate::widget::layout::Padding {
                    child: Box::new(p.child.duplicate()),
                    padding: p.padding,
                },
            ),
            Widget::Flex(f) => Widget::Flex(
                crate::widget::layout::Flex {
                    childs: duplicate_childs(&f.childs),
                    row: f.row,
                    padding: f.padding,
                    layout: f.layout,
                    total_primary_size: f.total_primary_size,
                },
            ),
            Widget::Response(r) => Widget::Response(
                crate::widget::interact::Response {
                    child: Box::new(r.child.duplicate()),
                    size: r.size,
                    state: r.state,
                    action: match &r.action {
                        Some(a) => Some(a.duplicate()),
                        None => None,
                    },
                    event: match &r.event {
                        Some(tag) => Some(*tag),
                        None => None,
                    },
                },
            ),
            Widget::Lensing(l) => Widget::Lensing(
                crate::widget::data::Lensing {
                    child: Box::new(l.child.duplicate()),
                    lens: l.lens.duplicate(),
                },
            ),
            Widget::Owning(o) => Widget::Owning(
                crate::widget::data::Owning {
                    child: Box::new(o.child.duplicate()),
                    data: o.data.duplicate(),
                },
            ),
            Widget::Mapped(ma) => Widget::Mapped(
                crate::widget::data::Mapped {
                    child: Box::new(ma.child.duplicate()),
                    lens: ma.lens.duplicate(),
                    data: match &ma.data {
                        Some(d) => Some(d.duplicate()),
                        None => None,
                    },
                },
            ),
            Widget::Maybe(m) => Widget::Maybe(
                crate::widget::compose::Maybe {
                    child: Box::new(m.child.duplicate()),
                    condition: m.condition.duplicate(),
                    active: m.active,
                },
            ),
            Widget::And(a) => Widget::And(
                crate::widget::compose::And {
                    child1: Box::new(a.child1.duplicate()),
                    child2: Box::new(a.child2.duplicate()),
                },
            ),
            Widget::Collection(c) => Widget::Collection(
                crate::widget::compose::Collection { childs: duplicate_childs(&c.childs) },
            ),
            Widget::Dynamic(dy) => Widget::Dynamic(
                crate::widget::dynamic::Dynamic {
                    child: match &dy.child {
                        Some(c) => Some(Box::new(c.duplicate())),
                        None => None,
                    },
                    proto: Box::new(dy.proto.duplicate()),
                },
            ),
            Widget::Watch(wa) => Widget::Watch(
                crate::widget::dynamic::Watch {
                    child: Box::new(wa.child.duplicate()),
                    data: match &wa.data {
                        Some(d) => Some(d.duplicate()),
                        None => None,
                    },
                    level: wa.level,
                },
            ),
        }
    }

    /// The update pass: runs every frame, detects out-of-band data changes
    /// and raises invalidation flags.
    pub fn update(&mut self, ctx: &mut crate::ui::UpdateCtx, data: &mut Data)
        ensures
            ({
                let (w1, r1, d1) = crate::widget::model::up(
                    *old(self),
                    old(ctx).request,
                    *old(data),
                );
                *final(self) == w1 && final(ctx).request == r1 && *final(data) == d1
            }),
        decreases *old(self),
    {
        match self {
            Widget::Empty(_) => {},
            Widget::Bg(b) => {
                b.child.update(ctx, data);
            },
            Widget::Label(_) => {},
            Widget::Text(_) => {},
            Widget::Check(_) => {},
            Widget::Slider(_) => {},
            Widget::VSlider(_) => {},
            Widget::Edit(_) => {},
            Widget::Fix(f) => {
                f.child.update(ctx, data);
            },
            Widget::Align(a) => {
                a.child.update(ctx, data);
            },
            Widget::Padding(p) => {
                p.child.update(ctx, data);
            },
            Widget::Flex(f) => {
                update_list(&mut f.childs, ctx, data);
            },
            Widget::Response(r) => {
                r.child.update(ctx, data);
            },
            Widget::Lensing(l) => {
                let mut sub = l.lens.get(data);
                l.child.update(ctx, &mut sub);
                l.lens.put(data, sub);
            },
            Widget::Owning(_) => {},
            Widget::Mapped(_) => {},
            Widget::Maybe(m) => {
                let cond = m.condition.get(data);
                let current = match cond {
                    Data::Bool(b) => b,
                    _ => false,
                };
                if current != m.active {
                    ctx.request.widget();
                }
                m.active = current;
                if current {
                    m.child.update(ctx, data);
                }
            },
            Widget::And(a) => {
                a.child1.update(ctx, data);
                a.child2.update(ctx, data);
            },
            Widget::Collection(c) => {
                update_list(&mut c.childs, ctx, data);
            },
            Widget::Dynamic(dy) => {
                match &mut dy.child {
                    Some(c) => {
                        c.update(ctx, data);
                    },
                    None => {},
                }
            },
            Widget::Watch(wa) => {
                wa.child.update(ctx, data);
                let changed = match &wa.data {
                    Some(prev) => !prev.eq_val(data),
                    None => true,
                };
                if changed {
                    match wa.level {
                        crate::widget::dynamic::WatchLevel::Paint => {
                            ctx.request.paint();
                        },
                        crate::widget::dynamic::WatchLevel::Layout => {
                            ctx.request.layout();
                        },
                        crate::widget::dynamic::WatchLevel::Widget => {
                            ctx.request.widget();
                        },
                    }
                    wa.data = Some(data.duplicate());
                }
            },
        }
    }

    /// The widget pass: runs only when the widget flag is set, and lets
    /// dynamic nodes rebuild their child from the prototype.
    pub fn widget_compute(&mut self, ctx: &mut crate::ui::WidgetComputeCtx, data: &mut Data)
        ensures
            ({
                let (w1, d1) = crate::widget::model::wc(*old(self), *old(data));
                *final(self) == w1 && *final(data) == d1
            }),
        decreases *old(self),
    {
        match self {
            Widget::Empty(_) => {},
            Widget::Bg(b) => {
                b.child.widget_compute(ctx, data);
            },
            Widget::Label(_) => {},
            Widget::Text(_) => {},
            Widget::Check(_) => {},
            Widget::Slider(_) => {},
            Widget::VSlider(_) => {},
            Widget::Edit(_) => {},
            Widget::Fix(f) => {
                f.child.widget_compute(ctx, data);
            },
            Widget::Align(a) => {
                a.child.widget_compute(ctx, data);
            },
            Widget::Padding(p) => {
                p.child.widget_compute(ctx, data);
            },
            Widget::Flex(f) => {
                widget_compute_list(&mut f.childs, ctx, data);
            },
            Widget::Response(r) => {
                r.child.widget_compute(ctx, data);
            },
            Widget::Lensing(l) => {
                let mut sub = l.lens.get(data);
                l.child.widget_compute(ctx, &mut sub);
                l.lens.put(data, sub);
            },
            Widget::Owning(_) => {},
            Widget::Mapped(_) => {},
            Widget::Maybe(m) => {
                if m.active {
                    m.child.widget_compute(ctx, data);
                }
            },
            Widget::And(a) => {
                a.child1.widget_compute(ctx, data);
                a.child2.widget_compute(ctx, data);
            },
            Widget::Collection(c) => {
                widget_compute_list(&mut c.childs, ctx, data);
            },
            Widget::Dynamic(dy) => {
                let mut child = dy.proto.duplicate();
                child.widget_compute(ctx, data);
                dy.child = Some(Box::new(child));
            },
            Widget::Watch(wa) => {
                wa.child.widget_compute(ctx, data);
            },
        }
    }
}

/// A deep copy of a child list, equal to the original.
fn duplicate_childs<E: Copy>(l: &Childs<E>) -> (r: Childs<E>)
    ensures
        r == *l,
    decreases *l,
{
    match l {
        Childs::Nil => Childs::Nil,
        Childs::Cons { node, off, next } => Childs::Cons {
            node: Box::new(node.duplicate()),
            off: *off,
            next: Box::new(duplicate_childs(next)),
        },
    }
}

/// The update pass over a child list, in order.
fn update_list<E: Copy>(l: &mut Childs<E>, ctx: &mut crate::ui::UpdateCtx, data: &mut Data)
    ensures
        ({
            let (l1, r1, d1) = crate::widget::model::up_list(*old(l), old(ctx).request, *old(data));
            *final(l) == l1 && final(ctx).request == r1 && *final(data) == d1
        }),
    decreases *old(l),
{
    match l {
        Childs::Nil => {},
        Childs::Cons { node, next, .. } => {
            node.update(ctx, data);
            update_list(next, ctx, data);
        },
    }
}

/// The widget pass over a child list, in order.
fn widget_compute_list<E: Copy>(
    l: &mut Childs<E>,
    ctx: &mut crate::ui::WidgetComputeCtx,
    data: &mut Data,
)
    ensures
        ({
            let (l1, d1) = crate::widget::model::wc_list(*old(l), *old(data));
            *final(l) == l1 && *final(data) == d1
        }),
    decreases *old(l),
{
    match l {
        Childs::Nil => {},
        Childs::Cons { node, next, .. } => {
            node.widget_compute(ctx, data);
            widget_compute_list(next, ctx, data);
        },
    }
}

/// The respond pass over a child list, in order.
fn respond_list<E: Copy>(
    l: &mut Childs<E>,
    data: &mut Data,
    button: Option<MouseButton>,
    clip: &Option<Vec<char>>,
) -> (r: bool)
    ensures
        (*final(l), *final(data), r) == rsp_list(*old(l), *old(data), button, clip_view(*clip)),
    decreases *old(l),
{
    match l {
        Childs::Nil => false,
        Childs::Cons { node, next, .. } => {
            let r1 = node.respond(data, button, clip);
            let r2 = respond_list(next, data, button, clip);
            r1 || r2
        },
    }
}

impl<E: Copy> Widget<E> {
    /// The layout inquire phase: the minimum footprint this subtree needs,
    /// cached where later phases will read it.
    pub fn layout_inquire(&mut self, ctx: &LayoutInquireCtx, data: &Data) -> (size: Vec2)
        ensures
            ({
                let (w1, sz) = crate::widget::model::inq(*old(self), ctx.metrics, *data);
                *final(self) == w1 && size == sz
            }),
        decreases *old(self),
    {
        match self {
            Widget::Empty(_) => Vec2 { x: 0, y: 0 },
            Widget::Bg(b) => b.child.layout_inquire(ctx, data),
            Widget::Label(la) => {
                let width = match data {
                    Data::Text(t) => ctx.text_width(t, la.text_size),
                    _ => {
                        let nil = Chars::Nil;
                        ctx.text_width(&nil, la.text_size)
                    },
                };
                la.size = Vec2 { x: width, y: la.text_size };
                la.size
            },
            Widget::Text(t) => {
                let ems = if t.text_size > 0 {
                    muldiv(t.wish_width, MILLI, t.text_size)
                } else {
                    0
                };
                let tl = TextLayout { width: ems, align: t.align, auto_wrap: true };
                let lines = match data {
                    Data::Text(tx) => ctx.text_height(tx, tl),
                    _ => {
                        let nil = Chars::Nil;
                        ctx.text_height(&nil, tl)
                    },
                };
                let h = (lines as i64).wrapping_mul(t.text_size);
                Vec2 { x: muldiv(ems, t.text_size, MILLI), y: h }
            },
            Widget::Check(c) => Vec2 { x: c.size, y: c.size },
            Widget::Slider(sl) => sl.wish_size,
            Widget::VSlider(sl) => sl.wish_size,
            Widget::Edit(e) => e.wish_size,
            Widget::Fix(f) => {
                let sz = f.child.layout_inquire(ctx, data);
                let x = match &f.width {
                    Some(w) => *w,
                    None => sz.x,
                };
                let y = match &f.height {
                    Some(h) => *h,
                    None => sz.y,
                };
                Vec2 { x, y }
            },
            Widget::Align(a) => {
                let sz = a.child.layout_inquire(ctx, data);
                a.size_or_offset = sz;
                sz
            },
            Widget::Padding(p) => {
                let sz = p.child.layout_inquire(ctx, data);
                sz.plus(p.padding.min).plus(p.padding.max)
            },
            Widget::Flex(f) => {
                let k = f.childs.len_sat();
                let (sum, sec) = flex_inquire_list(&mut f.childs, f.row, ctx, data);
                let ki: i64 = if k as u64 > i64::MAX as u64 {
                    i64::MAX
                } else {
                    k as i64
                };
                let mids = if ki >= 1 {
                    ki - 1
                } else {
                    0
                };
                let total = sum.wrapping_add(f.padding.wrapping_mul(mids));
                f.total_primary_size = total;
                if f.row {
                    Vec2 { x: total, y: sec }
                } else {
                    Vec2 { x: sec, y: total }
                }
            },
            Widget::Response(r) => r.child.layout_inquire(ctx, data),
            Widget::Lensing(l) => {
                let sub = l.lens.get(data);
                l.child.layout_inquire(ctx, &sub)
            },
            Widget::Owning(o) => {
                let sub = o.data.duplicate();
                o.child.layout_inquire(ctx, &sub)
            },
            Widget::Mapped(ma) => {
                let snap = ma.lens.get(data);
                let sz = ma.child.layout_inquire(ctx, &snap);
                ma.data = Some(snap);
                sz
            },
            Widget::Maybe(m) => {
                if m.active {
                    m.child.layout_inquire(ctx, data)
                } else {
                    Vec2 { x: 0, y: 0 }
                }
            },
            Widget::And(a) => {
                let s1 = a.child1.layout_inquire(ctx, data);
                let s2 = a.child2.layout_inquire(ctx, data);
                s1.component_max(s2)
            },
            Widget::Collection(c) => inquire_list_max(&mut c.childs, ctx, data),
            Widget::Dynamic(dy) => {
                match &mut dy.child {
                    Some(c) => c.layout_inquire(ctx, data),
                    None => Vec2 { x: 0, y: 0 },
                }
            },
            Widget::Watch(wa) => wa.child.layout_inquire(ctx, data),
        }
    }

    /// The layout compute phase: told its final allotment, the subtree
    /// reports the size it uses, caches its geometry, and raises the soft
    /// does-not-fit flag when it was granted too little.
    #[verifier::rlimit(100)]
    #[verifier::spinoff_prover]
    pub fn layout_compute(&mut self, ctx: &mut LayoutComputeCtx, data: &Data, size: Vec2) -> (used:
        Vec2)
        ensures
            ({
                let (w1, sz, f1) = crate::widget::model::cmp(
                    *old(self),
                    old(ctx).metrics,
                    *data,
                    size,
                    old(ctx).fits,
                );
                *final(self) == w1 && used == sz && final(ctx).fits == f1 && final(ctx).metrics
                    == old(ctx).metrics
            }),
        decreases *old(self),
    {
        match self {
            Widget::Empty(_) => size,
            Widget::Bg(b) => {
                let sz = b.child.layout_compute(ctx, data, size);
                b.size = sz;
                sz
            },
            Widget::Label(la) => la.size,
            Widget::Text(t) => {
                let base = if t.wish_width >= size.x {
                    t.wish_width
                } else {
                    size.x
                };
                let ems = if t.text_size > 0 {
                    muldiv(base, MILLI, t.text_size)
                } else {
                    0
                };
                let tl = TextLayout { width: ems, align: t.align, auto_wrap: true };
                let lines = match data {
                    Data::Text(tx) => ctx.text_height(tx, tl),
                    _ => {
                        let nil = Chars::Nil;
                        ctx.text_height(&nil, tl)
                    },
                };
                let h = (lines as i64).wrapping_mul(t.text_size);
                let sz = Vec2 { x: muldiv(ems, t.text_size, MILLI), y: h };
                t.actual_size = sz;
                sz
            },
            Widget::Check(c) => Vec2 { x: c.size, y: c.size },
            Widget::Slider(sl) => {
                let x = if sl.wish_size.x >= size.x {
                    sl.wish_size.x
                } else {
                    size.x
                };
                let sz = Vec2 { x, y: sl.wish_size.y };
                sl.actual_size = sz;
                sz
            },
            Widget::VSlider(sl) => {
                let y = if sl.wish_size.y >= size.y {
                    sl.wish_size.y
                } else {
                    size.y
                };
                let sz = Vec2 { x: sl.wish_size.x, y };
                sl.actual_size = sz;
                sz
            },
            Widget::Edit(e) => {
                let x = if e.wish_size.x >= size.x {
                    e.wish_size.x
                } else {
                    size.x
                };
                let sz = Vec2 { x, y: e.wish_size.y };
                e.actual_size = sz;
                sz
            },
            Widget::Fix(f) => {
                let x = match &f.width {
                    Some(w) => *w,
                    None => size.x,
                };
                let y = match &f.height {
                    Some(h) => *h,
                    None => size.y,
                };
                f.child.layout_compute(ctx, data, Vec2 { x, y })
            },
            Widget::Align(a) => {
                let tx = size.x.wrapping_sub(a.size_or_offset.x);
                let dx = if tx >= 0 {
                    tx
                } else {
                    0
                };
                let ty = size.y.wrapping_sub(a.size_or_offset.y);
                let dy = if ty >= 0 {
                    ty
                } else {
                    0
                };
                let offx = match a.horizontal {
                    crate::widget::layout::AlignLayout::Front => 0,
                    crate::widget::layout::AlignLayout::Mid => div_nn(dx, 2),
                    crate::widget::layout::AlignLayout::Back => dx,
                };
                let offy = match a.vertical {
                    crate::widget::layout::AlignLayout::Front => 0,
                    crate::widget::layout::AlignLayout::Mid => div_nn(dy, 2),
                    crate::widget::layout::AlignLayout::Back => dy,
                };
                a.size_or_offset = Vec2 { x: offx, y: offy };
                let csz = a.child.layout_compute(ctx, data, size.minus(Vec2 { x: dx, y: dy }));
                Vec2 {
                    x: if size.x >= csz.x {
                        size.x
                    } else {
                        csz.x
                    },
                    y: if size.y >= csz.y {
                        size.y
                    } else {
                        csz.y
                    },
                }
            },
            Widget::Padding(p) => {
                let inner = size.minus(p.padding.min).minus(p.padding.max);
                if inner.x <= 0 || inner.y <= 0 {
                    ctx.does_not_fit();
                }
                let csz = p.child.layout_compute(ctx, data, inner);
                csz.plus(p.padding.min).plus(p.padding.max)
            },
            Widget::Flex(f) => {
                let pr = if f.row {
                    size.x
                } else {
                    size.y
                };
                let sec = if f.row {
                    size.y
                } else {
                    size.x
                };
                let delta0 = pr.wrapping_sub(f.total_primary_size);
                let mut delta = delta0;
                if delta0 < 0 {
                    ctx.does_not_fit();
                    delta = 0;
                }
                let k = f.childs.len_sat();
                let ki: i64 = if k as u64 > i64::MAX as u64 {
                    i64::MAX
                } else {
                    k as i64
                };
                let mids = if ki >= 1 {
                    ki - 1
                } else {
                    0
                };
                let (pad_front, pad_mid0, pad_back, growth): (i64, i64, i64, i64) = match f.layout {
                    crate::widget::layout::FlexLayout::Front => (0, 0, delta, 0),
                    crate::widget::layout::FlexLayout::Center => {
                        let h = div_nn(delta, 2);
                        (h, 0, h, 0)
                    },
                    crate::widget::layout::FlexLayout::Back => (delta, 0, 0, 0),
                    crate::widget::layout::FlexLayout::PadBetween => {
                        let dvs = if mids >= 1 {
                            mids
                        } else {
                            1
                        };
                        (0, div_nn(delta, dvs), 0, 0)
                    },
                    crate::widget::layout::FlexLayout::PadAll => {
                        let pad = div_nn(delta, mids + 1);
                        let h = div_nn(pad, 2);
                        (h, pad, h, 0)
                    },
                    crate::widget::layout::FlexLayout::GrowChilds => {
                        let dvs = if ki >= 1 {
                            ki
                        } else {
                            1
                        };
                        (0, 0, 0, div_nn(delta, dvs))
                    },
                };
                let pad_mid = pad_mid0.wrapping_add(f.padding);
                let off_end = flex_compute_list(
                    &mut f.childs,
                    f.row,
                    ctx,
                    data,
                    sec,
                    growth,
                    pad_mid,
                    pad_front,
                );
                let off1 = if k > 0 {
                    off_end.wrapping_sub(pad_mid)
                } else {
                    off_end
                };
                let off2 = off1.wrapping_add(pad_back);
                if f.row {
                    Vec2 { x: off2, y: sec }
                } else {
                    Vec2 { x: sec, y: off2 }
                }
            },
            Widget::Response(r) => {
                let sz = r.child.layout_compute(ctx, data, size);
                r.size = sz;
                sz
            },
            Widget::Lensing(l) => {
                let sub = l.lens.get(data);
                l.child.layout_compute(ctx, &sub, size)
            },
            Widget::Owning(o) => {
                let sub = o.data.duplicate();
                o.child.layout_compute(ctx, &sub, size)
            },
            Widget::Mapped(ma) => {
                let snap = match &ma.data {
                    Some(d) => Some(d.duplicate()),
                    None => None,
                };
                match snap {
                    Some(d) => ma.child.layout_compute(ctx, &d, size),
                    None => Vec2 { x: 0, y: 0 },
                }
            },
            Widget::Maybe(m) => {
                if m.active {
                    m.child.layout_compute(ctx, data, size)
                } else {
                    Vec2 { x: 0, y: 0 }
                }
            },
            Widget::And(a) => {
                let s1 = a.child1.layout_compute(ctx, data, size);
                let s2 = a.child2.layout_compute(ctx, data, size);
                s1.component_max(s2)
            },
            Widget::Collection(c) => compute_list_max(&mut c.childs, ctx, data, size),
            Widget::Dynamic(dy) => {
                match &mut dy.child {
                    Some(c) => c.layout_compute(ctx, data, size),
                    None => Vec2 { x: 0, y: 0 },
                }
            },
            Widget::Watch(wa) => wa.child.layout_compute(ctx, data, size),
        }
    }
}

/// The inquire phase over a flex child list: caches each child's primary
/// minimum and returns the primary sum and the secondary maximum.
fn flex_inquire_list<E: Copy>(
    l: &mut Childs<E>,
    row: bool,
    ctx: &LayoutInquireCtx,
    data: &Data,
) -> (r: (i64, i64))
    ensures
        ({
            let (l1, sum, sec) = crate::widget::model::flex_inq_list(
                *old(l),
                row,
                ctx.metrics,
                *data,
            );
            *final(l) == l1 && r.0 == sum && r.1 == sec
        }),
    decreases *old(l),
{
    match l {
        Childs::Nil => (0, 0),
        Childs::Cons { node, off, next } => {
            let sz = node.layout_inquire(ctx, data);
            let cp = if row {
                sz.x
            } else {
                sz.y
            };
            let cs = if row {
                sz.y
            } else {
                sz.x
            };
            *off = cp;
            let (sum, sec) = flex_inquire_list(next, row, ctx, data);
            (
                cp.wrapping_add(sum),
                if cs >= sec {
                    cs
                } else {
                    sec
                },
            )
        },
    }
}

/// The inquire phase over a parallel child list: the componentwise maximum.
fn inquire_list_max<E: Copy>(l: &mut Childs<E>, ctx: &LayoutInquireCtx, data: &Data) -> (r: Vec2)
    ensures
        ({
            let (l1, sz) = crate::widget::model::inq_list_max(*old(l), ctx.metrics, *data);
            *final(l) == l1 && r == sz
        }),
    decreases *old(l),
{
    match l {
        Childs::Nil => Vec2 { x: 0, y: 0 },
        Childs::Cons { node, next, .. } => {
            let sz = node.layout_inquire(ctx, data);
            let ms = inquire_list_max(next, ctx, data);
            sz.component_max(ms)
        },
    }
}

/// The compute phase over a flex child list: each child gets its cached
/// minimum plus the growth share, and its cell caches its offset.
fn flex_compute_list<E: Copy>(
    l: &mut Childs<E>,
    row: bool,
    ctx: &mut LayoutComputeCtx,
    data: &Data,
    sec: i64,
    growth: i64,
    pad_mid: i64,
    offset: i64,
) -> (r: i64)
    ensures
        ({
            let (l1, off_end, f1) = crate::widget::model::flex_cmp_list(
                *old(l),
                row,
                old(ctx).metrics,
                *data,
                sec,
                growth,
                pad_mid,
                offset,
                old(ctx).fits,
            );
            *final(l) == l1 && r == off_end && final(ctx).fits == f1 && final(ctx).metrics == old(
                ctx,
            ).metrics
        }),
    decreases *old(l),
{
    match l {
        Childs::Nil => offset,
        Childs::Cons { node, off, next } => {
            let child_primary = (*off).wrapping_add(growth);
            let child_size = if row {
                Vec2 { x: child_primary, y: sec }
            } else {
                Vec2 { x: sec, y: child_primary }
            };
            let _used = node.layout_compute(ctx, data, child_size);
            *off = offset;
            let offset1 = offset.wrapping_add(child_primary).wrapping_add(pad_mid);
            flex_compute_list(next, row, ctx, data, sec, growth, pad_mid, offset1)
        },
    }
}

/// The compute phase over a parallel child list: every child gets the full
/// allotment; used sizes combine by the componentwise maximum.
fn compute_list_max<E: Copy>(
    l: &mut Childs<E>,
    ctx: &mut LayoutComputeCtx,
    data: &Data,
    size: Vec2,
) -> (r: Vec2)
    ensures
        ({
            let (l1, sz, f1) = crate::widget::model::cmp_list_max(
                *old(l),
                old(ctx).metrics,
                *data,
                size,
                old(ctx).fits,
            );
            *final(l) == l1 && r == sz && final(ctx).fits == f1 && final(ctx).metrics == old(
                ctx,
            ).metrics
        }),
    decreases *old(l),
{
    match l {
        Childs::Nil => Vec2 { x: 0, y: 0 },
        Childs::Cons { node, next, .. } => {
            let sz = node.layout_compute(ctx, data, size);
            let ms = compute_list_max(next, ctx, data, size);
            sz.component_max(ms)
        },
    }
}

impl<E: Copy> Widget<E> {
    /// The paint pass: emits draw primitives pre-order in node-local
    /// coordinates; the recorder applies the ambient offset.
    #[verifier::rlimit(100)]
    #[verifier::spinoff_prover]
    pub fn paint(&self, ctx: &mut PaintCtx, data: &Data)
        ensures
            ({
                let p1 = crate::widget::model::pt(
                    *self,
                    crate::widget::model::pt_state_of(*old(ctx)),
                    *data,
                );
                crate::widget::model::pt_state_of(*final(ctx)) == p1 && final(ctx).painter.metrics
                    == old(ctx).painter.metrics && final(ctx).painter.fresh == old(
                    ctx,
                ).painter.fresh
            }),
        decreases *self,
    {
        match self {
            Widget::Empty(_) => {},
            Widget::Bg(b) => {
                let color = ctx.style.bg.get(ctx.state);
                ctx.draw_rect(Rect::new_origin(b.size), color);
                b.child.paint(ctx, data);
            },
            Widget::Label(la) => {
                let color = ctx.style.text;
                match data {
                    Data::Text(t) => {
                        ctx.draw_text(
                            Rect::new_origin(la.size),
                            t,
                            la.text_size,
                            crate::metrics::TextAlign::Left,
                            false,
                            color,
                        );
                    },
                    _ => {
                        let nil = Chars::Nil;
                        ctx.draw_text(
                            Rect::new_origin(la.size),
                            &nil,
                            la.text_size,
                            crate::metrics::TextAlign::Left,
                            false,
                            color,
                        );
                    },
                }
            },
            Widget::Text(t) => {
                let color = ctx.style.text;
                match data {
                    Data::Text(tx) => {
                        ctx.draw_text(
                            Rect::new_origin(t.actual_size),
                            tx,
                            t.text_size,
                            t.align,
                            true,
                            color,
                        );
                    },
                    _ => {
                        let nil = Chars::Nil;
                        ctx.draw_text(
                            Rect::new_origin(t.actual_size),
                            &nil,
                            t.text_size,
                            t.align,
                            true,
                            color,
                        );
                    },
                }
            },
            Widget::Check(c) => {
                let s1 = c.size;
                let s2 = muldiv(s1, 150, 1000);
                let s3 = muldiv(s1, 700, 1000);
                let s4 = muldiv(s1, 300, 1000);
                let s5 = muldiv(s1, 400, 1000);
                let top = ctx.style.top;
                ctx.draw_rect(Rect::new_origin(Vec2 { x: s1, y: s1 }), top);
                let well = ctx.style.data.get(ctx.state);
                ctx.draw_rect(
                    Rect {
                        min: Vec2 { x: s2, y: s2 },
                        max: Vec2 { x: s2.wrapping_add(s3), y: s2.wrapping_add(s3) },
                    },
                    well,
                );
                let ticked = match data {
                    Data::Bool(b) => *b,
                    _ => false,
                };
                if ticked {
                    ctx.draw_rhombus(
                        Rect {
                            min: Vec2 { x: s4, y: s4 },
                            max: Vec2 { x: s4.wrapping_add(s5), y: s4.wrapping_add(s5) },
                        },
                        top,
                    );
                }
            },
            Widget::Slider(sl) => {
                let size = sl.actual_size;
                let v = match data {
                    Data::Int(v) => *v,
                    _ => sl.min,
                };
                let range = sl.max.wrapping_sub(sl.min);
                let pos = if range > 0 {
                    muldiv(v.wrapping_sub(sl.min), size.x, range)
                } else {
                    0
                };
                let half = muldiv(size.y, 1, 2);
                let y1 = muldiv(size.y, 1, 3);
                let y2 = muldiv(size.y, 2, 3);
                let top = ctx.style.top;
                ctx.draw_rect(
                    Rect { min: Vec2 { x: 0, y: y1 }, max: Vec2 { x: size.x, y: y2 } },
                    top,
                );
                let knob = if sl.dragged {
                    ctx.style.data.hot
                } else {
                    ctx.style.data.get(ctx.state)
                };
                ctx.draw_rhombus(
                    Rect {
                        min: Vec2 { x: pos.wrapping_sub(half), y: 0 },
                        max: Vec2 { x: pos.wrapping_add(half), y: size.y },
                    },
                    knob,
                );
            },
            Widget::VSlider(sl) => {
                let size = sl.actual_size;
                let v = match data {
                    Data::Int(v) => *v,
                    _ => sl.min,
                };
                let range = sl.max.wrapping_sub(sl.min);
                let pos = if range > 0 {
                    muldiv(v.wrapping_sub(sl.min), size.y, range)
                } else {
                    0
                };
                let half = muldiv(size.x, 1, 2);
                let x1 = muldiv(size.x, 1, 3);
                let x2 = muldiv(size.x, 2, 3);
                let top = ctx.style.top;
                ctx.draw_rect(
                    Rect { min: Vec2 { x: x1, y: 0 }, max: Vec2 { x: x2, y: size.y } },
                    top,
                );
                let knob = if sl.dragged {
                    ctx.style.data.hot
                } else {
                    ctx.style.data.get(ctx.state)
                };
                ctx.draw_rhombus(
                    Rect {
                        min: Vec2 { x: 0, y: pos.wrapping_sub(half) },
                        max: Vec2 { x: size.x, y: pos.wrapping_add(half) },
                    },
                    knob,
                );
            },
            Widget::Edit(e) => {
                let size = e.actual_size;
                let rect = Rect::new_origin(size);
                let well = ctx.style.data.get(ctx.state);
                ctx.draw_rect(rect, well);
                let mut display = match data {
                    Data::Text(t) => t.duplicate(),
                    _ => Chars::Nil,
                };
                let fits = match &e.max_length {
                    Some(m) => display.len_sat() < *m,
                    None => true,
                };
                if e.active && fits {
                    display.push_back('_');
                }
                let color = ctx.style.text;
                ctx.draw_text(
                    rect,
                    &display,
                    size.y,
                    crate::metrics::TextAlign::Left,
                    false,
                    color,
                );
            },
            Widget::Fix(f) => {
                f.child.paint(ctx, data);
            },
            Widget::Align(a) => {
                ctx.add_offset(a.size_or_offset);
                a.child.paint(ctx, data);
                ctx.add_offset(a.size_or_offset.wneg());
            },
            Widget::Padding(p) => {
                ctx.add_offset(p.padding.min);
                p.child.paint(ctx, data);
                ctx.add_offset(p.padding.min.wneg());
            },
            Widget::Flex(f) => {
                paint_list_offset(&f.childs, f.row, ctx, data);
            },
            Widget::Response(r) => {
                let saved = ctx.state;
                ctx.state = r.state;
                r.child.paint(ctx, data);
                ctx.state = saved;
            },
            Widget::Lensing(l) => {
                let sub = l.lens.get(data);
                l.child.paint(ctx, &sub);
            },
            Widget::Owning(o) => {
                let sub = o.data.duplicate();
                o.child.paint(ctx, &sub);
            },
            Widget::Mapped(ma) => {
                match &ma.data {
                    Some(d) => {
                        let snap = d.duplicate();
                        ma.child.paint(ctx, &snap);
                    },
                    None => {},
                }
            },
            Widget::Maybe(m) => {
                if m.active {
                    m.child.paint(ctx, data);
                }
            },
            Widget::And(a) => {
                a.child1.paint(ctx, data);
                a.child2.paint(ctx, data);
            },
            Widget::Collection(c) => {
                paint_list_plain(&c.childs, ctx, data);
            },
            Widget::Dynamic(dy) => {
                match &dy.child {
                    Some(c) => {
                        c.paint(ctx, data);
                    },
                    None => {},
                }
            },
            Widget::Watch(wa) => {
                wa.child.paint(ctx, data);
            },
        }
    }
}

/// The paint pass over a child list without offsets, in order.
fn paint_list_plain<E: Copy>(l: &Childs<E>, ctx: &mut PaintCtx, data: &Data)
    ensures
        ({
            let p1 = crate::widget::model::pt_list_plain(
                *l,
                crate::widget::model::pt_state_of(*old(ctx)),
                *data,
            );
            crate::widget::model::pt_state_of(*final(ctx)) == p1 && final(ctx).painter.metrics
                == old(ctx).painter.metrics && final(ctx).painter.fresh == old(ctx).painter.fresh
        }),
    decreases *l,
{
    match l {
        Childs::Nil => {},
        Childs::Cons { node, next, .. } => {
            node.paint(ctx, data);
            paint_list_plain(next, ctx, data);
        },
    }
}

/// The paint pass over a flex child list: each child paints at its cached
/// offset along the primary axis.
fn paint_list_offset<E: Copy>(l: &Childs<E>, row: bool, ctx: &mut PaintCtx, data: &Data)
    ensures
        ({
            let p1 = crate::widget::model::pt_list_offset(
                *l,
                row,
                crate::widget::model::pt_state_of(*old(ctx)),
                *data,
            );
            crate::widget::model::pt_state_of(*final(ctx)) == p1 && final(ctx).painter.metrics
                == old(ctx).painter.metrics && final(ctx).painter.fresh == old(ctx).painter.fresh
        }),
    decreases *l,
{
    match l {
        Childs::Nil => {},
        Childs::Cons { node, off, next } => {
            let v = if row {
                Vec2 { x: *off, y: 0 }
            } else {
                Vec2 { x: 0, y: *off }
            };
            ctx.add_offset(v);
            node.paint(ctx, data);
            ctx.add_offset(v.wneg());
            paint_list_offset(next, row, ctx, data);
        },
    }
}

} // verus!
