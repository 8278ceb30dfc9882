//! The interaction machine: single consumption, commit on release, the
//! editor, the sliders, the watcher and conditional inclusion.

use gru_ui::widget::compose::{And, Maybe};
use gru_ui::widget::dynamic::Watch;
use gru_ui::widget::primitive::{CharFilter, Check, Edit, Slider};
use gru_ui::{
    Action, Chars, Data, Event, EventCtx, EventPod, HardwareEvent, Key, LayoutComputeCtx,
    LayoutInquireCtx, Lens, LogicEvent, MouseButton, Request, Response, TextMetrics, UpdateCtx,
    Vec2, Widget, WidgetState,
};

fn chars_of(s: &str) -> Chars {
    let mut c = Chars::new();
    for ch in s.chars() {
        c.push_back(ch);
    }
    c
}

fn ctx_for(event: HardwareEvent) -> EventCtx<u32> {
    EventCtx {
        request: Request::new(),
        event: EventPod::new(event),
        events: Vec::new(),
        clipboard: None,
    }
}

fn response_with_size(size: i64, tag: Option<u32>) -> Response<u32> {
    let mut r = Response::new(Widget::empty());
    r.size = Vec2 { x: size, y: size };
    if let Some(t) = tag {
        r = r.event(t);
    }
    r
}

fn press(pos: Vec2, button: MouseButton) -> HardwareEvent {
    HardwareEvent::PointerClicked { pos, button, pressed: true }
}

fn release(pos: Vec2, button: MouseButton) -> HardwareEvent {
    HardwareEvent::PointerClicked { pos, button, pressed: false }
}

#[test]
fn single_consumer_press_in_overlap() {
    // Two overlapping interactive siblings: exactly the first turns hot,
    // the event ends consumed, the second keeps its state.
    let r1 = response_with_size(4000, None);
    let r2 = response_with_size(4000, None);
    let mut w = And::new(r1.into_widget(), r2.into_widget()).into_widget();
    let mut data = Data::Unit;
    let mut ctx = ctx_for(press(Vec2 { x: 1000, y: 1000 }, MouseButton::Primary));
    w.event(&mut ctx, &mut data);
    assert!(ctx.event.used);
    if let Widget::And(a) = &w {
        if let (Widget::Response(x), Widget::Response(y)) = (&*a.child1, &*a.child2) {
            assert_eq!(x.state, WidgetState::Hot);
            assert_eq!(y.state, WidgetState::Cold);
        } else {
            panic!("children are not interactive nodes");
        }
    } else {
        panic!("not a pair");
    }
    assert!(ctx.events.is_empty());
}

#[test]
fn interaction_commit_emits_one_click() {
    // Press inside, release inside: exactly one click event with the
    // attached tag and the release's button.
    let mut w = response_with_size(4000, Some(7)).into_widget();
    let mut data = Data::Unit;
    let mut c1 = ctx_for(press(Vec2 { x: 100, y: 100 }, MouseButton::Primary));
    w.event(&mut c1, &mut data);
    assert!(c1.events.is_empty());
    let mut c2 = ctx_for(release(Vec2 { x: 3900, y: 100 }, MouseButton::Primary));
    w.event(&mut c2, &mut data);
    assert_eq!(
        c2.events,
        vec![Event::Logic(LogicEvent::Clicked(7, MouseButton::Primary))]
    );
    assert!(c2.event.used);
    if let Widget::Response(r) = &w {
        assert_eq!(r.state, WidgetState::Hover);
    }
}

#[test]
fn interaction_drag_out_emits_nothing() {
    // Press inside, drag out, release outside: no click event at all.
    let mut w = response_with_size(4000, Some(7)).into_widget();
    let mut data = Data::Unit;
    let mut c1 = ctx_for(press(Vec2 { x: 100, y: 100 }, MouseButton::Primary));
    w.event(&mut c1, &mut data);
    let mut c2 = ctx_for(HardwareEvent::PointerMoved {
        pos: Vec2 { x: 9000, y: 9000 },
        delta: Vec2 { x: 0, y: 0 },
    });
    w.event(&mut c2, &mut data);
    let mut c3 = ctx_for(release(Vec2 { x: 9000, y: 9000 }, MouseButton::Primary));
    w.event(&mut c3, &mut data);
    assert!(c2.events.is_empty());
    assert!(c3.events.is_empty());
    if let Widget::Response(r) = &w {
        assert_eq!(r.state, WidgetState::Cold);
    }
}

#[test]
fn hover_tracking_and_pointer_gone() {
    let mut w = response_with_size(4000, None).into_widget();
    let mut data = Data::Unit;
    let mut c1 = ctx_for(HardwareEvent::PointerMoved {
        pos: Vec2 { x: 500, y: 500 },
        delta: Vec2 { x: 0, y: 0 },
    });
    w.event(&mut c1, &mut data);
    if let Widget::Response(r) = &w {
        assert_eq!(r.state, WidgetState::Hover);
    }
    assert!(c1.request.paint && !c1.request.layout && !c1.request.widget);
    let mut c2 = ctx_for(HardwareEvent::PointerGone);
    w.event(&mut c2, &mut data);
    if let Widget::Response(r) = &w {
        assert_eq!(r.state, WidgetState::Cold);
    }
}

#[test]
fn key_events_forward_with_tag() {
    let mut w = response_with_size(4000, Some(3)).into_widget();
    let mut data = Data::Unit;
    let mut c = ctx_for(HardwareEvent::Key { key: Key::Space, pressed: true });
    w.event(&mut c, &mut data);
    assert_eq!(
        c.events,
        vec![Event::Logic(LogicEvent::Pressed(3, Key::Space, true))]
    );
}

#[test]
fn check_toggles_on_committed_release() {
    let mut r = Response::new(Check::new().into_widget());
    r.size = Vec2 { x: 1000, y: 1000 };
    let mut w = r.into_widget();
    let mut data = Data::Bool(false);
    let mut c1 = ctx_for(press(Vec2 { x: 10, y: 10 }, MouseButton::Primary));
    w.event(&mut c1, &mut data);
    let mut c2 = ctx_for(release(Vec2 { x: 10, y: 10 }, MouseButton::Primary));
    w.event(&mut c2, &mut data);
    assert!(data.eq_val(&Data::Bool(true)));
}

#[test]
fn action_applies_on_commit() {
    let mut r = Response::new(Widget::empty()).action(Action::Toggle(Lens::This));
    r.size = Vec2 { x: 1000, y: 1000 };
    let mut w = r.into_widget();
    let mut data = Data::Bool(false);
    let mut c1 = ctx_for(press(Vec2 { x: 10, y: 10 }, MouseButton::Primary));
    w.event(&mut c1, &mut data);
    let mut c2 = ctx_for(release(Vec2 { x: 10, y: 10 }, MouseButton::Primary));
    w.event(&mut c2, &mut data);
    assert!(data.eq_val(&Data::Bool(true)));
}

fn active_edit(filter: CharFilter, max_length: Option<usize>) -> Widget<u32> {
    let mut e = Edit::new().filter(filter);
    if let Some(m) = max_length {
        e = e.max_length(m);
    }
    e.active = true;
    e.into_widget()
}

#[test]
fn edit_appends_typed_characters() {
    let mut w = active_edit(CharFilter::Any, None);
    let mut data = Data::Text(chars_of("a"));
    let mut c = ctx_for(HardwareEvent::Char('b'));
    w.event(&mut c, &mut data);
    assert!(c.event.used);
    assert!(c.request.paint);
    assert!(data.eq_val(&Data::Text(chars_of("ab"))));
}

#[test]
fn edit_filter_rejects_but_consumes() {
    let mut w = active_edit(CharFilter::Digits, None);
    let mut data = Data::Text(chars_of("1"));
    let mut c = ctx_for(HardwareEvent::Char('x'));
    w.event(&mut c, &mut data);
    assert!(c.event.used);
    assert!(data.eq_val(&Data::Text(chars_of("1"))));
    let mut c2 = ctx_for(HardwareEvent::Char('2'));
    w.event(&mut c2, &mut data);
    assert!(data.eq_val(&Data::Text(chars_of("12"))));
}

#[test]
fn edit_respects_max_length() {
    let mut w = active_edit(CharFilter::Any, Some(2));
    let mut data = Data::Text(chars_of("ab"));
    let mut c = ctx_for(HardwareEvent::Char('c'));
    w.event(&mut c, &mut data);
    assert!(data.eq_val(&Data::Text(chars_of("ab"))));
}

#[test]
fn edit_backspace_pops() {
    let mut w = active_edit(CharFilter::Any, None);
    let mut data = Data::Text(chars_of("ab"));
    let mut c = ctx_for(HardwareEvent::Key { key: Key::Back, pressed: true });
    w.event(&mut c, &mut data);
    assert!(c.event.used);
    assert!(data.eq_val(&Data::Text(chars_of("a"))));
}

#[test]
fn edit_inactive_ignores_input() {
    let mut w = Edit::new().into_widget() as Widget<u32>;
    let mut data = Data::Text(chars_of("a"));
    let mut c = ctx_for(HardwareEvent::Char('b'));
    w.event(&mut c, &mut data);
    assert!(!c.event.used);
    assert!(data.eq_val(&Data::Text(chars_of("a"))));
}

fn sized_slider() -> Widget<u32> {
    // A slider from zero to one unit in tenth-of-a-unit steps, laid out at
    // ten units wide and one tall.
    let mut w = Slider::new().into_widget();
    let ictx = LayoutInquireCtx { metrics: TextMetrics::empty() };
    let data = Data::Int(0);
    let _ = w.layout_inquire(&ictx, &data);
    let mut cctx = LayoutComputeCtx { fits: true, metrics: ictx.metrics };
    let _ = w.layout_compute(&mut cctx, &data, Vec2 { x: 10000, y: 1000 });
    w
}

#[test]
fn slider_click_rounds_to_step() {
    // A quarter of the way along a zero-to-one slider with tenth steps:
    // two and a half steps round up to three, so the value is 300.
    let mut w = sized_slider();
    let mut data = Data::Int(0);
    let mut c = ctx_for(press(Vec2 { x: 2500, y: 500 }, MouseButton::Primary));
    w.event(&mut c, &mut data);
    assert!(c.event.used);
    assert!(c.request.paint);
    assert!(data.eq_val(&Data::Int(300)));
    if let Widget::Slider(s) = &w {
        assert!(s.dragged);
    }
}

#[test]
fn slider_drag_follows_and_clamps() {
    let mut w = sized_slider();
    let mut data = Data::Int(0);
    let mut c1 = ctx_for(press(Vec2 { x: 0, y: 500 }, MouseButton::Primary));
    w.event(&mut c1, &mut data);
    let mut c2 = ctx_for(HardwareEvent::PointerMoved {
        pos: Vec2 { x: 20000, y: 500 },
        delta: Vec2 { x: 0, y: 0 },
    });
    w.event(&mut c2, &mut data);
    assert!(data.eq_val(&Data::Int(1000)));
    let mut c3 = ctx_for(release(Vec2 { x: 20000, y: 500 }, MouseButton::Primary));
    w.event(&mut c3, &mut data);
    if let Widget::Slider(s) = &w {
        assert!(!s.dragged);
    }
}

#[test]
fn slider_scroll_steps_and_clamps() {
    let mut w = sized_slider();
    let mut data = Data::Int(900);
    let mut c = ctx_for(HardwareEvent::Scroll {
        pos: Vec2 { x: 500, y: 500 },
        delta: Vec2 { x: 0, y: 2 },
    });
    w.event(&mut c, &mut data);
    assert!(data.eq_val(&Data::Int(1000)));
    assert!(c.event.used);
}

#[test]
fn used_event_leaves_slider_alone() {
    let mut w = sized_slider();
    let mut data = Data::Int(0);
    let mut c = ctx_for(press(Vec2 { x: 2500, y: 500 }, MouseButton::Primary));
    c.event.used = true;
    w.event(&mut c, &mut data);
    assert!(data.eq_val(&Data::Int(0)));
}

#[test]
fn watch_raises_configured_level() {
    let mut w: Widget<u32> = Watch::new(Widget::empty()).layout().into_widget();
    let mut data = Data::Int(1);
    let mut ctx = UpdateCtx { request: Request::new() };
    w.update(&mut ctx, &mut data);
    // The first frame counts as a change: nothing was remembered yet.
    assert!(ctx.request.layout && ctx.request.paint && !ctx.request.widget);
    let mut ctx2 = UpdateCtx { request: Request::new() };
    w.update(&mut ctx2, &mut data);
    assert!(!ctx2.request.layout && !ctx2.request.paint);
    data = Data::Int(2);
    let mut ctx3 = UpdateCtx { request: Request::new() };
    w.update(&mut ctx3, &mut data);
    assert!(ctx3.request.layout && ctx3.request.paint && !ctx3.request.widget);
}

#[test]
fn maybe_transition_requests_widget_pass() {
    let mut w: Widget<u32> = Maybe::new(Widget::empty(), Lens::This).into_widget();
    let mut data = Data::Bool(true);
    let mut ctx = UpdateCtx { request: Request::new() };
    w.update(&mut ctx, &mut data);
    assert!(ctx.request.widget && ctx.request.layout && ctx.request.paint);
    let mut ctx2 = UpdateCtx { request: Request::new() };
    w.update(&mut ctx2, &mut data);
    assert!(!ctx2.request.widget);
}

#[test]
fn maybe_inactive_reports_zero_size() {
    let inner: Widget<u32> = Widget::empty().fix().width(5000).height(5000).into_widget();
    let mut w = Maybe::new(inner, Lens::This).into_widget();
    let ictx = LayoutInquireCtx { metrics: TextMetrics::empty() };
    let data = Data::Bool(false);
    let min = w.layout_inquire(&ictx, &data);
    assert_eq!(min, Vec2 { x: 0, y: 0 });
}

#[test]
fn request_flags_are_ordered() {
    // Asking for a widget recompute implies layout and paint; asking for a
    // repaint alone touches neither of the other two flags.
    let mut r = Request::new();
    r.widget();
    assert!(r.widget && r.layout && r.paint);
    let mut r2 = Request::new();
    r2.paint();
    assert!(!r2.widget && !r2.layout && r2.paint);
    let mut r3 = Request::new();
    r3.layout();
    assert!(!r3.widget && r3.layout && r3.paint);
}

#[test]
fn event_offset_inverts_exactly() {
    let mut e = HardwareEvent::PointerMoved {
        pos: Vec2 { x: 123, y: -456 },
        delta: Vec2 { x: 7, y: 8 },
    };
    let orig = e;
    let off = Vec2 { x: 9000, y: -77 };
    e.offset(off.wneg());
    e.offset(off);
    assert_eq!(e, orig);
}

#[test]
fn event_scale_rewrites_spatial_variants_only() {
    let mut e = HardwareEvent::PointerMoved {
        pos: Vec2 { x: 10, y: 20 },
        delta: Vec2 { x: 4, y: 6 },
    };
    e.scale(1, 2);
    assert_eq!(
        e,
        HardwareEvent::PointerMoved { pos: Vec2 { x: 5, y: 10 }, delta: Vec2 { x: 2, y: 3 } }
    );
    let mut k = HardwareEvent::Key { key: Key::A, pressed: true };
    k.scale(1, 2);
    assert_eq!(k, HardwareEvent::Key { key: Key::A, pressed: true });
}

#[test]
fn coordinate_roundtrip_through_nested_combinators() {
    // An event descending through a padded, centered child of a flex row
    // comes back with its spatial fields exactly as they were.
    let leaf: Widget<u32> = Widget::empty().fix().width(1000).height(1000).into_widget();
    let padded = gru_ui::widget::layout::Padding::new(leaf).all(2000).into_widget();
    let centered = gru_ui::widget::layout::Align::new(padded).center().into_widget();
    let mut w = gru_ui::widget::layout::Flex::row()
        .with(Widget::empty().fix().width(3000).into_widget())
        .with(centered)
        .into_widget();
    let ictx = LayoutInquireCtx { metrics: TextMetrics::empty() };
    let data = Data::Unit;
    let _ = w.layout_inquire(&ictx, &data);
    let mut cctx = LayoutComputeCtx { fits: true, metrics: ictx.metrics };
    let _ = w.layout_compute(&mut cctx, &data, Vec2 { x: 20000, y: 9000 });
    let original = HardwareEvent::PointerMoved {
        pos: Vec2 { x: 4321, y: 765 },
        delta: Vec2 { x: -3, y: 11 },
    };
    let mut ctx = ctx_for(original);
    let mut d = Data::Unit;
    w.event(&mut ctx, &mut d);
    assert_eq!(ctx.event.event, original);
}
