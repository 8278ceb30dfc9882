//! The remaining widgets and combinators: the vertical slider, text blocks,
//! backgrounds, data scoping during dispatch, editor activation, and the
//! remaining flex policies.

use gru_ui::widget::compose::Collection;
use gru_ui::widget::layout::{Flex, FlexLayout, Padding};
use gru_ui::widget::primitive::{Bg, Edit, Text, VSlider};
use gru_ui::{
    Chars, Data, DataList, DrawCmd, EventCtx, EventPod, HardwareEvent, LayoutComputeCtx,
    LayoutInquireCtx, Lens, MouseButton, Ratio, Request, Response, TextMetrics, Ui, UiConfig,
    Vec2, Widget, WidgetState,
};

fn chars_of(s: &str) -> Chars {
    let mut c = Chars::new();
    for ch in s.chars() {
        c.push_back(ch);
    }
    c
}

fn ctx_for(event: HardwareEvent) -> EventCtx<u32> {
    EventCtx {
        request: Request::new(),
        event: EventPod::new(event),
        events: Vec::new(),
        clipboard: None,
    }
}

fn identity_config(size: Vec2) -> UiConfig {
    UiConfig { size, scale: Ratio::new(1, 20), display_scale_factor: Ratio::one() }
}

fn laid_out(mut w: Widget<u32>, data: &Data, allot: Vec2) -> Widget<u32> {
    let ictx = LayoutInquireCtx { metrics: TextMetrics::empty() };
    let _ = w.layout_inquire(&ictx, data);
    let mut cctx = LayoutComputeCtx { fits: true, metrics: ictx.metrics };
    let _ = w.layout_compute(&mut cctx, data, allot);
    w
}

#[test]
fn vslider_click_rounds_to_step() {
    let mut w = laid_out(
        VSlider::new().into_widget(),
        &Data::Int(0),
        Vec2 { x: 1000, y: 10000 },
    );
    let mut data = Data::Int(0);
    let mut c = ctx_for(HardwareEvent::PointerClicked {
        pos: Vec2 { x: 500, y: 2500 },
        button: MouseButton::Primary,
        pressed: true,
    });
    w.event(&mut c, &mut data);
    assert!(data.eq_val(&Data::Int(300)));
    if let Widget::VSlider(s) = &w {
        assert!(s.dragged);
    }
}

#[test]
fn vslider_scroll_moves_against_the_wheel() {
    // The vertical slider subtracts the wheel delta, and the wheel is not
    // consumed by it.
    let mut w = laid_out(
        VSlider::new().into_widget(),
        &Data::Int(0),
        Vec2 { x: 1000, y: 10000 },
    );
    let mut data = Data::Int(500);
    let mut c = ctx_for(HardwareEvent::Scroll {
        pos: Vec2 { x: 500, y: 500 },
        delta: Vec2 { x: 0, y: 2 },
    });
    w.event(&mut c, &mut data);
    assert!(data.eq_val(&Data::Int(300)));
    assert!(!c.event.used);
    assert!(c.request.paint);
}

#[test]
fn text_block_wraps_to_its_width() {
    // Four characters of one em each at one unit of text size, wrapped at
    // two and a half units: two lines of one unit of height.
    let m = TextMetrics::new(1000, Vec::new());
    let mut w: Widget<u32> = Text::new().default_width(2500).into_widget();
    let ictx = LayoutInquireCtx { metrics: m };
    let data = Data::Text(chars_of("aaaa"));
    let min = w.layout_inquire(&ictx, &data);
    assert_eq!(min.y, 2000);
    let mut cctx = LayoutComputeCtx { fits: true, metrics: ictx.metrics };
    let used = w.layout_compute(&mut cctx, &data, Vec2 { x: 2500, y: 0 });
    assert_eq!(used, Vec2 { x: 2500, y: 2000 });
}

#[test]
fn bg_paints_behind_its_child() {
    let inner: Widget<u32> = Widget::empty().fix().width(2000).height(1000).into_widget();
    let w = Bg::new(inner).into_widget();
    let mut ui = Ui::new(TextMetrics::empty(), w);
    let mut data = Data::Unit;
    let frame = ui.frame(identity_config(Vec2 { x: 2000, y: 1000 }), &mut data, &Vec::new());
    assert_eq!(frame.commands.len(), 1);
    match &frame.commands[0] {
        DrawCmd::Rect(rect, color) => {
            assert_eq!(rect.min, Vec2 { x: 0, y: 0 });
            assert_eq!(rect.max, Vec2 { x: 2000, y: 1000 });
            assert_eq!(*color, gru_ui::StyleSet::default().bg.cold);
        },
        _ => panic!("expected the background rectangle"),
    }
}

#[test]
fn padding_offsets_painted_children() {
    let inner: Widget<u32> = Widget::empty().fix().width(1000).height(1000).into_widget();
    let w = Padding::new(Bg::new(inner).into_widget()).all(500).into_widget();
    let mut ui = Ui::new(TextMetrics::empty(), w);
    let mut data = Data::Unit;
    let frame = ui.frame(identity_config(Vec2 { x: 2000, y: 2000 }), &mut data, &Vec::new());
    match &frame.commands[0] {
        DrawCmd::Rect(rect, _) => {
            assert_eq!(rect.min, Vec2 { x: 500, y: 500 });
        },
        _ => panic!("expected the background rectangle"),
    }
}

#[test]
fn lensing_scopes_dispatch_to_a_subvalue() {
    // A checkbox behind a lens toggles only its own element of the list.
    let scoped = gru_ui::widget::primitive::Check::new()
        .into_widget()
        .lens(Lens::Field(1))
        .into_widget();
    let mut r = Response::new(scoped);
    r.size = Vec2 { x: 1000, y: 1000 };
    let mut w = r.into_widget();
    let mut data = Data::List(Box::new(DataList::Cons(
        Data::Bool(false),
        Box::new(DataList::Cons(Data::Bool(false), Box::new(DataList::Nil))),
    )));
    let mut c1 = ctx_for(HardwareEvent::PointerClicked {
        pos: Vec2 { x: 10, y: 10 },
        button: MouseButton::Primary,
        pressed: true,
    });
    w.event(&mut c1, &mut data);
    let mut c2 = ctx_for(HardwareEvent::PointerClicked {
        pos: Vec2 { x: 10, y: 10 },
        button: MouseButton::Primary,
        pressed: false,
    });
    w.event(&mut c2, &mut data);
    let expect = Data::List(Box::new(DataList::Cons(
        Data::Bool(false),
        Box::new(DataList::Cons(Data::Bool(true), Box::new(DataList::Nil))),
    )));
    assert!(data.eq_val(&expect));
}

#[test]
fn edit_activates_on_committed_click() {
    let mut r = Response::new(Edit::new().into_widget());
    r.size = Vec2 { x: 10000, y: 1000 };
    let mut w = r.into_widget();
    let mut data = Data::Text(Chars::new());
    let mut c1 = ctx_for(HardwareEvent::PointerClicked {
        pos: Vec2 { x: 10, y: 10 },
        button: MouseButton::Primary,
        pressed: true,
    });
    w.event(&mut c1, &mut data);
    let mut c2 = ctx_for(HardwareEvent::PointerClicked {
        pos: Vec2 { x: 10, y: 10 },
        button: MouseButton::Primary,
        pressed: false,
    });
    w.event(&mut c2, &mut data);
    if let Widget::Response(r) = &w {
        if let Widget::Edit(e) = &*r.child {
            assert!(e.active);
        } else {
            panic!("not an editor");
        }
        assert_eq!(r.state, WidgetState::Hover);
    }
    // Typing now lands in the text.
    let mut c3 = ctx_for(HardwareEvent::Char('z'));
    w.event(&mut c3, &mut data);
    assert!(data.eq_val(&Data::Text(chars_of("z"))));
}

#[test]
fn flex_pad_all_splits_ends_and_gaps() {
    // Twelve units of content, eighteen granted: six units of slack over
    // two gaps and two ends, two units per gap and one per end.
    let mut w: Widget<u32> = Flex::row()
        .padding(1000)
        .layout(FlexLayout::PadAll)
        .with(Widget::empty().fix().width(2000).into_widget())
        .with(Widget::empty().fix().width(3000).into_widget())
        .with(Widget::empty().fix().width(5000).into_widget())
        .into_widget();
    let ictx = LayoutInquireCtx { metrics: TextMetrics::empty() };
    let data = Data::Unit;
    let _ = w.layout_inquire(&ictx, &data);
    let mut cctx = LayoutComputeCtx { fits: true, metrics: ictx.metrics };
    let _ = w.layout_compute(&mut cctx, &data, Vec2 { x: 18000, y: 0 });
    if let Widget::Flex(f) = &w {
        let mut offs = Vec::new();
        let mut cur = &f.childs;
        while let gru_ui::Childs::Cons { off, next, .. } = cur {
            offs.push(*off);
            cur = next;
        }
        assert_eq!(offs, vec![1000, 6000, 12000]);
    } else {
        panic!("not a flex row");
    }
}

#[test]
fn flex_back_puts_slack_in_front() {
    let mut w: Widget<u32> = Flex::row()
        .layout(FlexLayout::Back)
        .with(Widget::empty().fix().width(2000).into_widget())
        .into_widget();
    let ictx = LayoutInquireCtx { metrics: TextMetrics::empty() };
    let data = Data::Unit;
    let _ = w.layout_inquire(&ictx, &data);
    let mut cctx = LayoutComputeCtx { fits: true, metrics: ictx.metrics };
    let _ = w.layout_compute(&mut cctx, &data, Vec2 { x: 5000, y: 0 });
    if let Widget::Flex(f) = &w {
        if let gru_ui::Childs::Cons { off, .. } = &f.childs {
            assert_eq!(*off, 3000);
        }
    }
}

#[test]
fn flex_column_works_along_y() {
    let mut w: Widget<u32> = Flex::column()
        .with(Widget::empty().fix().height(2000).into_widget())
        .with(Widget::empty().fix().height(3000).into_widget())
        .into_widget();
    let ictx = LayoutInquireCtx { metrics: TextMetrics::empty() };
    let data = Data::Unit;
    let min = w.layout_inquire(&ictx, &data);
    assert_eq!(min, Vec2 { x: 0, y: 5000 });
}

#[test]
fn collection_dispatches_in_order_with_single_consumption() {
    let mut r1 = Response::new(Widget::empty());
    r1.size = Vec2 { x: 1000, y: 1000 };
    let mut r2 = Response::new(Widget::empty());
    r2.size = Vec2 { x: 1000, y: 1000 };
    let mut w = Collection::new()
        .with(r1.into_widget())
        .with(r2.into_widget())
        .into_widget();
    let mut data = Data::Unit;
    let mut c = ctx_for(HardwareEvent::PointerClicked {
        pos: Vec2 { x: 10, y: 10 },
        button: MouseButton::Primary,
        pressed: true,
    });
    w.event(&mut c, &mut data);
    if let Widget::Collection(col) = &w {
        if let gru_ui::Childs::Cons { node, next, .. } = &col.childs {
            if let Widget::Response(a) = &**node {
                assert_eq!(a.state, WidgetState::Hot);
            }
            if let gru_ui::Childs::Cons { node, .. } = &**next {
                if let Widget::Response(b) = &**node {
                    assert_eq!(b.state, WidgetState::Cold);
                }
            }
        }
    }
}

#[test]
fn dynamic_without_child_behaves_as_empty() {
    let proto: Widget<u32> = Widget::empty().fix().width(7000).into_widget();
    let mut w = gru_ui::widget::dynamic::Dynamic::new(proto).into_widget();
    let ictx = LayoutInquireCtx { metrics: TextMetrics::empty() };
    let data = Data::Unit;
    let min = w.layout_inquire(&ictx, &data);
    assert_eq!(min, Vec2 { x: 0, y: 0 });
}

#[test]
fn widget_duplicate_preserves_behavior() {
    let original: Widget<u32> = Flex::row()
        .padding(1000)
        .with(Widget::empty().fix().width(2000).into_widget())
        .with(Widget::empty().fix().width(3000).into_widget())
        .into_widget();
    let mut copy = original.duplicate();
    let ictx = LayoutInquireCtx { metrics: TextMetrics::empty() };
    let data = Data::Unit;
    let min = copy.layout_inquire(&ictx, &data);
    assert_eq!(min, Vec2 { x: 6000, y: 0 });
}

#[test]
fn edit_paints_a_cursor_while_active() {
    let mut e = Edit::new();
    e.active = true;
    let w: Widget<u32> = e.into_widget();
    let mut ui = Ui::new(TextMetrics::empty(), w);
    let mut data = Data::Text(chars_of("ab"));
    let frame = ui.frame(identity_config(Vec2 { x: 10000, y: 1000 }), &mut data, &Vec::new());
    match &frame.commands[1] {
        DrawCmd::Text(_, text, ..) => {
            assert_eq!(text.to_vec(), vec!['a', 'b', '_']);
        },
        _ => panic!("expected the editor text"),
    }
}
