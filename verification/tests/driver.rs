//! The frame driver: pass gating by the dirty flags, the fits flag, the
//! processed event sequence and the recorded draw commands.

use gru_ui::widget::layout::{Flex, FlexLayout};
use gru_ui::widget::primitive::{Label, Slider};
use gru_ui::{
    Chars, Data, DataList, DrawCmd, Event, HardwareEvent, Key, Lens, MouseButton, Ratio,
    TextMetrics, Ui, UiConfig, Vec2, Widget,
};

fn chars_of(s: &str) -> Chars {
    let mut c = Chars::new();
    for ch in s.chars() {
        c.push_back(ch);
    }
    c
}

/// A configuration whose combined scale is one: logical units equal
/// physical input units.
fn identity_config(size: Vec2) -> UiConfig {
    UiConfig {
        size,
        scale: Ratio::new(1, 20),
        display_scale_factor: Ratio::one(),
    }
}

#[test]
fn frame_paints_a_label() {
    let metrics = TextMetrics::new(500, Vec::new());
    let w: Widget<u32> = Label::new().into_widget();
    let mut ui = Ui::new(metrics, w);
    let mut data = Data::Text(chars_of("hi"));
    let frame = ui.frame(
        identity_config(Vec2 { x: 8000, y: 8000 }),
        &mut data,
        &Vec::new(),
    );
    assert!(frame.fits);
    assert!(frame.fresh);
    assert_eq!(frame.commands.len(), 1);
    match &frame.commands[0] {
        DrawCmd::Text(rect, text, size, _, wrap, _) => {
            // "hi" at one unit: two advances of half a unit each.
            assert_eq!(rect.max.x - rect.min.x, 1000);
            assert_eq!(text.to_vec(), vec!['h', 'i']);
            assert_eq!(*size, 1000);
            assert!(!*wrap);
        },
        _ => panic!("expected a text command"),
    }
}

#[test]
fn frame_resets_the_tracker_and_skips_quiet_passes() {
    let metrics = TextMetrics::new(500, Vec::new());
    let w: Widget<u32> = Label::new().into_widget();
    let mut ui = Ui::new(metrics, w);
    let mut data = Data::Text(chars_of("hi"));
    let config = identity_config(Vec2 { x: 8000, y: 8000 });
    let first = ui.frame(config, &mut data, &Vec::new());
    assert!(first.fresh);
    assert!(!ui.request.widget && !ui.request.layout && !ui.request.paint);
    // Nothing asked for anything: the second frame repaints nothing, and
    // the retained commands are handed out again.
    let second = ui.frame(config, &mut data, &Vec::new());
    assert!(!second.fresh);
    assert_eq!(second.commands.len(), 1);
}

#[test]
fn config_change_forces_a_fresh_layout() {
    let metrics = TextMetrics::new(500, Vec::new());
    let w: Widget<u32> = Label::new().into_widget();
    let mut ui = Ui::new(metrics, w);
    let mut data = Data::Text(chars_of("hi"));
    let _ = ui.frame(identity_config(Vec2 { x: 8000, y: 8000 }), &mut data, &Vec::new());
    let bigger = identity_config(Vec2 { x: 9000, y: 9000 });
    let frame = ui.frame(bigger, &mut data, &Vec::new());
    assert!(frame.fresh);
}

#[test]
fn does_not_fit_bubbles_to_the_frame_result() {
    // A twelve-unit row granted ten units: the soft failure reaches the
    // frame result without a panic.
    let row: Widget<u32> = Flex::row()
        .padding(1000)
        .layout(FlexLayout::Front)
        .with(Slider::new().default_width(2000).height(0).into_widget())
        .with(Slider::new().default_width(3000).height(0).into_widget())
        .with(Slider::new().default_width(5000).height(0).into_widget())
        .into_widget();
    let mut ui = Ui::new(TextMetrics::empty(), row);
    let mut data = Data::Int(0);
    let frame = ui.frame(
        identity_config(Vec2 { x: 10000, y: 1000 }),
        &mut data,
        &Vec::new(),
    );
    assert!(!frame.fits);
}

#[test]
fn frame_returns_events_with_original_coordinates() {
    // The driver scales events into logical units for dispatch and hands
    // them back untouched, with their final consumption flags.
    let w: Widget<u32> = Slider::new().into_widget();
    let mut ui = Ui::new(TextMetrics::empty(), w);
    let mut data = Data::Int(0);
    let config = identity_config(Vec2 { x: 10000, y: 1000 });
    let _ = ui.frame(config, &mut data, &Vec::new());
    let click = HardwareEvent::PointerClicked {
        pos: Vec2 { x: 2500, y: 500 },
        button: MouseButton::Primary,
        pressed: true,
    };
    let frame = ui.frame(config, &mut data, &vec![click]);
    assert_eq!(frame.events.len(), 1);
    match &frame.events[0] {
        Event::Hardware(pod) => {
            assert_eq!(pod.event, click);
            assert!(pod.used);
        },
        _ => panic!("expected the hardware event back"),
    }
    assert!(data.eq_val(&Data::Int(300)));
}

#[test]
fn frame_scales_events_into_logical_units() {
    // At a combined scale of two physical units per logical unit, a click
    // at four thousand lands at logical two thousand.
    let w: Widget<u32> = Slider::new().into_widget();
    let mut ui = Ui::new(TextMetrics::empty(), w);
    let mut data = Data::Int(0);
    let config = UiConfig {
        size: Vec2 { x: 20000, y: 2000 },
        scale: Ratio::new(1, 10),
        display_scale_factor: Ratio::one(),
    };
    let _ = ui.frame(config, &mut data, &Vec::new());
    let click = HardwareEvent::PointerClicked {
        pos: Vec2 { x: 4000, y: 1000 },
        button: MouseButton::Primary,
        pressed: true,
    };
    let _ = ui.frame(config, &mut data, &vec![click]);
    // Logical position 2000 of 10000 with tenth steps: exactly step two.
    assert!(data.eq_val(&Data::Int(200)));
}

#[test]
fn logic_events_follow_their_hardware_event() {
    let mut r = gru_ui::Response::new(Widget::empty());
    r.size = Vec2 { x: 400000, y: 400000 };
    let w = r.event(9).into_widget();
    let mut ui = Ui::new(TextMetrics::empty(), w);
    let mut data = Data::Unit;
    let config = identity_config(Vec2 { x: 8000, y: 8000 });
    let pressv = HardwareEvent::PointerClicked {
        pos: Vec2 { x: 100, y: 100 },
        button: MouseButton::Primary,
        pressed: true,
    };
    let releasev = HardwareEvent::PointerClicked {
        pos: Vec2 { x: 100, y: 100 },
        button: MouseButton::Primary,
        pressed: false,
    };
    let frame = ui.frame(config, &mut data, &vec![pressv, releasev]);
    assert_eq!(frame.events.len(), 3);
    assert!(matches!(frame.events[0], Event::Hardware(_)));
    assert!(matches!(
        frame.events[1],
        Event::Logic(gru_ui::LogicEvent::Clicked(9, MouseButton::Primary))
    ));
    assert!(matches!(frame.events[2], Event::Hardware(_)));
}

#[test]
fn key_labels_are_short_captions() {
    assert_eq!(Key::A.label(), "A");
    assert_eq!(Key::Escape.label(), "ESC");
    assert_eq!(Key::NumpadAdd.label(), "Num+");
    assert_eq!(Key::Space.label(), "Space");
}

#[test]
fn stock_style_colors() {
    let style = gru_ui::StyleSet::default();
    assert_eq!(style.text, gru_ui::Color::from_discrete_srgb(0, 0, 0, 255));
    assert_eq!(style.bg.cold, gru_ui::Color::from_discrete_srgb(200, 200, 200, 255));
    assert_eq!(
        style.bg.get(gru_ui::WidgetState::Hover),
        gru_ui::Color::from_discrete_srgb(150, 150, 250, 255)
    );
    assert_eq!(
        style.data.get(gru_ui::WidgetState::Hot),
        gru_ui::Color::from_discrete_srgb(250, 200, 200, 255)
    );
}

#[test]
fn checkbox_paints_its_parts() {
    let w: Widget<u32> = gru_ui::widget::primitive::Check::new().into_widget();
    let mut ui = Ui::new(TextMetrics::empty(), w);
    let mut data = Data::Bool(true);
    let frame = ui.frame(identity_config(Vec2 { x: 2000, y: 2000 }), &mut data, &Vec::new());
    // The well, the data square, and the tick.
    assert_eq!(frame.commands.len(), 3);
    match &frame.commands[2] {
        DrawCmd::Rhombus(rect, _) => {
            assert_eq!(rect.min, Vec2 { x: 300, y: 300 });
            assert_eq!(rect.max, Vec2 { x: 700, y: 700 });
        },
        _ => panic!("expected the tick"),
    }
    let mut ui2 = Ui::new(TextMetrics::empty(), gru_ui::widget::primitive::Check::new()
        .into_widget() as Widget<u32>);
    let mut unticked = Data::Bool(false);
    let frame2 = ui2.frame(identity_config(Vec2 { x: 2000, y: 2000 }), &mut unticked, &Vec::new());
    assert_eq!(frame2.commands.len(), 2);
}

#[test]
fn dynamic_builds_its_child_from_the_prototype() {
    let proto: Widget<u32> = Widget::empty().fix().width(7000).height(100).into_widget();
    let w = gru_ui::widget::dynamic::Dynamic::new(proto).into_widget();
    let mut ui = Ui::new(TextMetrics::empty(), w);
    let mut data = Data::Unit;
    // The first frame has the widget flag raised, so the child is built
    // and laid out in the same frame.
    let frame = ui.frame(identity_config(Vec2 { x: 8000, y: 8000 }), &mut data, &Vec::new());
    assert!(frame.fits);
    if let Widget::Dynamic(dy) = &ui.widget {
        assert!(dy.child.is_some());
    } else {
        panic!("not a dynamic node");
    }
}

#[test]
fn owning_ignores_surrounding_data() {
    let label: Widget<u32> = Label::new().into_widget();
    let w = label.own(Data::Text(chars_of("own"))).into_widget();
    let mut ui = Ui::new(TextMetrics::new(500, Vec::new()), w);
    let mut data = Data::Int(5);
    let frame = ui.frame(identity_config(Vec2 { x: 8000, y: 8000 }), &mut data, &Vec::new());
    match &frame.commands[0] {
        DrawCmd::Text(_, text, ..) => assert_eq!(text.to_vec(), vec!['o', 'w', 'n']),
        _ => panic!("expected a text command"),
    }
}

#[test]
fn mapped_snapshot_feeds_the_child() {
    let label: Widget<u32> = Label::new().into_widget();
    let w = label.map(Lens::Field(1)).into_widget();
    let mut ui = Ui::new(TextMetrics::new(500, Vec::new()), w);
    let mut data = Data::List(Box::new(DataList::Cons(
        Data::Int(1),
        Box::new(DataList::Cons(Data::Text(chars_of("snap")), Box::new(DataList::Nil))),
    )));
    let frame = ui.frame(identity_config(Vec2 { x: 9000, y: 9000 }), &mut data, &Vec::new());
    match &frame.commands[0] {
        DrawCmd::Text(_, text, ..) => assert_eq!(text.to_vec(), vec!['s', 'n', 'a', 'p']),
        _ => panic!("expected a text command"),
    }
}
