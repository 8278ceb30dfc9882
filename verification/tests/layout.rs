//! The layout protocol: flex slack distribution, the does-not-fit flag,
//! alignment, padding, and the text-metrics formulas.

use gru_ui::widget::layout::{Align, AlignLayout, Flex, FlexLayout, Padding};
use gru_ui::widget::primitive::Slider;
use gru_ui::{
    Chars, Childs, Data, LayoutComputeCtx, LayoutInquireCtx, TextAlign, TextLayout, TextMetrics,
    Vec2, Widget,
};

fn chars_of(s: &str) -> Chars {
    let mut c = Chars::new();
    for ch in s.chars() {
        c.push_back(ch);
    }
    c
}

/// A child that asks for `width` along a row and stretches to fill its
/// allotment.
fn stretchy(width: i64) -> Widget<u32> {
    Slider::new().default_width(width).height(0).into_widget()
}

/// The row of the slack-distribution scenario: minimum primary sizes of
/// two, three and five units, with a gap of one unit.
fn row_235(policy: FlexLayout) -> Widget<u32> {
    Flex::row()
        .padding(1000)
        .layout(policy)
        .with(stretchy(2000))
        .with(stretchy(3000))
        .with(stretchy(5000))
        .into_widget()
}

fn child_offsets(w: &Widget<u32>) -> Vec<i64> {
    let mut offs = Vec::new();
    if let Widget::Flex(f) = w {
        let mut cur = &f.childs;
        while let Childs::Cons { off, next, .. } = cur {
            offs.push(*off);
            cur = next;
        }
    }
    offs
}

fn child_widths(w: &Widget<u32>) -> Vec<i64> {
    let mut widths = Vec::new();
    if let Widget::Flex(f) = w {
        let mut cur = &f.childs;
        while let Childs::Cons { node, next, .. } = cur {
            if let Widget::Slider(s) = &**node {
                widths.push(s.actual_size.x);
            }
            cur = next;
        }
    }
    widths
}

fn layout(w: &mut Widget<u32>, allot: Vec2) -> (Vec2, bool) {
    let ictx = LayoutInquireCtx { metrics: TextMetrics::empty() };
    let data = Data::Unit;
    let min = w.layout_inquire(&ictx, &data);
    assert_eq!(min, Vec2 { x: 12000, y: 0 });
    let mut cctx = LayoutComputeCtx { fits: true, metrics: ictx.metrics };
    let used = w.layout_compute(&mut cctx, &data, allot);
    (used, cctx.fits)
}

#[test]
fn flex_total_primary_size() {
    // 2 + 3 + 5 plus two gaps of 1: twelve units in all.
    let mut w = row_235(FlexLayout::Front);
    let ictx = LayoutInquireCtx { metrics: TextMetrics::empty() };
    let data = Data::Unit;
    let min = w.layout_inquire(&ictx, &data);
    assert_eq!(min, Vec2 { x: 12000, y: 0 });
    if let Widget::Flex(f) = &w {
        assert_eq!(f.total_primary_size, 12000);
    } else {
        panic!("not a flex row");
    }
}

#[test]
fn flex_center_leaves_minimums_and_equal_end_gaps() {
    // Fourteen units for a twelve-unit row: one unit of slack at each end,
    // every child at exactly its minimum size.
    let mut w = row_235(FlexLayout::Center);
    let (used, fits) = layout(&mut w, Vec2 { x: 14000, y: 0 });
    assert!(fits);
    assert_eq!(used, Vec2 { x: 14000, y: 0 });
    assert_eq!(child_offsets(&w), vec![1000, 4000, 8000]);
    assert_eq!(child_widths(&w), vec![2000, 3000, 5000]);
    // The back gap is one unit as well: the last child ends at thirteen.
    assert_eq!(14000 - (8000 + 5000), 1000);
}

#[test]
fn flex_grow_childs_adds_a_third_of_the_slack_each() {
    // Two units of slack over three children: each grows by two thirds of
    // a unit, truncated to the fixed-point grid.
    let mut w = row_235(FlexLayout::GrowChilds);
    let (used, fits) = layout(&mut w, Vec2 { x: 14000, y: 0 });
    assert!(fits);
    let growth = 2000 / 3;
    assert_eq!(growth, 666);
    assert_eq!(
        child_widths(&w),
        vec![2000 + growth, 3000 + growth, 5000 + growth]
    );
    assert_eq!(child_offsets(&w), vec![0, 3666, 8332]);
    assert_eq!(used, Vec2 { x: 13998, y: 0 });
}

#[test]
fn flex_does_not_fit_clamps_delta() {
    // Ten units for a twelve-unit row: the soft flag is raised and the
    // slack is treated as zero, without a panic.
    let mut w = row_235(FlexLayout::Front);
    let (used, fits) = layout(&mut w, Vec2 { x: 10000, y: 0 });
    assert!(!fits);
    assert_eq!(child_offsets(&w), vec![0, 3000, 7000]);
    assert_eq!(child_widths(&w), vec![2000, 3000, 5000]);
    assert_eq!(used, Vec2 { x: 12000, y: 0 });
}

#[test]
fn flex_pad_between_splits_gaps() {
    let mut w = row_235(FlexLayout::PadBetween);
    let (_used, fits) = layout(&mut w, Vec2 { x: 14000, y: 0 });
    assert!(fits);
    // Two units of slack split over the two gaps: each gap is 1 + 1 units.
    assert_eq!(child_offsets(&w), vec![0, 4000, 9000]);
}

#[test]
fn align_center_offsets_by_half_the_surplus() {
    let inner: Widget<u32> = Widget::empty().fix().width(2000).height(2000).into_widget();
    let mut w = Align::new(inner).center().into_widget();
    let ictx = LayoutInquireCtx { metrics: TextMetrics::empty() };
    let data = Data::Unit;
    let min = w.layout_inquire(&ictx, &data);
    assert_eq!(min, Vec2 { x: 2000, y: 2000 });
    let mut cctx = LayoutComputeCtx { fits: true, metrics: ictx.metrics };
    let used = w.layout_compute(&mut cctx, &data, Vec2 { x: 6000, y: 4000 });
    assert_eq!(used, Vec2 { x: 6000, y: 4000 });
    assert!(cctx.fits);
    if let Widget::Align(a) = &w {
        assert_eq!(a.size_or_offset, Vec2 { x: 2000, y: 1000 });
        assert!(matches!(a.horizontal, AlignLayout::Mid));
    } else {
        panic!("not an align node");
    }
}

#[test]
fn padding_raises_does_not_fit_when_squeezed() {
    let mut w: Widget<u32> = Padding::new(Widget::empty()).all(3000).into_widget();
    let ictx = LayoutInquireCtx { metrics: TextMetrics::empty() };
    let data = Data::Unit;
    let min = w.layout_inquire(&ictx, &data);
    assert_eq!(min, Vec2 { x: 6000, y: 6000 });
    let mut cctx = LayoutComputeCtx { fits: true, metrics: ictx.metrics };
    let _ = w.layout_compute(&mut cctx, &data, Vec2 { x: 4000, y: 4000 });
    assert!(!cctx.fits);
}

#[test]
fn text_width_is_advances_times_size() {
    // 'i' advances 200 milli-ems, everything else 500: "hii" is 900
    // milli-ems, which at a text size of two units is 1.8 units.
    let m = TextMetrics::new(500, vec![('i', 200)]);
    assert_eq!(m.text_width(&chars_of("hii"), 2000), 1800);
    assert_eq!(m.text_width(&chars_of(""), 2000), 0);
}

#[test]
fn text_height_counts_wrapped_lines() {
    let m = TextMetrics::new(1000, Vec::new());
    let layout = TextLayout { width: 2500, align: TextAlign::Block, auto_wrap: true };
    assert_eq!(m.text_height(&chars_of("aaaa"), layout), 2);
    assert_eq!(m.text_height(&chars_of(""), layout), 1);
    let no_wrap = TextLayout { width: 2500, align: TextAlign::Block, auto_wrap: false };
    assert_eq!(m.text_height(&chars_of("aaaa"), no_wrap), 1);
}

#[test]
fn fix_overrides_the_allotment() {
    let mut w: Widget<u32> = Widget::empty().fix().width(2500).into_widget();
    let ictx = LayoutInquireCtx { metrics: TextMetrics::empty() };
    let data = Data::Unit;
    let min = w.layout_inquire(&ictx, &data);
    assert_eq!(min, Vec2 { x: 2500, y: 0 });
    let mut cctx = LayoutComputeCtx { fits: true, metrics: ictx.metrics };
    let used = w.layout_compute(&mut cctx, &data, Vec2 { x: 9000, y: 700 });
    assert_eq!(used, Vec2 { x: 2500, y: 700 });
}

#[test]
fn collection_size_is_componentwise_maximum() {
    let a: Widget<u32> = Widget::empty().fix().width(3000).height(100).into_widget();
    let b: Widget<u32> = Widget::empty().fix().width(1000).height(900).into_widget();
    let mut w = gru_ui::widget::compose::Collection::from(vec![a, b]).into_widget();
    let ictx = LayoutInquireCtx { metrics: TextMetrics::empty() };
    let data = Data::Unit;
    let min = w.layout_inquire(&ictx, &data);
    assert_eq!(min, Vec2 { x: 3000, y: 900 });
}
