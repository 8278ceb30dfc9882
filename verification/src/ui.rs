//! The per-frame plumbing: the invalidation tracker and the contexts the
//! four passes carry through the tree.

use vstd::prelude::*;

use crate::event::{Event, EventPod, HardwareEvent, LogicEvent};
use crate::geom::{sat64, tdiv, Color, Rect, Vec2};
use crate::metrics::{TextAlign, TextLayout, TextMetrics};
use crate::paint::{DrawCmd, Painter};
use crate::style::StyleSet;
use crate::data::{Chars, Data};
use crate::widget::interact::WidgetState;
use crate::widget::model::{clip_view, cmp, ev, inq, pt, up, wc, EvState, PtState};
use crate::widget::Widget;

verus! {

/// The three ordered dirty flags, scoped to one frame. Asking for a
/// widget-level recompute implies layout and paint; asking for layout
/// implies paint.
#[derive(Clone, Copy, PartialEq, Eq, Structural, Debug)]
pub struct Request {
    pub widget: bool,
    pub layout: bool,
    pub paint: bool,
}

impl Request {
    /// The monotone implication the setters keep: widget implies layout
    /// implies paint.
    pub open spec fn wf(self) -> bool {
        (self.widget ==> self.layout) && (self.layout ==> self.paint)
    }

    pub fn new() -> (r: Request)
        ensures
            r == (Request { widget: false, layout: false, paint: false }),
    {
        Request { widget: false, layout: false, paint: false }
    }

    /// Asks for a widget-level recompute, which implies layout and paint.
    pub fn widget(&mut self)
        ensures
            *final(self) == (Request { widget: true, layout: true, paint: true }),
    {
        self.widget = true;
        self.layout = true;
        self.paint = true;
    }

    /// Asks for a layout recompute, which implies paint; the widget flag is
    /// left as it was.
    pub fn layout(&mut self)
        ensures
            *final(self) == (Request { widget: old(self).widget, layout: true, paint: true }),
    {
        self.layout = true;
        self.paint = true;
    }

    /// Asks for a repaint; the widget and layout flags are left as they
    /// were.
    pub fn paint(&mut self)
        ensures
            *final(self) == (Request {
                widget: old(self).widget,
                layout: old(self).layout,
                paint: true,
            }),
    {
        self.paint = true;
    }

    pub(crate) fn reset(&mut self)
        ensures
            *final(self) == (Request { widget: false, layout: false, paint: false }),
    {
        self.widget = false;
        self.layout = false;
        self.paint = false;
    }
}

/// Every setter establishes the monotone implication, and every setter only
/// raises flags: a raised flag stays raised within the frame.
pub proof fn lemma_request_monotone(before: Request)
    ensures
        (Request { widget: true, layout: true, paint: true }).wf(),
        (Request { widget: before.widget, layout: true, paint: true }).widget == before.widget,
        (Request { widget: before.widget, layout: before.layout, paint: true }).widget
            == before.widget,
        (Request { widget: before.widget, layout: before.layout, paint: true }).layout
            == before.layout,
        before.wf() ==> (Request { widget: before.widget, layout: true, paint: true }).wf(),
        before.wf() ==> (Request {
            widget: before.widget,
            layout: before.layout,
            paint: true,
        }).wf(),
{
}

/// The context of the event pass: the tracker, the event under dispatch,
/// the output sequence, and the clipboard text fetched for this frame, if
/// any.
#[derive(Debug)]
pub struct EventCtx<E> {
    pub request: Request,
    pub event: EventPod,
    pub events: Vec<Event<E>>,
    pub clipboard: Option<Vec<char>>,
}

impl<E> EventCtx<E> {
    /// Emits one derived logic event into the output sequence.
    pub fn emit(&mut self, event: LogicEvent<E>)
        ensures
            final(self).events@ == old(self).events@.push(Event::Logic(event)),
            final(self).request == old(self).request,
            final(self).event == old(self).event,
            final(self).clipboard == old(self).clipboard,
    {
        self.events.push(Event::Logic(event));
    }
}

/// The context of the update pass.
#[derive(Clone, Copy, PartialEq, Eq, Structural, Debug)]
pub struct UpdateCtx {
    pub request: Request,
}

/// The context of the widget-rebuild pass.
#[derive(Debug)]
pub struct WidgetComputeCtx {}

/// The context of the layout inquire phase: the text-metrics collaborator.
#[derive(Debug)]
pub struct LayoutInquireCtx {
    pub metrics: TextMetrics,
}

impl LayoutInquireCtx {
    pub fn text_width(&self, text: &Chars, size: i64) -> (r: i64)
        ensures
            r == crate::geom::sat64(
                crate::geom::tdiv(
                    self.metrics.units(*text) as int * size as int,
                    crate::geom::MILLI as int,
                ),
            ),
    {
        self.metrics.text_width(text, size)
    }

    pub fn text_height(&self, text: &Chars, layout: TextLayout) -> (r: u32)
        ensures
            layout.auto_wrap ==> r as int == if self.metrics.lines(*text, layout.width, 0)
                <= u32::MAX {
                self.metrics.lines(*text, layout.width, 0)
            } else {
                u32::MAX as int
            },
            !layout.auto_wrap ==> r == 1,
    {
        self.metrics.text_height(text, layout)
    }
}

/// The context of the layout compute phase: the soft does-not-fit flag and
/// the text-metrics collaborator.
#[derive(Debug)]
pub struct LayoutComputeCtx {
    pub fits: bool,
    pub metrics: TextMetrics,
}

impl LayoutComputeCtx {
    /// Raises the soft failure that bubbles to the frame result: the tree
    /// asked for more space than it was granted.
    pub fn does_not_fit(&mut self)
        ensures
            *final(self) == (LayoutComputeCtx { fits: false, metrics: old(self).metrics }),
    {
        self.fits = false;
    }

    pub fn text_width(&self, text: &Chars, size: i64) -> (r: i64)
        ensures
            r == crate::geom::sat64(
                crate::geom::tdiv(
                    self.metrics.units(*text) as int * size as int,
                    crate::geom::MILLI as int,
                ),
            ),
    {
        self.metrics.text_width(text, size)
    }

    pub fn text_height(&self, text: &Chars, layout: TextLayout) -> (r: u32)
        ensures
            layout.auto_wrap ==> r as int == if self.metrics.lines(*text, layout.width, 0)
                <= u32::MAX {
                self.metrics.lines(*text, layout.width, 0)
            } else {
                u32::MAX as int
            },
            !layout.auto_wrap ==> r == 1,
    {
        self.metrics.text_height(text, layout)
    }
}

/// A positive rational scale factor.
#[derive(Clone, Copy, PartialEq, Eq, Structural, Debug)]
pub struct Ratio {
    pub num: u32,
    pub den: u32,
}

impl Ratio {
    /// Both parts at least one and small enough that scale products stay
    /// exact in the machine arithmetic.
    pub open spec fn wf(self) -> bool {
        1 <= self.num <= 1000000 && 1 <= self.den <= 1000000
    }

    /// The identity scale.
    pub fn one() -> (r: Ratio)
        ensures
            r == (Ratio { num: 1u32, den: 1u32 }),
    {
        Ratio { num: 1, den: 1 }
    }

    pub fn new(num: u32, den: u32) -> (r: Ratio)
        ensures
            r == (Ratio { num, den }),
    {
        Ratio { num, den }
    }
}

/// What the host hands the driver each frame: the surface size in physical
/// milli-pixels, the logical zoom, and the display's scale factor.
#[derive(Clone, Copy, PartialEq, Eq, Structural, Debug)]
pub struct UiConfig {
    pub size: Vec2,
    pub scale: Ratio,
    pub display_scale_factor: Ratio,
}

impl UiConfig {
    pub open spec fn wf(self) -> bool {
        self.scale.wf() && self.display_scale_factor.wf()
    }
}

/// The context of the paint pass: the recorder, the style table, and the
/// ambient interaction state.
#[derive(Debug)]
pub struct PaintCtx {
    pub painter: Painter,
    pub style: StyleSet,
    pub state: WidgetState,
}

impl PaintCtx {
    pub fn add_offset(&mut self, offset: Vec2)
        ensures
            final(self).painter == (Painter {
                origin: old(self).painter.origin.spec_plus(offset),
                ..old(self).painter
            }),
            final(self).style == old(self).style,
            final(self).state == old(self).state,
    {
        self.painter.add_offset(offset);
    }

    pub fn draw_rect(&mut self, rect: Rect, color: Color)
        ensures
            final(self).painter.cmds@ == old(self).painter.cmds@.push(
                crate::paint::DrawCmd::Rect(
                    Painter::spec_shifted(old(self).painter.origin, rect),
                    color,
                ),
            ),
            final(self).painter.origin == old(self).painter.origin,
            final(self).painter.metrics == old(self).painter.metrics,
            final(self).painter.fresh == old(self).painter.fresh,
            final(self).style == old(self).style,
            final(self).state == old(self).state,
    {
        self.painter.draw_rect(rect, color);
    }

    pub fn draw_rhombus(&mut self, rect: Rect, color: Color)
        ensures
            final(self).painter.cmds@ == old(self).painter.cmds@.push(
                crate::paint::DrawCmd::Rhombus(
                    Painter::spec_shifted(old(self).painter.origin, rect),
                    color,
                ),
            ),
            final(self).painter.origin == old(self).painter.origin,
            final(self).painter.metrics == old(self).painter.metrics,
            final(self).painter.fresh == old(self).painter.fresh,
            final(self).style == old(self).style,
            final(self).state == old(self).state,
    {
        self.painter.draw_rhombus(rect, color);
    }

    pub fn draw_text(
        &mut self,
        rect: Rect,
        text: &Chars,
        size: i64,
        align: TextAlign,
        auto_wrap: bool,
        color: Color,
    )
        ensures
            final(self).painter.cmds@ == old(self).painter.cmds@.push(
                crate::paint::DrawCmd::Text(
                    Painter::spec_shifted(old(self).painter.origin, rect),
                    *text,
                    size,
                    align,
                    auto_wrap,
                    color,
                ),
            ),
            final(self).painter.origin == old(self).painter.origin,
            final(self).painter.metrics == old(self).painter.metrics,
            final(self).painter.fresh == old(self).painter.fresh,
            final(self).style == old(self).style,
            final(self).state == old(self).state,
    {
        self.painter.draw_text(rect, text, size, align, auto_wrap, color);
    }
}

/// The per-frame output handed back to the host: the does-not-fit flag, the
/// processed event sequence (hardware events with their final consumption
/// flags, interleaved with derived logic events in dispatch order), the
/// recorded draw commands, and whether they were re-recorded this frame.
#[derive(Debug)]
pub struct Frame<E> {
    pub fits: bool,
    pub events: Vec<Event<E>>,
    pub commands: Vec<DrawCmd>,
    pub fresh: bool,
}

/// What one frame leaves behind, at the model level: the new tree, the new
/// data, the output events, the recorder contents, the frame flags and the
/// remembered configuration.
pub struct FrameModel<E> {
    pub w: Widget<E>,
    pub data: Data,
    pub out: Seq<Event<E>>,
    pub cmds: Seq<DrawCmd>,
    pub origin: Vec2,
    pub fits: bool,
    pub fresh_out: bool,
}

/// The numerator of the physical-pixels-per-unit scale: zoom times display
/// scale times the base unit of twenty pixels.
pub open spec fn scale_num(config: UiConfig) -> i64 {
    (config.scale.num * config.display_scale_factor.num * 20) as i64
}

/// The denominator of the physical-pixels-per-unit scale.
pub open spec fn scale_den(config: UiConfig) -> i64 {
    (config.scale.den * config.display_scale_factor.den) as i64
}

/// The event stage of a frame: each incoming event is wrapped in a fresh
/// pod, scaled into logical units, dispatched through the tree, and then
/// appended to the output with its original coordinates and its final
/// consumption flag.
pub open spec fn ev_frames<E>(
    w: Widget<E>,
    req: Request,
    out: Seq<Event<E>>,
    d: Data,
    clip: Option<Seq<char>>,
    evs: Seq<HardwareEvent>,
    den: i64,
    num: i64,
) -> (Widget<E>, Request, Seq<Event<E>>, Data)
    decreases evs.len(),
{
    if evs.len() == 0 {
        (w, req, out, d)
    } else {
        let e = evs[0];
        let pod = EventPod { event: e.spec_scaled(den, num), used: false };
        let (w1, s1, d1) = ev(w, EvState { request: req, pod, out, clip }, d);
        let out1 = s1.out.push(Event::Hardware(EventPod { event: e, used: s1.pod.used }));
        ev_frames(w1, s1.request, out1, d1, clip, evs.drop_first(), den, num)
    }
}

/// The model of one frame: the four passes in order, gated by the dirty
/// flags, over the state the driver holds.
pub open spec fn frame_model<E>(
    ui: Ui<E>,
    config: UiConfig,
    d: Data,
    evs: Seq<HardwareEvent>,
    clip: Option<Seq<char>>,
) -> FrameModel<E> {
    let req0 = if ui.config != Some(config) {
        Request { widget: ui.request.widget, layout: true, paint: true }
    } else {
        ui.request
    };
    let num = scale_num(config);
    let den = scale_den(config);
    let size = Vec2 {
        x: sat64(tdiv(config.size.x as int * den as int, num as int)),
        y: sat64(tdiv(config.size.y as int * den as int, num as int)),
    };
    let (w1, req1, out1, d1) = ev_frames(ui.widget, req0, Seq::empty(), d, clip, evs, den, num);
    let (w2, req2, d2) = up(w1, req1, d1);
    let (w3, d3) = if req2.widget {
        wc(w2, d2)
    } else {
        (w2, d2)
    };
    let (w5, fits) = if req2.layout {
        let (w4, minsz) = inq(w3, ui.painter.metrics, d3);
        let fits1 = !(minsz.x > size.x || minsz.y > size.y);
        let (w5, _used, fits2) = cmp(w4, ui.painter.metrics, d3, size, fits1);
        (w5, fits2)
    } else {
        (w3, true)
    };
    let (cmds, origin, fresh_out) = if req2.paint {
        let p1 = pt(
            w5,
            PtState {
                origin: Vec2 { x: 0i64, y: 0i64 },
                cmds: Seq::empty(),
                state: WidgetState::Cold,
                style: ui.style,
            },
            d3,
        );
        (p1.cmds, p1.origin, true)
    } else {
        (ui.painter.cmds@, ui.painter.origin, ui.painter.fresh)
    };
    FrameModel { w: w5, data: d3, out: out1, cmds, origin, fits, fresh_out }
}

/// Whether one frame's outcome is the model's outcome for the clipboard
/// text `clip`: `ui1`, `d1` and `r` are what the driver, the data and the
/// returned frame hold afterwards.
pub open spec fn frame_matches<E>(
    ui0: Ui<E>,
    config: UiConfig,
    d0: Data,
    evs: Seq<HardwareEvent>,
    clip: Option<Seq<char>>,
    ui1: Ui<E>,
    d1: Data,
    r: Frame<E>,
) -> bool {
    let m = frame_model(ui0, config, d0, evs, clip);
    &&& ui1.widget == m.w
    &&& d1 == m.data
    &&& r.fits == m.fits
    &&& r.events@ == m.out
    &&& r.commands@ == m.cmds
    &&& r.fresh == m.fresh_out
    &&& ui1.config == Some(config)
    &&& ui1.request == (Request { widget: false, layout: false, paint: false })
    &&& ui1.events@ == Seq::<Event<E>>::empty()
    &&& ui1.painter.cmds@ == m.cmds
    &&& ui1.painter.origin == m.origin
    &&& ui1.painter.fresh == false
    &&& ui1.painter.metrics == ui0.painter.metrics
    &&& ui1.style == ui0.style
}

/// The driver: it owns the tree, the invalidation tracker, the paint
/// recorder and the style table, and runs the four passes once per frame.
#[derive(Debug)]
pub struct Ui<E> {
    pub widget: Widget<E>,
    pub config: Option<UiConfig>,
    pub request: Request,
    pub events: Vec<Event<E>>,
    pub painter: Painter,
    pub style: StyleSet,
}

impl<E: Copy> Ui<E> {
    /// A driver over a tree, with the text metrics the layout passes will
    /// consult. Every pass is due on the first frame.
    pub fn new(metrics: TextMetrics, widget: Widget<E>) -> (r: Ui<E>)
        ensures
            r.widget == widget,
            r.config == Option::<UiConfig>::None,
            r.request == (Request { widget: true, layout: true, paint: true }),
            r.events@ == Seq::<Event<E>>::empty(),
            r.painter.metrics == metrics,
            r.painter.origin == (Vec2 { x: 0i64, y: 0i64 }),
            r.painter.cmds@ == Seq::<DrawCmd>::empty(),
            r.painter.fresh == true,
            r.style == crate::style::spec_default_style(),
    {
        Ui {
            widget,
            config: None,
            request: Request { widget: true, layout: true, paint: true },
            events: Vec::new(),
            painter: Painter::new(metrics),
            style: Default::default(),
        }
    }

    /// The invalidation tracker, for asking passes of the next frame.
    pub fn request(&mut self) -> (r: &mut Request)
        ensures
            *r == old(self).request,
            *final(self) == (Ui { request: *final(r), ..*old(self) }),
    {
        &mut self.request
    }

    /// The style table; changes take effect on the next paint pass.
    pub fn style(&mut self) -> (r: &mut StyleSet)
        ensures
            *r == old(self).style,
            *final(self) == (Ui { style: *final(r), ..*old(self) }),
    {
        &mut self.style
    }

    /// Runs one frame: dispatches `events` through the tree, runs the
    /// update pass, and the widget, layout and paint passes their dirty
    /// flags ask for; then resets the tracker. The clipboard is fetched at
    /// most once per frame; whatever it held, the rest of the frame is the
    /// model applied to it.
    #[verifier::rlimit(100)]
    #[verifier::spinoff_prover]
    pub fn frame(&mut self, config: UiConfig, data: &mut Data, events: &Vec<HardwareEvent>) -> (r:
        Frame<E>)
        requires
            config.wf(),
        ensures
            exists|clip: Option<Seq<char>>|
                #[trigger] frame_matches(
                    *old(self),
                    config,
                    *old(data),
                    events@,
                    clip,
                    *final(self),
                    *final(data),
                    r,
                ),
    {
        let ghost ui0 = *self;
        let ghost d0 = *data;
        // Remembered configuration: a change forces a fresh layout.
        let changed = match &self.config {
            Some(c) => !(*c == config),
            None => true,
        };
        if changed {
            self.request.layout();
        }
        self.config = Some(config);
        proof {
            let a: int = config.scale.num as int;
            let b: int = config.display_scale_factor.num as int;
            let c: int = config.scale.den as int;
            let e2: int = config.display_scale_factor.den as int;
            assert(1 <= a * b <= 1000000000000) by (nonlinear_arith)
                requires
                    1 <= a <= 1000000 && 1 <= b <= 1000000,
            ;
            assert(1 <= c * e2 <= 1000000000000) by (nonlinear_arith)
                requires
                    1 <= c <= 1000000 && 1 <= e2 <= 1000000,
            ;
        }
        let num: i64 = (config.scale.num as i64) * (config.display_scale_factor.num as i64) * 20;
        let den: i64 = (config.scale.den as i64) * (config.display_scale_factor.den as i64);
        let size = Vec2 {
            x: crate::geom::muldiv(config.size.x, den, num),
            y: crate::geom::muldiv(config.size.y, den, num),
        };
        // The clipboard is consulted only for a frame that might paste:
        // one with a secondary-button release among its events.
        let mut wants_clip = false;
        let mut j: usize = 0;
        while j < events.len()
            invariant
                j <= events@.len(),
            decreases events@.len() - j,
        {
            match &events[j] {
                HardwareEvent::PointerClicked {
                    button: crate::event::MouseButton::Secondary,
                    pressed: false,
                    ..
                } => {
                    wants_clip = true;
                },
                _ => {},
            }
            j = j + 1;
        }
        let clipboard: Option<Vec<char>> = if wants_clip {
            clipboard_chars()
        } else {
            None
        };
        let ghost clip = clip_view(clipboard);
        let ghost req0 = self.request;
        // The event pass, one incoming event at a time.
        let mut out_events: Vec<Event<E>> = Vec::new();
        self.events.clear();
        let mut ctx = EventCtx {
            request: self.request,
            event: EventPod { event: HardwareEvent::PointerGone, used: false },
            events: out_events,
            clipboard,
        };
        let mut i: usize = 0;
        assert(events@.skip(0) =~= events@);
        while i < events.len()
            invariant
                i <= events@.len(),
                0 < num,
                0 < den,
                ctx.clipboard == clipboard,
                clip == clip_view(clipboard),
                ev_frames(ui0.widget, req0, Seq::<Event<E>>::empty(), d0, clip, events@, den, num)
                    == ev_frames(
                    self.widget,
                    ctx.request,
                    ctx.events@,
                    *data,
                    clip,
                    events@.skip(i as int),
                    den,
                    num,
                ),
                self.config == Some(config),
                self.events@ == Seq::<Event<E>>::empty(),
                self.painter == ui0.painter,
                self.style == ui0.style,
            decreases events@.len() - i,
        {
            let e = events[i];
            assert(events@.skip(i as int)[0] == e);
            assert(events@.skip(i as int).drop_first() =~= events@.skip(i as int + 1));
            ctx.event = EventPod::new(e);
            ctx.event.event.scale(den, num);
            self.widget.event(&mut ctx, data);
            let pod = EventPod { event: e, used: ctx.event.used };
            ctx.events.push(Event::Hardware(pod));
            i = i + 1;
        }
        assert(events@.skip(events@.len() as int) =~= Seq::<HardwareEvent>::empty());
        self.request = ctx.request;
        out_events = ctx.events;
        // The update pass runs every frame.
        let mut uctx = UpdateCtx { request: self.request };
        self.widget.update(&mut uctx, data);
        self.request = uctx.request;
        // The widget pass, when asked for.
        if self.request.widget {
            let mut wctx = WidgetComputeCtx {  };
            self.widget.widget_compute(&mut wctx, data);
        }
        // The two-phase layout, when asked for.
        let mut fits = true;
        if self.request.layout {
            let mut metrics = TextMetrics::empty();
            core::mem::swap(&mut metrics, &mut self.painter.metrics);
            let ictx = LayoutInquireCtx { metrics };
            let min_size = self.widget.layout_inquire(&ictx, data);
            if min_size.x > size.x || min_size.y > size.y {
                fits = false;
            }
            let mut cctx = LayoutComputeCtx { fits, metrics: ictx.metrics };
            let _used = self.widget.layout_compute(&mut cctx, data, size);
            fits = cctx.fits;
            self.painter.metrics = cctx.metrics;
        }
        // The paint pass, when asked for.
        if self.request.paint {
            let mut painter = Painter::new(TextMetrics::empty());
            core::mem::swap(&mut painter, &mut self.painter);
            painter.clear_frame();
            let mut pctx = PaintCtx { painter, style: self.style, state: WidgetState::Cold };
            self.widget.paint(&mut pctx, data);
            self.painter = pctx.painter;
        }
        // Hand the frame out and start the next one clean.
        self.request.reset();
        let commands = self.painter.commands();
        let fresh = self.painter.fresh;
        self.painter.fresh = false;
        let r = Frame { fits, events: out_events, commands, fresh };
        proof {
            assert(self.events@ =~= Seq::<Event<E>>::empty());
            let m = frame_model(ui0, config, d0, events@, clip);
            assert(self.widget == m.w && *data == m.data && r.events@ == m.out && r.commands@
                == m.cmds && r.fits == m.fits && r.fresh == m.fresh_out);
            assert(frame_matches(ui0, config, d0, events@, clip, *self, *data, r));
        }
        r
    }
}

/// Relies on copypasta's ClipboardContext: builds a clipboard handle and
/// reads its text, as characters; what comes back depends on the machine,
/// so nothing is promised of it.
#[verifier::external_body]
fn clipboard_chars() -> (r: Option<Vec<char>>) {
    let mut provider = match copypasta::ClipboardContext::new() {
        Ok(p) => p,
        Err(_) => return None,
    };
    match copypasta::ClipboardProvider::get_contents(&mut provider) {
        Ok(text) => Some(text.chars().collect()),
        Err(_) => None,
    }
}

} // verus!
