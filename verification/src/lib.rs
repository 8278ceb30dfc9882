//! A retained-mode widget engine built from combinators.
//!
//! Application state is rendered through a statically composed tree of small
//! widget nodes that cooperate in four passes per frame: event dispatch,
//! update, two-phase layout, and paint. Coordinates are fixed-point integers,
//! application data is a closed value tree scoped through lenses, and every
//! pass is specified and verified against a functional model of the tree.

pub mod data;
pub mod event;
pub mod geom;
pub mod lens;
pub mod metrics;
pub mod paint;
pub mod style;
pub mod ui;
pub mod widget;

pub use data::{Chars, Data, DataList};
pub use event::{Event, EventPod, HardwareEvent, Key, LogicEvent, MouseButton};
pub use geom::{Color, Rect, Vec2, MILLI};
pub use lens::Lens;
pub use metrics::{TextAlign, TextLayout, TextMetrics};
pub use paint::{DrawCmd, Painter};
pub use style::{ColorSet, StyleSet};
pub use ui::{
    EventCtx, Frame, LayoutComputeCtx, LayoutInquireCtx, PaintCtx, Ratio, Request, Ui, UiConfig,
    UpdateCtx, WidgetComputeCtx,
};
pub use widget::interact::{Action, Response, WidgetState};
pub use widget::{Childs, Widget};
