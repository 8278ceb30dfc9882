//! The paint recorder: the paint pass emits draw primitives in node-local
//! coordinates and the recorder stamps them with the ambient offset it
//! tracks. Turning the recorded primitives into vertices is the renderer's
//! business, outside this crate.

use vstd::prelude::*;

use crate::data::Chars;
use crate::geom::{Color, Rect, Vec2};
use crate::metrics::{TextAlign, TextMetrics};

verus! {

/// One recorded draw primitive, in frame coordinates (logical milli-units,
/// ambient offset already applied).
#[derive(Debug)]
pub enum DrawCmd {
    Rect(Rect, Color),
    Rhombus(Rect, Color),
    /// A text run: its rectangle, characters, size, alignment, whether it
    /// wraps, and its color.
    Text(Rect, Chars, i64, TextAlign, bool, Color),
}

impl DrawCmd {
    /// A deep copy, equal to the original.
    pub fn duplicate(&self) -> (r: DrawCmd)
        ensures
            r == *self,
    {
        match self {
            DrawCmd::Rect(rect, color) => DrawCmd::Rect(*rect, *color),
            DrawCmd::Rhombus(rect, color) => DrawCmd::Rhombus(*rect, *color),
            DrawCmd::Text(rect, text, size, align, wrap, color) => DrawCmd::Text(
                *rect,
                text.duplicate(),
                *size,
                *align,
                *wrap,
                *color,
            ),
        }
    }
}

/// The recorder the paint pass writes into.
#[derive(Debug)]
pub struct Painter {
    pub metrics: TextMetrics,
    pub origin: Vec2,
    pub cmds: Vec<DrawCmd>,
    pub fresh: bool,
}

impl Painter {
    /// The rectangle shifted by the current origin.
    pub open spec fn spec_shifted(origin: Vec2, rect: Rect) -> Rect {
        Rect { min: origin.spec_plus(rect.min), max: origin.spec_plus(rect.max) }
    }

    pub fn new(metrics: TextMetrics) -> (r: Painter)
        ensures
            r.metrics == metrics,
            r.origin == (Vec2 { x: 0i64, y: 0i64 }),
            r.cmds@ == Seq::<DrawCmd>::empty(),
            r.fresh == true,
    {
        Painter { metrics, origin: Vec2 { x: 0, y: 0 }, cmds: Vec::new(), fresh: true }
    }

    /// Moves the ambient origin by `offset`.
    pub fn add_offset(&mut self, offset: Vec2)
        ensures
            *final(self) == (Painter { origin: old(self).origin.spec_plus(offset), ..*old(self) }),
    {
        self.origin = self.origin.plus(offset);
    }

    /// Records a rectangle at the current origin.
    pub fn draw_rect(&mut self, rect: Rect, color: Color)
        ensures
            final(self).cmds@ == old(self).cmds@.push(
                DrawCmd::Rect(Painter::spec_shifted(old(self).origin, rect), color),
            ),
            final(self).origin == old(self).origin,
            final(self).metrics == old(self).metrics,
            final(self).fresh == old(self).fresh,
    {
        let shifted = Rect { min: self.origin.plus(rect.min), max: self.origin.plus(rect.max) };
        self.cmds.push(DrawCmd::Rect(shifted, color));
    }

    /// Records a rhombus inscribed in `rect` at the current origin.
    pub fn draw_rhombus(&mut self, rect: Rect, color: Color)
        ensures
            final(self).cmds@ == old(self).cmds@.push(
                DrawCmd::Rhombus(Painter::spec_shifted(old(self).origin, rect), color),
            ),
            final(self).origin == old(self).origin,
            final(self).metrics == old(self).metrics,
            final(self).fresh == old(self).fresh,
    {
        let shifted = Rect { min: self.origin.plus(rect.min), max: self.origin.plus(rect.max) };
        self.cmds.push(DrawCmd::Rhombus(shifted, color));
    }

    /// Records a text run at the current origin.
    pub fn draw_text(
        &mut self,
        rect: Rect,
        text: &Chars,
        size: i64,
        align: TextAlign,
        auto_wrap: bool,
        color: Color,
    )
        ensures
            final(self).cmds@ == old(self).cmds@.push(
                DrawCmd::Text(
                    Painter::spec_shifted(old(self).origin, rect),
                    *text,
                    size,
                    align,
                    auto_wrap,
                    color,
                ),
            ),
            final(self).origin == old(self).origin,
            final(self).metrics == old(self).metrics,
            final(self).fresh == old(self).fresh,
    {
        let shifted = Rect { min: self.origin.plus(rect.min), max: self.origin.plus(rect.max) };
        self.cmds.push(DrawCmd::Text(shifted, text.duplicate(), size, align, auto_wrap, color));
    }

    /// Starts a fresh frame: origin back at zero, commands cleared.
    pub fn clear_frame(&mut self)
        ensures
            final(self).cmds@ == Seq::<DrawCmd>::empty(),
            final(self).origin == (Vec2 { x: 0i64, y: 0i64 }),
            final(self).fresh == true,
            final(self).metrics == old(self).metrics,
    {
        self.origin = Vec2 { x: 0, y: 0 };
        self.cmds.clear();
        self.fresh = true;
    }

    /// A copy of the recorded commands, for handing out of a frame.
    pub fn commands(&self) -> (r: Vec<DrawCmd>)
        ensures
            r@ == self.cmds@,
    {
        let mut out: Vec<DrawCmd> = Vec::new();
        let mut i: usize = 0;
        while i < self.cmds.len()
            invariant
                i <= self.cmds@.len(),
                out@ =~= self.cmds@.take(i as int),
            decreases self.cmds@.len() - i,
        {
            out.push(self.cmds[i].duplicate());
            i = i + 1;
        }
        assert(out@ =~= self.cmds@);
        out
    }
}

} // verus!
