//! The text-metrics collaborator, modelled as plain data.
//!
//! Layout needs two answers about text: how wide a run of characters is at a
//! given size, and how many lines it occupies when wrapped at a given width.
//! Both are computed here from a table of per-character advance widths that
//! the host supplies, so the whole layout pass stays a pure function of its
//! inputs. Advances are counted in milli-ems; a width at size `s` is the
//! advance sum scaled by `s` and divided by one thousand.

use vstd::prelude::*;

use crate::data::Chars;
use crate::geom::{muldiv, sat64, tdiv, MILLI};

verus! {

/// Horizontal alignment of text inside its rectangle.
#[derive(Clone, Copy, PartialEq, Eq, Structural, Debug)]
pub enum TextAlign {
    Left,
    Center,
    Right,
    Block,
}

/// A height query: the wrapping width in milli-ems, the alignment, and
/// whether lines wrap automatically.
#[derive(Clone, Copy, PartialEq, Eq, Structural, Debug)]
pub struct TextLayout {
    pub width: i64,
    pub align: TextAlign,
    pub auto_wrap: bool,
}

/// Per-character advance widths in milli-ems, with a default for characters
/// the table does not name.
#[derive(Debug)]
pub struct TextMetrics {
    pub default_advance: i64,
    pub table: Vec<(char, i64)>,
}

/// The advance of `c` under the first table entry that names it, or the
/// default when none does.
pub open spec fn advance_in(table: Seq<(char, i64)>, c: char, default: i64) -> i64
    decreases table.len(),
{
    if table.len() == 0 {
        default
    } else if table[0].0 == c {
        table[0].1
    } else {
        advance_in(table.drop_first(), c, default)
    }
}

impl TextMetrics {
    /// The advance width of one character.
    pub open spec fn advance(self, c: char) -> i64 {
        advance_in(self.table@, c, self.default_advance)
    }

    /// The advance sum of a text, accumulated with wrapping addition.
    pub open spec fn units(self, t: Chars) -> i64
        decreases t,
    {
        match t {
            Chars::Nil => 0,
            Chars::Cons(c, tail) => self.advance(c).wrapping_add(self.units(*tail)),
        }
    }

    /// The greedy line count of a text wrapped at `width` milli-ems: a
    /// character opens a new line when it no longer fits and its line is not
    /// empty. Accumulation wraps, as the advance sum does.
    pub open spec fn lines(self, t: Chars, width: i64, acc: i64) -> int
        decreases t,
    {
        match t {
            Chars::Nil => 1,
            Chars::Cons(c, tail) => {
                let a = self.advance(c);
                let grown = acc.wrapping_add(a);
                if grown > width && acc > 0 {
                    1 + self.lines(*tail, width, a)
                } else {
                    self.lines(*tail, width, grown)
                }
            },
        }
    }

    pub fn new(default_advance: i64, table: Vec<(char, i64)>) -> (r: TextMetrics)
        ensures
            r == (TextMetrics { default_advance, table }),
    {
        TextMetrics { default_advance, table }
    }

    /// A metrics value that answers every width query with zero.
    pub fn empty() -> (r: TextMetrics)
        ensures
            r.default_advance == 0,
            r.table@.len() == 0,
    {
        TextMetrics { default_advance: 0, table: Vec::new() }
    }

    fn advance_of(&self, c: char) -> (r: i64)
        ensures
            r == self.advance(c),
    {
        let mut i: usize = 0;
        assert(self.table@.skip(0) =~= self.table@);
        while i < self.table.len()
            invariant
                i <= self.table@.len(),
                advance_in(self.table@, c, self.default_advance) == advance_in(
                    self.table@.skip(i as int),
                    c,
                    self.default_advance,
                ),
            decreases self.table@.len() - i,
        {
            let (tc, adv) = self.table[i];
            assert(self.table@.skip(i as int).drop_first() =~= self.table@.skip(i as int + 1));
            if tc == c {
                return adv;
            }
            i = i + 1;
        }
        self.default_advance
    }

    fn units_of(&self, t: &Chars) -> (r: i64)
        ensures
            r == self.units(*t),
        decreases *t,
    {
        match t {
            Chars::Nil => 0,
            Chars::Cons(c, tail) => self.advance_of(*c).wrapping_add(self.units_of(tail)),
        }
    }

    /// The width of `text` drawn at `size`: the advance sum scaled by
    /// `size` over one thousand, truncated, pressed into `i64`.
    pub fn text_width(&self, text: &Chars, size: i64) -> (r: i64)
        ensures
            r == sat64(tdiv(self.units(*text) as int * size as int, MILLI as int)),
    {
        let u = self.units_of(text);
        muldiv(u, size, MILLI)
    }

    /// The number of lines `text` occupies under `layout`, pressed into
    /// `u32`. Without automatic wrapping the text is one line.
    pub fn text_height(&self, text: &Chars, layout: TextLayout) -> (r: u32)
        ensures
            layout.auto_wrap ==> r as int == if self.lines(*text, layout.width, 0) <= u32::MAX {
                self.lines(*text, layout.width, 0)
            } else {
                u32::MAX as int
            },
            !layout.auto_wrap ==> r == 1,
    {
        if layout.auto_wrap {
            self.lines_of(text, layout.width, 0)
        } else {
            1
        }
    }

    fn lines_of(&self, t: &Chars, width: i64, acc: i64) -> (r: u32)
        ensures
            r as int == if self.lines(*t, width, acc) <= u32::MAX {
                self.lines(*t, width, acc)
            } else {
                u32::MAX as int
            },
        decreases *t,
    {
        match t {
            Chars::Nil => 1,
            Chars::Cons(c, tail) => {
                let a = self.advance_of(*c);
                let grown = acc.wrapping_add(a);
                if grown > width && acc > 0 {
                    let rest = self.lines_of(tail, width, a);
                    if rest < u32::MAX {
                        rest + 1
                    } else {
                        rest
                    }
                } else {
                    self.lines_of(tail, width, grown)
                }
            },
        }
    }
}

} // verus!
