//! The leaf widgets: background, label, wrapped text, checkbox, sliders and
//! the single-line text editor.

use vstd::prelude::*;

use crate::geom::{Vec2, MILLI};
use crate::metrics::TextAlign;
use crate::widget::Widget;

verus! {

/// The stock width of widgets that stretch, in milli-units.
pub const DEFAULT_LENGTH: i64 = 10000;

/// A state-colored background behind a child.
#[derive(Debug)]
pub struct Bg<E> {
    pub child: Box<Widget<E>>,
    pub size: Vec2,
}

impl<E> Bg<E> {
    pub open spec fn spec_new(child: Widget<E>) -> Bg<E> {
        Bg { child: Box::new(child), size: Vec2 { x: 0i64, y: 0i64 } }
    }

    pub fn new(child: Widget<E>) -> (r: Bg<E>)
        ensures
            r == Bg::spec_new(child),
    {
        Bg { child: Box::new(child), size: Vec2 { x: 0, y: 0 } }
    }

    pub fn into_widget(self) -> (r: Widget<E>)
        ensures
            r == Widget::Bg(self),
    {
        Widget::Bg(self)
    }
}

/// A single line of text read from the data value.
#[derive(Debug)]
pub struct Label {
    pub text_size: i64,
    pub size: Vec2,
}

impl Label {
    pub open spec fn spec_new() -> Label {
        Label { text_size: MILLI, size: Vec2 { x: 0i64, y: 0i64 } }
    }

    pub fn new() -> (r: Label)
        ensures
            r == Label::spec_new(),
    {
        Label { text_size: MILLI, size: Vec2 { x: 0, y: 0 } }
    }

    pub fn size(self, text_size: i64) -> (r: Label)
        ensures
            r == (Label { text_size, ..self }),
    {
        Label { text_size, ..self }
    }

    pub fn into_widget<E>(self) -> (r: Widget<E>)
        ensures
            r == Widget::<E>::Label(self),
    {
        Widget::Label(self)
    }
}

/// A wrapped block of text read from the data value.
#[derive(Debug)]
pub struct Text {
    pub text_size: i64,
    pub align: TextAlign,
    pub wish_width: i64,
    pub actual_size: Vec2,
}

impl Text {
    pub open spec fn spec_new() -> Text {
        Text {
            text_size: MILLI,
            align: TextAlign::Block,
            wish_width: DEFAULT_LENGTH,
            actual_size: Vec2 { x: 0i64, y: 0i64 },
        }
    }

    pub fn new() -> (r: Text)
        ensures
            r == Text::spec_new(),
    {
        Text {
            text_size: MILLI,
            align: TextAlign::Block,
            wish_width: DEFAULT_LENGTH,
            actual_size: Vec2 { x: 0, y: 0 },
        }
    }

    pub fn size(self, text_size: i64) -> (r: Text)
        ensures
            r == (Text { text_size, ..self }),
    {
        Text { text_size, ..self }
    }

    pub fn align(self, align: TextAlign) -> (r: Text)
        ensures
            r == (Text { align, ..self }),
    {
        Text { align, ..self }
    }

    pub fn default_width(self, wish_width: i64) -> (r: Text)
        ensures
            r == (Text { wish_width, ..self }),
    {
        Text { wish_width, ..self }
    }

    pub fn into_widget<E>(self) -> (r: Widget<E>)
        ensures
            r == Widget::<E>::Text(self),
    {
        Widget::Text(self)
    }
}

/// A checkbox over a boolean data value.
#[derive(Debug)]
pub struct Check {
    pub size: i64,
}

impl Check {
    pub open spec fn spec_new() -> Check {
        Check { size: MILLI }
    }

    pub fn new() -> (r: Check)
        ensures
            r == Check::spec_new(),
    {
        Check { size: MILLI }
    }

    pub fn size(self, size: i64) -> (r: Check)
        ensures
            r == (Check { size }),
    {
        Check { size }
    }

    pub fn into_widget<E>(self) -> (r: Widget<E>)
        ensures
            r == Widget::<E>::Check(self),
    {
        Widget::Check(self)
    }
}

/// A horizontal slider over a fixed-point integer data value.
#[derive(Debug)]
pub struct Slider {
    pub min: i64,
    pub max: i64,
    pub step: i64,
    pub wish_size: Vec2,
    pub actual_size: Vec2,
    pub dragged: bool,
}

impl Slider {
    pub open spec fn spec_new() -> Slider {
        Slider {
            min: 0i64,
            max: MILLI,
            step: 100i64,
            wish_size: Vec2 { x: DEFAULT_LENGTH, y: MILLI },
            actual_size: Vec2 { x: 0i64, y: 0i64 },
            dragged: false,
        }
    }

    pub fn new() -> (r: Slider)
        ensures
            r == Slider::spec_new(),
    {
        Slider {
            min: 0,
            max: MILLI,
            step: 100,
            wish_size: Vec2 { x: DEFAULT_LENGTH, y: MILLI },
            actual_size: Vec2 { x: 0, y: 0 },
            dragged: false,
        }
    }

    pub fn min(self, min: i64) -> (r: Slider)
        ensures
            r == (Slider { min, ..self }),
    {
        Slider { min, ..self }
    }

    pub fn max(self, max: i64) -> (r: Slider)
        ensures
            r == (Slider { max, ..self }),
    {
        Slider { max, ..self }
    }

    pub fn step(self, step: i64) -> (r: Slider)
        ensures
            r == (Slider { step, ..self }),
    {
        Slider { step, ..self }
    }

    pub fn default_width(self, width: i64) -> (r: Slider)
        ensures
            r == (Slider { wish_size: Vec2 { x: width, y: self.wish_size.y }, ..self }),
    {
        Slider { wish_size: Vec2 { x: width, y: self.wish_size.y }, ..self }
    }

    pub fn height(self, height: i64) -> (r: Slider)
        ensures
            r == (Slider { wish_size: Vec2 { x: self.wish_size.x, y: height }, ..self }),
    {
        Slider { wish_size: Vec2 { x: self.wish_size.x, y: height }, ..self }
    }

    pub fn into_widget<E>(self) -> (r: Widget<E>)
        ensures
            r == Widget::<E>::Slider(self),
    {
        Widget::Slider(self)
    }
}

/// A vertical slider over a fixed-point integer data value.
#[derive(Debug)]
pub struct VSlider {
    pub min: i64,
    pub max: i64,
    pub step: i64,
    pub wish_size: Vec2,
    pub actual_size: Vec2,
    pub dragged: bool,
}

impl VSlider {
    pub open spec fn spec_new() -> VSlider {
        VSlider {
            min: 0i64,
            max: MILLI,
            step: 100i64,
            wish_size: Vec2 { x: MILLI, y: DEFAULT_LENGTH },
            actual_size: Vec2 { x: 0i64, y: 0i64 },
            dragged: false,
        }
    }

    pub fn new() -> (r: VSlider)
        ensures
            r == VSlider::spec_new(),
    {
        VSlider {
            min: 0,
            max: MILLI,
            step: 100,
            wish_size: Vec2 { x: MILLI, y: DEFAULT_LENGTH },
            actual_size: Vec2 { x: 0, y: 0 },
            dragged: false,
        }
    }

    pub fn min(self, min: i64) -> (r: VSlider)
        ensures
            r == (VSlider { min, ..self }),
    {
        VSlider { min, ..self }
    }

    pub fn max(self, max: i64) -> (r: VSlider)
        ensures
            r == (VSlider { max, ..self }),
    {
        VSlider { max, ..self }
    }

    pub fn step(self, step: i64) -> (r: VSlider)
        ensures
            r == (VSlider { step, ..self }),
    {
        VSlider { step, ..self }
    }

    pub fn width(self, width: i64) -> (r: VSlider)
        ensures
            r == (VSlider { wish_size: Vec2 { x: width, y: self.wish_size.y }, ..self }),
    {
        VSlider { wish_size: Vec2 { x: width, y: self.wish_size.y }, ..self }
    }

    pub fn default_height(self, height: i64) -> (r: VSlider)
        ensures
            r == (VSlider { wish_size: Vec2 { x: self.wish_size.x, y: height }, ..self }),
    {
        VSlider { wish_size: Vec2 { x: self.wish_size.x, y: height }, ..self }
    }

    pub fn into_widget<E>(self) -> (r: Widget<E>)
        ensures
            r == Widget::<E>::VSlider(self),
    {
        Widget::VSlider(self)
    }
}

/// Which characters a text editor accepts.
#[derive(Clone, Copy, PartialEq, Eq, Structural, Debug)]
pub enum CharFilter {
    /// Every character.
    Any,
    /// The decimal digits.
    Digits,
    /// The unaccented letters.
    Letters,
    /// Digits and unaccented letters.
    DigitsOrLetters,
    /// The printable seven-bit range.
    Ascii,
}

impl CharFilter {
    /// Whether the filter lets `c` through.
    pub open spec fn spec_allows(self, c: char) -> bool {
        match self {
            CharFilter::Any => true,
            CharFilter::Digits => 48 <= c as u32 <= 57,
            CharFilter::Letters => (65 <= c as u32 <= 90) || (97 <= c as u32 <= 122),
            CharFilter::DigitsOrLetters => (48 <= c as u32 <= 57) || (65 <= c as u32 <= 90) || (97
                <= c as u32 <= 122),
            CharFilter::Ascii => 32 <= c as u32 <= 126,
        }
    }

    pub fn allows(self, c: char) -> (r: bool)
        ensures
            r == self.spec_allows(c),
    {
        let u = c as u32;
        match self {
            CharFilter::Any => true,
            CharFilter::Digits => 48 <= u && u <= 57,
            CharFilter::Letters => (65 <= u && u <= 90) || (97 <= u && u <= 122),
            CharFilter::DigitsOrLetters => (48 <= u && u <= 57) || (65 <= u && u <= 90) || (97 <= u
                && u <= 122),
            CharFilter::Ascii => 32 <= u && u <= 126,
        }
    }
}

/// A single-line editor over a text data value.
#[derive(Debug)]
pub struct Edit {
    pub active: bool,
    pub filter: CharFilter,
    pub max_length: Option<usize>,
    pub wish_size: Vec2,
    pub actual_size: Vec2,
}

impl Edit {
    pub open spec fn spec_new() -> Edit {
        Edit {
            active: false,
            filter: CharFilter::Any,
            max_length: None,
            wish_size: Vec2 { x: DEFAULT_LENGTH, y: MILLI },
            actual_size: Vec2 { x: 0i64, y: 0i64 },
        }
    }

    pub fn new() -> (r: Edit)
        ensures
            r == Edit::spec_new(),
    {
        Edit {
            active: false,
            filter: CharFilter::Any,
            max_length: None,
            wish_size: Vec2 { x: DEFAULT_LENGTH, y: MILLI },
            actual_size: Vec2 { x: 0, y: 0 },
        }
    }

    pub fn filter(self, filter: CharFilter) -> (r: Edit)
        ensures
            r == (Edit { filter, ..self }),
    {
        Edit { filter, ..self }
    }

    pub fn max_length(self, length: usize) -> (r: Edit)
        ensures
            r == (Edit { max_length: Some(length), ..self }),
    {
        Edit { max_length: Some(length), ..self }
    }

    pub fn default_width(self, width: i64) -> (r: Edit)
        ensures
            r == (Edit { wish_size: Vec2 { x: width, y: self.wish_size.y }, ..self }),
    {
        Edit { wish_size: Vec2 { x: width, y: self.wish_size.y }, ..self }
    }

    pub fn height(self, height: i64) -> (r: Edit)
        ensures
            r == (Edit { wish_size: Vec2 { x: self.wish_size.x, y: height }, ..self }),
    {
        Edit { wish_size: Vec2 { x: self.wish_size.x, y: height }, ..self }
    }

    pub fn into_widget<E>(self) -> (r: Widget<E>)
        ensures
            r == Widget::<E>::Edit(self),
    {
        Widget::Edit(self)
    }
}

} // verus!
