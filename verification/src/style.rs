//! The style table: named colors per interaction state, settable between
//! frames and read by the paint pass.

use vstd::prelude::*;

use crate::geom::Color;
use crate::widget::interact::WidgetState;

verus! {

/// One color per interaction state.
#[derive(Clone, Copy, PartialEq, Eq, Structural, Debug)]
pub struct ColorSet {
    pub cold: Color,
    pub hover: Color,
    pub hot: Color,
}

impl ColorSet {
    /// The color for one interaction state.
    pub open spec fn spec_get(self, state: WidgetState) -> Color {
        match state {
            WidgetState::Cold => self.cold,
            WidgetState::Hover => self.hover,
            WidgetState::Hot => self.hot,
        }
    }

    pub fn get(&self, state: WidgetState) -> (r: Color)
        ensures
            r == self.spec_get(state),
    {
        match state {
            WidgetState::Cold => self.cold,
            WidgetState::Hover => self.hover,
            WidgetState::Hot => self.hot,
        }
    }
}

/// The colors the stock widgets paint with.
#[derive(Clone, Copy, PartialEq, Eq, Structural, Debug)]
pub struct StyleSet {
    pub bg: ColorSet,
    pub top: Color,
    pub text: Color,
    pub data: ColorSet,
}

/// The stock style: grey backgrounds, dark data wells, black text.
pub open spec fn spec_default_style() -> StyleSet {
    StyleSet {
        bg: ColorSet {
            cold: Color { r: 200, g: 200, b: 200, a: 255 },
            hover: Color { r: 150, g: 150, b: 250, a: 255 },
            hot: Color { r: 250, g: 150, b: 150, a: 255 },
        },
        top: Color { r: 170, g: 170, b: 170, a: 255 },
        text: Color { r: 0, g: 0, b: 0, a: 255 },
        data: ColorSet {
            cold: Color { r: 100, g: 100, b: 100, a: 255 },
            hover: Color { r: 50, g: 150, b: 50, a: 255 },
            hot: Color { r: 250, g: 200, b: 200, a: 255 },
        },
    }
}

impl Default for StyleSet {
    fn default() -> (r: StyleSet)
        ensures
            r == spec_default_style(),
    {
        StyleSet {
            bg: ColorSet {
                cold: Color::from_discrete_srgb(200, 200, 200, 255),
                hover: Color::from_discrete_srgb(150, 150, 250, 255),
                hot: Color::from_discrete_srgb(250, 150, 150, 255),
            },
            top: Color::from_discrete_srgb(170, 170, 170, 255),
            text: Color::from_discrete_srgb(0, 0, 0, 255),
            data: ColorSet {
                cold: Color::from_discrete_srgb(100, 100, 100, 255),
                hover: Color::from_discrete_srgb(50, 150, 50, 255),
                hot: Color::from_discrete_srgb(250, 200, 200, 255),
            },
        }
    }
}

} // verus!
