use vstd::prelude::*;

verus! {

/// An opaque-alpha colour with each channel in thousandths: `1000`
/// stands for a fully saturated channel.
#[derive(Clone, Copy, PartialEq, Eq, Structural, Debug)]
pub struct Color {
    pub r: u16,
    pub g: u16,
    pub b: u16,
}

impl Color {
    /// Every channel stays within one unit (a thousand thousandths).
    pub open spec fn wf(self) -> bool {
        self.r <= 1000 && self.g <= 1000 && self.b <= 1000
    }

    pub open spec fn green_spec() -> Color {
        Color { r: 0, g: 1000, b: 0 }
    }

    pub open spec fn yellow_spec() -> Color {
        Color { r: 1000, g: 1000, b: 0 }
    }

    pub open spec fn red_spec() -> Color {
        Color { r: 1000, g: 0, b: 0 }
    }

    pub open spec fn black_spec() -> Color {
        Color { r: 0, g: 0, b: 0 }
    }

    /// Builds a colour from channel values given in thousandths.
    pub fn rgb_milli(r: u16, g: u16, b: u16) -> (c: Color)
        requires
            r <= 1000,
            g <= 1000,
            b <= 1000,
        ensures
            c == (Color { r, g, b }),
            c.wf(),
    {
        Color { r, g, b }
    }

    pub fn green() -> (c: Color)
        ensures
            c == Color::green_spec(),
    {
        Color { r: 0, g: 1000, b: 0 }
    }

    pub fn yellow() -> (c: Color)
        ensures
            c == Color::yellow_spec(),
    {
        Color { r: 1000, g: 1000, b: 0 }
    }

    pub fn red() -> (c: Color)
        ensures
            c == Color::red_spec(),
    {
        Color { r: 1000, g: 0, b: 0 }
    }

    pub fn black() -> (c: Color)
        ensures
            c == Color::black_spec(),
    {
        Color { r: 0, g: 0, b: 0 }
    }
}

} // verus!
