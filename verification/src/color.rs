use vstd::prelude::*;

verus! {

/// How the components of a colour are scaled.
#[derive(Clone, Copy, Debug, PartialEq, Eq, Structural)]
pub enum ColorMode {
    /// Components go from 0 to 1.
    OneBased,
    /// Components go from 0 to 255.
    FullByte,
    /// Scaled by something else.
    Undefined,
}

impl Default for ColorMode {
    fn default() -> (m: Self)
        ensures
            m == ColorMode::OneBased,
    {
        ColorMode::OneBased
    }
}

/// Four colour components and how they are scaled.
#[derive(Clone, Copy, Debug, PartialEq, Eq, Structural)]
pub struct Color<T> {
    pub r: T,
    pub g: T,
    pub b: T,
    pub a: T,
    pub mode: ColorMode,
}

impl Color<u8> {
    /// A colour from its components, scaled from 0 to 1.
    pub fn rgba(r: u8, g: u8, b: u8, a: u8) -> (c: Self)
        ensures
            c == (Color { r, g, b, a, mode: ColorMode::OneBased }),
    {
        Color { r, g, b, a, mode: ColorMode::default() }
    }

    /// An opaque colour.
    pub fn rgb(r: u8, g: u8, b: u8) -> (c: Self)
        ensures
            c == (Color { r, g, b, a: 1u8, mode: ColorMode::OneBased }),
    {
        Self::rgba(r, g, b, 1)
    }

    pub fn white() -> (c: Self)
        ensures
            c == (Color { r: 1u8, g: 1u8, b: 1u8, a: 1u8, mode: ColorMode::OneBased }),
    {
        Self::rgba(1, 1, 1, 1)
    }

    pub fn black() -> (c: Self)
        ensures
            c == (Color { r: 0u8, g: 0u8, b: 0u8, a: 1u8, mode: ColorMode::OneBased }),
    {
        Self::rgba(0, 0, 0, 1)
    }

    /// Every component times `rhs`; scaled from 0 to 255 when `rhs` is 255.
    pub fn mul(self, rhs: u8) -> (c: Self)
        requires
            self.r * rhs <= 255,
            self.g * rhs <= 255,
            self.b * rhs <= 255,
            self.a * rhs <= 255,
        ensures
            c == (Color {
                r: (self.r * rhs) as u8,
                g: (self.g * rhs) as u8,
                b: (self.b * rhs) as u8,
                a: (self.a * rhs) as u8,
                mode: if rhs == 255 {
                    ColorMode::FullByte
                } else {
                    ColorMode::Undefined
                },
            }),
    {
        let mode = if rhs == 255 {
            ColorMode::FullByte
        } else {
            ColorMode::Undefined
        };
        Color { r: self.r * rhs, g: self.g * rhs, b: self.b * rhs, a: self.a * rhs, mode }
    }

    /// The colour scaled from 0 to 255: a colour scaled from 0 to 1 is multiplied by 255,
    /// any other is left as it is.
    pub fn mul_255_if_supports(self) -> (c: Self)
        requires
            self.mode == ColorMode::OneBased ==> self.r <= 1 && self.g <= 1 && self.b <= 1 && self.a <= 1,
        ensures
            c == spec_mul_255_if_supports(self),
    {
        match self.mode {
            ColorMode::OneBased => self.mul(255),
            ColorMode::FullByte | ColorMode::Undefined => self,
        }
    }
}

/// A colour scaled from 0 to 1 multiplied by 255 and marked as scaled to bytes; any other
/// colour as it is.
pub open spec fn spec_mul_255_if_supports(c: Color<u8>) -> Color<u8> {
    if c.mode == ColorMode::OneBased {
        Color {
            r: (c.r * 255) as u8,
            g: (c.g * 255) as u8,
            b: (c.b * 255) as u8,
            a: (c.a * 255) as u8,
            mode: ColorMode::FullByte,
        }
    } else {
        c
    }
}

/// Scaling to bytes settles: scaling a second time changes nothing.
pub proof fn law_mul_255_settles(c: Color<u8>)
    ensures
        spec_mul_255_if_supports(spec_mul_255_if_supports(c)) == spec_mul_255_if_supports(c),
{
}

/// A colour on the scale from 0 to 1 comes out on the byte scale: 1 becomes 255 and 0
/// stays 0 in each channel, and it is then marked as full-byte; a colour already in bytes,
/// or of undefined scale, is left as it is.
pub proof fn law_mul_255_scales(c: Color<u8>)
    ensures
        c.mode == ColorMode::OneBased ==> spec_mul_255_if_supports(c).mode == ColorMode::FullByte,
        c.mode == ColorMode::OneBased && c.r <= 1 ==> spec_mul_255_if_supports(c).r == 255 * c.r,
        c.mode == ColorMode::OneBased && c.g <= 1 ==> spec_mul_255_if_supports(c).g == 255 * c.g,
        c.mode == ColorMode::OneBased && c.b <= 1 ==> spec_mul_255_if_supports(c).b == 255 * c.b,
        c.mode == ColorMode::OneBased && c.a <= 1 ==> spec_mul_255_if_supports(c).a == 255 * c.a,
        c.mode != ColorMode::OneBased ==> spec_mul_255_if_supports(c) == c,
{
}

} // verus!
