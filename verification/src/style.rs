//! How a run of text looks: its color, font, alignment and wrapping.

use crate::geometry::Vec2;
use crate::scalar::Scalar;
use vstd::prelude::*;

verus! {

/// A color by its red, green, blue and alpha parts, each from `0` to `1`.
#[derive(Clone, Copy, Debug, PartialEq, Eq, Structural)]
pub struct Color {
    pub red: Scalar,
    pub green: Scalar,
    pub blue: Scalar,
    pub alpha: Scalar,
}

/// Names a font in the host's asset system. The library never looks a font
/// up: it hands the name on to the nodes it describes.
#[derive(Clone, Copy, Debug, PartialEq, Eq, Structural)]
pub enum FontHandle {
    /// No font was chosen; the host renders with its fallback font.
    Fallback,
    /// A font that the asset system loaded at run time, by the bits of the
    /// index it gave it.
    Index { bits: u64 },
    /// A font with a lasting identifier.
    Uuid { uuid: u128 },
}

/// The point of a text's bounding box that sits at the node's position.
#[derive(Clone, Copy, Debug, PartialEq, Eq, Structural)]
pub enum Anchor {
    Center,
    BottomLeft,
    BottomCenter,
    BottomRight,
    CenterLeft,
    CenterRight,
    TopLeft,
    TopCenter,
    TopRight,
    /// A point of the host's choosing, in the box's own coordinates.
    Custom(Vec2),
}

/// How the lines of a paragraph are aligned.
#[derive(Clone, Copy, Debug, PartialEq, Eq, Structural)]
pub enum JustifyText {
    Left,
    Center,
    Right,
}

/// Where a line of text may wrap.
#[derive(Clone, Copy, Debug, PartialEq, Eq, Structural)]
pub enum BreakLineOn {
    WordBoundary,
    AnyCharacter,
    NoWrap,
}

/// Whether a node is shown.
#[derive(Clone, Copy, Debug, PartialEq, Eq, Structural)]
pub enum Visibility {
    /// As its parent is.
    Inherited,
    Hidden,
    Visible,
}

/// Font, size and color of a run of text.
#[derive(Clone, Copy, Debug, PartialEq, Eq, Structural)]
pub struct TextStyle {
    pub font: FontHandle,
    pub font_size: Scalar,
    pub color: Color,
}

impl Color {
    /// Opaque white: every part is `1`.
    pub open spec fn spec_white() -> Color {
        Color { red: Scalar::one(), green: Scalar::one(), blue: Scalar::one(), alpha: Scalar::one() }
    }

    /// Opaque black: red, green and blue are `0`, alpha is `1`.
    pub open spec fn spec_black() -> Color {
        Color {
            red: Scalar::zero(),
            green: Scalar::zero(),
            blue: Scalar::zero(),
            alpha: Scalar::one(),
        }
    }

    /// The color with these four parts.
    pub fn rgba(red: Scalar, green: Scalar, blue: Scalar, alpha: Scalar) -> (c: Color)
        ensures
            c == (Color { red, green, blue, alpha }),
    {
        Color { red, green, blue, alpha }
    }

    /// The opaque color with these three parts.
    pub fn rgb(red: Scalar, green: Scalar, blue: Scalar) -> (c: Color)
        ensures
            c == (Color { red, green, blue, alpha: Scalar::one() }),
    {
        Color { red, green, blue, alpha: Scalar::one() }
    }

    /// Opaque white.
    #[verifier::when_used_as_spec(spec_white)]
    pub fn white() -> (c: Color)
        ensures
            c == Color::spec_white(),
    {
        Color { red: Scalar::one(), green: Scalar::one(), blue: Scalar::one(), alpha: Scalar::one() }
    }

    /// Opaque black.
    #[verifier::when_used_as_spec(spec_black)]
    pub fn black() -> (c: Color)
        ensures
            c == Color::spec_black(),
    {
        Color {
            red: Scalar::zero(),
            green: Scalar::zero(),
            blue: Scalar::zero(),
            alpha: Scalar::one(),
        }
    }
}

impl Default for FontHandle {
    fn default() -> (h: FontHandle)
        ensures
            h == FontHandle::Fallback,
    {
        FontHandle::Fallback
    }
}

impl Default for Anchor {
    fn default() -> (a: Anchor)
        ensures
            a == Anchor::Center,
    {
        Anchor::Center
    }
}

impl Default for JustifyText {
    fn default() -> (j: JustifyText)
        ensures
            j == JustifyText::Left,
    {
        JustifyText::Left
    }
}

impl Default for BreakLineOn {
    fn default() -> (b: BreakLineOn)
        ensures
            b == BreakLineOn::WordBoundary,
    {
        BreakLineOn::WordBoundary
    }
}

impl Default for Visibility {
    fn default() -> (v: Visibility)
        ensures
            v == Visibility::Inherited,
    {
        Visibility::Inherited
    }
}

} // verus!
