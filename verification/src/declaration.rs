//! The declaration of a stroked text: what the application writes down and
//! the synchronization keeps the scene in step with.

use crate::geometry::Transform;
use crate::scalar::{unit_value, Scalar};
use crate::style::{Anchor, BreakLineOn, Color, FontHandle, JustifyText, Visibility};
use vstd::arithmetic::power2::{lemma2_to64, lemma_pow2_adds};
use vstd::prelude::*;

verus! {

/// The bits of `32`, the font size of a declaration that names none: a
/// clear sign, the biased exponent 132, an empty fraction.
pub const DEFAULT_FONT_SIZE_BITS: u32 = 0x4200_0000;

/// A text to be drawn with an outline. The application owns it and may
/// change any field at any time; the scene follows at the next
/// synchronization.
#[derive(Debug, PartialEq, Eq)]
pub struct StrokedText {
    /// The text itself.
    pub text: String,
    /// The color of the text in front.
    pub color: Color,
    /// The color of the outline.
    pub stroke_color: Color,
    /// The font of the text and of its outline.
    pub font: FontHandle,
    /// The height of the glyphs, a number above zero.
    pub font_size: Scalar,
    /// The point of the text's box that sits at the node's position.
    pub text_anchor: Anchor,
    /// How the lines of the paragraph are aligned.
    pub justify_text: JustifyText,
    /// Where a line may wrap.
    pub linebreak_behavior: BreakLineOn,
    /// How far the outline reaches, in local units: a number not below zero.
    pub stroke_width: Scalar,
}

/// A declaration as a mathematical value: the text as a sequence of
/// characters, every other field as it is.
pub struct StrokedTextView {
    pub text: Seq<char>,
    pub color: Color,
    pub stroke_color: Color,
    pub font: FontHandle,
    pub font_size: Scalar,
    pub text_anchor: Anchor,
    pub justify_text: JustifyText,
    pub linebreak_behavior: BreakLineOn,
    pub stroke_width: Scalar,
}

impl View for StrokedText {
    type V = StrokedTextView;

    open spec fn view(&self) -> StrokedTextView {
        StrokedTextView {
            text: self.text@,
            color: self.color,
            stroke_color: self.stroke_color,
            font: self.font,
            font_size: self.font_size,
            text_anchor: self.text_anchor,
            justify_text: self.justify_text,
            linebreak_behavior: self.linebreak_behavior,
            stroke_width: self.stroke_width,
        }
    }
}

impl StrokedTextView {
    /// The declaration that says nothing: no text, white on black, the
    /// fallback font at size `32`, centred on its node, aligned to the left,
    /// wrapping at word boundaries, with a stroke one unit wide.
    pub open spec fn initial() -> StrokedTextView {
        StrokedTextView {
            text: Seq::empty(),
            color: Color::white(),
            stroke_color: Color::black(),
            font: FontHandle::Fallback,
            font_size: Scalar { bits: DEFAULT_FONT_SIZE_BITS },
            text_anchor: Anchor::Center,
            justify_text: JustifyText::Left,
            linebreak_behavior: BreakLineOn::WordBoundary,
            stroke_width: Scalar::one(),
        }
    }

    /// The sizes make sense: the font size lies above zero and the stroke
    /// width does not lie below it.
    pub open spec fn well_formed(self) -> bool {
        self.font_size.gt_zero() && self.stroke_width.ge_zero()
    }
}

/// The declaration that says nothing has glyphs of size `32` and a stroke
/// of width `1`.
pub proof fn lemma_initial_sizes()
    ensures
        StrokedTextView::initial().font_size.is_finite(),
        StrokedTextView::initial().font_size.value() == 32 * unit_value(),
        StrokedTextView::initial().stroke_width.is_finite(),
        StrokedTextView::initial().stroke_width.value() == unit_value(),
        StrokedTextView::initial().well_formed(),
{
    lemma2_to64();
    lemma_pow2_adds(23, 131);
    lemma_pow2_adds(5, 149);
    lemma_pow2_adds(23, 126);
}

impl StrokedText {
    /// Whether the sizes make sense: a font size above zero and a stroke
    /// width not below it. Synchronization does not ask for this; it copies
    /// whatever sizes it finds.
    pub fn is_well_formed(&self) -> (ok: bool)
        ensures
            ok == self@.well_formed(),
    {
        self.font_size.is_positive() && self.stroke_width.is_non_negative()
    }
}

impl Default for StrokedText {
    fn default() -> (declaration: StrokedText)
        ensures
            declaration@ == StrokedTextView::initial(),
            declaration@.well_formed(),
    {
        StrokedText {
            text: String::new(),
            color: Color::white(),
            stroke_color: Color::black(),
            font: FontHandle::Fallback,
            font_size: Scalar::from_bits(DEFAULT_FONT_SIZE_BITS),
            text_anchor: Anchor::Center,
            justify_text: JustifyText::Left,
            linebreak_behavior: BreakLineOn::WordBoundary,
            stroke_width: Scalar::one(),
        }
    }
}

impl Clone for StrokedText {
    fn clone(&self) -> (copy: StrokedText)
        ensures
            copy == *self,
    {
        StrokedText {
            text: self.text.clone(),
            color: self.color,
            stroke_color: self.stroke_color,
            font: self.font,
            font_size: self.font_size,
            text_anchor: self.text_anchor,
            justify_text: self.justify_text,
            linebreak_behavior: self.linebreak_behavior,
            stroke_width: self.stroke_width,
        }
    }
}

/// A declaration together with what the host needs to place it in the
/// scene as one new node. The host fills in what it derives from these: the
/// node's place in the world and whether it ends up in view.
#[derive(Debug, PartialEq, Eq)]
pub struct StrokedTextBundle {
    /// The text to be drawn, with its font, colors and sizes.
    pub text: StrokedText,
    /// Where the text stands relative to its parent.
    pub transform: Transform,
    /// Whether the text is shown.
    pub visibility: Visibility,
}

/// A bundle as a mathematical value.
pub struct StrokedTextBundleView {
    pub text: StrokedTextView,
    pub transform: Transform,
    pub visibility: Visibility,
}

impl View for StrokedTextBundle {
    type V = StrokedTextBundleView;

    open spec fn view(&self) -> StrokedTextBundleView {
        StrokedTextBundleView {
            text: self.text@,
            transform: self.transform,
            visibility: self.visibility,
        }
    }
}

impl Default for StrokedTextBundle {
    fn default() -> (bundle: StrokedTextBundle)
        ensures
            bundle@ == (StrokedTextBundleView {
                text: StrokedTextView::initial(),
                transform: Transform::identity(),
                visibility: Visibility::Inherited,
            }),
    {
        StrokedTextBundle {
            text: StrokedText::default(),
            transform: Transform::identity(),
            visibility: Visibility::Inherited,
        }
    }
}

impl StrokedTextBundle {
    /// The bundle of this declaration, placed at its parent's own position
    /// and shown as its parent is.
    pub fn new(stroked_text: StrokedText) -> (bundle: StrokedTextBundle)
        ensures
            bundle@ == (StrokedTextBundleView {
                text: stroked_text@,
                transform: Transform::identity(),
                visibility: Visibility::Inherited,
            }),
    {
        StrokedTextBundle {
            text: stroked_text,
            transform: Transform::identity(),
            visibility: Visibility::Inherited,
        }
    }

    /// This bundle with another text.
    pub fn with_text(self, text: &str) -> (bundle: StrokedTextBundle)
        ensures
            bundle@ == (StrokedTextBundleView {
                text: StrokedTextView { text: text@, ..self@.text },
                ..self@
            }),
    {
        let mut bundle = self;
        bundle.text.text = text.to_owned();
        bundle
    }

    /// This bundle with another font.
    pub fn with_font(self, font: FontHandle) -> (bundle: StrokedTextBundle)
        ensures
            bundle@ == (StrokedTextBundleView {
                text: StrokedTextView { font, ..self@.text },
                ..self@
            }),
    {
        let mut bundle = self;
        bundle.text.font = font;
        bundle
    }

    /// This bundle with another font size.
    pub fn with_font_size(self, font_size: Scalar) -> (bundle: StrokedTextBundle)
        ensures
            bundle@ == (StrokedTextBundleView {
                text: StrokedTextView { font_size, ..self@.text },
                ..self@
            }),
    {
        let mut bundle = self;
        bundle.text.font_size = font_size;
        bundle
    }

    /// This bundle with another color for the text in front.
    pub fn with_color(self, color: Color) -> (bundle: StrokedTextBundle)
        ensures
            bundle@ == (StrokedTextBundleView {
                text: StrokedTextView { color, ..self@.text },
                ..self@
            }),
    {
        let mut bundle = self;
        bundle.text.color = color;
        bundle
    }

    /// This bundle with another color for the outline.
    pub fn with_stroke_color(self, stroke_color: Color) -> (bundle: StrokedTextBundle)
        ensures
            bundle@ == (StrokedTextBundleView {
                text: StrokedTextView { stroke_color, ..self@.text },
                ..self@
            }),
    {
        let mut bundle = self;
        bundle.text.stroke_color = stroke_color;
        bundle
    }

    /// This bundle at another place.
    pub fn with_transform(self, transform: Transform) -> (bundle: StrokedTextBundle)
        ensures
            bundle@ == (StrokedTextBundleView { transform, ..self@ }),
    {
        let mut bundle = self;
        bundle.transform = transform;
        bundle
    }

    /// This bundle with its lines aligned another way.
    pub fn with_justify(self, justify: JustifyText) -> (bundle: StrokedTextBundle)
        ensures
            bundle@ == (StrokedTextBundleView {
                text: StrokedTextView { justify_text: justify, ..self@.text },
                ..self@
            }),
    {
        let mut bundle = self;
        bundle.text.justify_text = justify;
        bundle
    }

    /// This bundle with its lines wrapping another way.
    pub fn with_linebreak(self, linebreak: BreakLineOn) -> (bundle: StrokedTextBundle)
        ensures
            bundle@ == (StrokedTextBundleView {
                text: StrokedTextView { linebreak_behavior: linebreak, ..self@.text },
                ..self@
            }),
    {
        let mut bundle = self;
        bundle.text.linebreak_behavior = linebreak;
        bundle
    }
}

} // verus!
