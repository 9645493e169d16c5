//! What synchronization means, on mathematical values.
//!
//! A declaration without nodes gets nine of them: the text in front and
//! eight copies behind it. A declaration that has nodes gets them brought up
//! to date in place. Nothing else ever happens to a scene.

use crate::child::{consistent, RenderChildView, CHILD_COUNT};
use crate::declaration::StrokedTextView;
use crate::geometry::Vec3;
use crate::offsets::stroke_offset;
use crate::style::{BreakLineOn, JustifyText, TextStyle};
use vstd::prelude::*;

verus! {

/// The node in front: the declaration's text in its fill color, at the
/// declaration's own position, with all of its style.
pub open spec fn foreground(d: StrokedTextView) -> RenderChildView {
    RenderChildView {
        text_content: d.text,
        style: TextStyle { font: d.font, font_size: d.font_size, color: d.color },
        justification: d.justify_text,
        line_break_policy: d.linebreak_behavior,
        local_offset: Vec3::zero(),
        anchor: d.text_anchor,
    }
}

/// A copy of the outline at `offset`: the declaration's text in its stroke
/// color, with its font, size and anchor. Alignment and wrapping start out
/// as the host's defaults; the first update brings the declaration's.
pub open spec fn stroke_copy(d: StrokedTextView, offset: Vec3) -> RenderChildView {
    RenderChildView {
        text_content: d.text,
        style: TextStyle { font: d.font, font_size: d.font_size, color: d.stroke_color },
        justification: JustifyText::Left,
        line_break_policy: BreakLineOn::WordBoundary,
        local_offset: offset,
        anchor: d.text_anchor,
    }
}

/// The nine nodes made for a declaration: the text first, then the copies
/// of the outline in the order of the offset table.
pub open spec fn created(d: StrokedTextView) -> Seq<RenderChildView> {
    Seq::new(
        CHILD_COUNT as nat,
        |i: int|
            if i == 0 {
                foreground(d)
            } else {
                stroke_copy(d, stroke_offset(d.stroke_width, i - 1))
            },
    )
}

/// A node brought up to date: text, size, alignment and wrapping are the
/// declaration's; the color is the stroke color behind, the fill color in
/// front. Offset, font and anchor stay, whatever the declaration says of
/// them now.
pub open spec fn updated_child(d: StrokedTextView, c: RenderChildView) -> RenderChildView {
    RenderChildView {
        text_content: d.text,
        style: TextStyle {
            font: c.style.font,
            font_size: d.font_size,
            color: if c.is_background() {
                d.stroke_color
            } else {
                d.color
            },
        },
        justification: d.justify_text,
        line_break_policy: d.linebreak_behavior,
        local_offset: c.local_offset,
        anchor: c.anchor,
    }
}

/// Every node of a list brought up to date, each in its place.
pub open spec fn updated(d: StrokedTextView, cs: Seq<RenderChildView>) -> Seq<RenderChildView> {
    Seq::new(cs.len(), |i: int| updated_child(d, cs[i]))
}

/// What a synchronization asks of the scene, as a mathematical value.
pub enum SceneMutationView {
    Spawn(Seq<RenderChildView>),
    Update { children: Seq<RenderChildView>, intact: bool },
}

impl SceneMutationView {
    /// The nodes under the declaration once the mutation is done.
    pub open spec fn children(self) -> Seq<RenderChildView> {
        match self {
            SceneMutationView::Spawn(children) => children,
            SceneMutationView::Update { children, .. } => children,
        }
    }

    /// The mutation leaves a scene with these nodes as it is.
    pub open spec fn changes_nothing(self, existing: Seq<RenderChildView>) -> bool {
        self is Update && self.children() == existing
    }
}

/// What synchronizing a declaration with its nodes asks for: the nine new
/// nodes where it has none, else every node it has, brought up to date, and
/// word of whether they were the nine expected.
pub open spec fn synchronized(
    d: StrokedTextView,
    existing: Option<Seq<RenderChildView>>,
) -> SceneMutationView {
    match existing {
        None => SceneMutationView::Spawn(created(d)),
        Some(children) => SceneMutationView::Update {
            children: updated(d, children),
            intact: consistent(children),
        },
    }
}

/// One declaration as the host hands it over at a tick, as a mathematical
/// value.
pub struct TextNodeView {
    pub changed: bool,
    pub declaration: StrokedTextView,
    pub children: Option<Seq<RenderChildView>>,
}

/// What a tick asks of the scene for one declaration: nothing where the
/// declaration did not change, else its synchronization.
pub open spec fn refreshed(node: TextNodeView) -> Option<SceneMutationView> {
    if node.changed {
        Some(synchronized(node.declaration, node.children))
    } else {
        None
    }
}

} // verus!
