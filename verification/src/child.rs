//! The render nodes that stand for one stroked text in the scene.

use crate::geometry::Vec3;
use crate::offsets::STROKE_COPIES;
use crate::style::{Anchor, BreakLineOn, JustifyText, TextStyle};
use vstd::prelude::*;

verus! {

/// The number of nodes under a synchronized declaration: the text in front
/// and the copies of its outline.
pub const CHILD_COUNT: usize = STROKE_COPIES + 1;

/// One text node under a declaration: the text in front, or one of the
/// copies behind it that together make the outline.
#[derive(Debug, PartialEq, Eq)]
pub struct RenderChild {
    pub text_content: String,
    pub style: TextStyle,
    pub justification: JustifyText,
    pub line_break_policy: BreakLineOn,
    /// Where the node stands relative to the declaration's node. A depth
    /// below zero marks a copy of the outline.
    pub local_offset: Vec3,
    pub anchor: Anchor,
}

/// A render node as a mathematical value: the text as a sequence of
/// characters, every other field as it is.
pub struct RenderChildView {
    pub text_content: Seq<char>,
    pub style: TextStyle,
    pub justification: JustifyText,
    pub line_break_policy: BreakLineOn,
    pub local_offset: Vec3,
    pub anchor: Anchor,
}

impl View for RenderChild {
    type V = RenderChildView;

    open spec fn view(&self) -> RenderChildView {
        RenderChildView {
            text_content: self.text_content@,
            style: self.style,
            justification: self.justification,
            line_break_policy: self.line_break_policy,
            local_offset: self.local_offset,
            anchor: self.anchor,
        }
    }
}

impl RenderChildView {
    /// The node is a copy of the outline: its depth lies below zero. A node
    /// at either zero, above zero or at no depth at all counts as in front.
    pub open spec fn is_background(self) -> bool {
        self.local_offset.z.lt_zero()
    }
}

impl RenderChild {
    /// Whether the node is a copy of the outline rather than the text in front.
    pub fn is_background(&self) -> (b: bool)
        ensures
            b == self@.is_background(),
    {
        self.local_offset.z.is_negative()
    }
}

impl Clone for RenderChild {
    fn clone(&self) -> (copy: RenderChild)
        ensures
            copy == *self,
    {
        RenderChild {
            text_content: self.text_content.clone(),
            style: self.style,
            justification: self.justification,
            line_break_policy: self.line_break_policy,
            local_offset: self.local_offset,
            anchor: self.anchor,
        }
    }
}

/// The nodes of a list as mathematical values, in the list's order.
pub open spec fn views(children: Seq<RenderChild>) -> Seq<RenderChildView> {
    Seq::new(children.len(), |i: int| children[i]@)
}

/// How many nodes of a list are copies of the outline.
pub open spec fn background_count(cs: Seq<RenderChildView>) -> nat
    decreases cs.len(),
{
    if cs.len() == 0 {
        0
    } else {
        background_count(cs.drop_last()) + if cs.last().is_background() {
            1nat
        } else {
            0nat
        }
    }
}

/// The nodes are what a synchronized declaration has: nine of them, eight
/// behind and so one in front.
pub open spec fn consistent(cs: Seq<RenderChildView>) -> bool {
    cs.len() == CHILD_COUNT && background_count(cs) == STROKE_COPIES
}

/// Counts the copies of the outline in a list of nodes.
pub fn count_background(children: &Vec<RenderChild>) -> (count: usize)
    ensures
        count == background_count(views(children@)),
{
    let ghost all = views(children@);
    let mut count: usize = 0;
    let mut i: usize = 0;
    while i < children.len()
        invariant
            i <= children@.len(),
            all == views(children@),
            count <= i,
            count == background_count(all.subrange(0, i as int)),
        decreases children@.len() - i,
    {
        assert(all.subrange(0, i + 1).drop_last() =~= all.subrange(0, i as int));
        if children[i].is_background() {
            count += 1;
        }
        i += 1;
    }
    assert(all.subrange(0, i as int) =~= all);
    count
}

/// Whether the nodes found under a declaration are what a synchronization
/// leaves there. Where they are not, something else has been at them.
pub fn child_set_is_consistent(children: &Vec<RenderChild>) -> (ok: bool)
    ensures
        ok == consistent(views(children@)),
{
    children.len() == CHILD_COUNT && count_background(children) == STROKE_COPIES
}

} // verus!
