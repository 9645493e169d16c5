//! The synchronization of a scene with its declarations.

use crate::child::{child_set_is_consistent, views, RenderChild, RenderChildView, CHILD_COUNT};
use crate::declaration::StrokedText;
use crate::geometry::Vec3;
use crate::model::{
    created, foreground, refreshed, stroke_copy, synchronized, updated, updated_child,
    SceneMutationView, TextNodeView,
};
use crate::offsets::{stroke_offset, stroke_offsets, STROKE_COPIES};
use crate::style::{BreakLineOn, JustifyText, TextStyle};
use vstd::prelude::*;

verus! {

/// What a synchronization asks of the scene.
#[derive(Debug, PartialEq, Eq)]
pub enum SceneMutation {
    /// The declaration had no nodes. These are to be added under it, in
    /// this order and all at once.
    Spawn(Vec<RenderChild>),
    /// The declaration had nodes. `children` is their new state, node for
    /// node; none is added, removed or moved.
    Update {
        children: Vec<RenderChild>,
        /// Whether the nodes found were the nine that a synchronization
        /// leaves. Where they were not, something else has been at the
        /// declaration's nodes, and the host should report it.
        intact: bool,
    },
}

impl View for SceneMutation {
    type V = SceneMutationView;

    open spec fn view(&self) -> SceneMutationView {
        match *self {
            SceneMutation::Spawn(children) => SceneMutationView::Spawn(views(children@)),
            SceneMutation::Update { children, intact } => SceneMutationView::Update {
                children: views(children@),
                intact,
            },
        }
    }
}

/// One declaration as the host hands it over at a tick.
#[derive(Debug, PartialEq, Eq)]
pub struct TextNode {
    /// Whether the declaration was made or changed since the last tick.
    pub changed: bool,
    pub declaration: StrokedText,
    /// The nodes under the declaration, or `None` where it has none yet.
    pub children: Option<Vec<RenderChild>>,
}

impl View for TextNode {
    type V = TextNodeView;

    open spec fn view(&self) -> TextNodeView {
        TextNodeView {
            changed: self.changed,
            declaration: self.declaration@,
            children: existing_views(self.children),
        }
    }
}

/// The nodes that a declaration has, as mathematical values.
pub open spec fn existing_views(
    existing: Option<Vec<RenderChild>>,
) -> Option<Seq<RenderChildView>> {
    match existing {
        None => None,
        Some(children) => Some(views(children@)),
    }
}

/// What a tick asked for one declaration, as a mathematical value.
pub open spec fn mutation_view(mutation: Option<SceneMutation>) -> Option<SceneMutationView> {
    match mutation {
        None => None,
        Some(m) => Some(m@),
    }
}

impl SceneMutation {
    /// The nodes under the declaration once the mutation is done.
    pub fn children(&self) -> (children: &Vec<RenderChild>)
        ensures
            views(children@) == self@.children(),
            children@.len() == self@.children().len(),
            forall|i: int|
                0 <= i < children@.len() ==> (#[trigger] children@[i])@ == self@.children()[i],
    {
        match self {
            SceneMutation::Spawn(children) => children,
            SceneMutation::Update { children, .. } => children,
        }
    }

    /// Whether the mutation adds nodes rather than changing them.
    pub fn is_spawn(&self) -> (b: bool)
        ensures
            b == (self@ is Spawn),
    {
        match self {
            SceneMutation::Spawn(_) => true,
            SceneMutation::Update { .. } => false,
        }
    }
}

/// Makes the node in front.
pub fn foreground_child(declaration: &StrokedText) -> (child: RenderChild)
    ensures
        child@ == foreground(declaration@),
{
    RenderChild {
        text_content: declaration.text.clone(),
        style: TextStyle {
            font: declaration.font,
            font_size: declaration.font_size,
            color: declaration.color,
        },
        justification: declaration.justify_text,
        line_break_policy: declaration.linebreak_behavior,
        local_offset: Vec3::zero(),
        anchor: declaration.text_anchor,
    }
}

/// Makes one copy of the outline, at `offset`.
pub fn stroke_child(declaration: &StrokedText, offset: Vec3) -> (child: RenderChild)
    ensures
        child@ == stroke_copy(declaration@, offset),
{
    RenderChild {
        text_content: declaration.text.clone(),
        style: TextStyle {
            font: declaration.font,
            font_size: declaration.font_size,
            color: declaration.stroke_color,
        },
        justification: JustifyText::Left,
        line_break_policy: BreakLineOn::WordBoundary,
        local_offset: offset,
        anchor: declaration.text_anchor,
    }
}

/// Makes the nine nodes of a declaration that has none: the text, then the
/// eight copies of its outline in the order of the offset table.
pub fn create_children(declaration: &StrokedText) -> (children: Vec<RenderChild>)
    ensures
        views(children@) == created(declaration@),
        children@.len() == CHILD_COUNT,
        forall|i: int|
            0 <= i < CHILD_COUNT ==> (#[trigger] children@[i])@ == created(declaration@)[i],
{
    let offsets = stroke_offsets(declaration.stroke_width);
    let mut children: Vec<RenderChild> = Vec::new();
    children.push(foreground_child(declaration));
    let mut i: usize = 0;
    while i < STROKE_COPIES
        invariant
            i <= STROKE_COPIES,
            offsets@.len() == STROKE_COPIES,
            forall|k: int|
                0 <= k < STROKE_COPIES ==> #[trigger] offsets@[k] == stroke_offset(
                    declaration.stroke_width,
                    k,
                ),
            children@.len() == i + 1,
            forall|k: int| 0 <= k <= i ==> (#[trigger] children@[k])@ == created(declaration@)[k],
        decreases STROKE_COPIES - i,
    {
        children.push(stroke_child(declaration, offsets[i]));
        i += 1;
    }
    assert(views(children@) =~= created(declaration@));
    children
}

/// Brings one node up to date with its declaration: its text, size,
/// alignment and wrapping, and the color that belongs to its side of the
/// text. Its offset, font and anchor are left as they are.
pub fn update_child(declaration: &StrokedText, child: &mut RenderChild)
    ensures
        final(child)@ == updated_child(declaration@, old(child)@),
{
    child.text_content = declaration.text.clone();
    child.style.font_size = declaration.font_size;
    child.justification = declaration.justify_text;
    child.line_break_policy = declaration.linebreak_behavior;
    if child.local_offset.z.is_negative() {
        child.style.color = declaration.stroke_color;
    } else {
        child.style.color = declaration.color;
    }
}

/// Brings every node of a list up to date with the declaration, in place
/// and in order. No node is added, taken away or moved.
pub fn update_children(declaration: &StrokedText, children: &mut Vec<RenderChild>)
    ensures
        views(final(children)@) == updated(declaration@, views(old(children)@)),
        final(children)@.len() == old(children)@.len(),
        forall|i: int|
            0 <= i < old(children)@.len() ==> (#[trigger] final(children)@[i])@ == updated_child(
                declaration@,
                old(children)@[i]@,
            ),
{
    let n: usize = children.len();
    let mut i: usize = 0;
    while i < n
        invariant
            i <= n,
            children@.len() == n,
            old(children)@.len() == n,
            forall|k: int|
                0 <= k < i ==> (#[trigger] children@[k])@ == updated_child(
                    declaration@,
                    old(children)@[k]@,
                ),
            forall|k: int| i <= k < n ==> #[trigger] children@[k] == old(children)@[k],
        decreases n - i,
    {
        update_child(declaration, &mut children[i]);
        i += 1;
    }
    assert(views(children@) =~= updated(declaration@, views(old(children)@)));
}

/// Synchronizes one declaration with the nodes it has.
///
/// A declaration without nodes gets its nine. A list of nodes is taken as
/// it is: whatever its length and whatever stands in it, each node is
/// updated and none is made or removed. A list that is not what a
/// synchronization leaves is reported as not intact.
pub fn synchronize(
    declaration: &StrokedText,
    existing_children: Option<Vec<RenderChild>>,
) -> (mutation: SceneMutation)
    ensures
        mutation@ == synchronized(declaration@, existing_views(existing_children)),
{
    match existing_children {
        None => SceneMutation::Spawn(create_children(declaration)),
        Some(children) => {
            let mut children = children;
            let intact = child_set_is_consistent(&children);
            update_children(declaration, &mut children);
            SceneMutation::Update { children, intact }
        },
    }
}

/// Synchronizes one declaration if it changed since the last tick. A
/// declaration that did not change asks nothing of the scene.
pub fn refresh_node(node: TextNode) -> (mutation: Option<SceneMutation>)
    ensures
        mutation_view(mutation) == refreshed(node@),
{
    if node.changed {
        Some(synchronize(&node.declaration, node.children))
    } else {
        None
    }
}

/// One tick of the scene: every declaration that changed is synchronized,
/// every other is left alone. The answer has one entry for each node, in the
/// order of the nodes.
pub fn refresh_text_system(nodes: Vec<TextNode>) -> (mutations: Vec<Option<SceneMutation>>)
    ensures
        mutations@.len() == nodes@.len(),
        forall|i: int|
            0 <= i < nodes@.len() ==> mutation_view(#[trigger] mutations@[i]) == refreshed(
                nodes@[i]@,
            ),
{
    let mut mutations: Vec<Option<SceneMutation>> = Vec::new();
    for node in it: nodes
        invariant
            mutations@.len() == it.index(),
            forall|i: int|
                0 <= i < it.index() ==> mutation_view(#[trigger] mutations@[i]) == refreshed(
                    it.seq()[i]@,
                ),
    {
        mutations.push(refresh_node(node));
    }
    mutations
}

} // verus!
