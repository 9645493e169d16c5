//! What holds of every synchronization, whatever the declaration says.

use crate::child::{background_count, consistent, RenderChildView, CHILD_COUNT};
use crate::declaration::StrokedTextView;
use crate::model::{created, synchronized, updated};
use crate::offsets::{
    lemma_scaled_value, lemma_stroke_depth, stroke_offset, unit_offsets, STROKE_COPIES,
};
use crate::scalar::{lemma_sign_of_value, unit_value, Scalar};
use crate::style::{BreakLineOn, JustifyText};
use vstd::arithmetic::div_mod::lemma_fundamental_div_mod_converse;
use vstd::prelude::*;

verus! {

/// Bringing a node up to date twice is bringing it up to date once.
pub proof fn lemma_update_is_idempotent(d: StrokedTextView, cs: Seq<RenderChildView>)
    ensures
        updated(d, updated(d, cs)) == updated(d, cs),
{
    assert(updated(d, updated(d, cs)) =~= updated(d, cs));
}

/// Synchronizing a declaration again, with the nodes that the first
/// synchronization left and nothing changed in between, asks for those very
/// nodes: the scene stays as it is.
///
/// Where the first synchronization made the nodes, this holds of a
/// declaration that aligns to the left and wraps at word boundaries. The
/// copies of an outline are made with these two settings and take the
/// declaration's at their first update.
pub proof fn lemma_second_synchronization_changes_nothing(
    d: StrokedTextView,
    existing: Option<Seq<RenderChildView>>,
)
    requires
        existing is None ==> d.justify_text == JustifyText::Left && d.linebreak_behavior
            == BreakLineOn::WordBoundary,
    ensures
        ({
            let after = synchronized(d, existing).children();
            synchronized(d, Some(after)).changes_nothing(after)
        }),
{
    let after = synchronized(d, existing).children();
    assert(updated(d, after) =~= after);
}

/// A list whose first node is in front and whose other nodes are behind has
/// one node fewer behind than it has nodes.
proof fn lemma_count_behind_first(cs: Seq<RenderChildView>)
    requires
        cs.len() >= 1,
        !cs[0].is_background(),
        forall|i: int| 1 <= i < cs.len() ==> (#[trigger] cs[i]).is_background(),
    ensures
        background_count(cs) == cs.len() - 1,
    decreases cs.len(),
{
    if cs.len() == 1 {
        assert(background_count(cs.drop_last()) == 0);
    } else {
        lemma_count_behind_first(cs.drop_last());
    }
}

/// A new set of nodes has nine members: the first in front, at depth zero,
/// and the eight others behind it.
pub proof fn lemma_created_cardinality(d: StrokedTextView)
    ensures
        created(d).len() == CHILD_COUNT,
        !created(d)[0].is_background(),
        created(d)[0].local_offset.z == Scalar::zero(),
        forall|i: int| 1 <= i < CHILD_COUNT ==> (#[trigger] created(d)[i]).is_background(),
        consistent(created(d)),
{
    lemma_count_behind_first(created(d));
}

/// An update keeps every node on its side of the text, so it keeps the
/// number of nodes and the number of those behind.
pub proof fn lemma_update_keeps_cardinality(d: StrokedTextView, cs: Seq<RenderChildView>)
    ensures
        updated(d, cs).len() == cs.len(),
        forall|i: int|
            0 <= i < cs.len() ==> (#[trigger] updated(d, cs)[i]).is_background()
                == cs[i].is_background(),
        background_count(updated(d, cs)) == background_count(cs),
        consistent(updated(d, cs)) == consistent(cs),
    decreases cs.len(),
{
    if cs.len() > 0 {
        lemma_update_keeps_cardinality(d, cs.drop_last());
        assert(updated(d, cs).drop_last() =~= updated(d, cs.drop_last()));
    }
}

/// Synchronization keeps a declaration at nine nodes, one in front and
/// eight behind: it makes such a set where there is none, and leaves such a
/// set such a set.
pub proof fn lemma_synchronize_keeps_cardinality(
    d: StrokedTextView,
    existing: Option<Seq<RenderChildView>>,
)
    requires
        existing matches Some(cs) ==> consistent(cs),
    ensures
        consistent(synchronized(d, existing).children()),
{
    match existing {
        None => lemma_created_cardinality(d),
        Some(cs) => lemma_update_keeps_cardinality(d, cs),
    }
}

/// After a synchronization every node behind has the stroke color and
/// every node in front the fill color.
pub proof fn lemma_color_routing(
    d: StrokedTextView,
    existing: Option<Seq<RenderChildView>>,
    i: int,
)
    requires
        0 <= i < synchronized(d, existing).children().len(),
    ensures
        ({
            let child = synchronized(d, existing).children()[i];
            child.style.color == if child.is_background() {
                d.stroke_color
            } else {
                d.color
            }
        }),
{
}

/// The copies of a new outline stand where the table of unit offsets says,
/// taken as far as the stroke is wide and one unit behind the text. Nothing
/// else in the declaration moves them.
///
/// In numbers: a finite stroke width gives offsets that are the table's
/// entries times the width, and for a width above zero the offsets divided
/// by the width are the table's entries themselves.
pub proof fn lemma_offsets_follow_table(d: StrokedTextView, i: int)
    requires
        0 <= i < STROKE_COPIES,
    ensures
        unit_offsets() == seq![
            (1int, 1int),
            (-1int, -1int),
            (1int, -1int),
            (-1int, 1int),
            (0int, 1int),
            (0int, -1int),
            (1int, 0int),
            (-1int, 0int),
        ],
        created(d)[i + 1].local_offset == stroke_offset(d.stroke_width, i),
        created(d)[i + 1].local_offset.z == Scalar::minus_one(),
        created(d)[i + 1].local_offset.z.value() == -unit_value(),
        d.stroke_width.is_finite() ==> {
            let offset = created(d)[i + 1].local_offset;
            &&& offset.x.is_finite()
            &&& offset.y.is_finite()
            &&& offset.x.value() == unit_offsets()[i].0 * d.stroke_width.value()
            &&& offset.y.value() == unit_offsets()[i].1 * d.stroke_width.value()
        },
        d.stroke_width.is_finite() && d.stroke_width.gt_zero() ==> {
            let offset = created(d)[i + 1].local_offset;
            &&& offset.x.value() / d.stroke_width.value() == unit_offsets()[i].0
            &&& offset.y.value() / d.stroke_width.value() == unit_offsets()[i].1
        },
{
    let width = d.stroke_width;
    let unit = unit_offsets()[i];
    lemma_stroke_depth(width, i);
    if width.is_finite() {
        lemma_scaled_value(unit.0, width);
        lemma_scaled_value(unit.1, width);
        if width.gt_zero() {
            lemma_sign_of_value(width);
            lemma_unit_quotient(unit.0, width.value());
            lemma_unit_quotient(unit.1, width.value());
        }
    }
}

/// A unit step times a number above zero, divided by that number, is the
/// unit step.
proof fn lemma_unit_quotient(unit: int, v: int)
    requires
        -1 <= unit <= 1,
        v > 0,
    ensures
        (unit * v) / v == unit,
{
    lemma_fundamental_div_mod_converse(unit * v, v, unit, 0);
}

} // verus!
