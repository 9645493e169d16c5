//! Where the eight copies of the outline stand.

use crate::geometry::Vec3;
use crate::scalar::{lemma_named_values, lemma_negation, unit_value, Scalar};
use vstd::prelude::*;

verus! {

/// The number of outline copies behind one text.
pub const STROKE_COPIES: usize = 8;

/// The eight neighbours of the origin on the unit grid, four diagonal and
/// four straight, in the order in which the copies are made.
pub open spec fn unit_offsets() -> Seq<(int, int)> {
    seq![(1, 1), (-1, -1), (1, -1), (-1, 1), (0, 1), (0, -1), (1, 0), (-1, 0)]
}

/// A unit step of `-1`, `0` or `1` taken `width` far: minus the width, the
/// positive zero, or the width.
pub open spec fn scaled(unit: int, width: Scalar) -> Scalar
    recommends
        -1 <= unit <= 1,
{
    if unit == 0 {
        Scalar::zero()
    } else if unit > 0 {
        width
    } else {
        width.neg()
    }
}

/// Where copy `i` of an outline of this width stands: its unit offset taken
/// `width` far, one unit behind the text.
pub open spec fn stroke_offset(width: Scalar, i: int) -> Vec3
    recommends
        0 <= i < STROKE_COPIES,
{
    Vec3 {
        x: scaled(unit_offsets()[i].0, width),
        y: scaled(unit_offsets()[i].1, width),
        z: Scalar::minus_one(),
    }
}

/// Where the eight copies of an outline of this width stand, in order.
pub open spec fn stroke_offsets_of(width: Scalar) -> Seq<Vec3> {
    Seq::new(STROKE_COPIES as nat, |i: int| stroke_offset(width, i))
}

/// The table of unit offsets.
pub fn unit_offset_table() -> (table: Vec<(i8, i8)>)
    ensures
        table@.len() == STROKE_COPIES,
        forall|i: int|
            0 <= i < STROKE_COPIES ==> (#[trigger] table@[i]).0 == unit_offsets()[i].0
                && table@[i].1 == unit_offsets()[i].1,
{
    let mut table: Vec<(i8, i8)> = Vec::new();
    table.push((1, 1));
    table.push((-1, -1));
    table.push((1, -1));
    table.push((-1, 1));
    table.push((0, 1));
    table.push((0, -1));
    table.push((1, 0));
    table.push((-1, 0));
    table
}

/// Takes a unit step `width` far.
pub fn scale(unit: i8, width: Scalar) -> (r: Scalar)
    requires
        -1 <= unit <= 1,
    ensures
        r == scaled(unit as int, width),
{
    if unit == 0 {
        Scalar::zero()
    } else if unit > 0 {
        width
    } else {
        width.neg()
    }
}

/// The places of the eight copies of an outline of this width, in the order
/// of the table.
pub fn stroke_offsets(width: Scalar) -> (offsets: Vec<Vec3>)
    ensures
        offsets@ == stroke_offsets_of(width),
{
    let table = unit_offset_table();
    let mut offsets: Vec<Vec3> = Vec::new();
    let mut i: usize = 0;
    while i < STROKE_COPIES
        invariant
            i <= STROKE_COPIES,
            table@.len() == STROKE_COPIES,
            forall|k: int|
                0 <= k < STROKE_COPIES ==> (#[trigger] table@[k]).0 == unit_offsets()[k].0
                    && table@[k].1 == unit_offsets()[k].1,
            offsets@.len() == i,
            forall|k: int| 0 <= k < i ==> #[trigger] offsets@[k] == stroke_offset(width, k),
        decreases STROKE_COPIES - i,
    {
        let unit = table[i];
        let offset = Vec3::new(scale(unit.0, width), scale(unit.1, width), Scalar::minus_one());
        offsets.push(offset);
        i += 1;
    }
    offsets
}

/// A unit step taken as far as a finite width is a finite number: the step
/// times the width.
pub proof fn lemma_scaled_value(unit: int, width: Scalar)
    requires
        -1 <= unit <= 1,
        width.is_finite(),
    ensures
        scaled(unit, width).is_finite(),
        scaled(unit, width).value() == unit * width.value(),
{
    lemma_negation(width);
    lemma_named_values();
    if unit == 0 {
        assert(unit * width.value() == 0);
    } else if unit == 1 {
        assert(unit * width.value() == width.value());
    } else {
        assert(unit * width.value() == -width.value());
    }
}

/// Every copy stands one unit behind the text, whatever the width: its
/// depth is the number minus one.
pub proof fn lemma_stroke_depth(width: Scalar, i: int)
    ensures
        stroke_offset(width, i).z == Scalar::minus_one(),
        stroke_offset(width, i).z.lt_zero(),
        stroke_offset(width, i).z.value() == -unit_value(),
{
    lemma_named_values();
}

} // verus!
