//! Conversion of a sample block into a polyline across a drawing area.
//!
//! Sample `i` of `n` lands at `x = i * width / n`; its amplitude `a` lands at
//! `y = height / 2 - a * height / 2`, so that silence sits on the centre line,
//! amplitude `1.0` on the top edge and `-1.0` on the bottom edge. Both
//! coordinates are rounded down to whole units of the drawing area.

use vstd::prelude::*;
use crate::sample::{SampleBlock, FULL_SCALE};

verus! {

/// Extent of the drawing area, in whole units.
#[derive(Clone, Copy, Debug, PartialEq, Eq, Structural)]
pub struct Bounds {
    pub width: u32,
    pub height: u32,
}

/// A position in the drawing area; `y` grows downwards.
#[derive(Clone, Copy, Debug, PartialEq, Eq, Structural)]
pub struct Point {
    pub x: i64,
    pub y: i64,
}

/// One step of a path: lift the pen to a point, or draw a segment to it.
#[derive(Clone, Copy, Debug, PartialEq, Eq, Structural)]
pub enum PathStep {
    MoveTo(Point),
    LineTo(Point),
}

impl PathStep {
    /// The point that the step ends on.
    pub open spec fn target(self) -> Point {
        match self {
            PathStep::MoveTo(p) => p,
            PathStep::LineTo(p) => p,
        }
    }

    /// The point that the step ends on.
    pub fn point(&self) -> (p: Point)
        ensures
            p == self.target(),
    {
        match self {
            PathStep::MoveTo(p) => *p,
            PathStep::LineTo(p) => *p,
        }
    }

    /// Whether the step draws a segment.
    pub fn is_line(&self) -> (b: bool)
        ensures
            b == (*self is LineTo),
    {
        match self {
            PathStep::MoveTo(_) => false,
            PathStep::LineTo(_) => true,
        }
    }
}

/// A connected path through the points of one sample block.
#[derive(Debug, PartialEq, Eq)]
pub struct Polyline {
    pub steps: Vec<PathStep>,
}

impl View for Polyline {
    type V = Seq<PathStep>;

    open spec fn view(&self) -> Seq<PathStep> {
        self.steps@
    }
}

/// Horizontal position of sample `index` out of `count`, across `width`.
pub open spec fn x_at(index: int, count: int, width: int) -> int {
    (index * width) / count
}

/// Vertical position of a sample value within `height`: the affine map that
/// sends `FULL_SCALE` to `0` and `-FULL_SCALE` to `height`, rounded down.
pub open spec fn y_at(sample: int, height: int) -> int {
    (height * (FULL_SCALE - sample)) / (2 * FULL_SCALE)
}

/// `path` is the polyline of `samples` within `bounds`: one step per sample,
/// in order, each ending on the sample's position; the first step lifts the
/// pen and every later one draws a segment.
pub open spec fn traces(path: Seq<PathStep>, samples: Seq<i32>, bounds: Bounds) -> bool {
    &&& path.len() == samples.len()
    &&& forall|i: int|
        0 <= i < path.len() ==> {
            &&& (#[trigger] path[i]).target().x == x_at(i, samples.len() as int, bounds.width as int)
            &&& path[i].target().y == y_at(samples[i] as int, bounds.height as int)
            &&& (path[i] is MoveTo) == (i == 0)
        }
}

/// Number of segments that a path draws.
pub open spec fn line_count(path: Seq<PathStep>) -> nat
    decreases path.len(),
{
    if path.len() == 0 {
        0
    } else {
        line_count(path.drop_last()) + if path.last() is LineTo {
            1nat
        } else {
            0nat
        }
    }
}

/// Number of segments of a polyline through `points` points.
pub open spec fn segments_through(points: nat) -> nat {
    if points == 0 {
        0
    } else {
        (points - 1) as nat
    }
}

proof fn lemma_product_bound(a: int, b: int, a_max: int, b_max: int)
    by (nonlinear_arith)
    requires
        0 <= a <= a_max,
        0 <= b <= b_max,
    ensures
        0 <= a * b <= a_max * b_max,
{
}

proof fn lemma_scaled_index_below_width(index: int, count: int, width: int)
    by (nonlinear_arith)
    requires
        0 <= index < count,
        0 <= width,
    ensures
        0 <= (index * width) / count <= width,
        width > 0 ==> (index * width) / count < width,
{
}

proof fn lemma_product_of_negated(a: int, b: int)
    by (nonlinear_arith)
    ensures
        a * (-b) == -(a * b),
{
}

proof fn lemma_product_monotonic(h: int, a: int, b: int)
    by (nonlinear_arith)
    requires
        0 <= h,
        a <= b,
    ensures
        h * a <= h * b,
{
}

proof fn lemma_product_distributes(h: int, a: int, b: int)
    by (nonlinear_arith)
    ensures
        h * (a + b) == h * a + h * b,
        h * (a - b) == h * a - h * b,
{
}

proof fn lemma_y_at_unfolded(sample: int, height: int)
    ensures
        y_at(sample, height) == (height * (32768 - sample)) / 65536,
{
}

/// Every sample of a block lands inside the width of the drawing area.
pub proof fn x_stays_within_width(index: int, count: int, width: int)
    requires
        0 <= index < count,
        0 <= width,
    ensures
        0 <= x_at(index, count, width) <= width,
        width > 0 ==> x_at(index, count, width) < width,
        index == 0 ==> x_at(index, count, width) == 0,
{
    lemma_scaled_index_below_width(index, count, width);
    if index == 0 {
        assert(index * width == 0) by (nonlinear_arith)
            requires
                index == 0,
        ;
    }
}

/// A later sample never lands to the left of an earlier one.
pub proof fn x_is_monotonic(earlier: int, later: int, count: int, width: int)
    requires
        0 <= earlier <= later,
        0 < count,
        0 <= width,
    ensures
        x_at(earlier, count, width) <= x_at(later, count, width),
{
    lemma_product_monotonic(width, earlier, later);
    assert(earlier * width == width * earlier) by (nonlinear_arith);
    assert(later * width == width * later) by (nonlinear_arith);
    assert((earlier * width) / count <= (later * width) / count) by (nonlinear_arith)
        requires
            earlier * width <= later * width,
            0 < count,
    ;
}

/// Silence maps to the vertical centre of the drawing area.
pub proof fn silence_maps_to_centre(height: int)
    requires
        0 <= height,
    ensures
        y_at(0, height) == height / 2,
{
    lemma_y_at_unfolded(0, height);
}

/// Amplitude `1.0` maps to the top edge and amplitude `-1.0` to the bottom
/// edge of the drawing area.
pub proof fn full_scale_maps_to_edges(height: int)
    requires
        0 <= height,
    ensures
        y_at(FULL_SCALE as int, height) == 0,
        y_at(-(FULL_SCALE as int), height) == height,
{
    lemma_y_at_unfolded(FULL_SCALE as int, height);
    lemma_y_at_unfolded(-(FULL_SCALE as int), height);
    assert(height * (32768 - 32768) == 0) by (nonlinear_arith);
    assert(height * (32768 - (-32768)) == 65536 * height) by (nonlinear_arith);
}

/// The vertical position is the affine function
/// `height * (FULL_SCALE - sample) / (2 * FULL_SCALE)` of the sample, rounded
/// down to a whole unit.
pub proof fn y_is_affine_rounded_down(sample: int, height: int)
    ensures
        2 * FULL_SCALE * y_at(sample, height) <= height * (FULL_SCALE - sample),
        height * (FULL_SCALE - sample) < 2 * FULL_SCALE * (y_at(sample, height) + 1),
{
    lemma_y_at_unfolded(sample, height);
    let y = y_at(sample, height);
    assert(2 * FULL_SCALE * y == 65536 * y) by (nonlinear_arith);
    assert(2 * FULL_SCALE * (y + 1) == 65536 * y + 65536) by (nonlinear_arith);
}

/// A larger amplitude never lands lower in the drawing area.
pub proof fn y_is_monotonic(lower: int, higher: int, height: int)
    requires
        0 <= height,
        lower <= higher,
    ensures
        y_at(higher, height) <= y_at(lower, height),
{
    lemma_y_at_unfolded(lower, height);
    lemma_y_at_unfolded(higher, height);
    lemma_product_monotonic(height, 32768 - higher, 32768 - lower);
}

/// Amplitudes between `-1.0` and `1.0` land inside the height of the drawing
/// area.
pub proof fn y_stays_within_height(sample: int, height: int)
    requires
        0 <= height,
        -FULL_SCALE <= sample <= FULL_SCALE,
    ensures
        0 <= y_at(sample, height) <= height,
{
    full_scale_maps_to_edges(height);
    y_is_monotonic(sample, FULL_SCALE as int, height);
    y_is_monotonic(-(FULL_SCALE as int), sample, height);
}

/// Opposite amplitudes land at mirrored positions about the centre line: their
/// positions add up to the height, less at most the one unit lost to rounding.
pub proof fn y_is_symmetric(sample: int, height: int)
    requires
        0 <= height,
    ensures
        height - 1 <= y_at(sample, height) + y_at(-sample, height) <= height,
{
    lemma_y_at_unfolded(sample, height);
    lemma_y_at_unfolded(-sample, height);
    lemma_product_distributes(height, 32768, sample);
    lemma_product_distributes(height, 32768, -sample);
    lemma_product_of_negated(height, sample);
}

/// A path that lifts the pen once, at its start, draws one segment for each
/// further step.
pub proof fn lemma_line_count_of_connected(path: Seq<PathStep>)
    requires
        forall|i: int| 0 <= i < path.len() ==> ((#[trigger] path[i]) is MoveTo) == (i == 0),
    ensures
        line_count(path) == segments_through(path.len()),
    decreases path.len(),
{
    if path.len() > 0 {
        let front = path.drop_last();
        assert forall|i: int| 0 <= i < front.len() implies ((#[trigger] front[i]) is MoveTo) == (i
            == 0) by {
            assert(front[i] == path[i]);
        }
        lemma_line_count_of_connected(front);
    }
}

/// The polyline of a block of `n` samples draws `n - 1` segments, and none
/// when the block is empty.
pub proof fn rendering_draws_one_segment_less_than_samples(
    path: Seq<PathStep>,
    samples: Seq<i32>,
    bounds: Bounds,
)
    requires
        traces(path, samples, bounds),
    ensures
        path.len() == samples.len(),
        line_count(path) == segments_through(samples.len()),
        samples.len() == 0 ==> line_count(path) == 0,
        samples.len() > 0 ==> line_count(path) == samples.len() - 1,
{
    lemma_line_count_of_connected(path);
}

const SPAN: u64 = 65_536;

fn x_coord(index: usize, count: usize, width: u32) -> (x: i64)
    requires
        index < count,
    ensures
        x == x_at(index as int, count as int, width as int),
{
    proof {
        lemma_product_bound(
            index as int,
            width as int,
            0xffff_ffff_ffff_ffff,
            0xffff_ffff,
        );
        lemma_scaled_index_below_width(index as int, count as int, width as int);
    }
    let scaled: u128 = (index as u128) * (width as u128);
    let x: u128 = scaled / (count as u128);
    x as i64
}

fn y_coord(sample: i32, height: u32) -> (y: i64)
    ensures
        y == y_at(sample as int, height as int),
{
    let drop: i64 = (FULL_SCALE as i64) - (sample as i64);
    if drop >= 0 {
        proof {
            lemma_product_bound(height as int, drop as int, 0xffff_ffff, 0x8000_8000);
        }
        let scaled: u64 = (height as u64) * (drop as u64);
        (scaled / SPAN) as i64
    } else {
        let rise: i64 = -drop;
        proof {
            lemma_product_bound(height as int, rise as int, 0xffff_ffff, 0x8000_0000);
            lemma_product_of_negated(height as int, rise as int);
        }
        let scaled: u64 = (height as u64) * (rise as u64);
        let above: u64 = (scaled + (SPAN - 1)) / SPAN;
        -(above as i64)
    }
}

/// Draws `block` across `bounds`: one step per sample, left to right. An
/// empty block gives an empty path, a block of one sample a single point.
pub fn render(block: &SampleBlock, bounds: Bounds) -> (line: Polyline)
    ensures
        traces(line@, block@, bounds),
{
    let count = block.samples.len();
    let mut steps: Vec<PathStep> = Vec::new();
    let mut i: usize = 0;
    while i < count
        invariant
            i <= count,
            count == block@.len(),
            steps@.len() == i,
            forall|k: int|
                0 <= k < i ==> {
                    &&& (#[trigger] steps@[k]).target().x == x_at(
                        k,
                        count as int,
                        bounds.width as int,
                    )
                    &&& steps@[k].target().y == y_at(block@[k] as int, bounds.height as int)
                    &&& (steps@[k] is MoveTo) == (k == 0)
                },
        decreases count - i,
    {
        let at = Point {
            x: x_coord(i, count, bounds.width),
            y: y_coord(block.samples[i], bounds.height),
        };
        if i == 0 {
            steps.push(PathStep::MoveTo(at));
        } else {
            steps.push(PathStep::LineTo(at));
        }
        i += 1;
    }
    Polyline { steps }
}

impl Polyline {
    /// Number of steps, which is the number of points on the path.
    pub fn len(&self) -> (n: usize)
        ensures
            n == self@.len(),
    {
        self.steps.len()
    }

    /// Number of segments that the path draws.
    pub fn segment_count(&self) -> (n: usize)
        ensures
            n == line_count(self@),
    {
        let mut n: usize = 0;
        let mut i: usize = 0;
        while i < self.steps.len()
            invariant
                i <= self.steps.len(),
                n <= i,
                n == line_count(self@.take(i as int)),
            decreases self.steps.len() - i,
        {
            proof {
                let next = self@.take(i + 1);
                assert(next.drop_last() == self@.take(i as int));
                assert(next.last() == self@[i as int]);
            }
            if self.steps[i].is_line() {
                n += 1;
            }
            i += 1;
        }
        proof {
            assert(self@.take(i as int) == self@);
        }
        n
    }
}

} // verus!
