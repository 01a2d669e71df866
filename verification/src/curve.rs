//! The paper-folding curve generator.
//!
//! The curve lives in a 2D plane. Starting from the origin with a horizontal
//! step of `1` and a vertical step of `1/sqrt(2)`, each fold step either
//! advances horizontally and doubles-and-negates the vertical step, or
//! advances vertically and doubles-and-negates the horizontal step, emitting
//! two vertices per step. Every coordinate this produces is therefore of the
//! form `a` (horizontal) or `b / sqrt(2)` (vertical) for integers `a` and
//! `b`, so the generator works on exact integers: a vertical coordinate is
//! stored as its numerator `b`, in units of `1/sqrt(2)`.

use vstd::prelude::*;

use crate::geometry::indices_in_bounds;

verus! {

/// A point of the curve in its 2D plane, with exact coordinates: the real
/// position is `(x, y_num / sqrt(2))`.
pub struct PlanePoint {
    pub x: int,
    pub y_num: int,
}

/// The generator's cursor state: current position, current step magnitudes,
/// and which of the two step kinds the next fold performs.
pub struct FoldState {
    pub x: int,
    pub y_num: int,
    pub horiz: int,
    pub vert_num: int,
    pub cycle: bool,
}

/// The state before the first fold step.
pub open spec fn fold_init() -> FoldState {
    FoldState { x: 0, y_num: 0, horiz: 1, vert_num: 1, cycle: false }
}

/// One fold step of the cursor: on a `cycle` step the cursor moves
/// vertically and the horizontal step doubles and flips sign; otherwise the
/// cursor moves horizontally and the vertical step doubles and flips sign.
pub open spec fn fold_step(s: FoldState) -> FoldState {
    if s.cycle {
        FoldState { y_num: s.y_num + s.vert_num, horiz: -2 * s.horiz, cycle: false, ..s }
    } else {
        FoldState { x: s.x + s.horiz, vert_num: -2 * s.vert_num, cycle: true, ..s }
    }
}

/// The two vertices a fold step emits, in order. Both use the step's updated
/// cursor and updated step magnitude: a `cycle` step emits the new position
/// displaced by the new horizontal step to either side, and a non-`cycle`
/// step emits it displaced by the new vertical step to either side.
pub open spec fn fold_emit(s: FoldState) -> Seq<PlanePoint> {
    let t = fold_step(s);
    if s.cycle {
        seq![
            PlanePoint { x: t.x + t.horiz, y_num: t.y_num },
            PlanePoint { x: t.x - t.horiz, y_num: t.y_num },
        ]
    } else {
        seq![
            PlanePoint { x: t.x, y_num: t.y_num + t.vert_num },
            PlanePoint { x: t.x, y_num: t.y_num - t.vert_num },
        ]
    }
}

/// The cursor state after `depth` fold steps.
pub open spec fn fold_state_at(depth: nat) -> FoldState
    decreases depth,
{
    if depth == 0 {
        fold_init()
    } else {
        fold_step(fold_state_at((depth - 1) as nat))
    }
}

/// All vertices emitted by the first `depth` fold steps, in emission order.
pub open spec fn curve_points(depth: nat) -> Seq<PlanePoint>
    decreases depth,
{
    if depth == 0 {
        Seq::empty()
    } else {
        curve_points((depth - 1) as nat) + fold_emit(fold_state_at((depth - 1) as nat))
    }
}

/// Every depth emits exactly two vertices per fold step.
pub proof fn lemma_curve_points_len(depth: nat)
    ensures
        curve_points(depth).len() == 2 * depth,
    decreases depth,
{
    if depth > 0 {
        lemma_curve_points_len((depth - 1) as nat);
    }
}

/// `2^n`, the growth envelope of the fold recurrence.
pub open spec fn pow2(n: nat) -> int
    decreases n,
{
    if n == 0 {
        1
    } else {
        2 * pow2((n - 1) as nat)
    }
}

/// `v` lies within the symmetric bound `b`.
pub open spec fn within(v: int, b: int) -> bool {
    -b <= v <= b
}

pub proof fn lemma_pow2_pos(n: nat)
    ensures
        pow2(n) >= 1,
    decreases n,
{
    if n > 0 {
        lemma_pow2_pos((n - 1) as nat);
    }
}

pub proof fn lemma_pow2_le(m: nat, n: nat)
    requires
        m <= n,
    ensures
        pow2(m) <= pow2(n),
    decreases n,
{
    lemma_pow2_pos(m);
    if m < n {
        lemma_pow2_le(m, (n - 1) as nat);
    }
}

/// Concrete values of the envelope near the top of the supported range.
pub proof fn lemma_pow2_values()
    ensures
        pow2(60) == 0x1000_0000_0000_0000,
        pow2(61) == 0x2000_0000_0000_0000,
        pow2(62) == 0x4000_0000_0000_0000,
{
    reveal_with_fuel(pow2, 63);
}

/// The cursor's coordinates grow at most geometrically: after `depth` steps
/// the step magnitudes are within `2^depth` and the position within
/// `2^(depth+1)`.
pub proof fn lemma_fold_state_bounds(depth: nat)
    ensures
        within(fold_state_at(depth).horiz, pow2(depth)),
        within(fold_state_at(depth).vert_num, pow2(depth)),
        within(fold_state_at(depth).x, pow2(depth + 1)),
        within(fold_state_at(depth).y_num, pow2(depth + 1)),
    decreases depth,
{
    lemma_pow2_pos(depth);
    if depth > 0 {
        lemma_fold_state_bounds((depth - 1) as nat);
        lemma_pow2_pos((depth - 1) as nat);
    }
}

/// One emitted vertex: an exact plane position together with the color the
/// whole curve was requested in. The color type is whatever the renderer
/// uses; the generator only copies it through.
pub struct CurveVertex<C> {
    pub x: i64,
    pub y_num: i64,
    pub color: C,
}

impl<C> CurveVertex<C> {
    /// The exact plane position of this vertex.
    pub open spec fn point(self) -> PlanePoint {
        PlanePoint { x: self.x as int, y_num: self.y_num as int }
    }
}

/// Exactly what `generate` returns: the vertices are the fold curve's
/// emitted points in order, all carrying the requested color, and the
/// indices are the ascending identity sequence of the same length.
pub open spec fn generate_post<C>(
    depth: nat,
    color: C,
    verts: Seq<CurveVertex<C>>,
    idxs: Seq<u16>,
) -> bool {
    &&& verts.len() == 2 * depth
    &&& forall|j: int|
        0 <= j < verts.len() ==> (#[trigger] verts[j]).point() == curve_points(depth)[j]
    &&& forall|j: int| 0 <= j < verts.len() ==> (#[trigger] verts[j]).color == color
    &&& idxs.len() == 2 * depth
    &&& forall|j: int| 0 <= j < idxs.len() ==> (#[trigger] idxs[j]) == j as u16
}

/// Generate the fold curve of the given depth: `2 * depth` vertices in
/// emission order, each carrying `color`, and the identity index sequence
/// `0, 1, ..., 2 * depth - 1`. Consecutive emitted vertices form the drawn
/// segments; the two vertices of one step are not connected to each other.
///
/// The depth bound keeps every exact coordinate within `i64` (the recurrence
/// doubles a step magnitude every other fold).
pub fn generate<C: Copy>(depth: usize, color: C) -> (r: (Vec<CurveVertex<C>>, Vec<u16>))
    requires
        depth <= 60,
    ensures
        generate_post(depth as nat, color, r.0@, r.1@),
        indices_in_bounds(r.0@, r.1@),
{
    let mut vertices: Vec<CurveVertex<C>> = Vec::new();
    let mut x: i64 = 0;
    let mut y: i64 = 0;
    let mut horiz: i64 = 1;
    let mut vert: i64 = 1;
    let mut cycle: bool = false;
    let mut i: usize = 0;
    while i < depth
        invariant
            i <= depth <= 60,
            x as int == fold_state_at(i as nat).x,
            y as int == fold_state_at(i as nat).y_num,
            horiz as int == fold_state_at(i as nat).horiz,
            vert as int == fold_state_at(i as nat).vert_num,
            cycle == fold_state_at(i as nat).cycle,
            vertices@.len() == 2 * i,
            forall|j: int|
                0 <= j < vertices@.len() ==> (#[trigger] vertices@[j]).point() == curve_points(
                    i as nat,
                )[j],
            forall|j: int| 0 <= j < vertices@.len() ==> (#[trigger] vertices@[j]).color == color,
        decreases depth - i,
    {
        proof {
            lemma_fold_state_bounds(i as nat);
            lemma_pow2_le((i + 1) as nat, 61);
            lemma_pow2_le(i as nat, 60);
            lemma_pow2_values();
        }
        let ghost prev = fold_state_at(i as nat);
        if cycle {
            y = y + vert;
            horiz = -(horiz + horiz);
            vertices.push(CurveVertex { x: x + horiz, y_num: y, color });
            vertices.push(CurveVertex { x: x - horiz, y_num: y, color });
        } else {
            x = x + horiz;
            vert = -(vert + vert);
            vertices.push(CurveVertex { x, y_num: y + vert, color });
            vertices.push(CurveVertex { x, y_num: y - vert, color });
        }
        cycle = !cycle;
        i = i + 1;
        proof {
            assert(fold_state_at(i as nat) == fold_step(prev));
            lemma_curve_points_len((i - 1) as nat);
            assert(curve_points(i as nat) =~= curve_points((i - 1) as nat) + fold_emit(prev));
            assert forall|j: int|
                0 <= j < vertices@.len() implies (#[trigger] vertices@[j]).point() == curve_points(
                i as nat,
            )[j] by {
                if j < vertices@.len() - 2 {
                    assert(vertices@[j].point() == curve_points((i - 1) as nat)[j]);
                } else {
                    assert(vertices@[j].point() == fold_emit(prev)[j - (2 * i - 2)]);
                }
            }
        }
    }
    let total: usize = 2 * depth;
    let mut indices: Vec<u16> = Vec::new();
    let mut k: usize = 0;
    while k < total
        invariant
            k <= total == 2 * depth <= 120,
            indices@.len() == k,
            forall|j: int| 0 <= j < k ==> (#[trigger] indices@[j]) == j as u16,
        decreases total - k,
    {
        indices.push(k as u16);
        k = k + 1;
    }
    (vertices, indices)
}

/// The generator is deterministic: its contract pins the whole output down,
/// so any two outputs it allows for the same depth and color are equal.
pub proof fn lemma_generate_deterministic<C>(
    depth: nat,
    color: C,
    verts_a: Seq<CurveVertex<C>>,
    idxs_a: Seq<u16>,
    verts_b: Seq<CurveVertex<C>>,
    idxs_b: Seq<u16>,
)
    requires
        generate_post(depth, color, verts_a, idxs_a),
        generate_post(depth, color, verts_b, idxs_b),
    ensures
        verts_a == verts_b,
        idxs_a == idxs_b,
{
    assert forall|j: int| 0 <= j < verts_a.len() implies verts_a[j] == verts_b[j] by {
        assert(verts_a[j].point() == verts_b[j].point());
        assert(verts_a[j].x == verts_b[j].x);
        assert(verts_a[j].y_num == verts_b[j].y_num);
        assert(verts_a[j].color == color);
    }
    assert(verts_a =~= verts_b);
    assert(idxs_a =~= idxs_b);
}

} // verus!
