//! The shape entity and the procedural geometry generators.

use vstd::prelude::*;

use crate::scalar::{
    add_bits, div_bits, mul_bits, neg_bits, sub_bits, Color4, Mat4, Point3, ONE_BITS, PI_BITS,
    TWO_BITS, ZERO_BITS,
};
use crate::scalar::{fadd, fcos, fdiv, fmul, fneg, fsin, fsub, itof, mat_apply, transform_point};
use crate::shapes::{RenderType, ShapeType};

verus! {

/// Vertex positions handed to a constructor, either borrowed or moved.
pub enum InitType<'i, T> {
    Ref(&'i [T]),
    Move(Vec<T>),
}

impl<'i, T> InitType<'i, T> {
    /// The sequence of items, however they are held.
    pub open spec fn items(&self) -> Seq<T> {
        match self {
            InitType::Ref(r) => r@,
            InitType::Move(v) => v@,
        }
    }

    pub fn len(&self) -> (n: usize)
        ensures
            n == self.items().len(),
    {
        match self {
            InitType::Ref(r) => r.len(),
            InitType::Move(v) => v.len(),
        }
    }
}

/// Colors handed to a constructor: one per point, or one broadcast to all.
pub enum ColorType<'i> {
    Each(InitType<'i, Color4>),
    Uniform(Color4),
}

impl<'i> ColorType<'i> {
    /// The color sequence this choice yields for `n` points.
    pub open spec fn items(&self, n: int) -> Seq<Color4> {
        match self {
            ColorType::Each(init) => init.items(),
            ColorType::Uniform(c) => Seq::new(n as nat, |i: int| *c),
        }
    }

    pub fn new_uniform(c: Color4) -> (r: ColorType<'i>)
        ensures
            r == ColorType::<'i>::Uniform(c),
    {
        ColorType::Uniform(c)
    }

    pub fn new_each_ref(c: &'i [Color4]) -> (r: ColorType<'i>)
        ensures
            r == ColorType::<'i>::Each(InitType::<'i, Color4>::Ref(c)),
    {
        ColorType::Each(InitType::Ref(c))
    }

    pub fn new_each(c: Vec<Color4>) -> (r: ColorType<'i>)
        ensures
            r == ColorType::<'i>::Each(InitType::<'i, Color4>::Move(c)),
    {
        ColorType::Each(InitType::Move(c))
    }
}

/// Indices handed to a constructor: the identity sequence over all points,
/// or an explicit list.
pub enum IndicesType<'i> {
    Sequence,
    Partial(InitType<'i, u32>),
}

/// The identity index sequence `0, 1, .., n-1`.
pub open spec fn seq_indices(n: int) -> Seq<u32> {
    Seq::new(n as nat, |i: int| i as u32)
}

impl<'i> IndicesType<'i> {
    /// The index sequence this choice yields for `n` points.
    pub open spec fn items(&self, n: int) -> Seq<u32> {
        match self {
            IndicesType::Sequence => seq_indices(n),
            IndicesType::Partial(init) => init.items(),
        }
    }

    pub fn new_all() -> (r: IndicesType<'i>)
        ensures
            r == IndicesType::<'i>::Sequence,
    {
        IndicesType::Sequence
    }

    pub fn new_ref(ids: &'i [u32]) -> (r: IndicesType<'i>)
        ensures
            r == IndicesType::<'i>::Partial(InitType::<'i, u32>::Ref(ids)),
    {
        IndicesType::Partial(InitType::Ref(ids))
    }

    pub fn new(ids: Vec<u32>) -> (r: IndicesType<'i>)
        ensures
            r == IndicesType::<'i>::Partial(InitType::<'i, u32>::Move(ids)),
    {
        IndicesType::Partial(InitType::Move(ids))
    }
}

/// The points of a child shape after its pre-merge transform.
pub open spec fn transformed_points(pts: Seq<Point3>, m: Mat4) -> Seq<Point3> {
    Seq::new(pts.len(), |i: int| mat_apply(m, pts[i]))
}

/// A child's indices renumbered by the running point count `off`.
pub open spec fn shifted_indices(ids: Seq<u32>, off: int) -> Seq<u32> {
    Seq::new(ids.len(), |i: int| (ids[i] + off) as u32)
}

/// How many points a list of merge children contributes in total.
pub open spec fn total_points(os: Seq<(ShapeBase, Mat4)>) -> int
    decreases os.len(),
{
    if os.len() <= 0 {
        0
    } else {
        os[0].0.points@.len() + total_points(os.skip(1))
    }
}

/// The point sequence after merging every child in order.
pub open spec fn combined_points(base: Seq<Point3>, os: Seq<(ShapeBase, Mat4)>) -> Seq<Point3>
    decreases os.len(),
{
    if os.len() <= 0 {
        base
    } else {
        combined_points(base + transformed_points(os[0].0.points@, os[0].1), os.skip(1))
    }
}

/// The color sequence after merging every child in order.
pub open spec fn combined_colors(base: Seq<Color4>, os: Seq<(ShapeBase, Mat4)>) -> Seq<Color4>
    decreases os.len(),
{
    if os.len() <= 0 {
        base
    } else {
        combined_colors(base + os[0].0.colors@, os.skip(1))
    }
}

/// The index sequence after merging every child in order, with `n` the
/// point count accumulated before the first child.
pub open spec fn combined_indices(base: Seq<u32>, n: int, os: Seq<(ShapeBase, Mat4)>) -> Seq<u32>
    decreases os.len(),
{
    if os.len() <= 0 {
        base
    } else {
        combined_indices(
            base + shifted_indices(os[0].0.indices@, n),
            n + os[0].0.points@.len(),
            os.skip(1),
        )
    }
}

pub proof fn lemma_total_points_nonneg(os: Seq<(ShapeBase, Mat4)>)
    ensures
        total_points(os) >= 0,
    decreases os.len(),
{
    if os.len() > 0 {
        lemma_total_points_nonneg(os.skip(1));
    }
}

pub proof fn lemma_total_points_push(os: Seq<(ShapeBase, Mat4)>, x: (ShapeBase, Mat4))
    ensures
        total_points(os.push(x)) == total_points(os) + x.0.points@.len(),
    decreases os.len(),
{
    if os.len() == 0 {
        assert(os.push(x)[0] == x);
        assert(os.push(x).skip(1) =~= Seq::<(ShapeBase, Mat4)>::empty());
        assert(total_points(Seq::<(ShapeBase, Mat4)>::empty()) == 0);
    } else {
        assert(os.push(x)[0] == os[0]);
        assert(os.push(x).skip(1) =~= os.skip(1).push(x));
        lemma_total_points_push(os.skip(1), x);
    }
}

pub proof fn lemma_combined_points_push(
    base: Seq<Point3>,
    os: Seq<(ShapeBase, Mat4)>,
    x: (ShapeBase, Mat4),
)
    ensures
        combined_points(base, os.push(x)) == combined_points(base, os) + transformed_points(
            x.0.points@,
            x.1,
        ),
    decreases os.len(),
{
    if os.len() == 0 {
        assert(os.push(x)[0] == x);
        assert(os.push(x).skip(1) =~= Seq::<(ShapeBase, Mat4)>::empty());
        assert(combined_points(
            base + transformed_points(x.0.points@, x.1),
            Seq::<(ShapeBase, Mat4)>::empty(),
        ) == base + transformed_points(x.0.points@, x.1));
    } else {
        assert(os.push(x)[0] == os[0]);
        assert(os.push(x).skip(1) =~= os.skip(1).push(x));
        lemma_combined_points_push(
            base + transformed_points(os[0].0.points@, os[0].1),
            os.skip(1),
            x,
        );
    }
}

pub proof fn lemma_combined_colors_push(
    base: Seq<Color4>,
    os: Seq<(ShapeBase, Mat4)>,
    x: (ShapeBase, Mat4),
)
    ensures
        combined_colors(base, os.push(x)) == combined_colors(base, os) + x.0.colors@,
    decreases os.len(),
{
    if os.len() == 0 {
        assert(os.push(x)[0] == x);
        assert(os.push(x).skip(1) =~= Seq::<(ShapeBase, Mat4)>::empty());
        assert(combined_colors(base + x.0.colors@, Seq::<(ShapeBase, Mat4)>::empty())
            == base + x.0.colors@);
    } else {
        assert(os.push(x)[0] == os[0]);
        assert(os.push(x).skip(1) =~= os.skip(1).push(x));
        lemma_combined_colors_push(base + os[0].0.colors@, os.skip(1), x);
    }
}

pub proof fn lemma_combined_indices_push(
    base: Seq<u32>,
    n: int,
    os: Seq<(ShapeBase, Mat4)>,
    x: (ShapeBase, Mat4),
)
    ensures
        combined_indices(base, n, os.push(x)) == combined_indices(base, n, os) + shifted_indices(
            x.0.indices@,
            n + total_points(os),
        ),
    decreases os.len(),
{
    if os.len() == 0 {
        assert(os.push(x)[0] == x);
        assert(os.push(x).skip(1) =~= Seq::<(ShapeBase, Mat4)>::empty());
        assert(total_points(os) == 0);
        assert(combined_indices(
            base + shifted_indices(x.0.indices@, n),
            n + x.0.points@.len(),
            Seq::<(ShapeBase, Mat4)>::empty(),
        ) == base + shifted_indices(x.0.indices@, n));
    } else {
        assert(os.push(x)[0] == os[0]);
        assert(os.push(x).skip(1) =~= os.skip(1).push(x));
        lemma_combined_indices_push(
            base + shifted_indices(os[0].0.indices@, n),
            n + os[0].0.points@.len(),
            os.skip(1),
            x,
        );
    }
}

/// Stepping a prefix of the child list by one: the contributed point
/// count grows by the next child's, and never beyond the whole list's.
pub proof fn lemma_total_points_take_step(os: Seq<(ShapeBase, Mat4)>, k: int)
    requires
        0 <= k < os.len(),
    ensures
        total_points(os.take(k + 1)) == total_points(os.take(k)) + os[k].0.points@.len(),
        total_points(os.take(k + 1)) + total_points(os.skip(k + 1)) == total_points(os),
    decreases k,
{
    assert(os.take(k + 1) =~= os.take(k).push(os[k]));
    lemma_total_points_push(os.take(k), os[k]);
    if k == 0 {
        assert(os.take(1)[0] == os[0]);
        assert(os.take(1).skip(1) =~= Seq::<(ShapeBase, Mat4)>::empty());
        assert(total_points(os.take(1)) == os[0].0.points@.len());
        assert(os.skip(1) =~= os.skip(1));
        assert(os[0] == os[0]);
        assert(total_points(os) == os[0].0.points@.len() + total_points(os.skip(1)));
    } else {
        lemma_total_points_take_step(os, k - 1);
        assert(os.skip(k) =~= seq![os[k]] + os.skip(k + 1));
        lemma_total_points_concat(seq![os[k]], os.skip(k + 1));
        lemma_total_points_take_step_helper(os, k);
    }
}

proof fn lemma_total_points_take_step_helper(os: Seq<(ShapeBase, Mat4)>, k: int)
    requires
        0 <= k < os.len(),
        total_points(os.take(k)) + total_points(os.skip(k)) == total_points(os),
        total_points(os.take(k + 1)) == total_points(os.take(k)) + os[k].0.points@.len(),
        total_points(os.skip(k)) == total_points(seq![os[k]]) + total_points(os.skip(k + 1)),
    ensures
        total_points(os.take(k + 1)) + total_points(os.skip(k + 1)) == total_points(os),
{
    assert(seq![os[k]][0] == os[k]);
    assert(seq![os[k]].skip(1) =~= Seq::<(ShapeBase, Mat4)>::empty());
    assert(total_points(Seq::<(ShapeBase, Mat4)>::empty()) == 0);
    assert(total_points(seq![os[k]]) == os[k].0.points@.len());
}

pub proof fn lemma_total_points_concat(a: Seq<(ShapeBase, Mat4)>, b: Seq<(ShapeBase, Mat4)>)
    ensures
        total_points(a + b) == total_points(a) + total_points(b),
    decreases a.len(),
{
    if a.len() == 0 {
        assert(a + b =~= b);
    } else {
        assert((a + b).skip(1) =~= a.skip(1) + b);
        assert((a + b)[0] == a[0]);
        lemma_total_points_concat(a.skip(1), b);
    }
}

pub proof fn lemma_combined_points_snoc(base: Seq<Point3>, os: Seq<(ShapeBase, Mat4)>, k: int)
    requires
        0 <= k < os.len(),
    ensures
        combined_points(base, os.take(k + 1)) == combined_points(base, os.take(k))
            + transformed_points(os[k].0.points@, os[k].1),
{
    assert(os.take(k + 1) =~= os.take(k).push(os[k]));
    lemma_combined_points_push(base, os.take(k), os[k]);
}

pub proof fn lemma_combined_colors_snoc(base: Seq<Color4>, os: Seq<(ShapeBase, Mat4)>, k: int)
    requires
        0 <= k < os.len(),
    ensures
        combined_colors(base, os.take(k + 1)) == combined_colors(base, os.take(k))
            + os[k].0.colors@,
{
    assert(os.take(k + 1) =~= os.take(k).push(os[k]));
    lemma_combined_colors_push(base, os.take(k), os[k]);
}

pub proof fn lemma_combined_indices_snoc(
    base: Seq<u32>,
    n: int,
    os: Seq<(ShapeBase, Mat4)>,
    k: int,
)
    requires
        0 <= k < os.len(),
    ensures
        combined_indices(base, n, os.take(k + 1)) == combined_indices(base, n, os.take(k))
            + shifted_indices(os[k].0.indices@, n + total_points(os.take(k))),
{
    assert(os.take(k + 1) =~= os.take(k).push(os[k]));
    lemma_combined_indices_push(base, n, os.take(k), os[k]);
}

/// Merging a shape `a` with one child `b` under a transform `m` yields
/// `a`'s point count plus `b`'s, keeps `a`'s data unchanged in front,
/// appends every point of `b` transformed by `m`, and shifts every index
/// of `b` by exactly `a`'s point count.
pub proof fn lemma_combination_single(a: ShapeBase, b: ShapeBase, m: Mat4)
    ensures
        combined_points(a.points@, seq![(b, m)]).len() == a.points@.len() + b.points@.len(),
        forall|j: int|
            0 <= j < a.points@.len() ==> combined_points(a.points@, seq![(b, m)])[j]
                == a.points@[j],
        forall|j: int|
            0 <= j < b.points@.len() ==> combined_points(a.points@, seq![(b, m)])[a.points@.len()
                + j] == mat_apply(m, b.points@[j]),
        combined_colors(a.colors@, seq![(b, m)]) == a.colors@ + b.colors@,
        combined_indices(a.indices@, a.points@.len() as int, seq![(b, m)]).len()
            == a.indices@.len() + b.indices@.len(),
        forall|j: int|
            0 <= j < a.indices@.len() ==> combined_indices(
                a.indices@,
                a.points@.len() as int,
                seq![(b, m)],
            )[j] == a.indices@[j],
        forall|j: int|
            0 <= j < b.indices@.len() ==> combined_indices(
                a.indices@,
                a.points@.len() as int,
                seq![(b, m)],
            )[a.indices@.len() + j] == ((b.indices@[j] + a.points@.len()) as u32),
{
    let s = seq![(b, m)];
    assert(s[0] == (b, m));
    assert(s.skip(1) =~= Seq::<(ShapeBase, Mat4)>::empty());
    assert(combined_points(
        a.points@ + transformed_points(b.points@, m),
        Seq::<(ShapeBase, Mat4)>::empty(),
    ) == a.points@ + transformed_points(b.points@, m));
    assert(combined_colors(a.colors@ + b.colors@, Seq::<(ShapeBase, Mat4)>::empty()) == a.colors@
        + b.colors@);
    assert(combined_indices(
        a.indices@ + shifted_indices(b.indices@, a.points@.len() as int),
        a.points@.len() + b.points@.len() as int,
        Seq::<(ShapeBase, Mat4)>::empty(),
    ) == a.indices@ + shifted_indices(b.indices@, a.points@.len() as int));
}

/// The cube's per-face index pattern, replicated with a `+ 4 * face`
/// offset for the first `f` faces.
pub open spec fn cube_ids_upto(pat: Seq<u32>, f: int) -> Seq<u32>
    decreases f,
{
    if f <= 0 {
        Seq::<u32>::empty()
    } else {
        cube_ids_upto(pat, f - 1) + shifted_indices(pat, 4 * (f - 1))
    }
}

pub proof fn lemma_cube_ids_upto_bound(pat: Seq<u32>, f: int)
    requires
        0 <= f <= 6,
        forall|j: int| 0 <= j < pat.len() ==> (#[trigger] pat[j]) < 4,
    ensures
        cube_ids_upto(pat, f).len() == f * pat.len(),
        forall|i: int|
            0 <= i < cube_ids_upto(pat, f).len() ==> (#[trigger] cube_ids_upto(pat, f)[i]) < 4 * f,
    decreases f,
{
    if f > 0 {
        lemma_cube_ids_upto_bound(pat, f - 1);
        let prev = cube_ids_upto(pat, f - 1);
        let shifted = shifted_indices(pat, 4 * (f - 1));
        assert(cube_ids_upto(pat, f).len() == prev.len() + pat.len());
        assert((f - 1) * pat.len() + pat.len() == f * pat.len()) by (nonlinear_arith);
        assert forall|i: int| 0 <= i < cube_ids_upto(pat, f).len() implies (
        #[trigger] cube_ids_upto(pat, f)[i]) < 4 * f by {
            if i < prev.len() {
                assert(cube_ids_upto(pat, f)[i] == prev[i]);
            } else {
                assert(cube_ids_upto(pat, f)[i] == shifted[i - prev.len()]);
                assert(pat[i - prev.len()] < 4);
            }
        }
    }
}

/// The indices a circle contributes for rim segment `i` (of `sub`):
/// filled, a fan triangle through the center with a wrap at the last
/// segment; wire, one rim edge.
pub open spec fn circle_seg_ids(i: int, sub: int, wire: bool) -> Seq<u32> {
    let next: u32 = if i == sub - 1 {
        1u32
    } else {
        (i + 2) as u32
    };
    if wire {
        seq![(i + 1) as u32, next]
    } else {
        seq![0u32, (i + 1) as u32, next]
    }
}

/// The circle's indices for the first `t` rim segments.
pub open spec fn circle_ids_upto(sub: int, wire: bool, t: int) -> Seq<u32>
    decreases t,
{
    if t <= 0 {
        Seq::<u32>::empty()
    } else {
        circle_ids_upto(sub, wire, t - 1) + circle_seg_ids(t - 1, sub, wire)
    }
}

/// The indices a cone contributes for rim segment `i` (of `u_sub`), with
/// point 0 the base center, point 1 the apex and rim point `i` at `i + 2`:
/// filled, the side triangle `(apex, rim i, rim i+1)` and the base-cap
/// triangle `(center, rim i+1, rim i)`; wire, the apex spoke and rim edge.
pub open spec fn cone_seg_ids(i: int, u_sub: int, wire: bool) -> Seq<u32> {
    let p0: u32 = (i + 2) as u32;
    let next: u32 = if i == u_sub - 1 {
        2u32
    } else {
        (i + 3) as u32
    };
    if wire {
        seq![1u32, p0, p0, next]
    } else {
        seq![1u32, p0, next, 0u32, next, p0]
    }
}

/// The cone's indices for the first `t` rim segments.
pub open spec fn cone_ids_upto(u_sub: int, wire: bool, t: int) -> Seq<u32>
    decreases t,
{
    if t <= 0 {
        Seq::<u32>::empty()
    } else {
        cone_ids_upto(u_sub, wire, t - 1) + cone_seg_ids(t - 1, u_sub, wire)
    }
}

/// The indices a cylinder contributes for rim segment `i` (of `u_sub`),
/// with point 0 the top cap center, point 1 the bottom cap center, top
/// rim point `i` at `i + 2` and bottom rim point `i` at `i + 2 + u_sub`:
/// filled, one top-cap triangle, the two side triangles of the quad, and
/// one bottom-cap triangle; wire, the vertical edge and the two rim edges.
pub open spec fn cylinder_seg_ids(i: int, u_sub: int, wire: bool) -> Seq<u32> {
    let p0: u32 = (i + 2) as u32;
    let p1: u32 = (i + 2 + u_sub) as u32;
    let p3: u32 = if i == u_sub - 1 {
        2u32
    } else {
        (i + 3) as u32
    };
    let p2: u32 = (p3 + u_sub) as u32;
    if wire {
        seq![p0, p1, p0, p3, p1, p2]
    } else {
        seq![p0, p3, 0u32, p0, p1, p2, p2, p3, p0, p1, 1u32, p2]
    }
}

/// The cylinder's indices for the first `t` rim segments.
pub open spec fn cylinder_ids_upto(u_sub: int, wire: bool, t: int) -> Seq<u32>
    decreases t,
{
    if t <= 0 {
        Seq::<u32>::empty()
    } else {
        cylinder_ids_upto(u_sub, wire, t - 1) + cylinder_seg_ids(t - 1, u_sub, wire)
    }
}

/// The index of the sphere's south-pole point: one north pole, then
/// `v_s - 2` latitude rings of `u_s` points each.
pub open spec fn sphere_last(u_s: int, v_s: int) -> int {
    u_s * (v_s - 2) + 1
}

/// The indices the sphere contributes for column `u` of band `v` (bands
/// run between adjacent rings, or between a ring and a pole).  Filled:
/// pole bands fan to the neighbouring ring, interior bands split each
/// quad into two triangles, all with a wrap at the seam `u == u_s - 1`.
/// Wire: the north band holds the pole spokes; every other band holds
/// one longitudinal edge and one ring edge of the ring above it.
pub open spec fn sphere_seg_ids(u_s: int, v_s: int, wire: bool, v: int, u: int) -> Seq<u32> {
    let last = sphere_last(u_s, v_s);
    let p_shift = if v == 0 {
        1int
    } else {
        1 + (v - 1) * u_s
    };
    if wire {
        if v == 0 {
            seq![0u32, (u + 1) as u32]
        } else {
            let lon = if v == v_s - 2 {
                last
            } else {
                u + p_shift + u_s
            };
            let ring = if u == u_s - 1 {
                p_shift
            } else {
                u + p_shift + 1
            };
            seq![(u + p_shift) as u32, lon as u32, (u + p_shift) as u32, ring as u32]
        }
    } else {
        if v == 0 {
            let wrap = if u == u_s - 1 {
                p_shift
            } else {
                u + p_shift + 1
            };
            seq![0u32, (u + p_shift) as u32, wrap as u32]
        } else if v == v_s - 2 {
            let wrap = if u == u_s - 1 {
                p_shift
            } else {
                u + p_shift + 1
            };
            seq![(u + p_shift) as u32, last as u32, wrap as u32]
        } else {
            let p0 = u + p_shift;
            let p1 = p0 + u_s;
            let p2 = if u == u_s - 1 {
                p_shift + u_s
            } else {
                p1 + 1
            };
            let p3 = if u == u_s - 1 {
                p_shift
            } else {
                p0 + 1
            };
            seq![p0 as u32, p1 as u32, p2 as u32, p2 as u32, p3 as u32, p0 as u32]
        }
    }
}

/// How many indices one column of band `v` contributes.
pub open spec fn sphere_seg_len(v_s: int, wire: bool, v: int) -> int {
    if wire {
        if v == 0 {
            2int
        } else {
            4int
        }
    } else {
        if v == 0 || v == v_s - 2 {
            3int
        } else {
            6int
        }
    }
}

/// The sphere's indices for the first `t` columns of band `v`.
pub open spec fn sphere_band_upto(u_s: int, v_s: int, wire: bool, v: int, t: int) -> Seq<u32>
    decreases t,
{
    if t <= 0 {
        Seq::<u32>::empty()
    } else {
        sphere_band_upto(u_s, v_s, wire, v, t - 1) + sphere_seg_ids(u_s, v_s, wire, v, t - 1)
    }
}

/// The sphere's indices for the first `t` complete bands.
pub open spec fn sphere_bands_upto(u_s: int, v_s: int, wire: bool, t: int) -> Seq<u32>
    decreases t,
{
    if t <= 0 {
        Seq::<u32>::empty()
    } else {
        sphere_bands_upto(u_s, v_s, wire, t - 1) + sphere_band_upto(u_s, v_s, wire, t - 1, u_s)
    }
}

pub proof fn lemma_sphere_band_len(u_s: int, v_s: int, wire: bool, v: int, t: int)
    requires
        t >= 0,
    ensures
        sphere_band_upto(u_s, v_s, wire, v, t).len() == t * sphere_seg_len(v_s, wire, v),
    decreases t,
{
    if t > 0 {
        lemma_sphere_band_len(u_s, v_s, wire, v, t - 1);
        assert((t - 1) * sphere_seg_len(v_s, wire, v) + sphere_seg_len(v_s, wire, v) == t
            * sphere_seg_len(v_s, wire, v)) by (nonlinear_arith);
    }
}

/// Every index of band `v` addresses a point of the sphere: it is at
/// most the south pole's index.
pub proof fn lemma_sphere_band_bound(u_s: int, v_s: int, wire: bool, v: int, t: int)
    requires
        u_s >= 3,
        v_s >= 3,
        0 <= v <= v_s - 2,
        0 <= t <= u_s,
        sphere_last(u_s, v_s) <= u32::MAX,
    ensures
        forall|k: int|
            0 <= k < sphere_band_upto(u_s, v_s, wire, v, t).len() ==> 0 <= (
            #[trigger] sphere_band_upto(u_s, v_s, wire, v, t)[k]) <= sphere_last(u_s, v_s),
    decreases t,
{
    if t > 0 {
        lemma_sphere_band_bound(u_s, v_s, wire, v, t - 1);
        let u = t - 1;
        let last = sphere_last(u_s, v_s);
        let p_shift = if v == 0 {
            1int
        } else {
            1 + (v - 1) * u_s
        };
        assert(u_s * (v_s - 2) == (v_s - 2) * u_s) by (nonlinear_arith);
        if v == 0 {
            assert(u_s <= u_s * (v_s - 2)) by (nonlinear_arith)
                requires
                    u_s >= 3,
                    v_s >= 3,
            ;
        } else {
            assert((v - 1) * u_s + u_s == v * u_s) by (nonlinear_arith);
            assert(v * u_s <= (v_s - 2) * u_s) by (nonlinear_arith)
                requires
                    1 <= v <= v_s - 2,
                    u_s >= 3,
            ;
            if v <= v_s - 3 {
                assert((v + 1) * u_s <= (v_s - 2) * u_s) by (nonlinear_arith)
                    requires
                        1 <= v <= v_s - 3,
                        u_s >= 3,
                ;
                assert(v * u_s + u_s == (v + 1) * u_s) by (nonlinear_arith);
            }
        }
        assert(p_shift >= 1 && u + p_shift <= last && u + p_shift + 1 <= last && (1 <= v && v
            <= v_s - 3 ==> u + p_shift + u_s + 1 <= last && p_shift + u_s <= last));
        let seg = sphere_seg_ids(u_s, v_s, wire, v, u);
        assert(forall|k: int| 0 <= k < seg.len() ==> 0 <= (#[trigger] seg[k]) <= last);
        let whole = sphere_band_upto(u_s, v_s, wire, v, t);
        let prev = sphere_band_upto(u_s, v_s, wire, v, t - 1);
        assert(whole == prev + seg);
        assert forall|k: int| 0 <= k < whole.len() implies 0 <= (#[trigger] whole[k])
            <= last by {
            if k < prev.len() {
                assert(whole[k] == prev[k]);
            } else {
                assert(whole[k] == seg[k - prev.len()]);
            }
        }
    }
}

/// Every index of the first `t` bands addresses a point of the sphere.
pub proof fn lemma_sphere_bands_bound(u_s: int, v_s: int, wire: bool, t: int)
    requires
        u_s >= 3,
        v_s >= 3,
        0 <= t <= v_s - 1,
        sphere_last(u_s, v_s) <= u32::MAX,
    ensures
        forall|k: int|
            0 <= k < sphere_bands_upto(u_s, v_s, wire, t).len() ==> 0 <= (
            #[trigger] sphere_bands_upto(u_s, v_s, wire, t)[k]) <= sphere_last(u_s, v_s),
    decreases t,
{
    if t > 0 {
        lemma_sphere_bands_bound(u_s, v_s, wire, t - 1);
        lemma_sphere_band_bound(u_s, v_s, wire, t - 1, u_s);
        let whole = sphere_bands_upto(u_s, v_s, wire, t);
        let prev = sphere_bands_upto(u_s, v_s, wire, t - 1);
        let band = sphere_band_upto(u_s, v_s, wire, t - 1, u_s);
        assert(whole == prev + band);
        assert forall|k: int| 0 <= k < whole.len() implies 0 <= (#[trigger] whole[k])
            <= sphere_last(u_s, v_s) by {
            if k < prev.len() {
                assert(whole[k] == prev[k]);
            } else {
                assert(whole[k] == band[k - prev.len()]);
            }
        }
    }
}

/// The total index count of the first `t` sphere bands.
pub proof fn lemma_sphere_ids_len(u_s: int, v_s: int, wire: bool, t: int)
    requires
        u_s >= 3,
        v_s >= 3,
        0 <= t <= v_s - 1,
    ensures
        sphere_bands_upto(u_s, v_s, wire, t).len() == if t == 0 {
            0int
        } else if wire {
            2 * u_s + 4 * u_s * (t - 1)
        } else if t <= v_s - 2 {
            3 * u_s + 6 * u_s * (t - 1)
        } else {
            6 * u_s * (v_s - 2)
        },
    decreases t,
{
    if t > 0 {
        lemma_sphere_ids_len(u_s, v_s, wire, t - 1);
        lemma_sphere_band_len(u_s, v_s, wire, t - 1, u_s);
        assert(4 * u_s * (t - 2) + 4 * u_s == 4 * u_s * (t - 1)) by (nonlinear_arith);
        assert(6 * u_s * (t - 2) + 6 * u_s == 6 * u_s * (t - 1)) by (nonlinear_arith);
        assert(3 * u_s + 6 * u_s * (v_s - 3) + 3 * u_s == 6 * u_s * (v_s - 2)) by (nonlinear_arith);
        assert(u_s * sphere_seg_len(v_s, wire, t - 1) == sphere_seg_len(v_s, wire, t - 1) * u_s)
            by (nonlinear_arith);
    }
}

/// How many of the triangles described by an index list (consecutive
/// triples) contain the point index `x`.
pub open spec fn count_tris_with(ids: Seq<u32>, x: u32) -> int
    decreases ids.len(),
{
    if ids.len() < 3 {
        0
    } else {
        (if ids[0] == x || ids[1] == x || ids[2] == x {
            1int
        } else {
            0
        }) + count_tris_with(ids.skip(3), x)
    }
}

pub proof fn lemma_count_tris_concat(a: Seq<u32>, b: Seq<u32>, x: u32)
    requires
        a.len() % 3 == 0,
    ensures
        count_tris_with(a + b, x) == count_tris_with(a, x) + count_tris_with(b, x),
    decreases a.len(),
{
    if a.len() == 0 {
        assert(a + b =~= b);
    } else {
        assert((a + b)[0] == a[0] && (a + b)[1] == a[1] && (a + b)[2] == a[2]);
        assert((a + b).skip(3) =~= a.skip(3) + b);
        lemma_count_tris_concat(a.skip(3), b, x);
    }
}

/// How often a pole index occurs among the triangles of one filled
/// sphere band: every triangle of the north band contains the north
/// pole, every triangle of the south band contains the south pole, and
/// no other band touches either pole.
pub proof fn lemma_sphere_band_count(u_s: int, v_s: int, v: int, t: int, x: u32)
    requires
        u_s >= 3,
        v_s >= 3,
        0 <= v <= v_s - 2,
        0 <= t <= u_s,
        sphere_last(u_s, v_s) <= u32::MAX,
        x == 0 || x == sphere_last(u_s, v_s) as u32,
    ensures
        count_tris_with(sphere_band_upto(u_s, v_s, false, v, t), x) == if (x == 0 && v == 0) || (
        x != 0 && v == v_s - 2) {
            t
        } else {
            0int
        },
    decreases t,
{
    let last = sphere_last(u_s, v_s);
    assert(u_s <= u_s * (v_s - 2)) by (nonlinear_arith)
        requires
            u_s >= 3,
            v_s >= 3,
    ;
    assert(u_s * (v_s - 2) == (v_s - 2) * u_s) by (nonlinear_arith);
    if t > 0 {
        lemma_sphere_band_count(u_s, v_s, v, t - 1, x);
        let u = t - 1;
        let prev = sphere_band_upto(u_s, v_s, false, v, t - 1);
        let seg = sphere_seg_ids(u_s, v_s, false, v, u);
        lemma_sphere_band_len(u_s, v_s, false, v, t - 1);
        assert(prev.len() % 3 == 0) by (nonlinear_arith)
            requires
                prev.len() == (t - 1) * sphere_seg_len(v_s, false, v),
                sphere_seg_len(v_s, false, v) == 3 || sphere_seg_len(v_s, false, v) == 6,
                t >= 1,
        ;
        lemma_count_tris_concat(prev, seg, x);
        let p_shift = if v == 0 {
            1int
        } else {
            1 + (v - 1) * u_s
        };
        if v != 0 {
            assert((v - 1) * u_s + u_s == v * u_s) by (nonlinear_arith);
            assert(v * u_s <= (v_s - 2) * u_s) by (nonlinear_arith)
                requires
                    1 <= v <= v_s - 2,
                    u_s >= 3,
            ;
            if v <= v_s - 3 {
                assert((v + 1) * u_s <= (v_s - 2) * u_s) by (nonlinear_arith)
                    requires
                        1 <= v <= v_s - 3,
                        u_s >= 3,
                ;
                assert(v * u_s + u_s == (v + 1) * u_s) by (nonlinear_arith);
            }
        }
        if v == 0 || v == v_s - 2 {
            assert(seg.skip(3) =~= Seq::<u32>::empty());
            assert(count_tris_with(Seq::<u32>::empty(), x) == 0);
            assert(count_tris_with(seg, x) == if (x == 0 && v == 0) || (x != 0 && v == v_s - 2) {
                1int
            } else {
                0
            });
        } else {
            let p0v = u + p_shift;
            let p1v = p0v + u_s;
            let p2v = if u == u_s - 1 {
                p_shift + u_s
            } else {
                p1v + 1
            };
            let p3v = if u == u_s - 1 {
                p_shift
            } else {
                p0v + 1
            };
            assert(1 <= p0v <= last - 1);
            assert(1 <= p1v <= last - 1);
            assert(1 <= p2v <= last - 1);
            assert(1 <= p3v <= last - 1);
            assert(seg == seq![
                p0v as u32,
                p1v as u32,
                p2v as u32,
                p2v as u32,
                p3v as u32,
                p0v as u32,
            ]);
            assert(p0v as u32 != x && p1v as u32 != x && p2v as u32 != x && p3v as u32 != x);
            let rest = seg.skip(3);
            assert(rest =~= seq![p2v as u32, p3v as u32, p0v as u32]);
            assert(rest.skip(3) =~= Seq::<u32>::empty());
            assert(count_tris_with(Seq::<u32>::empty(), x) == 0);
            assert(count_tris_with(rest, x) == 0);
            assert(count_tris_with(seg, x) == 0);
        }
    }
}

/// How often a pole index occurs among the triangles of the first `t`
/// filled sphere bands.
pub proof fn lemma_sphere_bands_count(u_s: int, v_s: int, t: int, x: u32)
    requires
        u_s >= 3,
        v_s >= 3,
        0 <= t <= v_s - 1,
        sphere_last(u_s, v_s) <= u32::MAX,
        x == 0 || x == sphere_last(u_s, v_s) as u32,
    ensures
        count_tris_with(sphere_bands_upto(u_s, v_s, false, t), x) == if x == 0 {
            if t >= 1 {
                u_s
            } else {
                0int
            }
        } else {
            if t >= v_s - 1 {
                u_s
            } else {
                0int
            }
        },
    decreases t,
{
    if t > 0 {
        lemma_sphere_bands_count(u_s, v_s, t - 1, x);
        lemma_sphere_band_count(u_s, v_s, t - 1, u_s, x);
        lemma_sphere_ids_len(u_s, v_s, false, t - 1);
        let prev = sphere_bands_upto(u_s, v_s, false, t - 1);
        if t - 1 == 0 {
            assert(prev.len() == 0);
        } else if t - 1 <= v_s - 2 {
            let k = u_s + 2 * (u_s * (t - 2));
            assert(prev.len() == 3 * k) by (nonlinear_arith)
                requires
                    prev.len() == 3 * u_s + 6 * u_s * (t - 2),
                    k == u_s + 2 * (u_s * (t - 2)),
            ;
            assert((3 * k) % 3 == 0) by (nonlinear_arith);
        } else {
            let k = 2 * (u_s * (v_s - 2));
            assert(prev.len() == 3 * k) by (nonlinear_arith)
                requires
                    prev.len() == 6 * u_s * (v_s - 2),
                    k == 2 * (u_s * (v_s - 2)),
            ;
            assert((3 * k) % 3 == 0) by (nonlinear_arith);
        }
        lemma_count_tris_concat(prev, sphere_band_upto(u_s, v_s, false, t - 1, u_s), x);
    }
}

/// In a filled sphere mesh with `u_sub` columns and an effective (odd)
/// ring parameter `v_sub`, the two pole points each appear in exactly
/// `u_sub` triangles.
pub proof fn lemma_sphere_pole_triangles(u_s: int, v_s: int)
    requires
        u_s >= 3,
        v_s >= 3,
        sphere_last(u_s, v_s) <= u32::MAX,
    ensures
        count_tris_with(sphere_bands_upto(u_s, v_s, false, v_s - 1), 0u32) == u_s,
        count_tris_with(
            sphere_bands_upto(u_s, v_s, false, v_s - 1),
            sphere_last(u_s, v_s) as u32,
        ) == u_s,
{
    assert(u_s <= u_s * (v_s - 2)) by (nonlinear_arith)
        requires
            u_s >= 3,
            v_s >= 3,
    ;
    lemma_sphere_bands_count(u_s, v_s, v_s - 1, 0u32);
    lemma_sphere_bands_count(u_s, v_s, v_s - 1, sphere_last(u_s, v_s) as u32);
}

/// One drawable object: raw geometry, its draw class, and the dirty flag
/// that drives buffer re-uploads.
#[derive(Debug, Clone)]
pub struct ShapeBase {
    /// Which generator produced the shape; informational only.
    pub shape: ShapeType,
    /// The base primitive topology of the index list.
    pub render_type: RenderType,
    /// Whether the material is alpha-blended; routes the shape into the
    /// transparent draw classes regardless of its base topology.
    pub transparent: bool,
    /// True whenever the geometry changed since the last buffer upload.
    pub modified: bool,
    /// An informational back-reference to a parent shape's handle; never
    /// an ownership edge.
    pub parent: Option<usize>,
    pub points: Vec<Point3>,
    pub colors: Vec<Color4>,
    pub indices: Vec<u32>,
}

impl ShapeBase {
    /// Geometric consistency: one color per point, and every index
    /// addresses a point.
    pub open spec fn wf(self) -> bool {
        &&& self.colors@.len() == self.points@.len()
        &&& forall|i: int|
            0 <= i < self.indices@.len() ==> (self.indices@[i] as int) < self.points@.len()
    }

    /// Runtime form of [`Self::wf`]; an inconsistent shape is skipped for
    /// the frame rather than drawn.
    pub fn check(&self) -> (ok: bool)
        ensures
            ok == self.wf(),
    {
        if self.colors.len() != self.points.len() {
            return false;
        }
        let n = self.points.len();
        let mut i: usize = 0;
        while i < self.indices.len()
            invariant
                0 <= i <= self.indices@.len(),
                n == self.points@.len(),
                forall|j: int| 0 <= j < i ==> (self.indices@[j] as int) < n,
            decreases self.indices@.len() - i,
        {
            if self.indices[i] as usize >= n {
                return false;
            }
            i += 1;
        }
        true
    }

    /// An empty shape of the given class, as used for per-frame scratch
    /// geometry.
    pub fn empty(render_type: RenderType) -> (s: ShapeBase)
        ensures
            s.render_type == render_type,
            s.points@ =~= Seq::<Point3>::empty(),
            s.colors@ =~= Seq::<Color4>::empty(),
            s.indices@ =~= Seq::<u32>::empty(),
            s.shape == ShapeType::Polygon,
            !s.transparent,
            s.modified,
            s.parent.is_none(),
            s.wf(),
    {
        ShapeBase {
            shape: ShapeType::Polygon,
            render_type,
            transparent: false,
            modified: true,
            parent: None,
            points: Vec::new(),
            colors: Vec::new(),
            indices: Vec::new(),
        }
    }

    pub fn get_render_type(&self) -> (t: RenderType)
        ensures
            t == self.render_type,
    {
        self.render_type
    }

    pub fn should_repaint(&self) -> (b: bool)
        ensures
            b == self.modified,
    {
        self.modified
    }

    pub fn set_repaint(&mut self, repaint: bool)
        ensures
            *final(self) == (ShapeBase { modified: repaint, ..*old(self) }),
    {
        self.modified = repaint;
    }

    /// Marks the material alpha-blended (or opaque again); this only
    /// affects which draw class the shape is routed into.
    pub fn set_transparent(&mut self, transparent: bool)
        ensures
            *final(self) == (ShapeBase { transparent, ..*old(self) }),
    {
        self.transparent = transparent;
    }

    /// Raw construction: points moved or borrowed, colors broadcast or
    /// explicit, indices implicit (`0..n`) or explicit.
    pub fn new_raw(
        points: InitType<'_, Point3>,
        colors: ColorType<'_>,
        indices: IndicesType<'_>,
        render_type: RenderType,
    ) -> (s: ShapeBase)
        requires
            points.items().len() <= u32::MAX,
        ensures
            s.points@ == points.items(),
            s.colors@ == colors.items(points.items().len() as int),
            s.indices@ == indices.items(points.items().len() as int),
            s.render_type == render_type,
            s.shape == ShapeType::Polygon,
            !s.transparent,
            s.modified,
            s.parent.is_none(),
    {
        let n_points = points.len();
        let points_vec: Vec<Point3> = match points {
            InitType::Ref(ps) => vstd::slice::slice_to_vec(ps),
            InitType::Move(v) => v,
        };
        let colors_vec: Vec<Color4> = match colors {
            ColorType::Each(init) => match init {
                InitType::Ref(cs) => vstd::slice::slice_to_vec(cs),
                InitType::Move(v) => v,
            },
            ColorType::Uniform(c) => {
                let mut v: Vec<Color4> = Vec::new();
                let mut i: usize = 0;
                while i < n_points
                    invariant
                        0 <= i <= n_points,
                        v@ =~= Seq::new(i as nat, |k: int| c),
                    decreases n_points - i,
                {
                    v.push(c);
                    i += 1;
                }
                proof {
                    assert(v@ =~= Seq::new(n_points as nat, |k: int| c));
                }
                v
            },
        };
        let indices_vec: Vec<u32> = match indices {
            IndicesType::Sequence => {
                let mut v: Vec<u32> = Vec::new();
                let mut i: usize = 0;
                while i < n_points
                    invariant
                        0 <= i <= n_points,
                        n_points <= u32::MAX,
                        v@ =~= Seq::new(i as nat, |k: int| k as u32),
                    decreases n_points - i,
                {
                    v.push(i as u32);
                    i += 1;
                }
                proof {
                    assert(v@ =~= seq_indices(n_points as int));
                }
                v
            },
            IndicesType::Partial(init) => match init {
                InitType::Ref(ids) => vstd::slice::slice_to_vec(ids),
                InitType::Move(v) => v,
            },
        };
        ShapeBase {
            shape: ShapeType::Polygon,
            render_type,
            transparent: false,
            modified: true,
            parent: None,
            points: points_vec,
            colors: colors_vec,
            indices: indices_vec,
        }
    }

    /// One merge step: `other`'s points transformed by `m` and appended,
    /// colors appended, indices renumbered by the running point count.
    pub fn combine_one(&mut self, other: &ShapeBase, m: &Mat4)
        requires
            other.wf(),
            old(self).points@.len() + other.points@.len() <= u32::MAX,
        ensures
            final(self).points@ == old(self).points@ + transformed_points(other.points@, *m),
            final(self).colors@ == old(self).colors@ + other.colors@,
            final(self).indices@ == old(self).indices@ + shifted_indices(
                other.indices@,
                old(self).points@.len() as int,
            ),
            final(self).modified,
            final(self).render_type == old(self).render_type,
            final(self).transparent == old(self).transparent,
            final(self).shape == old(self).shape,
            final(self).parent == old(self).parent,
    {
        let offset = self.points.len() as u32;
        let ghost base_points = self.points@;
        let ghost base_colors = self.colors@;
        let ghost base_indices = self.indices@;
        let mut j: usize = 0;
        while j < other.points.len()
            invariant
                0 <= j <= other.points@.len(),
                self.points@ =~= base_points + transformed_points(other.points@, *m).take(j as int),
                self.colors@ == base_colors,
                self.indices@ == base_indices,
                self.render_type == old(self).render_type,
                self.transparent == old(self).transparent,
                self.shape == old(self).shape,
                self.parent == old(self).parent,
                self.modified == old(self).modified,
            decreases other.points@.len() - j,
        {
            let p = transform_point(m, other.points[j]);
            self.points.push(p);
            j += 1;
        }
        proof {
            assert(self.points@ =~= base_points + transformed_points(other.points@, *m));
        }
        let mut j: usize = 0;
        while j < other.colors.len()
            invariant
                0 <= j <= other.colors@.len(),
                self.points@ == base_points + transformed_points(other.points@, *m),
                self.colors@ =~= base_colors + other.colors@.take(j as int),
                self.indices@ == base_indices,
                self.render_type == old(self).render_type,
                self.transparent == old(self).transparent,
                self.shape == old(self).shape,
                self.parent == old(self).parent,
                self.modified == old(self).modified,
            decreases other.colors@.len() - j,
        {
            let c = other.colors[j];
            self.colors.push(c);
            j += 1;
        }
        proof {
            assert(self.colors@ =~= base_colors + other.colors@);
        }
        let mut j: usize = 0;
        while j < other.indices.len()
            invariant
                0 <= j <= other.indices@.len(),
                offset == base_points.len(),
                other.wf(),
                base_points.len() + other.points@.len() <= u32::MAX,
                self.points@ == base_points + transformed_points(other.points@, *m),
                self.colors@ == base_colors + other.colors@,
                self.indices@ =~= base_indices + shifted_indices(
                    other.indices@,
                    base_points.len() as int,
                ).take(j as int),
                self.render_type == old(self).render_type,
                self.transparent == old(self).transparent,
                self.shape == old(self).shape,
                self.parent == old(self).parent,
                self.modified == old(self).modified,
            decreases other.indices@.len() - j,
        {
            let id = other.indices[j];
            assert((id as int) < other.points@.len());
            self.indices.push(id + offset);
            j += 1;
        }
        proof {
            assert(self.indices@ =~= base_indices + shifted_indices(
                other.indices@,
                base_points.len() as int,
            ));
        }
        self.modified = true;
    }

    /// Merges a list of shapes into this one, each pre-transformed by its
    /// 4x4 matrix; colors are concatenated and indices renumbered by the
    /// running point count of everything merged so far.
    pub fn combination(&mut self, others: Vec<(ShapeBase, Mat4)>)
        requires
            old(self).points@.len() + total_points(others@) <= u32::MAX,
            forall|k: int| 0 <= k < others@.len() ==> (#[trigger] others@[k]).0.wf(),
        ensures
            final(self).points@ == combined_points(old(self).points@, others@),
            final(self).colors@ == combined_colors(old(self).colors@, others@),
            final(self).indices@ == combined_indices(
                old(self).indices@,
                old(self).points@.len() as int,
                others@,
            ),
            final(self).modified,
            final(self).render_type == old(self).render_type,
            final(self).transparent == old(self).transparent,
            final(self).shape == old(self).shape,
            final(self).parent == old(self).parent,
    {
        let ghost all = others@;
        let ghost base_n = old(self).points@.len() as int;
        let mut k: usize = 0;
        proof {
            lemma_total_points_nonneg(all);
        }
        while k < others.len()
            invariant
                0 <= k <= all.len(),
                others@ == all,
                base_n + total_points(all) <= u32::MAX,
                forall|i: int| 0 <= i < all.len() ==> (#[trigger] all[i]).0.wf(),
                self.points@ == combined_points(old(self).points@, all.take(k as int)),
                self.colors@ == combined_colors(old(self).colors@, all.take(k as int)),
                self.indices@ == combined_indices(old(self).indices@, base_n, all.take(k as int)),
                self.points@.len() == base_n + total_points(all.take(k as int)),
                self.render_type == old(self).render_type,
                self.transparent == old(self).transparent,
                self.shape == old(self).shape,
                self.parent == old(self).parent,
                k > 0 ==> self.modified,
                k == 0 ==> self.modified == old(self).modified,
            decreases all.len() - k,
        {
            proof {
                lemma_total_points_take_step(all, k as int);
                lemma_total_points_nonneg(all.skip(k as int + 1));
            }
            let pair = &others[k];
            self.combine_one(&pair.0, &pair.1);
            proof {
                lemma_combined_points_snoc(old(self).points@, all, k as int);
                lemma_combined_colors_snoc(old(self).colors@, all, k as int);
                lemma_combined_indices_snoc(old(self).indices@, base_n, all, k as int);
            }
            k += 1;
        }
        proof {
            assert(all.take(all.len() as int) =~= all);
        }
        self.modified = true;
    }

    /// The corner layout of the square of side `size` (a binary32 bit
    /// pattern), counter-clockwise in the `z == 0` plane.
    pub open spec fn square_points_spec(size: u32) -> Seq<Point3> {
        let h = div_bits(size, TWO_BITS);
        let n = neg_bits(h);
        seq![
            Point3 { x: n, y: n, z: ZERO_BITS },
            Point3 { x: h, y: n, z: ZERO_BITS },
            Point3 { x: h, y: h, z: ZERO_BITS },
            Point3 { x: n, y: h, z: ZERO_BITS },
        ]
    }

    /// Four corner points; filled: two triangles `0,1,2` and `2,3,0`;
    /// wire: the closed four-edge strip `0,1,2,3,0`.
    pub fn new_square(size: u32, color: Color4, wire: bool) -> (s: ShapeBase)
        ensures
            s.points@ == ShapeBase::square_points_spec(size),
            s.colors@ == Seq::new(4, |i: int| color),
            s.indices@ == if wire { seq![0u32, 1, 2, 3, 0] } else { seq![0u32, 1, 2, 2, 3, 0] },
            s.render_type == if wire { RenderType::LineStrip } else { RenderType::Triangle },
            !s.transparent,
            s.modified,
            s.wf(),
    {
        let half = fdiv(size, TWO_BITS);
        let neg = fneg(half);
        let mut points: Vec<Point3> = Vec::new();
        points.push(Point3 { x: neg, y: neg, z: ZERO_BITS });
        points.push(Point3 { x: half, y: neg, z: ZERO_BITS });
        points.push(Point3 { x: half, y: half, z: ZERO_BITS });
        points.push(Point3 { x: neg, y: half, z: ZERO_BITS });
        let mut ids: Vec<u32> = Vec::new();
        if wire {
            ids.push(0);
            ids.push(1);
            ids.push(2);
            ids.push(3);
            ids.push(0);
        } else {
            ids.push(0);
            ids.push(1);
            ids.push(2);
            ids.push(2);
            ids.push(3);
            ids.push(0);
        }
        proof {
            assert(points@ =~= ShapeBase::square_points_spec(size));
            if wire {
                assert(ids@ =~= seq![0u32, 1, 2, 3, 0]);
            } else {
                assert(ids@ =~= seq![0u32, 1, 2, 2, 3, 0]);
            }
        }
        let s = ShapeBase::new_raw(
            InitType::Move(points),
            ColorType::new_uniform(color),
            IndicesType::new(ids),
            if wire {
                RenderType::LineStrip
            } else {
                RenderType::Triangle
            },
        );
        proof {
            assert(s.colors@ =~= Seq::new(4, |i: int| color));
        }
        s
    }

    /// The per-face index pattern of the cube: a four-edge wire loop or
    /// two filled triangles over the face's four corners.
    pub open spec fn cube_pattern_spec(wire: bool) -> Seq<u32> {
        if wire {
            seq![0u32, 1, 1, 2, 2, 3, 3, 0]
        } else {
            seq![0u32, 1, 2, 2, 3, 0]
        }
    }

    /// The 24 cube corners, four per face, faces in the fixed order
    /// `+X, -X, +Y, -Y, +Z, -Z` so each face can carry a flat color.
    pub open spec fn cube_points_spec(size: u32) -> Seq<Point3> {
        let h = div_bits(size, TWO_BITS);
        let n = neg_bits(h);
        seq![
            Point3 { x: h, y: n, z: n },
            Point3 { x: h, y: h, z: n },
            Point3 { x: h, y: h, z: h },
            Point3 { x: h, y: n, z: h },
            Point3 { x: n, y: h, z: n },
            Point3 { x: n, y: n, z: n },
            Point3 { x: n, y: n, z: h },
            Point3 { x: n, y: h, z: h },
            Point3 { x: h, y: h, z: n },
            Point3 { x: n, y: h, z: n },
            Point3 { x: n, y: h, z: h },
            Point3 { x: h, y: h, z: h },
            Point3 { x: n, y: n, z: n },
            Point3 { x: h, y: n, z: n },
            Point3 { x: h, y: n, z: h },
            Point3 { x: n, y: n, z: h },
            Point3 { x: n, y: n, z: h },
            Point3 { x: h, y: n, z: h },
            Point3 { x: h, y: h, z: h },
            Point3 { x: n, y: h, z: h },
            Point3 { x: n, y: n, z: n },
            Point3 { x: h, y: n, z: n },
            Point3 { x: h, y: h, z: n },
            Point3 { x: n, y: h, z: n },
        ]
    }

    /// 24 points (4 per face, faces duplicated rather than shared), each
    /// face colored flat from the 6-element color array; filled faces
    /// yield triangles, wire faces a four-edge loop.
    pub fn new_cube(size: u32, face_color: [Color4; 6], wire: bool) -> (s: ShapeBase)
        ensures
            s.points@ == ShapeBase::cube_points_spec(size),
            s.points@.len() == 24,
            s.colors@ == Seq::new(24, |i: int| face_color@[i / 4]),
            s.indices@ == cube_ids_upto(ShapeBase::cube_pattern_spec(wire), 6),
            s.render_type == if wire {
                RenderType::Line
            } else {
                RenderType::Triangle
            },
            !s.transparent,
            s.modified,
            s.wf(),
    {
        let half = fdiv(size, TWO_BITS);
        let neg = fneg(half);
        let mut points: Vec<Point3> = Vec::new();
        points.push(Point3 { x: half, y: neg, z: neg });
        points.push(Point3 { x: half, y: half, z: neg });
        points.push(Point3 { x: half, y: half, z: half });
        points.push(Point3 { x: half, y: neg, z: half });
        points.push(Point3 { x: neg, y: half, z: neg });
        points.push(Point3 { x: neg, y: neg, z: neg });
        points.push(Point3 { x: neg, y: neg, z: half });
        points.push(Point3 { x: neg, y: half, z: half });
        points.push(Point3 { x: half, y: half, z: neg });
        points.push(Point3 { x: neg, y: half, z: neg });
        points.push(Point3 { x: neg, y: half, z: half });
        points.push(Point3 { x: half, y: half, z: half });
        points.push(Point3 { x: neg, y: neg, z: neg });
        points.push(Point3 { x: half, y: neg, z: neg });
        points.push(Point3 { x: half, y: neg, z: half });
        points.push(Point3 { x: neg, y: neg, z: half });
        points.push(Point3 { x: neg, y: neg, z: half });
        points.push(Point3 { x: half, y: neg, z: half });
        points.push(Point3 { x: half, y: half, z: half });
        points.push(Point3 { x: neg, y: half, z: half });
        points.push(Point3 { x: neg, y: neg, z: neg });
        points.push(Point3 { x: half, y: neg, z: neg });
        points.push(Point3 { x: half, y: half, z: neg });
        points.push(Point3 { x: neg, y: half, z: neg });
        proof {
            assert(points@ =~= ShapeBase::cube_points_spec(size));
        }
        let mut colors: Vec<Color4> = Vec::new();
        let mut f: usize = 0;
        while f < 6
            invariant
                0 <= f <= 6,
                colors@.len() == 4 * f,
                forall|i: int| 0 <= i < colors@.len() ==> colors@[i] == face_color@[i / 4],
            decreases 6 - f,
        {
            let c = face_color[f];
            colors.push(c);
            colors.push(c);
            colors.push(c);
            colors.push(c);
            f += 1;
        }
        proof {
            assert(colors@ =~= Seq::new(24, |i: int| face_color@[i / 4]));
        }
        let mut pattern: Vec<u32> = Vec::new();
        if wire {
            pattern.push(0);
            pattern.push(1);
            pattern.push(1);
            pattern.push(2);
            pattern.push(2);
            pattern.push(3);
            pattern.push(3);
            pattern.push(0);
        } else {
            pattern.push(0);
            pattern.push(1);
            pattern.push(2);
            pattern.push(2);
            pattern.push(3);
            pattern.push(0);
        }
        proof {
            assert(pattern@ =~= ShapeBase::cube_pattern_spec(wire));
        }
        let mut ids: Vec<u32> = Vec::new();
        let mut f: usize = 0;
        while f < 6
            invariant
                0 <= f <= 6,
                pattern@ == ShapeBase::cube_pattern_spec(wire),
                ids@ == cube_ids_upto(pattern@, f as int),
            decreases 6 - f,
        {
            let mut j: usize = 0;
            while j < pattern.len()
                invariant
                    0 <= j <= pattern@.len(),
                    0 <= f < 6,
                    pattern@ == ShapeBase::cube_pattern_spec(wire),
                    ids@ =~= cube_ids_upto(pattern@, f as int) + shifted_indices(
                        pattern@,
                        4 * (f as int),
                    ).take(j as int),
                decreases pattern@.len() - j,
            {
                let p = pattern[j];
                assert(p < 4);
                ids.push(p + 4 * (f as u32));
                j += 1;
            }
            proof {
                assert(ids@ =~= cube_ids_upto(pattern@, f as int) + shifted_indices(
                    pattern@,
                    4 * (f as int),
                ));
                assert(ids@ =~= cube_ids_upto(pattern@, f as int + 1));
            }
            f += 1;
        }
        let s = ShapeBase::new_raw(
            InitType::Move(points),
            ColorType::new_each(colors),
            IndicesType::new(ids),
            if wire {
                RenderType::Line
            } else {
                RenderType::Triangle
            },
        );
        proof {
            lemma_cube_ids_upto_bound(ShapeBase::cube_pattern_spec(wire), 6);
        }
        s
    }

    /// One center point plus `sub` rim points (`sub` clamped to at least
    /// 3) evenly spaced in the `z == 0` plane; filled: a triangle fan
    /// through the center with a wrap at the last segment; wire: the rim
    /// loop's edges, the center point unused by the index list.
    pub fn new_circle(r: u32, sub: u32, color: Color4, wire: bool) -> (s: ShapeBase)
        requires
            sub < u32::MAX,
        ensures
            ({
                let se = if sub < 3 {
                    3int
                } else {
                    sub as int
                };
                &&& s.points@.len() == se + 1
                &&& s.points@[0] == Point3::zero_spec()
                &&& forall|i: int| 1 <= i <= se ==> (#[trigger] s.points@[i]).z == ZERO_BITS
                &&& s.colors@ == Seq::new((se + 1) as nat, |i: int| color)
                &&& s.indices@ == circle_ids_upto(se, wire, se)
                &&& s.indices@.len() == (if wire {
                    2int
                } else {
                    3int
                }) * se
                &&& s.render_type == if wire {
                    RenderType::LineStrip
                } else {
                    RenderType::Triangle
                }
                &&& !s.transparent
                &&& s.modified
                &&& s.wf()
            }),
    {
        let sub = if sub < 3 {
            3
        } else {
            sub
        };
        let d = fdiv(fmul(TWO_BITS, PI_BITS), itof(sub));
        let mut points: Vec<Point3> = Vec::new();
        points.push(Point3::zero());
        let mut ids: Vec<u32> = Vec::new();
        let mut i: u32 = 0;
        while i < sub
            invariant
                3 <= sub < u32::MAX,
                0 <= i <= sub,
                points@.len() == i + 1,
                points@[0] == Point3::zero_spec(),
                forall|k: int| 1 <= k <= i ==> (#[trigger] points@[k]).z == ZERO_BITS,
                ids@ == circle_ids_upto(sub as int, wire, i as int),
                ids@.len() == (if wire {
                    2int
                } else {
                    3int
                }) * i,
                forall|k: int| 0 <= k < ids@.len() ==> (#[trigger] ids@[k]) <= sub,
            decreases sub - i,
        {
            let rad = fmul(d, itof(i));
            let x = fmul(fcos(rad), r);
            let y = fmul(fsin(rad), r);
            points.push(Point3 { x, y, z: ZERO_BITS });
            let next: u32 = if i == sub - 1 {
                1
            } else {
                i + 2
            };
            if wire {
                ids.push(i + 1);
                ids.push(next);
            } else {
                ids.push(0);
                ids.push(i + 1);
                ids.push(next);
            }
            proof {
                assert(ids@ =~= circle_ids_upto(sub as int, wire, i as int + 1));
            }
            i += 1;
        }
        ShapeBase::new_raw(
            InitType::Move(points),
            ColorType::new_uniform(color),
            IndicesType::new(ids),
            if wire {
                RenderType::LineStrip
            } else {
                RenderType::Triangle
            },
        )
    }

    /// A cone: base center at the origin (point 0), apex on the z axis at
    /// `height` (point 1), and `u_sub` rim points (clamped to at least 3)
    /// in the base plane; filled: one side and one base-cap triangle per
    /// rim segment, sharing rim points; wire: the apex spokes and the rim
    /// loop's edges.
    pub fn new_cone(r: u32, u_sub: u32, height: u32, color: Color4, wire: bool) -> (s: ShapeBase)
        requires
            u_sub <= u32::MAX - 2,
        ensures
            ({
                let ue = if u_sub < 3 {
                    3int
                } else {
                    u_sub as int
                };
                &&& s.points@.len() == ue + 2
                &&& s.points@[0] == Point3::zero_spec()
                &&& s.points@[1] == (Point3 { x: ZERO_BITS, y: ZERO_BITS, z: height })
                &&& forall|i: int| 2 <= i < ue + 2 ==> (#[trigger] s.points@[i]).z == ZERO_BITS
                &&& s.colors@ == Seq::new((ue + 2) as nat, |i: int| color)
                &&& s.indices@ == cone_ids_upto(ue, wire, ue)
                &&& s.indices@.len() == (if wire {
                    4int
                } else {
                    6int
                }) * ue
                &&& s.render_type == if wire {
                    RenderType::Line
                } else {
                    RenderType::Triangle
                }
                &&& !s.transparent
                &&& s.modified
                &&& s.wf()
            }),
    {
        let u_sub = if u_sub < 3 {
            3
        } else {
            u_sub
        };
        let u_rad = fdiv(fmul(TWO_BITS, PI_BITS), itof(u_sub));
        let mut points: Vec<Point3> = Vec::new();
        points.push(Point3::zero());
        points.push(Point3 { x: ZERO_BITS, y: ZERO_BITS, z: height });
        let mut ids: Vec<u32> = Vec::new();
        let mut i: u32 = 0;
        while i < u_sub
            invariant
                3 <= u_sub <= u32::MAX - 2,
                0 <= i <= u_sub,
                points@.len() == i + 2,
                points@[0] == Point3::zero_spec(),
                points@[1] == (Point3 { x: ZERO_BITS, y: ZERO_BITS, z: height }),
                forall|k: int| 2 <= k < i + 2 ==> (#[trigger] points@[k]).z == ZERO_BITS,
                ids@ == cone_ids_upto(u_sub as int, wire, i as int),
                ids@.len() == (if wire {
                    4int
                } else {
                    6int
                }) * i,
                forall|k: int| 0 <= k < ids@.len() ==> (#[trigger] ids@[k]) <= u_sub + 1,
            decreases u_sub - i,
        {
            let rad = fmul(u_rad, itof(i));
            let x = fmul(fcos(rad), r);
            let y = fmul(fsin(rad), r);
            points.push(Point3 { x, y, z: ZERO_BITS });
            let p0: u32 = i + 2;
            let next: u32 = if i == u_sub - 1 {
                2
            } else {
                i + 3
            };
            if wire {
                ids.push(1);
                ids.push(p0);
                ids.push(p0);
                ids.push(next);
            } else {
                ids.push(1);
                ids.push(p0);
                ids.push(next);
                ids.push(0);
                ids.push(next);
                ids.push(p0);
            }
            proof {
                assert(ids@ =~= cone_ids_upto(u_sub as int, wire, i as int + 1));
            }
            i += 1;
        }
        ShapeBase::new_raw(
            InitType::Move(points),
            ColorType::new_uniform(color),
            IndicesType::new(ids),
            if wire {
                RenderType::Line
            } else {
                RenderType::Triangle
            },
        )
    }

    /// A cylinder: the two cap centers on the z axis at half the height
    /// (points 0 and 1), a top rim ring (points `2 .. u_sub + 2`) and a
    /// bottom rim ring directly below it (points `u_sub + 2 .. 2 * u_sub
    /// + 2`); filled: per segment a top-cap triangle, the quad's two side
    /// triangles and a bottom-cap triangle; wire: the vertical edges and
    /// the two rim loops.
    pub fn new_cylinder(r: u32, u_sub: u32, height: u32, color: Color4, wire: bool) -> (s:
        ShapeBase)
        requires
            u_sub <= (u32::MAX - 2) / 2,
        ensures
            ({
                let ue = if u_sub < 3 {
                    3int
                } else {
                    u_sub as int
                };
                let half = div_bits(height, TWO_BITS);
                &&& s.points@.len() == 2 * ue + 2
                &&& s.points@[0] == (Point3 { x: ZERO_BITS, y: ZERO_BITS, z: half })
                &&& s.points@[1] == (Point3 { x: ZERO_BITS, y: ZERO_BITS, z: neg_bits(half) })
                &&& forall|i: int| 2 <= i < ue + 2 ==> (#[trigger] s.points@[i]).z == half
                &&& forall|i: int|
                    0 <= i < ue ==> (#[trigger] s.points@[ue + 2 + i]) == (Point3 {
                        x: s.points@[2 + i].x,
                        y: s.points@[2 + i].y,
                        z: neg_bits(half),
                    })
                &&& s.colors@ == Seq::new((2 * ue + 2) as nat, |i: int| color)
                &&& s.indices@ == cylinder_ids_upto(ue, wire, ue)
                &&& s.indices@.len() == (if wire {
                    6int
                } else {
                    12int
                }) * ue
                &&& s.render_type == if wire {
                    RenderType::Line
                } else {
                    RenderType::Triangle
                }
                &&& !s.transparent
                &&& s.modified
                &&& s.wf()
            }),
    {
        let u_sub = if u_sub < 3 {
            3
        } else {
            u_sub
        };
        let half = fdiv(height, TWO_BITS);
        let nhalf = fneg(half);
        let u_rad = fdiv(fmul(TWO_BITS, PI_BITS), itof(u_sub));
        let mut points: Vec<Point3> = Vec::new();
        points.push(Point3 { x: ZERO_BITS, y: ZERO_BITS, z: half });
        points.push(Point3 { x: ZERO_BITS, y: ZERO_BITS, z: nhalf });
        let mut bottom: Vec<Point3> = Vec::new();
        let mut ids: Vec<u32> = Vec::new();
        let mut i: u32 = 0;
        while i < u_sub
            invariant
                3 <= u_sub <= (u32::MAX - 2) / 2,
                0 <= i <= u_sub,
                points@.len() == i + 2,
                bottom@.len() == i,
                points@[0] == (Point3 { x: ZERO_BITS, y: ZERO_BITS, z: half }),
                points@[1] == (Point3 { x: ZERO_BITS, y: ZERO_BITS, z: nhalf }),
                forall|k: int| 2 <= k < i + 2 ==> (#[trigger] points@[k]).z == half,
                forall|k: int|
                    0 <= k < i ==> (#[trigger] bottom@[k]) == (Point3 {
                        x: points@[2 + k].x,
                        y: points@[2 + k].y,
                        z: nhalf,
                    }),
                ids@ == cylinder_ids_upto(u_sub as int, wire, i as int),
                ids@.len() == (if wire {
                    6int
                } else {
                    12int
                }) * i,
                forall|k: int| 0 <= k < ids@.len() ==> (#[trigger] ids@[k]) <= 2 * u_sub + 1,
            decreases u_sub - i,
        {
            let rad = fmul(u_rad, itof(i));
            let cx = fmul(fcos(rad), r);
            let sy = fmul(fsin(rad), r);
            points.push(Point3 { x: cx, y: sy, z: half });
            bottom.push(Point3 { x: cx, y: sy, z: nhalf });
            let p0: u32 = i + 2;
            let p1: u32 = p0 + u_sub;
            let p3: u32 = if i == u_sub - 1 {
                2
            } else {
                i + 3
            };
            let p2: u32 = p3 + u_sub;
            if wire {
                ids.push(p0);
                ids.push(p1);
                ids.push(p0);
                ids.push(p3);
                ids.push(p1);
                ids.push(p2);
            } else {
                ids.push(p0);
                ids.push(p3);
                ids.push(0);
                ids.push(p0);
                ids.push(p1);
                ids.push(p2);
                ids.push(p2);
                ids.push(p3);
                ids.push(p0);
                ids.push(p1);
                ids.push(1);
                ids.push(p2);
            }
            proof {
                assert(ids@ =~= cylinder_ids_upto(u_sub as int, wire, i as int + 1));
            }
            i += 1;
        }
        let ghost top_done = points@;
        let mut j: usize = 0;
        while j < bottom.len()
            invariant
                bottom@.len() == u_sub,
                points@.len() == top_done.len() + j,
                0 <= j <= bottom@.len(),
                top_done.len() == u_sub + 2,
                points@ =~= top_done + bottom@.take(j as int),
            decreases bottom@.len() - j,
        {
            let p = bottom[j];
            points.push(p);
            j += 1;
        }
        proof {
            assert(points@ =~= top_done + bottom@);
        }
        ShapeBase::new_raw(
            InitType::Move(points),
            ColorType::new_uniform(color),
            IndicesType::new(ids),
            if wire {
                RenderType::Line
            } else {
                RenderType::Triangle
            },
        )
    }

    /// A UV-sphere: a north pole point, `v_sub - 2` latitude rings of
    /// `u_sub` points each, and a south pole point (`u_sub`, `v_sub`
    /// clamped to at least 3, `v_sub` rounded up to odd so the rings are
    /// symmetric).  Filled: pole bands fan to the neighbouring ring and
    /// interior bands split each quad in two, wrapping at the seam; wire:
    /// pole spokes, ring loops and one longitudinal edge per column.
    pub fn new_sphere(r: u32, u_sub: u32, v_sub: u32, color: Color4, wire: bool) -> (s: ShapeBase)
        requires
            ({
                let ue = if u_sub < 3 {
                    3int
                } else {
                    u_sub as int
                };
                let v0 = if v_sub < 3 {
                    3int
                } else {
                    v_sub as int
                };
                let ve = if v0 % 2 == 0 {
                    v0 + 1
                } else {
                    v0
                };
                ue * (ve - 2) + 2 <= u32::MAX
            }),
        ensures
            ({
                let ue = if u_sub < 3 {
                    3int
                } else {
                    u_sub as int
                };
                let v0 = if v_sub < 3 {
                    3int
                } else {
                    v_sub as int
                };
                let ve = if v0 % 2 == 0 {
                    v0 + 1
                } else {
                    v0
                };
                &&& s.points@.len() == ue * (ve - 2) + 2
                &&& s.points@[0] == (Point3 { x: ZERO_BITS, y: ZERO_BITS, z: r })
                &&& s.points@[ue * (ve - 2) + 1] == (Point3 {
                    x: ZERO_BITS,
                    y: ZERO_BITS,
                    z: neg_bits(r),
                })
                &&& s.colors@ == Seq::new((ue * (ve - 2) + 2) as nat, |i: int| color)
                &&& s.indices@ == sphere_bands_upto(ue, ve, wire, ve - 1)
                &&& s.indices@.len() == (if wire {
                    2 * ue + 4 * ue * (ve - 2)
                } else {
                    6 * ue * (ve - 2)
                })
                &&& s.render_type == if wire {
                    RenderType::Line
                } else {
                    RenderType::Triangle
                }
                &&& !s.transparent
                &&& s.modified
                &&& s.wf()
            }),
    {
        let ue: u32 = if u_sub < 3 {
            3
        } else {
            u_sub
        };
        let v0: u32 = if v_sub < 3 {
            3
        } else {
            v_sub
        };
        let ve: u32 = if v0 % 2 == 0 {
            v0 + 1
        } else {
            v0
        };
        proof {
            assert((ue as int) * (ve as int - 2) >= ue as int) by (nonlinear_arith)
                requires
                    ue >= 3,
                    ve >= 3,
            ;
        }
        let last: u32 = ue * (ve - 2) + 1;
        let v_rad = fdiv(PI_BITS, itof(ve - 1));
        let u_rad = fdiv(fmul(PI_BITS, TWO_BITS), itof(ue));
        let mut points: Vec<Point3> = Vec::new();
        points.push(Point3 { x: ZERO_BITS, y: ZERO_BITS, z: r });
        let mut v: u32 = 1;
        proof {
            assert((v as int - 1) * (ue as int) == 0) by (nonlinear_arith)
                requires
                    v == 1,
            ;
        }
        while v < ve - 1
            invariant
                3 <= ue,
                3 <= ve,
                1 <= v <= ve - 1,
                (ue as int) * (ve as int - 2) + 2 <= u32::MAX,
                points@.len() == 1 + (v as int - 1) * (ue as int),
                points@[0] == (Point3 { x: ZERO_BITS, y: ZERO_BITS, z: r }),
            decreases ve - 1 - v,
        {
            let z = fcos(fmul(v_rad, itof(v)));
            let mut u: u32 = 0;
            while u < ue
                invariant
                    3 <= ue,
                    0 <= u <= ue,
                    1 <= v,
                    points@.len() == 1 + (v as int - 1) * (ue as int) + u,
                    points@.len() >= 1,
                    points@[0] == (Point3 { x: ZERO_BITS, y: ZERO_BITS, z: r }),
                decreases ue - u,
            {
                let a = fmul(u_rad, itof(u));
                let x = fcos(a);
                let y = fsin(a);
                points.push(Point3 { x, y, z });
                u += 1;
            }
            proof {
                assert((v as int - 1) * (ue as int) + ue as int == (v as int) * (ue as int))
                    by (nonlinear_arith);
                assert((v as int) * (ue as int) <= (ve as int - 2) * (ue as int))
                    by (nonlinear_arith)
                    requires
                        1 <= v as int <= ve as int - 2,
                        3 <= ue as int,
                ;
                assert((ve as int - 2) * (ue as int) == (ue as int) * (ve as int - 2))
                    by (nonlinear_arith);
            }
            v += 1;
        }
        proof {
            assert((ve as int - 2) * (ue as int) == (ue as int) * (ve as int - 2))
                by (nonlinear_arith);
        }
        points.push(Point3 { x: ZERO_BITS, y: ZERO_BITS, z: fneg(r) });
        let mut ids: Vec<u32> = Vec::new();
        let mut v: u32 = 0;
        while v < ve - 1
            invariant
                3 <= ue,
                3 <= ve,
                0 <= v <= ve - 1,
                (ue as int) * (ve as int - 2) + 2 <= u32::MAX,
                last == (ue as int) * (ve as int - 2) + 1,
                ids@ == sphere_bands_upto(ue as int, ve as int, wire, v as int),
            decreases ve - 1 - v,
        {
            proof {
                if v >= 1 {
                    assert((v as int - 1) * (ue as int) <= (ve as int - 3) * (ue as int)
                        && (ve as int - 3) * (ue as int) + ue as int == (ve as int - 2) * (ue
                        as int) && (ve as int - 2) * (ue as int) == (ue as int) * (ve as int
                        - 2)) by (nonlinear_arith)
                        requires
                            1 <= v as int <= ve as int - 2,
                            3 <= ue as int,
                            3 <= ve as int,
                    ;
                }
            }
            let p_shift: u32 = if v == 0 {
                1
            } else {
                1 + (v - 1) * ue
            };
            let mut u: u32 = 0;
            while u < ue
                invariant
                    3 <= ue,
                    3 <= ve,
                    0 <= v <= ve - 2,
                    0 <= u <= ue,
                    (ue as int) * (ve as int - 2) + 2 <= u32::MAX,
                    last == (ue as int) * (ve as int - 2) + 1,
                    p_shift == if v == 0 {
                        1int
                    } else {
                        1 + (v as int - 1) * (ue as int)
                    },
                    ids@ == sphere_bands_upto(ue as int, ve as int, wire, v as int)
                        + sphere_band_upto(ue as int, ve as int, wire, v as int, u as int),
                decreases ue - u,
            {
                proof {
                    let ui = u as int;
                    let vi = v as int;
                    let uei = ue as int;
                    let vei = ve as int;
                    let lasti = last as int;
                    assert(uei * (vei - 2) == (vei - 2) * uei) by (nonlinear_arith);
                    if v == 0 {
                        assert(uei <= uei * (vei - 2)) by (nonlinear_arith)
                            requires
                                uei >= 3,
                                vei >= 3,
                        ;
                    } else {
                        assert((vi - 1) * uei + uei == vi * uei) by (nonlinear_arith);
                        assert(vi * uei <= (vei - 2) * uei) by (nonlinear_arith)
                            requires
                                1 <= vi <= vei - 2,
                                uei >= 3,
                        ;
                        if vi <= vei - 3 {
                            assert((vi + 1) * uei <= (vei - 2) * uei) by (nonlinear_arith)
                                requires
                                    1 <= vi <= vei - 3,
                                    uei >= 3,
                            ;
                            assert(vi * uei + uei == (vi + 1) * uei) by (nonlinear_arith);
                        }
                    }
                    assert(p_shift >= 1 && ui + p_shift <= lasti && ui + p_shift + 1 <= lasti && (
                    1 <= vi && vi <= vei - 3 ==> ui + p_shift + uei + 1 <= lasti && p_shift + uei
                        <= lasti));
                }
                if wire {
                    if v == 0 {
                        ids.push(0);
                        ids.push(u + 1);
                    } else {
                        let base = u + p_shift;
                        ids.push(base);
                        if v == ve - 2 {
                            ids.push(last);
                        } else {
                            ids.push(base + ue);
                        }
                        ids.push(base);
                        if u == ue - 1 {
                            ids.push(p_shift);
                        } else {
                            ids.push(base + 1);
                        }
                    }
                } else {
                    if v == 0 {
                        ids.push(0);
                        ids.push(u + p_shift);
                        if u == ue - 1 {
                            ids.push(p_shift);
                        } else {
                            ids.push(u + p_shift + 1);
                        }
                    } else if v == ve - 2 {
                        ids.push(u + p_shift);
                        ids.push(last);
                        if u == ue - 1 {
                            ids.push(p_shift);
                        } else {
                            ids.push(u + p_shift + 1);
                        }
                    } else {
                        let p0 = u + p_shift;
                        let p1 = p0 + ue;
                        let p2 = if u == ue - 1 {
                            p_shift + ue
                        } else {
                            p1 + 1
                        };
                        let p3 = if u == ue - 1 {
                            p_shift
                        } else {
                            p0 + 1
                        };
                        ids.push(p0);
                        ids.push(p1);
                        ids.push(p2);
                        ids.push(p2);
                        ids.push(p3);
                        ids.push(p0);
                    }
                }
                proof {
                    assert(ids@ =~= sphere_bands_upto(ue as int, ve as int, wire, v as int)
                        + sphere_band_upto(ue as int, ve as int, wire, v as int, u as int + 1));
                }
                u += 1;
            }
            proof {
                assert(ids@ =~= sphere_bands_upto(ue as int, ve as int, wire, v as int + 1));
            }
            v += 1;
        }
        proof {
            lemma_sphere_bands_bound(ue as int, ve as int, wire, ve as int - 1);
            lemma_sphere_ids_len(ue as int, ve as int, wire, ve as int - 1);
        }
        ShapeBase::new_raw(
            InitType::Move(points),
            ColorType::new_uniform(color),
            IndicesType::new(ids),
            if wire {
                RenderType::Line
            } else {
                RenderType::Triangle
            },
        )
    }

    /// A composite arrow along the z axis: a cone head scaled to
    /// `height * (1 - tail_height_ratio)` and lifted by the shaft's
    /// height, over a shaft that is a thin cylinder (filled) or a single
    /// axial segment (wire); the shaft's points are recentered by half
    /// its height and its indices shifted by the head's point count.
    #[verifier::loop_isolation(false)]
    pub fn new_arrow(
        arrow_radius: u32,
        height: u32,
        tail_ratio: u32,
        tail_height_ratio: u32,
        u_sub: u32,
        color: Color4,
        wire: bool,
    ) -> (s: ShapeBase)
        requires
            u_sub <= (u32::MAX - 4) / 3,
        ensures
            ({
                let ue = if u_sub < 3 {
                    3int
                } else {
                    u_sub as int
                };
                let head_n = ue + 2;
                let ch = mul_bits(height, tail_height_ratio);
                let head_h = mul_bits(height, sub_bits(ONE_BITS, tail_height_ratio));
                let half = div_bits(ch, TWO_BITS);
                &&& s.points@.len() == head_n + (if wire {
                    2int
                } else {
                    2 * ue + 2
                })
                &&& s.points@[0] == (Point3 {
                    x: ZERO_BITS,
                    y: ZERO_BITS,
                    z: add_bits(ZERO_BITS, ch),
                })
                &&& s.points@[1] == (Point3 {
                    x: ZERO_BITS,
                    y: ZERO_BITS,
                    z: add_bits(head_h, ch),
                })
                &&& forall|i: int|
                    2 <= i < head_n ==> (#[trigger] s.points@[i]).z == add_bits(ZERO_BITS, ch)
                &&& (wire ==> s.points@[head_n] == (Point3 {
                    x: ZERO_BITS,
                    y: ZERO_BITS,
                    z: add_bits(ZERO_BITS, half),
                }) && s.points@[head_n + 1] == (Point3 {
                    x: ZERO_BITS,
                    y: ZERO_BITS,
                    z: add_bits(ch, half),
                }))
                &&& (!wire ==> s.points@[head_n] == (Point3 {
                    x: ZERO_BITS,
                    y: ZERO_BITS,
                    z: add_bits(div_bits(ch, TWO_BITS), half),
                }) && s.points@[head_n + 1] == (Point3 {
                    x: ZERO_BITS,
                    y: ZERO_BITS,
                    z: add_bits(neg_bits(div_bits(ch, TWO_BITS)), half),
                }))
                &&& s.colors@ == Seq::new(s.points@.len(), |i: int| color)
                &&& s.indices@ == cone_ids_upto(ue, wire, ue) + shifted_indices(
                    if wire {
                        seq![0u32, 1u32]
                    } else {
                        cylinder_ids_upto(ue, wire, ue)
                    },
                    head_n,
                )
                &&& s.render_type == if wire {
                    RenderType::Line
                } else {
                    RenderType::Triangle
                }
                &&& !s.transparent
                &&& s.modified
                &&& s.wf()
            }),
    {
        let head_h = fmul(height, fsub(ONE_BITS, tail_height_ratio));
        let ch = fmul(height, tail_height_ratio);
        let half = fdiv(ch, TWO_BITS);
        let head = ShapeBase::new_cone(arrow_radius, u_sub, head_h, color, wire);
        let ShapeBase { points: head_points, indices: head_ids, .. } = head;
        let mut tail_points: Vec<Point3> = Vec::new();
        let mut tail_ids: Vec<u32> = Vec::new();
        if wire {
            tail_points.push(Point3::zero());
            tail_points.push(Point3 { x: ZERO_BITS, y: ZERO_BITS, z: ch });
            tail_ids.push(0);
            tail_ids.push(1);
            proof {
                assert(tail_ids@ =~= seq![0u32, 1u32]);
            }
        } else {
            let tail = ShapeBase::new_cylinder(fmul(arrow_radius, tail_ratio), u_sub, ch, color, wire);
            let ShapeBase { points: tp, indices: ti, .. } = tail;
            tail_points = tp;
            tail_ids = ti;
        }
        let n: u32 = head_points.len() as u32;
        let mut ids = head_ids;
        let ghost head_ids_view = ids@;
        let mut j: usize = 0;
        while j < tail_ids.len()
            invariant
                0 <= j <= tail_ids@.len(),
                n == head_points@.len(),
                n + tail_points@.len() <= u32::MAX,
                forall|k: int|
                    0 <= k < tail_ids@.len() ==> (#[trigger] tail_ids@[k]) < tail_points@.len(),
                ids@ =~= head_ids_view + shifted_indices(tail_ids@, n as int).take(j as int),
            decreases tail_ids@.len() - j,
        {
            let id = tail_ids[j];
            ids.push(id + n);
            j += 1;
        }
        proof {
            assert(ids@ =~= head_ids_view + shifted_indices(tail_ids@, n as int));
        }
        let mut points: Vec<Point3> = Vec::new();
        let mut i: usize = 0;
        while i < head_points.len()
            invariant
                0 <= i <= head_points@.len(),
                points@.len() == i,
                forall|k: int|
                    0 <= k < i ==> (#[trigger] points@[k]) == (Point3 {
                        x: head_points@[k].x,
                        y: head_points@[k].y,
                        z: add_bits(head_points@[k].z, ch),
                    }),
            decreases head_points@.len() - i,
        {
            let p = head_points[i];
            let z = fadd(p.z, ch);
            points.push(Point3 { x: p.x, y: p.y, z });
            i += 1;
        }
        let mut i: usize = 0;
        while i < tail_points.len()
            invariant
                0 <= i <= tail_points@.len(),
                points@.len() == head_points@.len() + i,
                forall|k: int|
                    0 <= k < head_points@.len() ==> (#[trigger] points@[k]) == (Point3 {
                        x: head_points@[k].x,
                        y: head_points@[k].y,
                        z: add_bits(head_points@[k].z, ch),
                    }),
                forall|k: int|
                    head_points@.len() <= k < head_points@.len() + i ==> (#[trigger] points@[k])
                        == (Point3 {
                        x: tail_points@[k - head_points@.len()].x,
                        y: tail_points@[k - head_points@.len()].y,
                        z: add_bits(tail_points@[k - head_points@.len()].z, half),
                    }),
            decreases tail_points@.len() - i,
        {
            let p = tail_points[i];
            let z = fadd(p.z, half);
            points.push(Point3 { x: p.x, y: p.y, z });
            i += 1;
        }
        let s = ShapeBase::new_raw(
            InitType::Move(points),
            ColorType::new_uniform(color),
            IndicesType::new(ids),
            if wire {
                RenderType::Line
            } else {
                RenderType::Triangle
            },
        );
        s
    }
}

} // verus!
