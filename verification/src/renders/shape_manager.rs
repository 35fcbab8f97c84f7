//! The registry of active shape renderers, the per-topology scratch
//! shapes for immediate-mode drawing, and the frame planner that groups
//! every shape into one render pass per draw class, in a fixed,
//! blend-correct order.

use vstd::prelude::*;

use crate::renders::shape_renderer::{RenderAction, ShapeRenderer};
use crate::scalar::{Color4, Mat4, Point3};
use crate::shapes::shape_base::{
    circle_ids_upto, cone_ids_upto, cube_ids_upto, cylinder_ids_upto, shifted_indices,
    sphere_bands_upto, ShapeBase,
};
use crate::shapes::RenderType;

verus! {

/// The draw-order bucket a shape lands in: its own topology, unless its
/// material is transparent, which reroutes it to the matching transparent
/// triangle class.
pub open spec fn effective_class(s: ShapeBase) -> RenderType {
    if s.transparent {
        if s.render_type == RenderType::Triangle {
            RenderType::TriangleTransparent
        } else {
            RenderType::TriangleStripTransparent
        }
    } else {
        s.render_type
    }
}

/// The position of a handle in the registry, or -1 when it is absent.
pub open spec fn find_idx(items: Seq<(usize, ShapeRenderer)>, id: usize) -> int
    decreases items.len(),
{
    if items.len() <= 0 {
        -1
    } else if items[0].0 == id {
        0
    } else {
        let r = find_idx(items.skip(1), id);
        if r < 0 {
            -1
        } else {
            r + 1
        }
    }
}

pub proof fn lemma_find_idx(items: Seq<(usize, ShapeRenderer)>, id: usize)
    ensures
        -1 <= find_idx(items, id) < items.len(),
        find_idx(items, id) == -1 ==> forall|k: int|
            0 <= k < items.len() ==> (#[trigger] items[k]).0 != id,
        find_idx(items, id) >= 0 ==> items[find_idx(items, id)].0 == id,
    decreases items.len(),
{
    if items.len() > 0 && items[0].0 != id {
        lemma_find_idx(items.skip(1), id);
        let r = find_idx(items.skip(1), id);
        if r == -1 {
            assert forall|k: int| 0 <= k < items.len() implies (#[trigger] items[k]).0 != id by {
                if k > 0 {
                    assert(items.skip(1)[k - 1] == items[k]);
                }
            }
        } else {
            assert(items.skip(1)[r] == items[r + 1]);
        }
    }
}

/// A handle found at a position after none of the earlier entries held
/// it is exactly where `find_idx` points.
pub proof fn lemma_find_idx_first(items: Seq<(usize, ShapeRenderer)>, id: usize, i: int)
    requires
        0 <= i < items.len(),
        items[i].0 == id,
        forall|k: int| 0 <= k < i ==> (#[trigger] items[k]).0 != id,
    ensures
        find_idx(items, id) == i,
    decreases i,
{
    if i == 0 {
    } else {
        assert(items[0].0 != id);
        assert(items.skip(1)[i - 1] == items[i]);
        assert forall|k: int| 0 <= k < i - 1 implies (#[trigger] items.skip(1)[k]).0 != id by {
            assert(items.skip(1)[k] == items[k + 1]);
        }
        lemma_find_idx_first(items.skip(1), id, i - 1);
    }
}

/// One draw within a pass: a registered renderer (by handle) or the
/// pass's scratch shape.
#[derive(Debug, Clone, Copy, PartialEq, Eq, Structural)]
pub struct DrawItem {
    /// The registered handle, or `None` for the scratch shape.
    pub id: Option<usize>,
    pub action: RenderAction,
}

/// One render pass of a frame: which class pipeline to bind, how the
/// attachments are handled, and the draws to issue in order.
pub struct DrawPass {
    pub class: RenderType,
    /// Only the very first pass of the frame clears the color target;
    /// all later passes load and accumulate onto it.
    pub clear_color: bool,
    /// Opaque classes clear and write a depth buffer; transparent classes
    /// skip depth testing so their fragments composite over what is
    /// already drawn.
    pub use_depth: bool,
    pub items: Vec<DrawItem>,
}

/// The draws pass `k` takes from the first `t` registry entries, in
/// registration order.
pub open spec fn class_draws_upto(items: Seq<(usize, ShapeRenderer)>, k: int, t: int) -> Seq<
    DrawItem,
>
    decreases t,
{
    if t <= 0 {
        Seq::<DrawItem>::empty()
    } else {
        class_draws_upto(items, k, t - 1) + (if effective_class(items[t - 1].1.shape).id_spec()
            == k {
            seq![DrawItem { id: Some(items[t - 1].0), action: items[t - 1].1.render_action() }]
        } else {
            Seq::<DrawItem>::empty()
        })
    }
}

/// The scratch draw a pass appends after the registered shapes, present
/// exactly when the scratch shape holds geometry this frame.  A scratch
/// shape is always uploaded anew and drawn with one implicit instance.
pub open spec fn scratch_draw(s: ShapeBase) -> Seq<DrawItem> {
    if s.indices@.len() > 0 {
        seq![
            DrawItem {
                id: None,
                action: RenderAction {
                    upload: true,
                    draw: s.wf() && s.indices@.len() > 0,
                    index_count: s.indices@.len() as usize,
                    instance_count: 1,
                },
            },
        ]
    } else {
        Seq::<DrawItem>::empty()
    }
}

/// The registry of all active shape renderers, keyed by stable handles
/// from a monotonically increasing counter, plus one transient scratch
/// shape per draw class for immediate-mode points, lines and triangles.
pub struct ShapeManager {
    /// The registered renderers in registration order; handles are unique.
    pub items: Vec<(usize, ShapeRenderer)>,
    /// One scratch shape per draw class, index equal to the class id.
    pub single: Vec<ShapeBase>,
    /// The last auto-issued handle; never reset, so handles are not reused.
    pub counter: usize,
}

impl ShapeManager {
    /// Registry handles are unique, and there is one scratch shape per
    /// draw class, carrying that class.
    pub open spec fn wf(self) -> bool {
        &&& forall|i: int, j: int|
            0 <= i < j < self.items@.len() ==> (#[trigger] self.items@[i]).0 != (
            #[trigger] self.items@[j]).0
        &&& self.single@.len() == 7
        &&& forall|k: int|
            0 <= k < 7 ==> (#[trigger] self.single@[k]).render_type == RenderType::from_id_spec(k)
    }

    pub open spec fn contains_handle(self, id: usize) -> bool {
        find_idx(self.items@, id) >= 0
    }

    pub fn new() -> (m: ShapeManager)
        ensures
            m.wf(),
            m.items@ =~= Seq::<(usize, ShapeRenderer)>::empty(),
            m.counter == 0,
            forall|k: int| 0 <= k < 7 ==> (#[trigger] m.single@[k]).indices@.len() == 0,
    {
        let mut single: Vec<ShapeBase> = Vec::new();
        let mut k: usize = 0;
        while k < 7
            invariant
                0 <= k <= 7,
                single@.len() == k,
                forall|j: int|
                    0 <= j < k ==> (#[trigger] single@[j]).render_type
                        == RenderType::from_id_spec(j) && single@[j].indices@.len() == 0,
            decreases 7 - k,
        {
            single.push(ShapeBase::empty(RenderType::from_id(k)));
            k += 1;
        }
        ShapeManager { items: Vec::new(), single, counter: 0 }
    }

    /// Issues the next handle from the monotonically increasing counter.
    pub fn request_index(&mut self) -> (got: usize)
        requires
            old(self).counter < usize::MAX,
        ensures
            got == old(self).counter + 1,
            *final(self) == (ShapeManager { counter: got, ..*old(self) }),
    {
        self.counter += 1;
        self.counter
    }

    fn position_of(&self, id: usize) -> (r: Option<usize>)
        ensures
            match r {
                Some(i) => find_idx(self.items@, id) == i,
                None => find_idx(self.items@, id) == -1,
            },
    {
        let mut i: usize = 0;
        while i < self.items.len()
            invariant
                0 <= i <= self.items@.len(),
                forall|k: int| 0 <= k < i ==> (#[trigger] self.items@[k]).0 != id,
            decreases self.items@.len() - i,
        {
            if self.items[i].0 == id {
                proof {
                    lemma_find_idx_first(self.items@, id, i as int);
                }
                return Some(i);
            }
            i += 1;
        }
        proof {
            lemma_find_idx(self.items@, id);
            if find_idx(self.items@, id) >= 0 {
                assert(self.items@[find_idx(self.items@, id)].0 == id);
                assert(false);
            }
        }
        None
    }

    /// Registers a renderer under the given handle or a fresh one, and
    /// returns the handle.  Re-registering an occupied handle is a no-op:
    /// the first writer wins.
    pub fn add_item(&mut self, buffer: ShapeRenderer, id: Option<usize>) -> (got: usize)
        requires
            old(self).wf(),
            id.is_none() ==> old(self).counter < usize::MAX,
        ensures
            final(self).wf(),
            final(self).single == old(self).single,
            match id {
                Some(i) => got == i && final(self).counter == old(self).counter,
                None => got == old(self).counter + 1 && final(self).counter == got,
            },
            old(self).contains_handle(got) ==> final(self).items == old(self).items,
            !old(self).contains_handle(got) ==> final(self).items@ == old(self).items@.push(
                (got, buffer),
            ),
            final(self).contains_handle(got),
    {
        let got = match id {
            Some(i) => i,
            None => self.request_index(),
        };
        match self.position_of(got) {
            Some(_) => {
                proof {
                    lemma_find_idx(self.items@, got);
                }
            },
            None => {
                proof {
                    lemma_find_idx(self.items@, got);
                }
                self.items.push((got, buffer));
                proof {
                    let items = self.items@;
                    let n = items.len() as int;
                    assert(items[n - 1].0 == got);
                    lemma_find_idx_first(items, got, n - 1);
                }
            },
        }
        got
    }

    /// Removes the renderer under `id`; absent handles are ignored.
    pub fn remove_item(&mut self, id: usize)
        requires
            old(self).wf(),
        ensures
            final(self).wf(),
            final(self).single == old(self).single,
            final(self).counter == old(self).counter,
            old(self).contains_handle(id) ==> final(self).items@ == old(self).items@.remove(
                find_idx(old(self).items@, id),
            ),
            !old(self).contains_handle(id) ==> final(self).items == old(self).items,
    {
        match self.position_of(id) {
            Some(i) => {
                proof {
                    lemma_find_idx(self.items@, id);
                }
                self.items.remove(i);
                proof {
                    let before = old(self).items@;
                    let after = self.items@;
                    before.remove_ensures(i as int);
                    assert forall|a: int, b: int|
                        0 <= a < b < after.len() implies (#[trigger] after[a]).0 != (
                    #[trigger] after[b]).0 by {
                        let a0 = if a < i as int {
                            a
                        } else {
                            a + 1
                        };
                        let b0 = if b < i as int {
                            b
                        } else {
                            b + 1
                        };
                        assert(after[a] == before[a0] && after[b] == before[b0]);
                    }
                }
            },
            None => {},
        }
    }

    /// Looks a renderer up by handle; unknown handles yield `None`.
    pub fn entry(&self, id: &usize) -> (r: Option<&ShapeRenderer>)
        ensures
            match r {
                Some(x) => self.contains_handle(*id) && *x == self.items@[find_idx(
                    self.items@,
                    *id,
                )].1,
                None => !self.contains_handle(*id),
            },
    {
        match self.position_of(*id) {
            Some(i) => {
                proof {
                    lemma_find_idx(self.items@, *id);
                }
                Some(&self.items[i].1)
            },
            None => None,
        }
    }

    /// Looks a renderer up by handle for mutation; unknown handles yield
    /// `None`.  Only the renderer under `id` can change through the
    /// returned reference.
    pub fn entry_mut(&mut self, id: &usize) -> (r: Option<&mut ShapeRenderer>)
        ensures
            old(self).contains_handle(*id) <==> r.is_some(),
            r.is_none() ==> *final(self) == *old(self),
            final(self).single == old(self).single,
            final(self).counter == old(self).counter,
            final(self).items@.len() == old(self).items@.len(),
            forall|k: int|
                0 <= k < old(self).items@.len() && k != find_idx(old(self).items@, *id) ==> (
                #[trigger] final(self).items@[k]) == old(self).items@[k],
            forall|k: int|
                0 <= k < old(self).items@.len() ==> (#[trigger] final(self).items@[k]).0 == old(
                    self,
                ).items@[k].0,
            (match r {
                Some(x) => {
                    &&& *x == old(self).items@[find_idx(old(self).items@, *id)].1
                    &&& final(self).items@[find_idx(old(self).items@, *id)].1 == *final(x)
                },
                None => true,
            }),
    {
        match self.position_of(*id) {
            Some(i) => {
                proof {
                    lemma_find_idx(self.items@, *id);
                }
                Some(&mut self.items[i].1)
            },
            None => None,
        }
    }

    /// Appends a point to the scratch shape of the given class.
    fn scratch_append(
        &mut self,
        class: usize,
        pts: &[Point3],
        cols: &[Color4],
    )
        requires
            old(self).wf(),
            class < 7,
            pts@.len() == cols@.len(),
            old(self).single@[class as int].points@.len() + pts@.len() <= u32::MAX,
        ensures
            final(self).wf(),
            final(self).items == old(self).items,
            final(self).counter == old(self).counter,
            final(self).single@.len() == 7,
            forall|k: int|
                0 <= k < 7 && k != class ==> (#[trigger] final(self).single@[k]) == old(
                    self,
                ).single@[k],
            ({
                let before = old(self).single@[class as int];
                let after = final(self).single@[class as int];
                &&& after.points@ == before.points@ + pts@
                &&& after.colors@ == before.colors@ + cols@
                &&& after.indices@ == before.indices@ + Seq::new(
                    pts@.len(),
                    |j: int| (before.points@.len() + j) as u32,
                )
                &&& after.render_type == before.render_type
                &&& after.transparent == before.transparent
                &&& after.modified == before.modified
                &&& after.shape == before.shape
                &&& after.parent == before.parent
            }),
    {
        let mut e = self.single.remove(class);
        let ghost before = e;
        let mut j: usize = 0;
        while j < pts.len()
            invariant
                0 <= j <= pts@.len(),
                pts@.len() == cols@.len(),
                before.points@.len() + pts@.len() <= u32::MAX,
                e.points@ =~= before.points@ + pts@.take(j as int),
                e.colors@ =~= before.colors@ + cols@.take(j as int),
                e.indices@ =~= before.indices@ + Seq::new(
                    j as nat,
                    |q: int| (before.points@.len() + q) as u32,
                ),
                e.render_type == before.render_type,
                e.transparent == before.transparent,
                e.modified == before.modified,
                e.shape == before.shape,
                e.parent == before.parent,
            decreases pts@.len() - j,
        {
            let n = e.points.len() as u32;
            e.indices.push(n);
            e.points.push(pts[j]);
            e.colors.push(cols[j]);
            proof {
                assert(e.indices@ =~= before.indices@ + Seq::new(
                    (j + 1) as nat,
                    |q: int| (before.points@.len() + q) as u32,
                ));
            }
            j += 1;
        }
        proof {
            assert(e.points@ =~= before.points@ + pts@);
            assert(e.colors@ =~= before.colors@ + cols@);
        }
        self.single.insert(class, e);
        proof {
            assert(final(self).single@ =~= old(self).single@.update(class as int, e));
        }
    }

    /// Appends one point to the point-class scratch shape for this frame.
    pub fn draw_point(&mut self, pt: Point3, color: Color4)
        requires
            old(self).wf(),
            old(self).single@[0].points@.len() + 1 <= u32::MAX,
        ensures
            final(self).wf(),
            final(self).items == old(self).items,
            final(self).counter == old(self).counter,
            forall|k: int|
                1 <= k < 7 ==> (#[trigger] final(self).single@[k]) == old(self).single@[k],
            final(self).single@[0].points@ == old(self).single@[0].points@.push(pt),
            final(self).single@[0].colors@ == old(self).single@[0].colors@.push(color),
            final(self).single@[0].indices@ == old(self).single@[0].indices@.push(
                old(self).single@[0].points@.len() as u32,
            ),
    {
        let pts: [Point3; 1] = [pt];
        let cols: [Color4; 1] = [color];
        self.scratch_append(0, pts.as_slice(), cols.as_slice());
        proof {
            assert(final(self).single@[0].points@ =~= old(self).single@[0].points@.push(pt));
            assert(final(self).single@[0].colors@ =~= old(self).single@[0].colors@.push(color));
            assert(final(self).single@[0].indices@ =~= old(self).single@[0].indices@.push(
                old(self).single@[0].points@.len() as u32,
            ));
        }
    }

    /// Appends a line segment to the line-class scratch shape.
    pub fn draw_line(&mut self, a: Point3, b: Point3, color: Color4)
        requires
            old(self).wf(),
            old(self).single@[1].points@.len() + 2 <= u32::MAX,
        ensures
            final(self).wf(),
            final(self).items == old(self).items,
            final(self).counter == old(self).counter,
            forall|k: int|
                0 <= k < 7 && k != 1 ==> (#[trigger] final(self).single@[k]) == old(
                    self,
                ).single@[k],
            final(self).single@[1].points@ == old(self).single@[1].points@ + seq![a, b],
            final(self).single@[1].colors@ == old(self).single@[1].colors@ + seq![color, color],
            final(self).single@[1].indices@ == old(self).single@[1].indices@ + seq![
                old(self).single@[1].points@.len() as u32,
                (old(self).single@[1].points@.len() + 1) as u32,
            ],
    {
        let pts: [Point3; 2] = [a, b];
        let cols: [Color4; 2] = [color, color];
        self.scratch_append(1, pts.as_slice(), cols.as_slice());
        proof {
            assert(final(self).single@[1].points@ =~= old(self).single@[1].points@ + seq![a, b]);
            assert(final(self).single@[1].colors@ =~= old(self).single@[1].colors@ + seq![
                color,
                color,
            ]);
            assert(final(self).single@[1].indices@ =~= old(self).single@[1].indices@ + seq![
                old(self).single@[1].points@.len() as u32,
                (old(self).single@[1].points@.len() + 1) as u32,
            ]);
        }
    }

    /// Appends a triangle (one color per corner) to the triangle-class
    /// scratch shape.
    pub fn draw_triangle(&mut self, pts: &[Point3], colors: &[Color4])
        requires
            old(self).wf(),
            pts@.len() == colors@.len(),
            old(self).single@[3].points@.len() + pts@.len() <= u32::MAX,
        ensures
            final(self).wf(),
            final(self).items == old(self).items,
            final(self).counter == old(self).counter,
            forall|k: int|
                0 <= k < 7 && k != 3 ==> (#[trigger] final(self).single@[k]) == old(
                    self,
                ).single@[k],
            final(self).single@[3].points@ == old(self).single@[3].points@ + pts@,
            final(self).single@[3].colors@ == old(self).single@[3].colors@ + colors@,
            final(self).single@[3].indices@ == old(self).single@[3].indices@ + Seq::new(
                pts@.len(),
                |j: int| (old(self).single@[3].points@.len() + j) as u32,
            ),
    {
        self.scratch_append(3, pts, colors);
    }

    /// Discards the scratch geometry of every class, keeping each scratch
    /// shape's class configuration.  Call once at the start of every
    /// frame, before any immediate-mode draw call.
    pub fn clear_single(&mut self)
        requires
            old(self).wf(),
        ensures
            final(self).wf(),
            final(self).items == old(self).items,
            final(self).counter == old(self).counter,
            forall|k: int|
                0 <= k < 7 ==> {
                    &&& (#[trigger] final(self).single@[k]).points@.len() == 0
                    &&& final(self).single@[k].colors@.len() == 0
                    &&& final(self).single@[k].indices@.len() == 0
                    &&& final(self).single@[k].render_type == RenderType::from_id_spec(k)
                },
    {
        let mut k: usize = 0;
        while k < 7
            invariant
                0 <= k <= 7,
                self.wf(),
                self.items == old(self).items,
                self.counter == old(self).counter,
                self.single@.len() == 7,
                forall|j: int|
                    0 <= j < k ==> {
                        &&& (#[trigger] self.single@[j]).points@.len() == 0
                        &&& self.single@[j].colors@.len() == 0
                        &&& self.single@[j].indices@.len() == 0
                        &&& self.single@[j].render_type == RenderType::from_id_spec(j)
                    },
            decreases 7 - k,
        {
            let fresh = ShapeBase::empty(RenderType::from_id(k));
            self.single.remove(k);
            self.single.insert(k, fresh);
            k += 1;
        }
    }

    /// Builds the frame's pass sequence.  Every registered renderer is
    /// rendered once (clearing its change flags); passes come in the
    /// fixed class order, the first clearing the color target, opaque
    /// passes depth-tested and transparent ones not; within a pass the
    /// registered shapes come in registration order, the scratch shape
    /// last so immediate-mode geometry draws on top of its class.
    pub fn render(&mut self) -> (passes: Vec<DrawPass>)
        requires
            old(self).wf(),
        ensures
            final(self).wf(),
            final(self).counter == old(self).counter,
            final(self).single == old(self).single,
            final(self).items@.len() == old(self).items@.len(),
            forall|i: int|
                0 <= i < old(self).items@.len() ==> (#[trigger] final(self).items@[i]) == (
                old(self).items@[i].0,
                old(self).items@[i].1.after_render(),
            ),
            passes@.len() == 7,
            forall|k: int|
                0 <= k < 7 ==> (#[trigger] passes@[k]).class == RenderType::from_id_spec(k),
            forall|k: int| 0 <= k < 7 ==> (#[trigger] passes@[k]).clear_color == (k == 0),
            forall|k: int| 0 <= k < 7 ==> (#[trigger] passes@[k]).use_depth == (k < 5),
            forall|k: int|
                0 <= k < 7 ==> (#[trigger] passes@[k]).items@ == class_draws_upto(
                    old(self).items@,
                    k,
                    old(self).items@.len() as int,
                ) + scratch_draw(old(self).single@[k]),
    {
        let ghost items0 = self.items@;
        let n = self.items.len();
        let mut acts: Vec<(usize, usize, RenderAction)> = Vec::new();
        let mut i: usize = 0;
        while i < n
            invariant
                0 <= i <= n,
                n == items0.len(),
                self.items@.len() == n,
                self.single == old(self).single,
                self.counter == old(self).counter,
                forall|k: int|
                    0 <= k < i ==> (#[trigger] self.items@[k]) == (
                        items0[k].0,
                        items0[k].1.after_render(),
                    ),
                forall|k: int| i <= k < n ==> (#[trigger] self.items@[k]) == items0[k],
                acts@.len() == i,
                forall|k: int|
                    0 <= k < i ==> (#[trigger] acts@[k]) == (
                        items0[k].0,
                        effective_class(items0[k].1.shape).id_spec() as usize,
                        items0[k].1.render_action(),
                    ),
            decreases n - i,
        {
            let ghost pre = self.items@;
            let (id, mut r) = self.items.remove(i);
            let a = r.render();
            let class = draw_class_of(r.shape()).class_id();
            self.items.insert(i, (id, r));
            acts.push((id, class, a));
            proof {
                assert(self.items@ =~= pre.update(i as int, (id, r)));
            }
            i += 1;
        }
        proof {
            assert forall|a: int, b: int|
                0 <= a < b < self.items@.len() implies (#[trigger] self.items@[a]).0 != (
            #[trigger] self.items@[b]).0 by {
                assert(self.items@[a].0 == items0[a].0 && self.items@[b].0 == items0[b].0);
            }
        }
        let mut passes: Vec<DrawPass> = Vec::new();
        let mut k: usize = 0;
        while k < 7
            invariant
                0 <= k <= 7,
                n == items0.len(),
                old(self).wf(),
                self.single@ == old(self).single@,
                acts@.len() == n,
                forall|q: int|
                    0 <= q < n ==> (#[trigger] acts@[q]) == (
                        items0[q].0,
                        effective_class(items0[q].1.shape).id_spec() as usize,
                        items0[q].1.render_action(),
                    ),
                passes@.len() == k,
                forall|q: int|
                    0 <= q < k ==> (#[trigger] passes@[q]).class == RenderType::from_id_spec(q)
                        && passes@[q].clear_color == (q == 0) && passes@[q].use_depth == (q < 5)
                        && passes@[q].items@ == class_draws_upto(items0, q, n as int)
                        + scratch_draw(old(self).single@[q]),
            decreases 7 - k,
        {
            let mut cmds: Vec<DrawItem> = Vec::new();
            let mut j: usize = 0;
            while j < n
                invariant
                    0 <= j <= n,
                    n == items0.len(),
                    0 <= k < 7,
                    acts@.len() == n,
                    forall|q: int|
                        0 <= q < n ==> (#[trigger] acts@[q]) == (
                            items0[q].0,
                            effective_class(items0[q].1.shape).id_spec() as usize,
                            items0[q].1.render_action(),
                        ),
                    cmds@ == class_draws_upto(items0, k as int, j as int),
                decreases n - j,
            {
                let entry = acts[j];
                if entry.1 == k {
                    cmds.push(DrawItem { id: Some(entry.0), action: entry.2 });
                }
                proof {
                    assert(cmds@ =~= class_draws_upto(items0, k as int, j as int + 1));
                }
                j += 1;
            }
            let sc = &self.single[k];
            if sc.indices.len() > 0 {
                let ok = sc.check();
                let count = sc.indices.len();
                cmds.push(
                    DrawItem {
                        id: None,
                        action: RenderAction {
                            upload: true,
                            draw: ok && count > 0,
                            index_count: count,
                            instance_count: 1,
                        },
                    },
                );
            }
            proof {
                assert(cmds@ =~= class_draws_upto(items0, k as int, n as int) + scratch_draw(
                    old(self).single@[k as int],
                ));
            }
            passes.push(
                DrawPass {
                    class: RenderType::from_id(k),
                    clear_color: k == 0,
                    use_depth: k < 5,
                    items: cmds,
                },
            );
            k += 1;
        }
        passes
    }

    /// What every `add_*` convenience promises of the entry it appends:
    /// a fresh renderer with one identity instance, wrapping a consistent
    /// shape of the given class.
    pub open spec fn added_fresh(self, old_m: ShapeManager, got: usize, class: RenderType) -> bool {
        let it = self.items@.last();
        &&& self.items@.len() == old_m.items@.len() + 1
        &&& forall|k: int| 0 <= k < old_m.items@.len() ==> (#[trigger] self.items@[k]) == old_m.items@[k]
        &&& it.0 == got
        &&& it.1.matrix@ =~= seq![Mat4::identity_spec()]
        &&& it.1.matrix_updated
        &&& !it.1.uploaded
        &&& it.1.shape.wf()
        &&& it.1.shape.modified
        &&& !it.1.shape.transparent
        &&& it.1.shape.render_type == class
    }

    /// Generates a square and registers it under a fresh handle.
    pub fn add_square(&mut self, size: u32, color: Color4, wire: bool) -> (got: usize)
        requires
            old(self).wf(),
            old(self).counter < usize::MAX,
        ensures
            final(self).wf(),
            final(self).single == old(self).single,
            got == old(self).counter + 1 && final(self).counter == got,
            old(self).contains_handle(got) ==> final(self).items == old(self).items,
            !old(self).contains_handle(got) ==> {
                &&& final(self).added_fresh(*old(self), got, if wire {
                    RenderType::LineStrip
                } else {
                    RenderType::Triangle
                })
                &&& final(self).items@.last().1.shape.points@ == ShapeBase::square_points_spec(
                    size,
                )
                &&& final(self).items@.last().1.shape.indices@ == if wire {
                    seq![0u32, 1, 2, 3, 0]
                } else {
                    seq![0u32, 1, 2, 2, 3, 0]
                }
            },
    {
        let shape = ShapeBase::new_square(size, color, wire);
        self.add_item(ShapeRenderer::new(shape), None)
    }

    /// Generates a cube and registers it under a fresh handle.
    pub fn add_cube(&mut self, size: u32, face_color: [Color4; 6], wire: bool) -> (got: usize)
        requires
            old(self).wf(),
            old(self).counter < usize::MAX,
        ensures
            final(self).wf(),
            final(self).single == old(self).single,
            got == old(self).counter + 1 && final(self).counter == got,
            old(self).contains_handle(got) ==> final(self).items == old(self).items,
            !old(self).contains_handle(got) ==> {
                &&& final(self).added_fresh(*old(self), got, if wire {
                    RenderType::Line
                } else {
                    RenderType::Triangle
                })
                &&& final(self).items@.last().1.shape.points@.len() == 24
                &&& final(self).items@.last().1.shape.points@ == ShapeBase::cube_points_spec(size)
                &&& final(self).items@.last().1.shape.indices@ == cube_ids_upto(
                    ShapeBase::cube_pattern_spec(wire),
                    6,
                )
            },
    {
        let shape = ShapeBase::new_cube(size, face_color, wire);
        self.add_item(ShapeRenderer::new(shape), None)
    }

    /// Generates a circle and registers it under a fresh handle.
    pub fn add_circle(&mut self, r: u32, sub: u32, color: Color4, wire: bool) -> (got: usize)
        requires
            old(self).wf(),
            old(self).counter < usize::MAX,
            sub < u32::MAX,
        ensures
            final(self).wf(),
            final(self).single == old(self).single,
            got == old(self).counter + 1 && final(self).counter == got,
            old(self).contains_handle(got) ==> final(self).items == old(self).items,
            !old(self).contains_handle(got) ==> ({
                let se = if sub < 3 {
                    3int
                } else {
                    sub as int
                };
                &&& final(self).added_fresh(*old(self), got, if wire {
                    RenderType::LineStrip
                } else {
                    RenderType::Triangle
                })
                &&& final(self).items@.last().1.shape.points@.len() == se + 1
                &&& final(self).items@.last().1.shape.indices@ == circle_ids_upto(se, wire, se)
            }),
    {
        let shape = ShapeBase::new_circle(r, sub, color, wire);
        self.add_item(ShapeRenderer::new(shape), None)
    }

    /// Generates a sphere and registers it under a fresh handle.
    pub fn add_sphere(&mut self, r: u32, u_sub: u32, v_sub: u32, color: Color4, wire: bool) -> (got:
        usize)
        requires
            old(self).wf(),
            old(self).counter < usize::MAX,
            ({
                let ue = if u_sub < 3 {
                    3int
                } else {
                    u_sub as int
                };
                let v0 = if v_sub < 3 {
                    3int
                } else {
                    v_sub as int
                };
                let ve = if v0 % 2 == 0 {
                    v0 + 1
                } else {
                    v0
                };
                ue * (ve - 2) + 2 <= u32::MAX
            }),
        ensures
            final(self).wf(),
            final(self).single == old(self).single,
            got == old(self).counter + 1 && final(self).counter == got,
            old(self).contains_handle(got) ==> final(self).items == old(self).items,
            !old(self).contains_handle(got) ==> ({
                let ue = if u_sub < 3 {
                    3int
                } else {
                    u_sub as int
                };
                let v0 = if v_sub < 3 {
                    3int
                } else {
                    v_sub as int
                };
                let ve = if v0 % 2 == 0 {
                    v0 + 1
                } else {
                    v0
                };
                &&& final(self).added_fresh(*old(self), got, if wire {
                    RenderType::Line
                } else {
                    RenderType::Triangle
                })
                &&& final(self).items@.last().1.shape.points@.len() == ue * (ve - 2) + 2
                &&& final(self).items@.last().1.shape.indices@ == sphere_bands_upto(
                    ue,
                    ve,
                    wire,
                    ve - 1,
                )
            }),
    {
        let shape = ShapeBase::new_sphere(r, u_sub, v_sub, color, wire);
        self.add_item(ShapeRenderer::new(shape), None)
    }

    /// Generates a cone and registers it under a fresh handle.
    pub fn add_cone(&mut self, r: u32, u_sub: u32, height: u32, color: Color4, wire: bool) -> (got:
        usize)
        requires
            old(self).wf(),
            old(self).counter < usize::MAX,
            u_sub <= u32::MAX - 2,
        ensures
            final(self).wf(),
            final(self).single == old(self).single,
            got == old(self).counter + 1 && final(self).counter == got,
            old(self).contains_handle(got) ==> final(self).items == old(self).items,
            !old(self).contains_handle(got) ==> ({
                let ue = if u_sub < 3 {
                    3int
                } else {
                    u_sub as int
                };
                &&& final(self).added_fresh(*old(self), got, if wire {
                    RenderType::Line
                } else {
                    RenderType::Triangle
                })
                &&& final(self).items@.last().1.shape.points@.len() == ue + 2
                &&& final(self).items@.last().1.shape.indices@ == cone_ids_upto(ue, wire, ue)
            }),
    {
        let shape = ShapeBase::new_cone(r, u_sub, height, color, wire);
        self.add_item(ShapeRenderer::new(shape), None)
    }

    /// Generates a cylinder and registers it under a fresh handle.
    pub fn add_cylinder(
        &mut self,
        r: u32,
        u_sub: u32,
        height: u32,
        color: Color4,
        wire: bool,
    ) -> (got: usize)
        requires
            old(self).wf(),
            old(self).counter < usize::MAX,
            u_sub <= (u32::MAX - 2) / 2,
        ensures
            final(self).wf(),
            final(self).single == old(self).single,
            got == old(self).counter + 1 && final(self).counter == got,
            old(self).contains_handle(got) ==> final(self).items == old(self).items,
            !old(self).contains_handle(got) ==> ({
                let ue = if u_sub < 3 {
                    3int
                } else {
                    u_sub as int
                };
                &&& final(self).added_fresh(*old(self), got, if wire {
                    RenderType::Line
                } else {
                    RenderType::Triangle
                })
                &&& final(self).items@.last().1.shape.points@.len() == 2 * ue + 2
                &&& final(self).items@.last().1.shape.indices@ == cylinder_ids_upto(ue, wire, ue)
            }),
    {
        let shape = ShapeBase::new_cylinder(r, u_sub, height, color, wire);
        self.add_item(ShapeRenderer::new(shape), None)
    }

    /// Generates a composite arrow and registers it under a fresh handle.
    pub fn add_arrow(
        &mut self,
        arrow_radius: u32,
        height: u32,
        tail_ratio: u32,
        tail_height_ratio: u32,
        u_sub: u32,
        color: Color4,
        wire: bool,
    ) -> (got: usize)
        requires
            old(self).wf(),
            old(self).counter < usize::MAX,
            u_sub <= (u32::MAX - 4) / 3,
        ensures
            final(self).wf(),
            final(self).single == old(self).single,
            got == old(self).counter + 1 && final(self).counter == got,
            old(self).contains_handle(got) ==> final(self).items == old(self).items,
            !old(self).contains_handle(got) ==> ({
                let ue = if u_sub < 3 {
                    3int
                } else {
                    u_sub as int
                };
                &&& final(self).added_fresh(*old(self), got, if wire {
                    RenderType::Line
                } else {
                    RenderType::Triangle
                })
                &&& final(self).items@.last().1.shape.points@.len() == ue + 2 + (if wire {
                    2int
                } else {
                    2 * ue + 2
                })
                &&& final(self).items@.last().1.shape.indices@ == cone_ids_upto(ue, wire, ue)
                    + shifted_indices(
                    if wire {
                        seq![0u32, 1u32]
                    } else {
                        cylinder_ids_upto(ue, wire, ue)
                    },
                    ue + 2,
                )
            }),
    {
        let shape = ShapeBase::new_arrow(
            arrow_radius,
            height,
            tail_ratio,
            tail_height_ratio,
            u_sub,
            color,
            wire,
        );
        self.add_item(ShapeRenderer::new(shape), None)
    }
}

/// A transparent shape's fragments composite over an opaque shape's
/// regardless of registration order: an opaque shape is drawn in one of
/// the depth-tested passes 0 to 4, a transparent one in pass 5 or 6, and
/// the manager issues passes in ascending class order with only the very
/// first clearing the color target, so the transparent draws blend over
/// everything the opaque passes produced.
pub proof fn lemma_transparent_after_opaque(a: ShapeBase, b: ShapeBase)
    requires
        !a.transparent,
        !a.render_type.is_transparent_class(),
        b.transparent,
    ensures
        !effective_class(a).is_transparent_class(),
        effective_class(b).is_transparent_class(),
        0 <= effective_class(a).id_spec() < 5,
        5 <= effective_class(b).id_spec() < 7,
        effective_class(a).id_spec() < effective_class(b).id_spec(),
{
}

/// The runtime form of [`effective_class`].
pub fn draw_class_of(s: &ShapeBase) -> (t: RenderType)
    ensures
        t == effective_class(*s),
{
    if s.transparent {
        if matches!(s.render_type, RenderType::Triangle) {
            RenderType::TriangleTransparent
        } else {
            RenderType::TriangleStripTransparent
        }
    } else {
        s.render_type
    }
}

} // verus!
