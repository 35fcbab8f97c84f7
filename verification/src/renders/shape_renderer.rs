//! One shape's render resources: instance transforms and the lazily
//! rebuilt device buffers.
//!
//! The renderer owns its shape entity exclusively.  A `render` call is
//! modelled as a state transition that yields a [`RenderAction`]: the
//! caller (the host's device layer) performs the buffer uploads and the
//! draw call the action describes.

use vstd::prelude::*;

use crate::scalar::Mat4;
use crate::shapes::shape_base::ShapeBase;
use crate::shapes::RenderType;

verus! {

/// What one renderer asks of the graphics device for a frame.
#[derive(Debug, Clone, Copy, PartialEq, Eq, Structural)]
pub struct RenderAction {
    /// True when the point, color, index and instance buffers must be
    /// (re)created from the current data before drawing.
    pub upload: bool,
    /// True when an indexed, instanced draw call is issued.  It is false
    /// when no buffers exist yet, when the geometry is empty, or when the
    /// shape's counts are inconsistent (such a shape is skipped for the
    /// frame rather than drawn).
    pub draw: bool,
    /// How many indices the draw covers.
    pub index_count: usize,
    /// How many instances the draw covers.
    pub instance_count: usize,
}

/// Owns one shape entity and its instance transform list; rebuilds the
/// device buffers only when the geometry or the instances changed.
pub struct ShapeRenderer {
    pub shape: ShapeBase,
    pub matrix: Vec<Mat4>,
    pub matrix_updated: bool,
    /// Whether device buffers exist from an earlier render.
    pub uploaded: bool,
}

impl ShapeRenderer {
    /// Whether the next render must rebuild the device buffers.
    pub open spec fn needs_upload(self) -> bool {
        self.shape.modified || self.matrix_updated
    }

    /// The renderer's state after one render call: both change flags
    /// cleared, buffers present if they were built now or earlier.
    pub open spec fn after_render(self) -> ShapeRenderer {
        ShapeRenderer {
            shape: ShapeBase { modified: false, ..self.shape },
            matrix: self.matrix,
            matrix_updated: false,
            uploaded: self.uploaded || self.needs_upload(),
        }
    }

    /// The action one render call takes from this state.
    pub open spec fn render_action(self) -> RenderAction {
        RenderAction {
            upload: self.needs_upload(),
            draw: (self.uploaded || self.needs_upload()) && self.shape.wf()
                && self.shape.indices@.len() > 0,
            index_count: self.shape.indices@.len() as usize,
            instance_count: self.matrix@.len() as usize,
        }
    }

    /// Wraps a shape with one identity-transform instance.
    pub fn new(render_shape: ShapeBase) -> (r: ShapeRenderer)
        ensures
            r.shape == render_shape,
            r.matrix@ =~= seq![Mat4::identity_spec()],
            r.matrix_updated,
            !r.uploaded,
    {
        let mut matrix: Vec<Mat4> = Vec::new();
        matrix.push(Mat4::identity());
        ShapeRenderer { shape: render_shape, matrix, matrix_updated: true, uploaded: false }
    }

    /// Wraps a shape with an explicit instance transform list.
    pub fn new_instances(render_shape: ShapeBase, transforms: &[Mat4]) -> (r: ShapeRenderer)
        ensures
            r.shape == render_shape,
            r.matrix@ == transforms@,
            r.matrix_updated,
            !r.uploaded,
    {
        ShapeRenderer {
            shape: render_shape,
            matrix: vstd::slice::slice_to_vec(transforms),
            matrix_updated: true,
            uploaded: false,
        }
    }

    /// Appends one instance transform and marks the instances changed.
    pub fn add_instance(&mut self, mat: Mat4)
        ensures
            final(self).matrix@ == old(self).matrix@.push(mat),
            final(self).matrix_updated,
            final(self).shape == old(self).shape,
            final(self).uploaded == old(self).uploaded,
    {
        self.matrix.push(mat);
        self.matrix_updated = true;
    }

    /// Removes the instance at `id` and marks the instances changed.
    /// An out-of-range index is a caller error, ruled out up front.
    pub fn remove_instance(&mut self, id: usize)
        requires
            id < old(self).matrix@.len(),
        ensures
            final(self).matrix@ == old(self).matrix@.remove(id as int),
            final(self).matrix_updated,
            final(self).shape == old(self).shape,
            final(self).uploaded == old(self).uploaded,
    {
        self.matrix.remove(id);
        self.matrix_updated = true;
    }

    /// Replaces the whole instance list and marks the instances changed.
    pub fn set_instances(&mut self, mats: &[Mat4])
        ensures
            final(self).matrix@ == mats@,
            final(self).matrix_updated,
            final(self).shape == old(self).shape,
            final(self).uploaded == old(self).uploaded,
    {
        self.matrix = vstd::slice::slice_to_vec(mats);
        self.matrix_updated = true;
    }

    pub fn get_render_type(&self) -> (t: RenderType)
        ensures
            t == self.shape.render_type,
    {
        self.shape.get_render_type()
    }

    /// Read access to the owned shape, e.g. to fetch the geometry an
    /// upload must copy to the device.
    pub fn shape(&self) -> (r: &ShapeBase)
        ensures
            r == &self.shape,
    {
        &self.shape
    }

    /// Mutable access to the owned shape; edits set its own dirty flag
    /// through the shape's methods.
    pub fn shape_mut(&mut self) -> (r: &mut ShapeBase)
        ensures
            *r == old(self).shape,
            final(self).shape == *final(r),
            final(self).matrix == old(self).matrix,
            final(self).matrix_updated == old(self).matrix_updated,
            final(self).uploaded == old(self).uploaded,
    {
        &mut self.shape
    }

    /// One render call: decides whether the device buffers must be
    /// rebuilt (exactly when the geometry or the instance list changed,
    /// or nothing was ever uploaded), clears both change flags, and
    /// describes the draw to issue.  The caller executes the action
    /// against the device.
    pub fn render(&mut self) -> (a: RenderAction)
        ensures
            a == old(self).render_action(),
            *final(self) == old(self).after_render(),
    {
        let a = RenderAction {
            upload: self.shape.should_repaint() || self.matrix_updated,
            draw: (self.uploaded || self.shape.should_repaint() || self.matrix_updated)
                && self.shape.check() && self.indices_len() > 0,
            index_count: self.indices_len(),
            instance_count: self.matrix.len(),
        };
        self.uploaded = self.uploaded || self.shape.should_repaint() || self.matrix_updated;
        self.shape.set_repaint(false);
        self.matrix_updated = false;
        a
    }

    fn indices_len(&self) -> (n: usize)
        ensures
            n == self.shape.indices@.len(),
    {
        self.shape.indices.len()
    }
}

/// Rendering is idempotent on an unchanged renderer: after one render
/// call nothing needs uploading, so a second call with no intervening
/// geometry or instance edit rebuilds no buffers, issues the same draw,
/// and leaves the renderer exactly where the first call left it.
pub proof fn lemma_render_idempotent(r: ShapeRenderer)
    ensures
        !r.after_render().needs_upload(),
        r.after_render().after_render() == r.after_render(),
        r.after_render().render_action() == (RenderAction {
            upload: false,
            ..r.render_action()
        }),
        r.after_render().render_action().draw == r.render_action().draw,
{
}

} // verus!
