//! Render-resource management: per-shape buffer caching and instancing,
//! and the manager that batches shapes into blend-correct passes.

pub mod shape_manager;
pub mod shape_renderer;

use vstd::prelude::*;

verus! {

/// Which of a shape's device buffers an upload touches.
#[derive(Debug, Clone, Copy, PartialEq, Eq, Structural)]
pub enum BufferUsageType {
    Points,
    Colors,
    PointsAndColors,
    Indices,
}

} // verus!
