//! Shape entities and the procedural geometry generators.

pub mod shape_base;

use vstd::prelude::*;

verus! {

/// Which generator produced a shape; purely informational.
#[derive(Debug, Clone, Copy, PartialEq, Eq, Structural)]
pub enum ShapeType {
    Polygon,
    Square,
    Cube,
    Circle,
    Sphere,
    Cone,
    Cylinder,
}

/// The primitive assembly mode a draw call uses, refined by the two
/// transparent triangle classes that only affect pass ordering.
#[derive(Debug, Clone, Copy, PartialEq, Eq, Structural)]
pub enum RenderType {
    Points,
    Line,
    LineStrip,
    Triangle,
    TriangleStrip,
    TriangleTransparent,
    TriangleStripTransparent,
}

impl RenderType {
    /// Position of this class in the fixed pass order.
    pub open spec fn id_spec(self) -> int {
        match self {
            RenderType::Points => 0,
            RenderType::Line => 1,
            RenderType::LineStrip => 2,
            RenderType::Triangle => 3,
            RenderType::TriangleStrip => 4,
            RenderType::TriangleTransparent => 5,
            RenderType::TriangleStripTransparent => 6,
        }
    }

    /// The class drawn in pass `id`; out-of-range ids fall back to `Points`.
    pub open spec fn from_id_spec(id: int) -> RenderType {
        if id == 1 {
            RenderType::Line
        } else if id == 2 {
            RenderType::LineStrip
        } else if id == 3 {
            RenderType::Triangle
        } else if id == 4 {
            RenderType::TriangleStrip
        } else if id == 5 {
            RenderType::TriangleTransparent
        } else if id == 6 {
            RenderType::TriangleStripTransparent
        } else {
            RenderType::Points
        }
    }

    /// The two classes that are alpha-composited without depth testing.
    pub open spec fn is_transparent_class(self) -> bool {
        self == RenderType::TriangleTransparent || self == RenderType::TriangleStripTransparent
    }

    /// How many topology classes there are (one render pass each).
    pub fn len() -> (n: usize)
        ensures
            n == 7,
    {
        7
    }

    pub fn class_id(&self) -> (id: usize)
        ensures
            id == self.id_spec(),
    {
        match self {
            RenderType::Points => 0,
            RenderType::Line => 1,
            RenderType::LineStrip => 2,
            RenderType::Triangle => 3,
            RenderType::TriangleStrip => 4,
            RenderType::TriangleTransparent => 5,
            RenderType::TriangleStripTransparent => 6,
        }
    }

    pub fn from_id(id: usize) -> (t: RenderType)
        ensures
            t == RenderType::from_id_spec(id as int),
    {
        match id {
            1 => RenderType::Line,
            2 => RenderType::LineStrip,
            3 => RenderType::Triangle,
            4 => RenderType::TriangleStrip,
            5 => RenderType::TriangleTransparent,
            6 => RenderType::TriangleStripTransparent,
            _ => RenderType::Points,
        }
    }

    /// All classes, in pass order.
    pub fn iter() -> (v: Vec<RenderType>)
        ensures
            v@.len() == 7,
            forall|i: int| 0 <= i < 7 ==> v@[i] == RenderType::from_id_spec(i),
    {
        let v = vec![
            RenderType::Points,
            RenderType::Line,
            RenderType::LineStrip,
            RenderType::Triangle,
            RenderType::TriangleStrip,
            RenderType::TriangleTransparent,
            RenderType::TriangleStripTransparent,
        ];
        assert(forall|i: int| 0 <= i < 7 ==> v@[i] == RenderType::from_id_spec(i));
        v
    }

    pub open spec fn label_spec(self) -> Seq<char> {
        match self {
            RenderType::Points => "Points Pipeline"@,
            RenderType::Line => "Line Pipeline"@,
            RenderType::LineStrip => "LineStrip Pipeline"@,
            RenderType::Triangle => "Triangle Pipeline"@,
            RenderType::TriangleStrip => "TriangleStrip Pipeline"@,
            RenderType::TriangleTransparent => "Transparent Triangle Pipeline"@,
            RenderType::TriangleStripTransparent => "Transparent TriangleStrip Pipeline"@,
        }
    }

    /// The debug label of the render pipeline built for this class.
    pub fn pipeline_label(&self) -> (s: &'static str)
        ensures
            s@ == self.label_spec(),
    {
        match self {
            RenderType::Points => "Points Pipeline",
            RenderType::Line => "Line Pipeline",
            RenderType::LineStrip => "LineStrip Pipeline",
            RenderType::Triangle => "Triangle Pipeline",
            RenderType::TriangleStrip => "TriangleStrip Pipeline",
            RenderType::TriangleTransparent => "Transparent Triangle Pipeline",
            RenderType::TriangleStripTransparent => "Transparent TriangleStrip Pipeline",
        }
    }
}

/// The round trip between a class and its pass position is the identity,
/// so pass construction by position never confuses two classes.
pub proof fn lemma_class_id_round_trip(t: RenderType)
    ensures
        RenderType::from_id_spec(t.id_spec()) == t,
        0 <= t.id_spec() < 7,
{
}

} // verus!
