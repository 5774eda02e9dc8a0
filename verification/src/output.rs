use vstd::prelude::*;

verus! {

/// Geometric classification the engine assigns to a chart.
#[derive(Clone, Copy, Debug, PartialEq, Eq, Structural)]
pub enum ChartType {
    Planar,
    Ortho,
    LSCM,
    Piecewise,
    Invalid,
}

/// The engine's integer tag for a chart classification.
pub open spec fn spec_chart_type_code(t: ChartType) -> int {
    match t {
        ChartType::Planar => 0,
        ChartType::Ortho => 1,
        ChartType::LSCM => 2,
        ChartType::Piecewise => 3,
        ChartType::Invalid => 4,
    }
}

/// Translates the engine's chart classification tag.
///
/// Tags outside the closed set 0 through 4 cannot occur under the engine's
/// documented contract; such a tag would be an internal-invariant violation,
/// so it is excluded here rather than handled.
pub fn chart_type_from_code(code: u32) -> (r: ChartType)
    requires
        code <= 4,
    ensures
        spec_chart_type_code(r) == code,
{
    match code {
        0 => ChartType::Planar,
        1 => ChartType::Ortho,
        2 => ChartType::LSCM,
        3 => ChartType::Piecewise,
        _ => ChartType::Invalid,
    }
}

/// One output vertex of a generated atlas: the atlas it was placed into, the
/// chart owning it, and a cross-reference back to the index of the input
/// vertex it came from (vertices may be duplicated across chart boundaries).
/// Its 2-D UV coordinate is a pair of fractional values this layer never
/// reads; the unverified rim keeps it beside these fields.
#[derive(Clone, Copy, Debug, PartialEq, Eq, Structural)]
pub struct Vertex {
    pub atlas_index: i32,
    pub chart_index: i32,
    pub xref: u32,
}

/// One chart of a generated atlas: the faces it covers, the atlas it was
/// placed into, its geometric classification and its material tag.
#[derive(Clone, Debug, PartialEq)]
pub struct Chart {
    pub face_array: Vec<u32>,
    pub atlas_index: u32,
    pub type_: ChartType,
    pub material: u32,
}

/// One output mesh of a generated atlas, holding a flattened index array and
/// the ordered chart and vertex sequences the engine built for it.
#[derive(Clone, Debug, PartialEq)]
pub struct Mesh {
    pub index_array: Vec<u32>,
    pub chart_array: Vec<Chart>,
    pub vertex_array: Vec<Vertex>,
}

/// Everything the engine publishes on its handle after a packing step, read
/// back as plain values: the atlas extents, one output mesh per submitted
/// declaration, and the composited image when one was requested.
#[derive(Clone, Debug, PartialEq)]
pub struct AtlasReport {
    pub width: u32,
    pub height: u32,
    pub atlas_count: u32,
    pub meshes: Vec<Mesh>,
    pub image: Option<Vec<u32>>,
}

/// The view of an optional pixel buffer.
pub open spec fn spec_image_view(img: Option<Vec<u32>>) -> Option<Seq<u32>> {
    match img {
        Some(v) => Some(v@),
        None => None,
    }
}

impl AtlasReport {
    /// What the engine guarantees of its published output: a composited
    /// image, when present, covers every atlas page at the published
    /// resolution, and the mesh count fits the handle's 32-bit field.
    pub open spec fn wf(&self) -> bool {
        &&& (self.image matches Some(img) ==> img@.len() == self.atlas_count * self.width
            * self.height)
        &&& self.meshes@.len() <= u32::MAX
    }
}

} // verus!
