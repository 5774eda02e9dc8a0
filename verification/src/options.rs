use vstd::prelude::*;

verus! {

/// Options governing chart growth, re-invokable per computation.
///
/// The engine also takes an optional external parameterization function and a
/// set of fractional weights and thresholds (chart area and boundary limits,
/// normal-deviation, roundness, straightness, seam and cost weights). Those
/// are engine-only data this layer never reads; the unverified rim carries
/// them alongside these fields.
#[derive(Clone, Copy, Debug, PartialEq, Eq, Structural)]
pub struct ChartOptions {
    /// Number of iterations of the chart growing and seeding phases. Higher
    /// values result in better charts.
    pub max_iterations: u32,
    /// Use the declared input UVs as hints for charts.
    pub use_input_mesh_uvs: bool,
    /// Enforce consistent texture coordinate winding.
    pub fix_winding: bool,
}

impl Default for ChartOptions {
    /// The engine's defaults: one growth iteration, UV hints and winding
    /// enforcement off.
    fn default() -> (r: Self)
        ensures
            r == (ChartOptions { max_iterations: 1, use_input_mesh_uvs: false, fix_winding: false }),
    {
        ChartOptions { max_iterations: 1, use_input_mesh_uvs: false, fix_winding: false }
    }
}

/// Options governing atlas packing, re-invokable per packing.
///
/// The engine also takes a texels-per-unit scale, a fractional value this
/// layer never reads; the unverified rim carries it alongside these fields.
#[derive(Clone, Copy, Debug, PartialEq, Eq, Structural)]
pub struct PackOptions {
    /// Charts larger than this are scaled down. 0 means no limit.
    pub max_chart_size: u32,
    /// Number of pixels to pad charts with.
    pub padding: u32,
    /// If 0, generate a single atlas whose final resolution the scale
    /// determines; if not 0, generate one or more atlases at this resolution.
    pub resolution: u32,
    /// Leave space around charts for texels sampled by bilinear filtering.
    pub bilinear: bool,
    /// Align charts to 4x4 blocks.
    pub block_align: bool,
    /// Slower, but gives the best result; otherwise charts are placed
    /// randomly.
    pub brute_force: bool,
    /// Ask the engine to composite an image of the packed atlas.
    pub create_image: bool,
    /// Rotate charts to the axis of their convex hull.
    pub rotate_charts_to_axis: bool,
    /// Rotate charts to improve packing.
    pub rotate_charts: bool,
}

impl Default for PackOptions {
    /// The engine's defaults: no size limit, no padding, automatic
    /// resolution, bilinear safety on, no blocking or brute force, no image,
    /// both chart rotations on.
    fn default() -> (r: Self)
        ensures
            r == (PackOptions {
                max_chart_size: 0,
                padding: 0,
                resolution: 0,
                bilinear: true,
                block_align: false,
                brute_force: false,
                create_image: false,
                rotate_charts_to_axis: true,
                rotate_charts: true,
            }),
    {
        PackOptions {
            max_chart_size: 0,
            padding: 0,
            resolution: 0,
            bilinear: true,
            block_align: false,
            brute_force: false,
            create_image: false,
            rotate_charts_to_axis: true,
            rotate_charts: true,
        }
    }
}

} // verus!
