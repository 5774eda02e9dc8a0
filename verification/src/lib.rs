//! A safe, verified core for a binding to a native mesh UV-atlas generation
//! engine.
//!
//! The engine itself (chart decomposition, parameterization, atlas packing)
//! is an opaque external collaborator reached over a C-style boundary. This
//! crate holds the binding layer's own logic, stated in contracts and proved:
//! validating mesh and UV-mesh declarations before submission, deriving the
//! fixed-layout fields the engine's entry points expect, translating the
//! engine's status codes and progress tags, and keeping the published output
//! views (mesh, chart, vertex and image extents) in exact agreement with what
//! the engine last reported. The unverified rim that owns the raw handle and
//! the caller's scalar buffers drives the engine and feeds its reports back
//! through the `Xatlas` state here.

mod atlas;
mod decl;
mod options;
mod output;
mod progress;
mod status;

pub use atlas::{
    lemma_regenerated_views_match_report, reflects_pack_report, spec_initial_view, AtlasView,
    Xatlas,
};
pub use decl::{
    check_mesh_decl, check_uv_mesh_decl, lemma_indivisible_index_count_rejected,
    lemma_out_of_range_index_rejected, lemma_small_face_vertex_count_rejected,
    lemma_uv_indivisible_index_count_rejected, lemma_uv_out_of_range_index_rejected,
    lemma_uv_valid_triangles_accepted, lemma_valid_triangles_accepted, marshal_mesh_decl,
    marshal_uv_mesh_decl, spec_index_format, spec_marshal_mesh_decl, spec_marshal_uv_mesh_decl,
    submission_result, IndexData, IndexFormat, MeshData, MeshDecl, NativeMeshDecl,
    NativeUvMeshDecl, UvMeshDecl, SCALAR_BYTES,
};
pub use options::{ChartOptions, PackOptions};
pub use output::{
    chart_type_from_code, spec_chart_type_code, spec_image_view, AtlasReport, Chart, ChartType,
    Mesh, Vertex,
};
pub use progress::{
    categories_in_order, category_rank, lemma_phase_order_is_global,
    progress_category_from_code, spec_category_code, spec_phase_ordered, ProgressCategory,
};
pub use status::{
    add_mesh_error_result, lemma_status_codes_distinct, lemma_status_round_trip,
    spec_status_code, spec_status_result, status_code, AddMeshError,
};
