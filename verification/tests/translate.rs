use xatlas_rs::{
    add_mesh_error_result, categories_in_order, category_rank, chart_type_from_code,
    progress_category_from_code, status_code, AddMeshError, ChartType, ProgressCategory,
};

#[test]
fn status_codes_round_trip() {
    let kinds = [
        AddMeshError::Error,
        AddMeshError::IndexOutOfRange,
        AddMeshError::InvalidFaceVertexCount,
        AddMeshError::InvalidIndexCount,
    ];
    for kind in kinds {
        let code = status_code(&kind);
        assert_eq!(add_mesh_error_result(code), Err(kind));
    }
}

#[test]
fn status_codes_are_distinct_and_not_success() {
    let kinds = [
        AddMeshError::Error,
        AddMeshError::IndexOutOfRange,
        AddMeshError::InvalidFaceVertexCount,
        AddMeshError::InvalidIndexCount,
    ];
    for (i, a) in kinds.iter().enumerate() {
        assert_ne!(status_code(a), 0);
        for b in kinds.iter().skip(i + 1) {
            assert_ne!(status_code(a), status_code(b));
        }
    }
}

#[test]
fn success_code_maps_to_ok() {
    assert_eq!(add_mesh_error_result(0), Ok(()));
}

#[test]
fn status_code_values_match_the_engine() {
    assert_eq!(status_code(&AddMeshError::Error), 1);
    assert_eq!(status_code(&AddMeshError::IndexOutOfRange), 2);
    assert_eq!(status_code(&AddMeshError::InvalidFaceVertexCount), 3);
    assert_eq!(status_code(&AddMeshError::InvalidIndexCount), 4);
}

#[test]
fn progress_categories_follow_engine_tags() {
    assert_eq!(progress_category_from_code(0), ProgressCategory::AddMesh);
    assert_eq!(progress_category_from_code(1), ProgressCategory::ComputeCharts);
    assert_eq!(progress_category_from_code(2), ProgressCategory::PackCharts);
    assert_eq!(
        progress_category_from_code(3),
        ProgressCategory::BuildOutputMeshes
    );
    for code in 0..4u32 {
        assert_eq!(category_rank(&progress_category_from_code(code)), code);
    }
}

#[test]
fn ascending_progress_trace_is_in_order() {
    let trace = vec![
        ProgressCategory::AddMesh,
        ProgressCategory::AddMesh,
        ProgressCategory::ComputeCharts,
        ProgressCategory::ComputeCharts,
        ProgressCategory::PackCharts,
        ProgressCategory::BuildOutputMeshes,
    ];
    assert!(categories_in_order(&trace));
}

#[test]
fn regressing_progress_trace_is_out_of_order() {
    let trace = vec![ProgressCategory::PackCharts, ProgressCategory::ComputeCharts];
    assert!(!categories_in_order(&trace));
}

#[test]
fn trivial_progress_traces_are_in_order() {
    assert!(categories_in_order(&Vec::new()));
    assert!(categories_in_order(&vec![ProgressCategory::PackCharts]));
}

#[test]
fn chart_types_follow_engine_tags() {
    assert_eq!(chart_type_from_code(0), ChartType::Planar);
    assert_eq!(chart_type_from_code(1), ChartType::Ortho);
    assert_eq!(chart_type_from_code(2), ChartType::LSCM);
    assert_eq!(chart_type_from_code(3), ChartType::Piecewise);
    assert_eq!(chart_type_from_code(4), ChartType::Invalid);
}
