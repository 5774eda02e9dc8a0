use xatlas_rs::{
    AtlasReport, Chart, ChartOptions, ChartType, IndexData, Mesh, MeshData, MeshDecl,
    PackOptions, Vertex, Xatlas,
};

fn degenerate_triangle_decl<'a>(indices: &'a [u32]) -> MeshDecl<'a> {
    // Positions (0,0,0), (0,1,1), (0,1,0): nine scalars, three vertices.
    MeshDecl {
        vertex_position_data: MeshData::Contiguous { scalar_count: 9 },
        index_data: Some(IndexData::U32(indices)),
        ..MeshDecl::default()
    }
}

fn one_mesh_report(width: u32, height: u32, atlas_count: u32) -> AtlasReport {
    AtlasReport {
        width,
        height,
        atlas_count,
        meshes: vec![Mesh {
            index_array: vec![0, 1, 2],
            chart_array: vec![Chart {
                face_array: vec![0],
                atlas_index: 0,
                type_: ChartType::LSCM,
                material: 0,
            }],
            vertex_array: vec![
                Vertex { atlas_index: 0, chart_index: 0, xref: 0 },
                Vertex { atlas_index: 0, chart_index: 0, xref: 1 },
                Vertex { atlas_index: 0, chart_index: 0, xref: 2 },
            ],
        }],
        image: None,
    }
}

#[test]
fn new_atlas_reports_nothing() {
    let atlas = Xatlas::new();
    assert_eq!(atlas.width(), 0);
    assert_eq!(atlas.height(), 0);
    assert_eq!(atlas.atlas_count(), 0);
    assert_eq!(atlas.chart_count(), 0);
    assert_eq!(atlas.mesh_count(), 0);
    assert!(atlas.meshes().is_empty());
    assert!(atlas.image().is_none());
}

#[test]
fn default_atlas_equals_a_fresh_one() {
    let atlas = Xatlas::default();
    assert_eq!(atlas.mesh_count(), 0);
    assert!(atlas.meshes().is_empty());
}

#[test]
fn generated_views_match_the_report() {
    // A single degenerate triangle, submitted once and generated once with
    // default options: one output mesh, one chart, three vertices, three
    // indices, every cross-reference pointing back into the input.
    let indices: [u32; 3] = [0, 1, 2];
    let decl = degenerate_triangle_decl(&indices);
    let mut atlas = Xatlas::new();
    assert_eq!(atlas.add_mesh(&decl), Ok(()));
    atlas.generate(
        &ChartOptions::default(),
        &PackOptions::default(),
        1,
        one_mesh_report(16, 16, 1),
    );
    assert_eq!(atlas.mesh_count(), 1);
    assert_eq!(atlas.chart_count(), 1);
    assert_eq!(atlas.width(), 16);
    assert_eq!(atlas.height(), 16);
    assert_eq!(atlas.atlas_count(), 1);
    let meshes = atlas.meshes();
    assert_eq!(meshes.len(), 1);
    assert_eq!(meshes[0].index_array, vec![0, 1, 2]);
    assert!(!meshes[0].chart_array.is_empty());
    assert_eq!(meshes[0].vertex_array.len(), 3);
    for vertex in &meshes[0].vertex_array {
        assert!(vertex.xref <= 2);
    }
}

#[test]
fn regeneration_replaces_every_view() {
    let indices: [u32; 3] = [0, 1, 2];
    let decl = degenerate_triangle_decl(&indices);
    let mut atlas = Xatlas::new();
    assert_eq!(atlas.add_mesh(&decl), Ok(()));
    atlas.generate(
        &ChartOptions::default(),
        &PackOptions::default(),
        1,
        one_mesh_report(16, 16, 1),
    );

    // Re-pack with different options; the engine reports new extents and a
    // new output mesh set.
    let repacked = PackOptions { resolution: 64, ..PackOptions::default() };
    let second = one_mesh_report(64, 32, 2);
    atlas.compute_charts(&ChartOptions::default(), 3);
    atlas.pack_charts(&repacked, second.clone());

    assert_eq!(atlas.chart_count(), 3);
    assert_eq!(atlas.width(), 64);
    assert_eq!(atlas.height(), 32);
    assert_eq!(atlas.atlas_count(), 2);
    assert_eq!(atlas.mesh_count(), 1);
    assert_eq!(atlas.meshes(), &second.meshes);
    assert!(atlas.image().is_none());
}

#[test]
fn recomputation_invalidates_packed_views() {
    let indices: [u32; 3] = [0, 1, 2];
    let decl = degenerate_triangle_decl(&indices);
    let mut atlas = Xatlas::new();
    assert_eq!(atlas.add_mesh(&decl), Ok(()));
    atlas.generate(
        &ChartOptions::default(),
        &PackOptions::default(),
        1,
        one_mesh_report(16, 16, 1),
    );
    atlas.compute_charts(&ChartOptions::default(), 2);
    assert_eq!(atlas.width(), 0);
    assert_eq!(atlas.height(), 0);
    assert_eq!(atlas.atlas_count(), 0);
    assert!(atlas.meshes().is_empty());
    assert!(atlas.image().is_none());
    assert_eq!(atlas.chart_count(), 2);
    assert_eq!(atlas.mesh_count(), 1);
}

#[test]
fn absent_image_reports_as_not_present() {
    let indices: [u32; 3] = [0, 1, 2];
    let decl = degenerate_triangle_decl(&indices);
    let mut atlas = Xatlas::new();
    assert_eq!(atlas.add_mesh(&decl), Ok(()));
    // No composite image requested: the report carries none.
    atlas.generate(
        &ChartOptions::default(),
        &PackOptions::default(),
        1,
        one_mesh_report(16, 16, 1),
    );
    // Absent, not present-but-empty.
    assert!(atlas.image().is_none());
}

#[test]
fn requested_image_covers_every_atlas_page() {
    let indices: [u32; 3] = [0, 1, 2];
    let decl = degenerate_triangle_decl(&indices);
    let mut atlas = Xatlas::new();
    assert_eq!(atlas.add_mesh(&decl), Ok(()));
    let with_image = PackOptions { create_image: true, ..PackOptions::default() };
    let report = AtlasReport {
        image: Some(vec![0; 2 * 2 * 1]),
        ..one_mesh_report(2, 2, 1)
    };
    atlas.generate(&ChartOptions::default(), &with_image, 1, report);
    let image = atlas.image().expect("a requested image is present");
    assert_eq!(image.len(), 4);
}

#[test]
fn width_and_height_are_independent() {
    let indices: [u32; 3] = [0, 1, 2];
    let decl = degenerate_triangle_decl(&indices);
    let mut atlas = Xatlas::new();
    assert_eq!(atlas.add_mesh(&decl), Ok(()));
    atlas.generate(
        &ChartOptions::default(),
        &PackOptions::default(),
        1,
        one_mesh_report(7, 9, 1),
    );
    assert_eq!(atlas.width(), 7);
    assert_eq!(atlas.height(), 9);
}

#[test]
fn add_mesh_join_changes_nothing_observable() {
    let indices: [u32; 3] = [0, 1, 2];
    let decl = degenerate_triangle_decl(&indices);
    let mut atlas = Xatlas::new();
    assert_eq!(atlas.add_mesh(&decl), Ok(()));
    atlas.add_mesh_join();
    assert_eq!(atlas.mesh_count(), 1);
    assert_eq!(atlas.width(), 0);
    assert!(atlas.meshes().is_empty());
}

#[test]
fn default_chart_options_match_the_engine() {
    let options = ChartOptions::default();
    assert_eq!(options.max_iterations, 1);
    assert!(!options.use_input_mesh_uvs);
    assert!(!options.fix_winding);
}

#[test]
fn default_pack_options_match_the_engine() {
    let options = PackOptions::default();
    assert_eq!(options.max_chart_size, 0);
    assert_eq!(options.padding, 0);
    assert_eq!(options.resolution, 0);
    assert!(options.bilinear);
    assert!(!options.block_align);
    assert!(!options.brute_force);
    assert!(!options.create_image);
    assert!(options.rotate_charts_to_axis);
    assert!(options.rotate_charts);
}

#[test]
fn default_mesh_decl_is_empty() {
    let decl = MeshDecl::default();
    assert!(matches!(
        decl.vertex_position_data,
        MeshData::Contiguous { scalar_count: 0 }
    ));
    assert!(decl.vertex_normal_data.is_none());
    assert!(decl.vertex_uv_data.is_none());
    assert!(decl.face_ignore_data.is_none());
    assert!(decl.face_material_data.is_none());
    assert!(decl.face_vertex_count.is_none());
    assert!(decl.index_data.is_none());
    assert_eq!(decl.face_count, 0);
}
