use nokden::graphics::{BufferUsage, GraphicsSystem, Mat4, RenderCommand};
use nokden::mesh::{
    COLOR_ALPHA_ONE, MeshAsset, MeshError, MeshInstance, MeshSystem, ObjData, ObjMaterial,
    ObjModel, VertexInput, engine_name, engine_version, vertices_to_bytes,
};

fn vertex(seed: u32) -> VertexInput {
    VertexInput { position: [seed, seed + 1, seed + 2], color: [9, 9, 9, 9] }
}

fn mat(seed: u32) -> Mat4 {
    let mut lanes = [0u32; 16];
    for (i, lane) in lanes.iter_mut().enumerate() {
        *lane = seed + i as u32;
    }
    Mat4 { m: lanes }
}

#[test]
fn engine_reports_name_and_version() {
    assert_eq!(engine_name(), "enamorf");
    assert_eq!(engine_version(), "0.1.0");
}

#[test]
fn vertex_records_interleave_position_then_color() {
    let bytes = vertices_to_bytes(&vec![
        VertexInput { position: [1, 2, 3], color: [4, 5, 6, 7] },
        VertexInput { position: [8, 9, 10], color: [11, 12, 13, 14] },
    ]);
    assert_eq!(bytes.len(), 56);
    // stride 28: second record starts at byte 28
    assert_eq!(&bytes[0..4], &[1, 0, 0, 0]);
    // color lanes start at offset 12 inside each record
    assert_eq!(&bytes[12..16], &[4, 0, 0, 0]);
    assert_eq!(&bytes[28..32], &[8, 0, 0, 0]);
    assert_eq!(&bytes[40..44], &[11, 0, 0, 0]);
}

#[test]
fn asset_accepts_highest_index_exactly_at_bound() {
    let mut graphics = GraphicsSystem::new(1);
    let vertices = vec![vertex(0), vertex(10), vertex(20)];
    let result = MeshAsset::new(&mut graphics, vec![0, 1, 2, 2], vertices);
    let asset = result.expect("indices up to the last vertex are in range");
    assert_eq!(asset.index_count(), 4);
}

#[test]
fn asset_rejects_index_one_past_bound() {
    let mut graphics = GraphicsSystem::new(1);
    let vertices = vec![vertex(0), vertex(10), vertex(20)];
    let result = MeshAsset::new(&mut graphics, vec![0, 1, 3], vertices);
    assert_eq!(result.err(), Some(MeshError::IndexOutOfRange));
    assert!(graphics.take_uploads().is_empty());
}

#[test]
fn asset_rejects_empty_vertex_buffer() {
    let mut graphics = GraphicsSystem::new(1);
    let result = MeshAsset::new(&mut graphics, Vec::new(), Vec::new());
    assert_eq!(result.err(), Some(MeshError::NoVertices));
}

#[test]
fn loading_zero_models_fails_without_any_mutation() {
    let mut graphics = GraphicsSystem::new(1);
    let mut meshes = MeshSystem::new(&mut graphics);
    let data = ObjData { models: Vec::new(), materials: vec![ObjMaterial { diffuse: [1, 2, 3] }] };
    let result = meshes.load_asset_obj(data, &mut graphics);
    assert_eq!(result.err(), Some(MeshError::NoModels));
    assert_eq!(meshes.assets.len(), 0);
    assert!(graphics.take_uploads().is_empty());
}

#[test]
fn loading_zero_materials_fails() {
    let mut graphics = GraphicsSystem::new(1);
    let mut meshes = MeshSystem::new(&mut graphics);
    let data = ObjData {
        models: vec![ObjModel { positions: vec![0, 0, 0], indices: vec![0], material_id: Some(0) }],
        materials: Vec::new(),
    };
    assert_eq!(meshes.load_asset_obj(data, &mut graphics).err(), Some(MeshError::NoMaterials));
    assert_eq!(meshes.assets.len(), 0);
}

#[test]
fn loading_without_material_reference_fails() {
    let mut graphics = GraphicsSystem::new(1);
    let mut meshes = MeshSystem::new(&mut graphics);
    let data = ObjData {
        models: vec![ObjModel { positions: vec![0, 0, 0], indices: vec![0], material_id: None }],
        materials: vec![ObjMaterial { diffuse: [1, 2, 3] }],
    };
    assert_eq!(meshes.load_asset_obj(data, &mut graphics).err(), Some(MeshError::MissingMaterial));
    assert_eq!(meshes.assets.len(), 0);
}

#[test]
fn loading_flattens_and_rebases_models() {
    let mut graphics = GraphicsSystem::new(1);
    let mut meshes = MeshSystem::new(&mut graphics);
    let data = ObjData {
        models: vec![
            ObjModel { positions: vec![1, 2, 3], indices: vec![0], material_id: Some(0) },
            ObjModel { positions: vec![4, 5, 6], indices: vec![0], material_id: Some(1) },
        ],
        materials: vec![
            ObjMaterial { diffuse: [10, 20, 30] },
            ObjMaterial { diffuse: [40, 50, 60] },
        ],
    };
    let handle = meshes.load_asset_obj(data, &mut graphics).expect("well-formed data loads");
    assert_eq!(handle.index(), 0);
    assert_eq!(meshes.assets.len(), 1);
    assert_eq!(meshes.assets.read(&handle).index_count(), 2);

    let uploads = graphics.take_uploads();
    assert_eq!(uploads.len(), 2);
    assert_eq!(uploads[0].usage, BufferUsage::Index);
    // the second model's index 0 is rebased past the first model's vertex
    assert_eq!(uploads[0].bytes, vec![0, 0, 0, 0, 1, 0, 0, 0]);
    assert_eq!(uploads[1].usage, BufferUsage::Vertex);
    let alpha = COLOR_ALPHA_ONE.to_le_bytes();
    let mut expected_vertices: Vec<u8> = Vec::new();
    for lane in [1u32, 2, 3, 10, 20, 30] {
        expected_vertices.extend_from_slice(&lane.to_le_bytes());
    }
    expected_vertices.extend_from_slice(&alpha);
    for lane in [4u32, 5, 6, 40, 50, 60] {
        expected_vertices.extend_from_slice(&lane.to_le_bytes());
    }
    expected_vertices.extend_from_slice(&alpha);
    assert_eq!(uploads[1].bytes, expected_vertices);
}

#[test]
fn two_instances_of_one_asset_draw_twice_with_distinct_push_constants() {
    let mut graphics = GraphicsSystem::new(1);
    let mut meshes = MeshSystem::new(&mut graphics);
    let data = ObjData {
        models: vec![ObjModel {
            positions: vec![1, 2, 3, 4, 5, 6, 7, 8, 9],
            indices: vec![0, 1, 2],
            material_id: Some(0),
        }],
        materials: vec![ObjMaterial { diffuse: [10, 20, 30] }],
    };
    let asset = meshes.load_asset_obj(data, &mut graphics).expect("well-formed data loads");
    let shared = meshes.assets.duplicate(&asset);
    meshes.instances.add(MeshInstance { transform: mat(100), mesh: asset });
    meshes.instances.add(MeshInstance { transform: mat(200), mesh: shared });

    let camera = mat(1);
    let index = graphics.frame_start(0);
    meshes.update(&mut graphics, &camera);
    let commands = graphics.commands().clone();
    graphics.frame_end(index);

    let draws: Vec<&RenderCommand> = commands
        .iter()
        .filter(|command| matches!(command, RenderCommand::DrawIndexed { .. }))
        .collect();
    assert_eq!(draws.len(), 2);
    assert_eq!(
        draws[0],
        &RenderCommand::DrawIndexed { index_count: 3, instance_count: 1 },
    );
    assert_eq!(draws[0], draws[1]);

    let pushes: Vec<&RenderCommand> = commands
        .iter()
        .filter(|command| matches!(command, RenderCommand::PushConstants { .. }))
        .collect();
    assert_eq!(pushes.len(), 2);
    assert_eq!(pushes[0], &RenderCommand::PushConstants { camera, model: mat(100) });
    assert_eq!(pushes[1], &RenderCommand::PushConstants { camera, model: mat(200) });
    assert_ne!(pushes[0], pushes[1]);

    // both instances bind the same shared buffers
    let vertex_binds: Vec<&RenderCommand> = commands
        .iter()
        .filter(|command| matches!(command, RenderCommand::BindVertexBuffer { .. }))
        .collect();
    assert_eq!(vertex_binds.len(), 2);
    assert_eq!(vertex_binds[0], vertex_binds[1]);
}

#[test]
fn update_with_no_instances_only_binds_the_pipeline() {
    let mut graphics = GraphicsSystem::new(1);
    let meshes = MeshSystem::new(&mut graphics);
    let camera = mat(0);
    let index = graphics.frame_start(0);
    let before = graphics.commands().len();
    meshes.update(&mut graphics, &camera);
    assert_eq!(graphics.commands().len(), before + 1);
    assert!(matches!(
        graphics.commands().last(),
        Some(RenderCommand::BindPipeline { .. })
    ));
    graphics.frame_end(index);
}
