//! Mesh geometry assets and the per-frame draw loop.
//!
//! Geometry lives in device buffers that the graphics system models as ids
//! and byte uploads; a `MeshAsset` names those buffers. `MeshInstance`s
//! reference a shared asset through a storage handle, and `update` walks
//! every instance in insertion order, binds its buffers, uploads the camera
//! and model matrices as push constants and records one indexed draw.

use vstd::prelude::*;
use crate::{Handle, Storage};
use crate::graphics::{
    AttributeFormat, BufferUsage, FrameState, GraphicsSystem, Mat4, PipelineConfig, PresentIndex,
    RenderCommand, Topology, VertexAttribute, frame_end_enabled, frame_start_post, same_resources,
    spec_words_to_bytes, words_to_bytes,
};

verus! {

/// Name of the engine.
pub fn engine_name() -> (name: &'static str)
    ensures
        name@ == "enamorf"@,
{
    "enamorf"
}

/// Version of the engine.
pub fn engine_version() -> (version: &'static str)
    ensures
        version@ == "0.1.0"@,
{
    "0.1.0"
}

/// One interleaved vertex record exactly as the vertex stage consumes it:
/// three 32-bit position lanes, then four 32-bit color lanes, tightly
/// packed. Each lane holds the raw bit pattern of the value the shader
/// reads.
#[derive(Clone, Copy, PartialEq, Eq, Debug)]
pub struct VertexInput {
    pub position: [u32; 3],
    pub color: [u32; 4],
}

/// Byte stride of one vertex record: seven 32-bit lanes.
pub const VERTEX_STRIDE: u32 = 28;

/// Byte offset of the color lanes inside one vertex record.
pub const VERTEX_COLOR_OFFSET: u32 = 12;

/// Size of one push-constant write: the camera matrix and the model
/// matrix, 64 bytes each.
pub const PUSH_CONSTANT_SIZE: u32 = 128;

/// Bit pattern of an opaque alpha lane (the value one).
pub const COLOR_ALPHA_ONE: u32 = 0x3F80_0000;

/// Vertices per face: the loader expects triangulated input.
pub const VERTEX_PER_FACE: usize = 3;

/// The bytes of one vertex record: position lanes then color lanes, each
/// lane little-endian.
pub open spec fn spec_vertex_to_bytes(vertex: VertexInput) -> Seq<u8> {
    spec_words_to_bytes(vertex.position@ + vertex.color@)
}

/// The bytes of a whole vertex buffer, record after record.
pub open spec fn spec_vertices_to_bytes(vertices: Seq<VertexInput>) -> Seq<u8>
    decreases vertices.len(),
{
    if vertices.len() == 0 {
        Seq::<u8>::empty()
    } else {
        spec_vertices_to_bytes(vertices.drop_last()) + spec_vertex_to_bytes(vertices.last())
    }
}

pub proof fn lemma_vertices_to_bytes_len(vertices: Seq<VertexInput>)
    ensures
        spec_vertices_to_bytes(vertices).len() == VERTEX_STRIDE * vertices.len(),
    decreases vertices.len(),
{
    if vertices.len() == 0 {
    } else {
        lemma_vertices_to_bytes_len(vertices.drop_last());
        crate::graphics::lemma_words_to_bytes_len(
            vertices.last().position@ + vertices.last().color@,
        );
    }
}

/// Serializes vertex records into the interleaved buffer layout the
/// pipeline declares: stride 28, positions at offset 0, colors at 12.
pub fn vertices_to_bytes(vertices: &Vec<VertexInput>) -> (bytes: Vec<u8>)
    ensures
        bytes@ == spec_vertices_to_bytes(vertices@),
        bytes@.len() == VERTEX_STRIDE * vertices@.len(),
{
    let mut bytes: Vec<u8> = Vec::new();
    let mut i: usize = 0;
    while i < vertices.len()
        invariant
            i <= vertices@.len(),
            bytes@ == spec_vertices_to_bytes(vertices@.take(i as int)),
        decreases vertices@.len() - i,
    {
        let vertex = &vertices[i];
        let mut words: Vec<u32> = Vec::new();
        words.push(vertex.position[0]);
        words.push(vertex.position[1]);
        words.push(vertex.position[2]);
        words.push(vertex.color[0]);
        words.push(vertex.color[1]);
        words.push(vertex.color[2]);
        words.push(vertex.color[3]);
        let mut record = words_to_bytes(&words);
        proof {
            assert(words@ =~= vertex.position@ + vertex.color@);
            assert(vertices@.take(i + 1).drop_last() =~= vertices@.take(i as int));
            assert(vertices@.take(i + 1).last() == vertices@[i as int]);
        }
        bytes.append(&mut record);
        i = i + 1;
    }
    proof {
        assert(vertices@.take(vertices@.len() as int) =~= vertices@);
        lemma_vertices_to_bytes_len(vertices@);
    }
    bytes
}

/// Why loading or constructing a mesh failed. Every failure is fatal for
/// the asset: nothing is stored and nothing is uploaded.
#[derive(Clone, Copy, PartialEq, Eq, Structural, Debug)]
pub enum MeshError {
    /// The source yielded no models.
    NoModels,
    /// The source yielded no materials.
    NoMaterials,
    /// A model with vertices names no material, or one that does not exist.
    MissingMaterial,
    /// The flattened geometry has no vertices.
    NoVertices,
    /// An index refers past the end of the vertex buffer.
    IndexOutOfRange,
    /// A count or an offset does not fit its on-device representation.
    DataTooLarge,
    /// The device model has no ids left for two more buffers.
    OutOfResources,
}

/// Immutable geometry uploaded to device memory: the two device buffers
/// with their memory, and how many indices to draw.
pub struct MeshAsset {
    index_count: u32,
    index_buffer: u64,
    index_memory: u64,
    vertex_buffer: u64,
    vertex_memory: u64,
}

impl MeshAsset {
    pub closed spec fn spec_index_count(&self) -> u32 {
        self.index_count
    }

    pub closed spec fn spec_index_buffer(&self) -> u64 {
        self.index_buffer
    }

    pub closed spec fn spec_index_memory(&self) -> u64 {
        self.index_memory
    }

    pub closed spec fn spec_vertex_buffer(&self) -> u64 {
        self.vertex_buffer
    }

    pub closed spec fn spec_vertex_memory(&self) -> u64 {
        self.vertex_memory
    }

    /// How many indices one draw of this asset covers.
    pub fn index_count(&self) -> (count: u32)
        ensures
            count == self.spec_index_count(),
    {
        self.index_count
    }
}

/// The indices reference only vertices that exist, and there is at least
/// one vertex to reference.
pub open spec fn asset_valid(indices: Seq<u32>, vertices: Seq<VertexInput>) -> bool {
    &&& vertices.len() > 0
    &&& forall|i: int| 0 <= i < indices.len() ==> (indices[i] as int) < vertices.len()
}

/// The first reason constructing an asset from this geometry fails, in the
/// order the checks run; `None` when construction succeeds.
pub open spec fn asset_error_of(
    pre_next_id: u64,
    indices: Seq<u32>,
    vertices: Seq<VertexInput>,
) -> Option<MeshError> {
    if vertices.len() == 0 {
        Some(MeshError::NoVertices)
    } else if exists|i: int| 0 <= i < indices.len() && (indices[i] as int) >= vertices.len() {
        Some(MeshError::IndexOutOfRange)
    } else if indices.len() > u32::MAX {
        Some(MeshError::DataTooLarge)
    } else if pre_next_id > u64::MAX - 4 {
        Some(MeshError::OutOfResources)
    } else {
        None
    }
}

/// The effect of `MeshAsset::new`: on success the index bytes and the
/// vertex bytes are queued for upload into four fresh device ids and the
/// asset names them; on failure the graphics system is untouched and the
/// error is the first failing check.
pub open spec fn asset_new_post(
    pre: GraphicsSystem,
    indices: Seq<u32>,
    vertices: Seq<VertexInput>,
    post: GraphicsSystem,
    result: Result<MeshAsset, MeshError>,
) -> bool {
    match asset_error_of(pre.spec_next_id(), indices, vertices) {
        Some(error) => result == Result::<MeshAsset, MeshError>::Err(error) && post == pre,
        None => {
            &&& result is Ok
            &&& {
                let asset = result->Ok_0;
                &&& asset.spec_index_count() == indices.len()
                &&& asset.spec_index_buffer() == pre.spec_next_id()
                &&& asset.spec_index_memory() == pre.spec_next_id() + 1
                &&& asset.spec_vertex_buffer() == pre.spec_next_id() + 2
                &&& asset.spec_vertex_memory() == pre.spec_next_id() + 3
                &&& post.spec_next_id() == pre.spec_next_id() + 4
                &&& post.spec_uploads().len() == pre.spec_uploads().len() + 2
                &&& post.spec_uploads().take(pre.spec_uploads().len() as int)
                    == pre.spec_uploads()
                &&& {
                    let index_upload = post.spec_uploads()[pre.spec_uploads().len() as int];
                    let vertex_upload = post.spec_uploads()[pre.spec_uploads().len() as int + 1];
                    &&& index_upload.buffer == asset.spec_index_buffer()
                    &&& index_upload.memory == asset.spec_index_memory()
                    &&& index_upload.usage == BufferUsage::Index
                    &&& index_upload.bytes@ == spec_words_to_bytes(indices)
                    &&& vertex_upload.buffer == asset.spec_vertex_buffer()
                    &&& vertex_upload.memory == asset.spec_vertex_memory()
                    &&& vertex_upload.usage == BufferUsage::Vertex
                    &&& vertex_upload.bytes@ == spec_vertices_to_bytes(vertices)
                }
                &&& post.spec_pipelines() == pre.spec_pipelines()
                &&& post.spec_image_count() == pre.spec_image_count()
                &&& post.spec_frame() == pre.spec_frame()
                &&& post.spec_commands() == pre.spec_commands()
            }
        },
    }
}

impl MeshAsset {
    /// Uploads the geometry: serializes the indices and the interleaved
    /// vertex records, binds a device buffer with memory for each, and
    /// names them in the returned asset. Construction fails — leaving the
    /// device model untouched — when there are no vertices, when an index
    /// is out of range, or when a count does not fit.
    pub fn new(
        graphics: &mut GraphicsSystem,
        indices: Vec<u32>,
        vertices: Vec<VertexInput>,
    ) -> (result: Result<MeshAsset, MeshError>)
        ensures
            asset_new_post(*old(graphics), indices@, vertices@, *final(graphics), result),
    {
        if vertices.len() == 0 {
            return Err(MeshError::NoVertices);
        }
        let mut highest: u32 = 0;
        let mut i: usize = 0;
        while i < indices.len()
            invariant
                i <= indices@.len(),
                forall|j: int| 0 <= j < i ==> indices@[j] <= highest,
                highest == 0 || exists|j: int| 0 <= j < i && indices@[j] == highest,
            decreases indices@.len() - i,
        {
            if indices[i] > highest {
                highest = indices[i];
            }
            i = i + 1;
        }
        if (highest as usize) >= vertices.len() {
            return Err(MeshError::IndexOutOfRange);
        }
        if indices.len() > u32::MAX as usize {
            return Err(MeshError::DataTooLarge);
        }
        if !graphics.can_bind_buffer_pair() {
            return Err(MeshError::OutOfResources);
        }
        let index_count = indices.len() as u32;
        let index_bytes = words_to_bytes(&indices);
        let index_binding = graphics.bind_buffer_memory(index_bytes, BufferUsage::Index);
        let vertex_bytes = vertices_to_bytes(&vertices);
        let vertex_binding = graphics.bind_buffer_memory(vertex_bytes, BufferUsage::Vertex);
        proof {
            assert(graphics.spec_uploads().take(old(graphics).spec_uploads().len() as int)
                =~= old(graphics).spec_uploads());
        }
        Ok(
            MeshAsset {
                index_count,
                index_buffer: index_binding.buffer,
                index_memory: index_binding.memory,
                vertex_buffer: vertex_binding.buffer,
                vertex_memory: vertex_binding.memory,
            },
        )
    }
}

/// One drawable occurrence of a shared asset: the model matrix placing it
/// in the world, and the handle of the asset it draws.
pub struct MeshInstance {
    pub transform: Mat4,
    pub mesh: Handle<MeshAsset>,
}

/// Renders non-animated meshes: owns the geometry assets, the instances
/// that reference them, and the pipeline they are drawn with.
pub struct MeshSystem {
    shader: u64,
    pub assets: Storage<MeshAsset>,
    pub instances: Storage<MeshInstance>,
}

/// The draw commands `update` records for one instance: bind the asset's
/// buffers, upload the camera and model matrices, draw every index once.
pub open spec fn instance_commands(
    assets: Seq<MeshAsset>,
    instance: MeshInstance,
    camera: Mat4,
) -> Seq<RenderCommand> {
    let asset = assets[instance.mesh@];
    seq![
        (RenderCommand::BindVertexBuffer { buffer: asset.spec_vertex_buffer() }),
        (RenderCommand::BindIndexBuffer { buffer: asset.spec_index_buffer() }),
        (RenderCommand::PushConstants { camera, model: instance.transform }),
        (RenderCommand::DrawIndexed { index_count: asset.spec_index_count(), instance_count: 1 }),
    ]
}

/// The draw commands `update` records for a sequence of instances, in
/// insertion order: no culling, no sorting, one draw per instance.
pub open spec fn draw_commands(
    assets: Seq<MeshAsset>,
    instances: Seq<MeshInstance>,
    camera: Mat4,
) -> Seq<RenderCommand>
    decreases instances.len(),
{
    if instances.len() == 0 {
        Seq::<RenderCommand>::empty()
    } else {
        draw_commands(assets, instances.drop_last(), camera) + instance_commands(
            assets,
            instances.last(),
            camera,
        )
    }
}

impl MeshSystem {
    pub closed spec fn spec_shader(&self) -> u64 {
        self.shader
    }

    pub closed spec fn spec_assets(&self) -> Storage<MeshAsset> {
        self.assets
    }

    pub closed spec fn spec_instances(&self) -> Storage<MeshInstance> {
        self.instances
    }

    /// Every instance's handle points at an asset that exists.
    pub open spec fn instances_wf(&self) -> bool {
        forall|i: int|
            0 <= i < self.spec_instances()@.len() ==> 0 <= (#[trigger] self.spec_instances()@[i]).mesh@
                < self.spec_assets()@.len()
    }

    /// A fresh mesh system: registers the one shared pipeline — interleaved
    /// position and color lanes, triangle lists, one 128-byte push-constant
    /// range for the vertex stage — and starts with no assets and no
    /// instances.
    pub fn new(graphics: &mut GraphicsSystem) -> (meshes: MeshSystem)
        ensures
            meshes.spec_assets().wf(),
            meshes.spec_assets()@ == Seq::<MeshAsset>::empty(),
            meshes.spec_instances().wf(),
            meshes.spec_instances()@ == Seq::<MeshInstance>::empty(),
            meshes.spec_shader() == old(graphics).spec_pipelines().len() as u64,
            final(graphics).spec_pipelines().len() == old(graphics).spec_pipelines().len() + 1,
            final(graphics).spec_pipelines().take(old(graphics).spec_pipelines().len() as int)
                == old(graphics).spec_pipelines(),
            ({
                let config = final(graphics).spec_pipelines().last();
                &&& config.vertex_stride == VERTEX_STRIDE
                &&& config.attributes@.len() == 2
                &&& config.attributes@[0] == (VertexAttribute {
                    location: 0,
                    format: AttributeFormat::Rgb32,
                    offset: 0,
                })
                &&& config.attributes@[1] == (VertexAttribute {
                    location: 1,
                    format: AttributeFormat::Rgba32,
                    offset: VERTEX_COLOR_OFFSET,
                })
                &&& config.push_constant_size == PUSH_CONSTANT_SIZE
                &&& config.topology == Topology::TriangleList
            }),
            final(graphics).spec_next_id() == old(graphics).spec_next_id(),
            final(graphics).spec_uploads() == old(graphics).spec_uploads(),
            final(graphics).spec_image_count() == old(graphics).spec_image_count(),
            final(graphics).spec_frame() == old(graphics).spec_frame(),
            final(graphics).spec_commands() == old(graphics).spec_commands(),
    {
        let mut attributes: Vec<VertexAttribute> = Vec::new();
        attributes.push(VertexAttribute { location: 0, format: AttributeFormat::Rgb32, offset: 0 });
        attributes.push(
            VertexAttribute {
                location: 1,
                format: AttributeFormat::Rgba32,
                offset: VERTEX_COLOR_OFFSET,
            },
        );
        let config = PipelineConfig {
            vertex_stride: VERTEX_STRIDE,
            attributes,
            push_constant_size: PUSH_CONSTANT_SIZE,
            topology: Topology::TriangleList,
        };
        let shader = graphics.register_pipeline(config);
        MeshSystem { shader, assets: Storage::new(), instances: Storage::new() }
    }

    /// Draws every instance, in insertion order: binds the shared pipeline
    /// once, then for each instance binds its asset's vertex and index
    /// buffers, uploads the camera matrix and the instance's model matrix
    /// as one push-constant write, and records one indexed draw of the full
    /// index range with instance count one.
    pub fn update(&self, graphics: &mut GraphicsSystem, view_projection: &Mat4)
        requires
            old(graphics).spec_recording(),
            self.instances_wf(),
        ensures
            final(graphics).spec_commands() == old(graphics).spec_commands().push(
                (RenderCommand::BindPipeline { pipeline: self.spec_shader() }),
            ) + draw_commands(self.spec_assets()@, self.spec_instances()@, *view_projection),
            final(graphics).spec_frame() == old(graphics).spec_frame(),
            same_resources(*old(graphics), *final(graphics)),
    {
        let camera = *view_projection;
        graphics.cmd_bind_pipeline(self.shader);
        let instances = self.instances.all();
        let mut i: usize = 0;
        while i < instances.len()
            invariant
                i <= instances@.len(),
                instances@ == self.spec_instances()@,
                self.instances_wf(),
                camera == *view_projection,
                graphics.spec_recording(),
                graphics.spec_frame() == old(graphics).spec_frame(),
                same_resources(*old(graphics), *graphics),
                graphics.spec_commands() == old(graphics).spec_commands().push(
                    (RenderCommand::BindPipeline { pipeline: self.spec_shader() }),
                ) + draw_commands(self.spec_assets()@, instances@.take(i as int), camera),
            decreases instances@.len() - i,
        {
            let instance = &instances[i];
            let asset = self.assets.read(&instance.mesh);
            graphics.cmd_bind_vertex_buffer(asset.vertex_buffer);
            graphics.cmd_bind_index_buffer(asset.index_buffer);
            graphics.cmd_push_constants(camera, instance.transform);
            graphics.cmd_draw_indexed(asset.index_count, 1);
            proof {
                assert(instances@.take(i + 1).drop_last() =~= instances@.take(i as int));
                assert(instances@.take(i + 1).last() == instances@[i as int]);
                assert(graphics.spec_commands() =~= old(graphics).spec_commands().push(
                    (RenderCommand::BindPipeline { pipeline: self.spec_shader() }),
                ) + draw_commands(self.spec_assets()@, instances@.take(i + 1), camera));
            }
            i = i + 1;
        }
        proof {
            assert(instances@.take(instances@.len() as int) =~= instances@);
        }
    }
}

/// Law: a whole frame composes in the required order. From an idle system,
/// `frame_start` opens the bracket, `update` appends the pipeline bind and
/// then each instance's bind-push-draw block in insertion order, and
/// `frame_end` closes the bracket — and the index `frame_start` returned
/// is exactly what `frame_end` requires, so the three calls in succession
/// always complete.
pub proof fn lemma_frame_command_order(
    start: GraphicsSystem,
    image: u32,
    opened: GraphicsSystem,
    index: PresentIndex,
    meshes: MeshSystem,
    camera: Mat4,
    drawn: GraphicsSystem,
    ended: GraphicsSystem,
)
    requires
        start.spec_frame() == FrameState::Idle,
        image < start.spec_image_count(),
        frame_start_post(start, image, opened, index),
        drawn.spec_frame() == opened.spec_frame(),
        drawn.spec_commands() == opened.spec_commands().push(
            (RenderCommand::BindPipeline { pipeline: meshes.spec_shader() }),
        ) + draw_commands(meshes.spec_assets()@, meshes.spec_instances()@, camera),
        ended.spec_commands() == drawn.spec_commands().push(RenderCommand::EndRenderPass),
    ensures
        frame_end_enabled(drawn, index),
        ended.spec_commands() =~= seq![
            (RenderCommand::BeginRenderPass { image }),
            RenderCommand::SetViewport,
            RenderCommand::SetScissor,
            (RenderCommand::BindPipeline { pipeline: meshes.spec_shader() }),
        ] + draw_commands(meshes.spec_assets()@, meshes.spec_instances()@, camera) + seq![
            RenderCommand::EndRenderPass,
        ],
{
}

/// How many indexed draws a command sequence contains.
pub open spec fn spec_draw_count(commands: Seq<RenderCommand>) -> int
    decreases commands.len(),
{
    if commands.len() == 0 {
        0
    } else {
        spec_draw_count(commands.drop_last()) + if commands.last() is DrawIndexed {
            1int
        } else {
            0int
        }
    }
}

proof fn lemma_draw_count_add(a: Seq<RenderCommand>, b: Seq<RenderCommand>)
    ensures
        spec_draw_count(a + b) == spec_draw_count(a) + spec_draw_count(b),
    decreases b.len(),
{
    if b.len() == 0 {
        assert(a + b =~= a);
    } else {
        assert((a + b).drop_last() =~= a + b.drop_last());
        assert((a + b).last() == b.last());
        lemma_draw_count_add(a, b.drop_last());
    }
}

/// Law: the draw pass issues exactly one indexed draw per instance — no
/// culling, no sorting, no batching: every instance in storage is drawn,
/// and nothing else is.
pub proof fn lemma_one_draw_per_instance(
    assets: Seq<MeshAsset>,
    instances: Seq<MeshInstance>,
    camera: Mat4,
)
    ensures
        spec_draw_count(draw_commands(assets, instances, camera)) == instances.len(),
    decreases instances.len(),
{
    if instances.len() > 0 {
        lemma_one_draw_per_instance(assets, instances.drop_last(), camera);
        let block = instance_commands(assets, instances.last(), camera);
        lemma_draw_count_add(draw_commands(assets, instances.drop_last(), camera), block);
        let b3 = block.take(3);
        let b2 = block.take(2);
        let b1 = block.take(1);
        let b0 = block.take(0);
        assert(block.drop_last() =~= b3);
        assert(b3.drop_last() =~= b2);
        assert(b2.drop_last() =~= b1);
        assert(b1.drop_last() =~= b0);
        assert(spec_draw_count(b0) == 0);
        assert(b1.last() == block[0]);
        assert(spec_draw_count(b1) == 0);
        assert(b2.last() == block[1]);
        assert(spec_draw_count(b2) == 0);
        assert(b3.last() == block[2]);
        assert(spec_draw_count(b3) == 0);
        assert(block.last() is DrawIndexed);
        assert(spec_draw_count(block) == 1);
    }
}

/// One model of a parsed triangulated mesh source, as plain values: the
/// position lanes (three per vertex, flattened), the face indices, and
/// which material the model uses. The parser that produces it lives
/// outside the engine core.
pub struct ObjModel {
    pub positions: Vec<u32>,
    pub indices: Vec<u32>,
    pub material_id: Option<usize>,
}

/// One material: the three diffuse color lanes.
pub struct ObjMaterial {
    pub diffuse: [u32; 3],
}

/// Everything a mesh source file yields: its models and its materials.
pub struct ObjData {
    pub models: Vec<ObjModel>,
    pub materials: Vec<ObjMaterial>,
}

/// How many whole vertices a model's position lanes form.
pub open spec fn spec_model_vertex_count(model: ObjModel) -> int {
    model.positions@.len() as int / VERTEX_PER_FACE as int
}

/// How many vertices a sequence of models flattens to.
pub open spec fn spec_vertex_count(models: Seq<ObjModel>) -> int
    decreases models.len(),
{
    if models.len() == 0 {
        0
    } else {
        spec_vertex_count(models.drop_last()) + spec_model_vertex_count(models.last())
    }
}

/// The material a model names; an arbitrary one where it names none, which
/// the contracts rule out for models that have vertices.
pub open spec fn spec_material_of(model: ObjModel, materials: Seq<ObjMaterial>) -> ObjMaterial {
    match model.material_id {
        Some(mid) => if (mid as int) < materials.len() {
            materials[mid as int]
        } else {
            materials[0]
        },
        None => materials[0],
    }
}

/// A model with vertices names a material that exists.
pub open spec fn spec_model_material_ok(model: ObjModel, materials: Seq<ObjMaterial>) -> bool {
    spec_model_vertex_count(model) > 0 ==> match model.material_id {
        Some(mid) => (mid as int) < materials.len(),
        None => false,
    }
}

/// Every model with vertices names a material that exists.
pub open spec fn spec_materials_ok(models: Seq<ObjModel>, materials: Seq<ObjMaterial>) -> bool {
    forall|k: int| 0 <= k < models.len() ==> spec_model_material_ok(#[trigger] models[k], materials)
}

/// The vertex records one model flattens to: its position triples, each
/// colored with the model's material's diffuse lanes and an opaque alpha.
pub open spec fn spec_model_vertices(model: ObjModel, materials: Seq<ObjMaterial>) -> Seq<
    VertexInput,
> {
    let material = spec_material_of(model, materials);
    Seq::new(
        spec_model_vertex_count(model) as nat,
        |i: int|
            VertexInput {
                position: [
                    model.positions@[VERTEX_PER_FACE as int * i],
                    model.positions@[VERTEX_PER_FACE as int * i + 1],
                    model.positions@[VERTEX_PER_FACE as int * i + 2],
                ],
                color: [
                    material.diffuse[0],
                    material.diffuse[1],
                    material.diffuse[2],
                    COLOR_ALPHA_ONE,
                ],
            },
    )
}

/// The single interleaved vertex buffer a sequence of models flattens to,
/// model after model.
pub open spec fn spec_flat_vertices(
    models: Seq<ObjModel>,
    materials: Seq<ObjMaterial>,
) -> Seq<VertexInput>
    decreases models.len(),
{
    if models.len() == 0 {
        Seq::<VertexInput>::empty()
    } else {
        spec_flat_vertices(models.drop_last(), materials) + spec_model_vertices(
            models.last(),
            materials,
        )
    }
}

pub proof fn lemma_flat_vertices_len(models: Seq<ObjModel>, materials: Seq<ObjMaterial>)
    ensures
        spec_flat_vertices(models, materials).len() == spec_vertex_count(models),
    decreases models.len(),
{
    if models.len() > 0 {
        lemma_flat_vertices_len(models.drop_last(), materials);
    }
}

/// One model's indices, rebased past the vertices of the models before it.
pub open spec fn spec_model_indices(model: ObjModel, offset: int) -> Seq<u32> {
    Seq::new(model.indices@.len(), |j: int| (model.indices@[j] + offset) as u32)
}

/// The single index buffer a sequence of models flattens to: each model's
/// indices rebased, model after model.
pub open spec fn spec_flat_indices(models: Seq<ObjModel>) -> Seq<u32>
    decreases models.len(),
{
    if models.len() == 0 {
        Seq::<u32>::empty()
    } else {
        spec_flat_indices(models.drop_last()) + spec_model_indices(
            models.last(),
            spec_vertex_count(models.drop_last()),
        )
    }
}

/// Every rebased index still fits its 32-bit representation.
pub open spec fn spec_no_index_overflow(models: Seq<ObjModel>) -> bool {
    forall|k: int, j: int|
        0 <= k < models.len() && 0 <= j < models[k].indices@.len()
            ==> #[trigger] models[k].indices@[j] + spec_vertex_count(models.take(k)) <= u32::MAX
}

/// Everything that must hold of parsed data — and of the device model's id
/// supply — for `load_asset_obj` to succeed.
pub open spec fn load_ok(
    models: Seq<ObjModel>,
    materials: Seq<ObjMaterial>,
    pre_next_id: u64,
) -> bool {
    &&& models.len() > 0
    &&& materials.len() > 0
    &&& spec_materials_ok(models, materials)
    &&& spec_no_index_overflow(models)
    &&& asset_error_of(
        pre_next_id,
        spec_flat_indices(models),
        spec_flat_vertices(models, materials),
    ) is None
}

impl MeshSystem {
    /// Flattens parsed mesh data into one interleaved vertex buffer and one
    /// rebased index buffer, uploads both through the graphics system, and
    /// stores the resulting asset. Loading fails fatally — no asset stored,
    /// no storage or device mutation — when the source yields no models or
    /// no materials, when a model with vertices lacks its material, when a
    /// count or rebased index does not fit 32 bits, when the flattened
    /// geometry is empty, or when an index exceeds the vertex count.
    pub fn load_asset_obj(&mut self, data: ObjData, graphics: &mut GraphicsSystem) -> (result:
        Result<Handle<MeshAsset>, MeshError>)
        requires
            old(self).spec_assets().wf(),
        ensures
            final(self).spec_shader() == old(self).spec_shader(),
            final(self).spec_instances() == old(self).spec_instances(),
            final(self).spec_assets().wf(),
            match result {
                Ok(handle) => {
                    &&& load_ok(data.models@, data.materials@, old(graphics).spec_next_id())
                    &&& handle@ == old(self).spec_assets()@.len()
                    &&& final(self).spec_assets()@.len() == old(self).spec_assets()@.len() + 1
                    &&& final(self).spec_assets()@.take(old(self).spec_assets()@.len() as int)
                        == old(self).spec_assets()@
                    &&& asset_new_post(
                        *old(graphics),
                        spec_flat_indices(data.models@),
                        spec_flat_vertices(data.models@, data.materials@),
                        *final(graphics),
                        Ok(final(self).spec_assets()@.last()),
                    )
                },
                Err(error) => {
                    &&& *final(self) == *old(self)
                    &&& *final(graphics) == *old(graphics)
                    &&& !load_ok(data.models@, data.materials@, old(graphics).spec_next_id())
                    &&& (data.models@.len() == 0 ==> error == MeshError::NoModels)
                    &&& (data.models@.len() > 0 && data.materials@.len() == 0 ==> error
                        == MeshError::NoMaterials)
                    &&& (error == MeshError::MissingMaterial ==> !spec_materials_ok(
                        data.models@,
                        data.materials@,
                    ))
                    &&& (error == MeshError::DataTooLarge ==> !spec_no_index_overflow(data.models@)
                        || spec_flat_indices(data.models@).len() > u32::MAX)
                    &&& (error == MeshError::NoVertices ==> data.models@.len() > 0
                        && spec_vertex_count(data.models@) == 0)
                    &&& (error == MeshError::IndexOutOfRange ==> exists|i: int|
                        0 <= i < spec_flat_indices(data.models@).len()
                            && (spec_flat_indices(data.models@)[i] as int) >= spec_flat_vertices(
                            data.models@,
                            data.materials@,
                        ).len())
                    &&& (error == MeshError::OutOfResources ==> old(graphics).spec_next_id()
                        > u64::MAX - 4)
                },
            },
    {
        if data.models.len() == 0 {
            return Err(MeshError::NoModels);
        }
        if data.materials.len() == 0 {
            return Err(MeshError::NoMaterials);
        }
        let models_len = data.models.len();
        let mut indexes: Vec<u32> = Vec::new();
        let mut input: Vec<VertexInput> = Vec::new();
        let mut k: usize = 0;
        while k < models_len
            invariant
                *self == *old(self),
                *graphics == *old(graphics),
                old(self).spec_assets().wf(),
                models_len == data.models@.len(),
                data.materials@.len() > 0,
                k <= models_len,
                input@ == spec_flat_vertices(data.models@.take(k as int), data.materials@),
                input@.len() == spec_vertex_count(data.models@.take(k as int)),
                indexes@ == spec_flat_indices(data.models@.take(k as int)),
                forall|k2: int|
                    0 <= k2 < k ==> spec_model_material_ok(
                        #[trigger] data.models@[k2],
                        data.materials@,
                    ),
                forall|k2: int, j2: int|
                    0 <= k2 < k && 0 <= j2 < data.models@[k2].indices@.len()
                        ==> #[trigger] data.models@[k2].indices@[j2] + spec_vertex_count(
                        data.models@.take(k2),
                    ) <= u32::MAX,
            decreases models_len - k,
        {
            let offset = input.len();
            let model_indices_len = data.models[k].indices.len();
            let mut j: usize = 0;
            while j < model_indices_len
                invariant
                    *self == *old(self),
                    *graphics == *old(graphics),
                    old(self).spec_assets().wf(),
                    models_len == data.models@.len(),
                    data.materials@.len() > 0,
                    k < models_len,
                    model_indices_len == data.models@[k as int].indices@.len(),
                    j <= model_indices_len,
                    offset == spec_vertex_count(data.models@.take(k as int)),
                    input@ == spec_flat_vertices(data.models@.take(k as int), data.materials@),
                    input@.len() == offset,
                    indexes@ == spec_flat_indices(data.models@.take(k as int)) + spec_model_indices(
                        data.models@[k as int],
                        offset as int,
                    ).take(j as int),
                    forall|j2: int|
                        0 <= j2 < j ==> #[trigger] data.models@[k as int].indices@[j2] + offset
                            <= u32::MAX,
                    forall|k2: int|
                        0 <= k2 < k ==> spec_model_material_ok(
                            #[trigger] data.models@[k2],
                            data.materials@,
                        ),
                    forall|k2: int, j2: int|
                        0 <= k2 < k && 0 <= j2 < data.models@[k2].indices@.len()
                            ==> #[trigger] data.models@[k2].indices@[j2] + spec_vertex_count(
                            data.models@.take(k2),
                        ) <= u32::MAX,
                decreases model_indices_len - j,
            {
                let idx = data.models[k].indices[j];
                if offset > (u32::MAX as usize) - (idx as usize) {
                    proof {
                        assert(data.models@[k as int].indices@[j as int] + spec_vertex_count(
                            data.models@.take(k as int),
                        ) > u32::MAX);
                        assert(!spec_no_index_overflow(data.models@));
                    }
                    return Err(MeshError::DataTooLarge);
                }
                indexes.push(idx + (offset as u32));
                proof {
                    let model = data.models@[k as int];
                    assert(spec_model_indices(model, offset as int).take(j + 1)
                        =~= spec_model_indices(model, offset as int).take(j as int).push(
                        (idx + (offset as u32)) as u32,
                    ));
                    assert(indexes@ =~= spec_flat_indices(data.models@.take(k as int))
                        + spec_model_indices(model, offset as int).take(j + 1));
                }
                j = j + 1;
            }
            let position_count = data.models[k].positions.len() / VERTEX_PER_FACE;
            proof {
                vstd::arithmetic::div_mod::lemma_fundamental_div_mod(
                    data.models@[k as int].positions@.len() as int,
                    VERTEX_PER_FACE as int,
                );
                vstd::arithmetic::div_mod::lemma_mod_division_less_than_divisor(
                    data.models@[k as int].positions@.len() as int,
                    VERTEX_PER_FACE as int,
                );
            }
            if position_count > 0 {
                let mid = match data.models[k].material_id {
                    Some(mid) => {
                        if mid < data.materials.len() {
                            mid
                        } else {
                            proof {
                                assert(!spec_model_material_ok(
                                    data.models@[k as int],
                                    data.materials@,
                                ));
                            }
                            return Err(MeshError::MissingMaterial);
                        }
                    },
                    None => {
                        proof {
                            assert(!spec_model_material_ok(data.models@[k as int], data.materials@));
                        }
                        return Err(MeshError::MissingMaterial);
                    },
                };
                let mut i: usize = 0;
                while i < position_count
                    invariant
                        *self == *old(self),
                        *graphics == *old(graphics),
                        old(self).spec_assets().wf(),
                        models_len == data.models@.len(),
                        data.materials@.len() > 0,
                        k < models_len,
                        i <= position_count,
                        position_count == spec_model_vertex_count(data.models@[k as int]),
                        VERTEX_PER_FACE * position_count <= data.models@[k as int].positions@.len(),
                        data.models@[k as int].positions@.len() <= usize::MAX,
                        mid < data.materials@.len(),
                        spec_material_of(data.models@[k as int], data.materials@)
                            == data.materials@[mid as int],
                        offset == spec_vertex_count(data.models@.take(k as int)),
                        input@ == spec_flat_vertices(data.models@.take(k as int), data.materials@)
                            + spec_model_vertices(data.models@[k as int], data.materials@).take(
                            i as int,
                        ),
                        indexes@ == spec_flat_indices(data.models@.take(k as int))
                            + spec_model_indices(data.models@[k as int], offset as int),
                        forall|j2: int|
                            0 <= j2 < data.models@[k as int].indices@.len()
                                ==> #[trigger] data.models@[k as int].indices@[j2] + offset
                                <= u32::MAX,
                        forall|k2: int|
                            0 <= k2 < k ==> spec_model_material_ok(
                                #[trigger] data.models@[k2],
                                data.materials@,
                            ),
                        forall|k2: int, j2: int|
                            0 <= k2 < k && 0 <= j2 < data.models@[k2].indices@.len()
                                ==> #[trigger] data.models@[k2].indices@[j2] + spec_vertex_count(
                                data.models@.take(k2),
                            ) <= u32::MAX,
                    decreases position_count - i,
                {
                    proof {
                        assert(VERTEX_PER_FACE == 3);
                        assert(3 * (i as int) + 3 <= 3 * (position_count as int));
                    }
                    let p_base = VERTEX_PER_FACE * i;
                    let vertex = VertexInput {
                        position: [
                            data.models[k].positions[p_base],
                            data.models[k].positions[p_base + 1],
                            data.models[k].positions[p_base + 2],
                        ],
                        color: [
                            data.materials[mid].diffuse[0],
                            data.materials[mid].diffuse[1],
                            data.materials[mid].diffuse[2],
                            COLOR_ALPHA_ONE,
                        ],
                    };
                    input.push(vertex);
                    proof {
                        let model = data.models@[k as int];
                        let sv = spec_model_vertices(model, data.materials@)[i as int];
                        assert(vertex.position =~= sv.position);
                        assert(vertex.color =~= sv.color);
                        assert(vertex == sv);
                        assert(spec_model_vertices(model, data.materials@).take(i + 1)
                            =~= spec_model_vertices(model, data.materials@).take(i as int).push(sv));
                        assert(input@ =~= spec_flat_vertices(
                            data.models@.take(k as int),
                            data.materials@,
                        ) + spec_model_vertices(model, data.materials@).take(i + 1));
                    }
                    i = i + 1;
                }
            }
            proof {
                let model = data.models@[k as int];
                let taken = data.models@.take(k + 1);
                assert(taken.drop_last() =~= data.models@.take(k as int));
                assert(taken.last() == model);
                assert(spec_model_indices(model, offset as int).take(
                    model.indices@.len() as int,
                ) =~= spec_model_indices(model, offset as int));
                if spec_model_vertex_count(model) > 0 {
                    assert(spec_model_vertices(model, data.materials@).take(
                        spec_model_vertex_count(model),
                    ) =~= spec_model_vertices(model, data.materials@));
                } else {
                    assert(spec_model_vertices(model, data.materials@) =~= Seq::<
                        VertexInput,
                    >::empty());
                    assert(input@ =~= spec_flat_vertices(data.models@.take(k as int), data.materials@)
                        + spec_model_vertices(model, data.materials@));
                }
                assert(spec_flat_vertices(taken, data.materials@) == spec_flat_vertices(
                    data.models@.take(k as int),
                    data.materials@,
                ) + spec_model_vertices(model, data.materials@));
                assert(spec_flat_indices(taken) == spec_flat_indices(data.models@.take(k as int))
                    + spec_model_indices(model, spec_vertex_count(data.models@.take(k as int))));
                assert(spec_vertex_count(taken) == spec_vertex_count(data.models@.take(k as int))
                    + spec_model_vertex_count(model));
            }
            k = k + 1;
        }
        proof {
            assert(data.models@.take(models_len as int) =~= data.models@);
        }
        match MeshAsset::new(graphics, indexes, input) {
            Ok(asset) => {
                let handle = self.assets.add(asset);
                proof {
                    assert(self.spec_assets()@.take(old(self).spec_assets()@.len() as int)
                        =~= old(self).spec_assets()@);
                }
                Ok(handle)
            },
            Err(error) => {
                proof {
                    lemma_flat_vertices_len(data.models@, data.materials@);
                }
                Err(error)
            },
        }
    }
}

/// Law: two instances that share one (duplicated) asset handle but carry
/// different transforms are drawn as exactly two indexed draws binding the
/// same buffers, with two different push-constant uploads — each carrying
/// the camera matrix and that instance's own model matrix, which the
/// vertex stage multiplies.
pub proof fn lemma_shared_asset_two_draws(
    assets: Seq<MeshAsset>,
    first: MeshInstance,
    second: MeshInstance,
    camera: Mat4,
)
    requires
        first.mesh@ == second.mesh@,
        0 <= first.mesh@ < assets.len(),
        first.transform != second.transform,
    ensures
        ({
            let commands = draw_commands(assets, seq![first, second], camera);
            let asset = assets[first.mesh@];
            &&& commands.len() == 8
            &&& commands[0] == (RenderCommand::BindVertexBuffer {
                buffer: asset.spec_vertex_buffer(),
            })
            &&& commands[4] == commands[0]
            &&& commands[1] == (RenderCommand::BindIndexBuffer {
                buffer: asset.spec_index_buffer(),
            })
            &&& commands[5] == commands[1]
            &&& commands[2] == (RenderCommand::PushConstants { camera, model: first.transform })
            &&& commands[6] == (RenderCommand::PushConstants { camera, model: second.transform })
            &&& commands[2] != commands[6]
            &&& commands[3] == (RenderCommand::DrawIndexed {
                index_count: asset.spec_index_count(),
                instance_count: 1,
            })
            &&& commands[7] == commands[3]
        }),
{
    let pair = seq![first, second];
    let one = seq![first];
    let none = Seq::<MeshInstance>::empty();
    assert(pair.last() == second);
    assert(pair.drop_last() =~= one);
    assert(one.last() == first);
    assert(one.drop_last() =~= none);
    assert(draw_commands(assets, none, camera) == Seq::<RenderCommand>::empty());
    assert(draw_commands(assets, one, camera) == draw_commands(assets, none, camera)
        + instance_commands(assets, first, camera));
    assert(draw_commands(assets, pair, camera) == draw_commands(assets, one, camera)
        + instance_commands(assets, second, camera));
    let commands = draw_commands(assets, pair, camera);
    assert(commands =~= instance_commands(assets, first, camera) + instance_commands(
        assets,
        second,
        camera,
    ));
}

} // verus!
