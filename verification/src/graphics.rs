//! The per-frame rendering protocol and the device-facing computations.
//!
//! The graphics system models the device side of rendering as plain data:
//! buffers and memory are fresh numeric ids, command-buffer recording is a
//! sequence of `RenderCommand`s, and buffer uploads carry the exact bytes
//! that the caller serialized. An unverified executor outside the library
//! replays ids, uploads and commands against the real device; everything
//! that can be computed — presentation parameters, memory-type selection,
//! byte layouts, the frame bracket — is verified here.

use vstd::prelude::*;
use vstd::bytes::{spec_u32_to_le_bytes, u32_to_le_bytes, lemma_auto_spec_u32_to_from_le_bytes};

verus! {

/// Identifies which swapchain image one frame is rendered into. Produced by
/// `frame_start`, consumed exactly once by the matching `frame_end`.
pub struct PresentIndex(u32);

impl View for PresentIndex {
    type V = u32;

    closed spec fn view(&self) -> u32 {
        self.0
    }
}

impl PresentIndex {
    /// The index of the acquired swapchain image.
    pub fn image(&self) -> (image: u32)
        ensures
            image == self@,
    {
        self.0
    }
}

/// A short description of the device in use.
pub struct Info {
    pub api: String,
    pub device: String,
    pub device_type: String,
}

/// A four-by-four matrix in column-major order. Each entry holds the raw
/// 32-bit pattern of one lane exactly as the vertex stage consumes it; the
/// engine core never does arithmetic on the lanes, it only lays them out.
#[derive(Clone, Copy, PartialEq, Eq, Debug)]
pub struct Mat4 {
    pub m: [u32; 16],
}

/// The bytes of a sequence of 32-bit words, each in little-endian order.
pub open spec fn spec_words_to_bytes(words: Seq<u32>) -> Seq<u8>
    decreases words.len(),
{
    if words.len() == 0 {
        Seq::<u8>::empty()
    } else {
        spec_u32_to_le_bytes(words[0]) + spec_words_to_bytes(words.drop_first())
    }
}

pub proof fn lemma_words_to_bytes_len(words: Seq<u32>)
    ensures
        spec_words_to_bytes(words).len() == 4 * words.len(),
    decreases words.len(),
{
    lemma_auto_spec_u32_to_from_le_bytes();
    if words.len() > 0 {
        lemma_words_to_bytes_len(words.drop_first());
    }
}

pub proof fn lemma_words_to_bytes_push(words: Seq<u32>, word: u32)
    ensures
        spec_words_to_bytes(words.push(word)) == spec_words_to_bytes(words) + spec_u32_to_le_bytes(
            word,
        ),
    decreases words.len(),
{
    lemma_auto_spec_u32_to_from_le_bytes();
    if words.len() == 0 {
        let pushed = words.push(word);
        assert(pushed.len() == 1);
        assert(pushed[0] == word);
        assert(pushed.drop_first() =~= Seq::<u32>::empty());
        assert(spec_words_to_bytes(pushed) == spec_u32_to_le_bytes(pushed[0])
            + spec_words_to_bytes(pushed.drop_first()));
        assert(spec_words_to_bytes(words) == Seq::<u8>::empty());
        assert(spec_words_to_bytes(pushed) =~= spec_words_to_bytes(words)
            + spec_u32_to_le_bytes(word));
    } else {
        assert(words.push(word).drop_first() =~= words.drop_first().push(word));
        lemma_words_to_bytes_push(words.drop_first(), word);
        assert(spec_words_to_bytes(words.push(word)) =~= spec_words_to_bytes(words)
            + spec_u32_to_le_bytes(word));
    }
}

/// Law: word serialization is injective — equal byte buffers of equally
/// many words come from equal words, so distinct data never serializes to
/// the same bytes.
pub proof fn lemma_words_to_bytes_injective(a: Seq<u32>, b: Seq<u32>)
    requires
        a.len() == b.len(),
        spec_words_to_bytes(a) == spec_words_to_bytes(b),
    ensures
        a == b,
    decreases a.len(),
{
    lemma_auto_spec_u32_to_from_le_bytes();
    if a.len() == 0 {
        assert(a =~= b);
    } else {
        let bytes = spec_words_to_bytes(a);
        lemma_words_to_bytes_len(a.drop_first());
        lemma_words_to_bytes_len(b.drop_first());
        assert(spec_u32_to_le_bytes(a[0]) =~= bytes.take(4));
        assert(spec_u32_to_le_bytes(b[0]) =~= bytes.take(4));
        assert(a[0] == b[0]) by {
            assert(vstd::bytes::spec_u32_from_le_bytes(spec_u32_to_le_bytes(a[0]))
                == vstd::bytes::spec_u32_from_le_bytes(spec_u32_to_le_bytes(b[0])));
        }
        assert(spec_words_to_bytes(a.drop_first()) =~= bytes.skip(4));
        assert(spec_words_to_bytes(b.drop_first()) =~= bytes.skip(4));
        lemma_words_to_bytes_injective(a.drop_first(), b.drop_first());
        assert forall|i: int| 0 <= i < a.len() implies a[i] == b[i] by {
            if i > 0 {
                assert(a.drop_first()[i - 1] == a[i]);
                assert(b.drop_first()[i - 1] == b[i]);
            }
        }
        assert(a =~= b);
    }
}

/// The push-constant bytes of one matrix: its sixteen column-major words,
/// each little-endian — 64 bytes in all.
pub open spec fn spec_mat4_to_bytes(m: Mat4) -> Seq<u8> {
    spec_words_to_bytes(m.m@)
}

/// Serializes a matrix into the fixed-size byte buffer the push-constant
/// upload and the vertex stage agree on.
pub fn mat4_to_bytes(m: &Mat4) -> (bytes: Vec<u8>)
    ensures
        bytes@ == spec_mat4_to_bytes(*m),
        bytes@.len() == 64,
{
    let mut bytes: Vec<u8> = Vec::new();
    let mut i: usize = 0;
    while i < 16
        invariant
            i <= 16,
            bytes@ == spec_words_to_bytes(m.m@.take(i as int)),
            bytes@.len() == 4 * i,
        decreases 16 - i,
    {
        let mut word = u32_to_le_bytes(m.m[i]);
        proof {
            lemma_auto_spec_u32_to_from_le_bytes();
            assert(m.m@.take(i as int).push(m.m@[i as int]) =~= m.m@.take(i + 1));
            lemma_words_to_bytes_push(m.m@.take(i as int), m.m@[i as int]);
        }
        bytes.append(&mut word);
        i = i + 1;
    }
    proof {
        assert(m.m@.take(16) =~= m.m@);
    }
    bytes
}

/// Serializes a sequence of 32-bit words — index values, lanes — into the
/// little-endian byte layout the device consumes.
pub fn words_to_bytes(words: &Vec<u32>) -> (bytes: Vec<u8>)
    ensures
        bytes@ == spec_words_to_bytes(words@),
        bytes@.len() == 4 * words@.len(),
{
    let mut bytes: Vec<u8> = Vec::new();
    let mut i: usize = 0;
    while i < words.len()
        invariant
            i <= words@.len(),
            bytes@ == spec_words_to_bytes(words@.take(i as int)),
            bytes@.len() == 4 * i,
        decreases words@.len() - i,
    {
        let mut word = u32_to_le_bytes(words[i]);
        proof {
            lemma_auto_spec_u32_to_from_le_bytes();
            assert(words@.take(i as int).push(words@[i as int]) =~= words@.take(i + 1));
            lemma_words_to_bytes_push(words@.take(i as int), words@[i as int]);
        }
        bytes.append(&mut word);
        i = i + 1;
    }
    proof {
        assert(words@.take(words@.len() as int) =~= words@);
    }
    bytes
}

/// Law: matrix serialization is injective — two matrices with the same
/// 64-byte buffer are the same matrix, so instances with different model
/// matrices always upload different push-constant bytes.
pub proof fn lemma_mat4_bytes_injective(first: Mat4, second: Mat4)
    requires
        spec_mat4_to_bytes(first) == spec_mat4_to_bytes(second),
    ensures
        first == second,
{
    lemma_words_to_bytes_injective(first.m@, second.m@);
    assert(first.m =~= second.m);
}

/// What a buffer is bound for.
#[derive(Clone, Copy, PartialEq, Eq, Structural, Debug)]
pub enum BufferUsage {
    Index,
    Vertex,
}

/// A device buffer and the device memory bound to it, as fresh ids.
#[derive(Clone, Copy, PartialEq, Eq, Structural, Debug)]
pub struct BufferBinding {
    pub buffer: u64,
    pub memory: u64,
}

/// One pending upload: the exact bytes to place into the memory bound to
/// `buffer`. The executor drains these, creates the device objects and
/// copies the bytes.
pub struct BufferUpload {
    pub buffer: u64,
    pub memory: u64,
    pub usage: BufferUsage,
    pub bytes: Vec<u8>,
}

/// The lane layout of one vertex attribute.
#[derive(Clone, Copy, PartialEq, Eq, Structural, Debug)]
pub enum AttributeFormat {
    /// Three 32-bit lanes.
    Rgb32,
    /// Four 32-bit lanes.
    Rgba32,
}

/// One vertex attribute: shader location, lane layout and byte offset
/// inside the interleaved vertex record.
#[derive(Clone, Copy, PartialEq, Eq, Structural, Debug)]
pub struct VertexAttribute {
    pub location: u32,
    pub format: AttributeFormat,
    pub offset: u32,
}

/// How vertices are assembled into primitives.
#[derive(Clone, Copy, PartialEq, Eq, Structural, Debug)]
pub enum Topology {
    TriangleList,
}

/// Everything a pipeline is built from, besides the shader bytecode that
/// the executor owns: the vertex record layout, the push-constant size and
/// the primitive topology.
pub struct PipelineConfig {
    pub vertex_stride: u32,
    pub attributes: Vec<VertexAttribute>,
    pub push_constant_size: u32,
    pub topology: Topology,
}

/// One recorded command of the current frame's draw command buffer.
#[derive(Clone, Copy, PartialEq, Debug)]
pub enum RenderCommand {
    BeginRenderPass { image: u32 },
    SetViewport,
    SetScissor,
    BindPipeline { pipeline: u64 },
    BindVertexBuffer { buffer: u64 },
    BindIndexBuffer { buffer: u64 },
    /// Uploads the camera matrix and the model matrix, in that order, as
    /// one push-constant write of 128 bytes at offset zero for the vertex
    /// stage, which multiplies them.
    PushConstants { camera: Mat4, model: Mat4 },
    DrawIndexed { index_count: u32, instance_count: u32 },
    EndRenderPass,
}

/// Whether a frame is being recorded, and into which swapchain image.
#[derive(Clone, Copy, PartialEq, Eq, Structural, Debug)]
pub enum FrameState {
    Idle,
    Recording(u32),
}

/// The modelled device side of rendering: the frame protocol state, the
/// commands recorded for the current frame, the pending buffer uploads,
/// the registered pipelines, and a counter handing out fresh resource ids.
pub struct GraphicsSystem {
    frame: FrameState,
    image_count: u32,
    next_id: u64,
    commands: Vec<RenderCommand>,
    uploads: Vec<BufferUpload>,
    pipelines: Vec<PipelineConfig>,
}

/// The resource side of the system — ids, uploads, pipelines, image count —
/// is untouched between `pre` and `post`.
pub open spec fn same_resources(pre: GraphicsSystem, post: GraphicsSystem) -> bool {
    &&& post.spec_next_id() == pre.spec_next_id()
    &&& post.spec_uploads() == pre.spec_uploads()
    &&& post.spec_pipelines() == pre.spec_pipelines()
    &&& post.spec_image_count() == pre.spec_image_count()
}

/// The recording side of the system — frame state and commands — is
/// untouched between `pre` and `post`.
pub open spec fn same_recording(pre: GraphicsSystem, post: GraphicsSystem) -> bool {
    &&& post.spec_frame() == pre.spec_frame()
    &&& post.spec_commands() == pre.spec_commands()
}

/// The effect of `frame_start`: recording begun into `image`, with the
/// frame bracket opened and viewport and scissor set.
pub open spec fn frame_start_post(
    pre: GraphicsSystem,
    image: u32,
    post: GraphicsSystem,
    index: PresentIndex,
) -> bool {
    &&& post.spec_frame() == FrameState::Recording(image)
    &&& index@ == image
    &&& post.spec_commands() =~= seq![
        (RenderCommand::BeginRenderPass { image }),
        RenderCommand::SetViewport,
        RenderCommand::SetScissor,
    ]
    &&& same_resources(pre, post)
}

/// `frame_end` may be called: a frame is being recorded and `index` is the
/// one its `frame_start` returned.
pub open spec fn frame_end_enabled(g: GraphicsSystem, index: PresentIndex) -> bool {
    g.spec_frame() == FrameState::Recording(index@)
}

impl GraphicsSystem {
    pub closed spec fn spec_frame(&self) -> FrameState {
        self.frame
    }

    pub closed spec fn spec_image_count(&self) -> u32 {
        self.image_count
    }

    pub closed spec fn spec_next_id(&self) -> u64 {
        self.next_id
    }

    pub closed spec fn spec_commands(&self) -> Seq<RenderCommand> {
        self.commands@
    }

    pub closed spec fn spec_uploads(&self) -> Seq<BufferUpload> {
        self.uploads@
    }

    pub closed spec fn spec_pipelines(&self) -> Seq<PipelineConfig> {
        self.pipelines@
    }

    /// Whether a frame is currently being recorded.
    pub open spec fn spec_recording(&self) -> bool {
        self.spec_frame() is Recording
    }

    /// A fresh graphics system over a swapchain of `image_count` images,
    /// idle, with nothing recorded, uploaded or registered.
    pub fn new(image_count: u32) -> (graphics: GraphicsSystem)
        requires
            image_count > 0,
        ensures
            graphics.spec_frame() == FrameState::Idle,
            graphics.spec_image_count() == image_count,
            graphics.spec_next_id() == 1,
            graphics.spec_commands() == Seq::<RenderCommand>::empty(),
            graphics.spec_uploads() == Seq::<BufferUpload>::empty(),
            graphics.spec_pipelines() == Seq::<PipelineConfig>::empty(),
    {
        GraphicsSystem {
            frame: FrameState::Idle,
            image_count,
            next_id: 1,
            commands: Vec::new(),
            uploads: Vec::new(),
            pipelines: Vec::new(),
        }
    }

    /// How many swapchain images frames can be rendered into.
    pub fn image_count(&self) -> (count: u32)
        ensures
            count == self.spec_image_count(),
    {
        self.image_count
    }

    /// Whether the system is between frames.
    pub fn is_idle(&self) -> (idle: bool)
        ensures
            idle == (self.spec_frame() == FrameState::Idle),
    {
        matches!(self.frame, FrameState::Idle)
    }

    /// Whether two more resource ids can be handed out.
    pub fn can_bind_buffer(&self) -> (ok: bool)
        ensures
            ok == (self.spec_next_id() <= u64::MAX - 2),
    {
        self.next_id <= u64::MAX - 2
    }

    /// Whether four more resource ids can be handed out: enough for the
    /// two buffer-with-memory pairs one mesh asset takes.
    pub fn can_bind_buffer_pair(&self) -> (ok: bool)
        ensures
            ok == (self.spec_next_id() <= u64::MAX - 4),
    {
        self.next_id <= u64::MAX - 4
    }

    /// Opens the frame: begins recording the draw command buffer for the
    /// acquired swapchain image `image`, opens the render pass and sets
    /// viewport and scissor. Must be called exactly once per frame, before
    /// any draw command.
    pub fn frame_start(&mut self, image: u32) -> (index: PresentIndex)
        requires
            old(self).spec_frame() == FrameState::Idle,
            image < old(self).spec_image_count(),
        ensures
            frame_start_post(*old(self), image, *final(self), index),
    {
        self.frame = FrameState::Recording(image);
        self.commands = Vec::new();
        self.commands.push(RenderCommand::BeginRenderPass { image });
        self.commands.push(RenderCommand::SetViewport);
        self.commands.push(RenderCommand::SetScissor);
        PresentIndex(image)
    }

    /// Closes the frame: ends the render pass and the command buffer. The
    /// recorded commands stay readable until the next `frame_start`; the
    /// executor submits them and presents the image `index` names.
    pub fn frame_end(&mut self, index: PresentIndex)
        requires
            frame_end_enabled(*old(self), index),
        ensures
            final(self).spec_frame() == FrameState::Idle,
            final(self).spec_commands() == old(self).spec_commands().push(
                RenderCommand::EndRenderPass,
            ),
            same_resources(*old(self), *final(self)),
    {
        let _ = index;
        self.frame = FrameState::Idle;
        self.commands.push(RenderCommand::EndRenderPass);
    }

    /// Creates a buffer of the given usage together with backing memory,
    /// both as fresh ids, and queues the exact `bytes` for upload into it.
    pub fn bind_buffer_memory(&mut self, bytes: Vec<u8>, usage: BufferUsage) -> (binding:
        BufferBinding)
        requires
            old(self).spec_next_id() <= u64::MAX - 2,
        ensures
            binding.buffer == old(self).spec_next_id(),
            binding.memory == old(self).spec_next_id() + 1,
            final(self).spec_next_id() == old(self).spec_next_id() + 2,
            final(self).spec_uploads() == old(self).spec_uploads().push(
                (BufferUpload {
                    buffer: binding.buffer,
                    memory: binding.memory,
                    usage,
                    bytes,
                }),
            ),
            final(self).spec_pipelines() == old(self).spec_pipelines(),
            final(self).spec_image_count() == old(self).spec_image_count(),
            same_recording(*old(self), *final(self)),
    {
        let buffer = self.next_id;
        let memory = self.next_id + 1;
        self.next_id = self.next_id + 2;
        self.uploads.push(BufferUpload { buffer, memory, usage, bytes });
        BufferBinding { buffer, memory }
    }

    /// Hands the pending uploads to the executor and forgets them.
    pub fn take_uploads(&mut self) -> (uploads: Vec<BufferUpload>)
        ensures
            uploads@ == old(self).spec_uploads(),
            final(self).spec_uploads() == Seq::<BufferUpload>::empty(),
            final(self).spec_next_id() == old(self).spec_next_id(),
            final(self).spec_pipelines() == old(self).spec_pipelines(),
            final(self).spec_image_count() == old(self).spec_image_count(),
            same_recording(*old(self), *final(self)),
    {
        let mut taken: Vec<BufferUpload> = Vec::new();
        core::mem::swap(&mut taken, &mut self.uploads);
        taken
    }

    /// Registers a pipeline built from `config` and returns its id.
    pub fn register_pipeline(&mut self, config: PipelineConfig) -> (pipeline: u64)
        ensures
            pipeline == old(self).spec_pipelines().len() as u64,
            final(self).spec_pipelines() == old(self).spec_pipelines().push(config),
            final(self).spec_next_id() == old(self).spec_next_id(),
            final(self).spec_uploads() == old(self).spec_uploads(),
            final(self).spec_image_count() == old(self).spec_image_count(),
            same_recording(*old(self), *final(self)),
    {
        let pipeline = self.pipelines.len() as u64;
        self.pipelines.push(config);
        pipeline
    }

    /// The pipelines registered so far, in registration order; a pipeline's
    /// id is its position.
    pub fn pipelines(&self) -> (configs: &Vec<PipelineConfig>)
        ensures
            configs@ == self.spec_pipelines(),
    {
        &self.pipelines
    }

    /// The commands recorded for the current frame, in order.
    pub fn commands(&self) -> (commands: &Vec<RenderCommand>)
        ensures
            commands@ == self.spec_commands(),
    {
        &self.commands
    }

    /// Records a pipeline bind.
    pub fn cmd_bind_pipeline(&mut self, pipeline: u64)
        requires
            old(self).spec_recording(),
        ensures
            final(self).spec_commands() == old(self).spec_commands().push(
                (RenderCommand::BindPipeline { pipeline }),
            ),
            final(self).spec_frame() == old(self).spec_frame(),
            same_resources(*old(self), *final(self)),
    {
        self.commands.push(RenderCommand::BindPipeline { pipeline });
    }

    /// Records a vertex-buffer bind.
    pub fn cmd_bind_vertex_buffer(&mut self, buffer: u64)
        requires
            old(self).spec_recording(),
        ensures
            final(self).spec_commands() == old(self).spec_commands().push(
                (RenderCommand::BindVertexBuffer { buffer }),
            ),
            final(self).spec_frame() == old(self).spec_frame(),
            same_resources(*old(self), *final(self)),
    {
        self.commands.push(RenderCommand::BindVertexBuffer { buffer });
    }

    /// Records an index-buffer bind.
    pub fn cmd_bind_index_buffer(&mut self, buffer: u64)
        requires
            old(self).spec_recording(),
        ensures
            final(self).spec_commands() == old(self).spec_commands().push(
                (RenderCommand::BindIndexBuffer { buffer }),
            ),
            final(self).spec_frame() == old(self).spec_frame(),
            same_resources(*old(self), *final(self)),
    {
        self.commands.push(RenderCommand::BindIndexBuffer { buffer });
    }

    /// Records a push-constant write of the camera and model matrices.
    pub fn cmd_push_constants(&mut self, camera: Mat4, model: Mat4)
        requires
            old(self).spec_recording(),
        ensures
            final(self).spec_commands() == old(self).spec_commands().push(
                (RenderCommand::PushConstants { camera, model }),
            ),
            final(self).spec_frame() == old(self).spec_frame(),
            same_resources(*old(self), *final(self)),
    {
        self.commands.push(RenderCommand::PushConstants { camera, model });
    }

    /// Records an indexed draw.
    pub fn cmd_draw_indexed(&mut self, index_count: u32, instance_count: u32)
        requires
            old(self).spec_recording(),
        ensures
            final(self).spec_commands() == old(self).spec_commands().push(
                (RenderCommand::DrawIndexed { index_count, instance_count }),
            ),
            final(self).spec_frame() == old(self).spec_frame(),
            same_resources(*old(self), *final(self)),
    {
        self.commands.push(RenderCommand::DrawIndexed { index_count, instance_count });
    }
}

/// Law: the frame bracket composes. From an idle system, `frame_start` on
/// any in-range image leaves the system recording that image, and the index
/// it returns is exactly what `frame_end` requires: the two calls in
/// immediate succession always complete.
pub proof fn lemma_frame_brackets(
    pre: GraphicsSystem,
    image: u32,
    post: GraphicsSystem,
    index: PresentIndex,
)
    requires
        pre.spec_frame() == FrameState::Idle,
        image < pre.spec_image_count(),
        frame_start_post(pre, image, post, index),
    ensures
        frame_end_enabled(post, index),
{
}

/// What a surface reports about itself, as plain values: image-count
/// bounds, the current extent, and transform support as a bit mask.
#[derive(Clone, Copy, PartialEq, Eq, Structural, Debug)]
pub struct SurfaceCapabilities {
    pub min_image_count: u32,
    /// Zero means the surface sets no upper bound.
    pub max_image_count: u32,
    pub current_width: u32,
    pub current_height: u32,
    pub supported_transforms: u32,
    pub current_transform: u32,
}

/// The identity transform bit of a surface's transform mask.
pub const TRANSFORM_IDENTITY: u32 = 1;

/// Width value a surface reports when the window decides the extent.
pub const EXTENT_UNDECIDED: u32 = 0xFFFF_FFFF;

/// How many swapchain images to ask for: one more than the minimum, capped
/// by the maximum where the surface has one.
pub fn image_count(capabilities: &SurfaceCapabilities) -> (count: u32)
    requires
        capabilities.min_image_count < u32::MAX,
    ensures
        count == ({
            let desired = (capabilities.min_image_count + 1) as u32;
            if desired > capabilities.max_image_count && capabilities.max_image_count > 0 {
                capabilities.max_image_count
            } else {
                desired
            }
        }),
        count > 0,
{
    let desired = capabilities.min_image_count + 1;
    if desired > capabilities.max_image_count && capabilities.max_image_count > 0 {
        capabilities.max_image_count
    } else {
        desired
    }
}

/// The swapchain extent: what the surface dictates, or the window size
/// where the surface leaves the extent undecided.
pub fn resolution(capabilities: &SurfaceCapabilities, width: u32, height: u32) -> (extent: (
    u32,
    u32,
))
    ensures
        extent == if capabilities.current_width == EXTENT_UNDECIDED {
            (width, height)
        } else {
            (capabilities.current_width, capabilities.current_height)
        },
{
    if capabilities.current_width == EXTENT_UNDECIDED {
        (width, height)
    } else {
        (capabilities.current_width, capabilities.current_height)
    }
}

/// The presentation transform: identity where the surface supports it, else
/// whatever the surface currently applies.
pub fn transform(capabilities: &SurfaceCapabilities) -> (chosen: u32)
    ensures
        chosen == if capabilities.supported_transforms & TRANSFORM_IDENTITY == TRANSFORM_IDENTITY {
            TRANSFORM_IDENTITY
        } else {
            capabilities.current_transform
        },
{
    if capabilities.supported_transforms & TRANSFORM_IDENTITY == TRANSFORM_IDENTITY {
        TRANSFORM_IDENTITY
    } else {
        capabilities.current_transform
    }
}

/// A surface format: a pixel format code and a color space code, as the
/// device reports them.
#[derive(Clone, Copy, PartialEq, Eq, Structural, Debug)]
pub struct SurfaceFormat {
    pub format: u32,
    pub color_space: u32,
}

/// Format code for "the surface does not care".
pub const FORMAT_UNDEFINED: u32 = 0;

/// Format code of the fallback chosen when the surface does not care.
pub const FORMAT_B8G8R8_UNORM: u32 = 30;

/// The surface format to render in: the first one the surface offers, with
/// the undefined format replaced by the fallback.
pub fn select_format(formats: &Vec<SurfaceFormat>) -> (chosen: SurfaceFormat)
    requires
        formats@.len() > 0,
    ensures
        chosen == if formats@[0].format == FORMAT_UNDEFINED {
            (SurfaceFormat { format: FORMAT_B8G8R8_UNORM, color_space: formats@[0].color_space })
        } else {
            formats@[0]
        },
{
    let first = formats[0];
    if first.format == FORMAT_UNDEFINED {
        SurfaceFormat { format: FORMAT_B8G8R8_UNORM, color_space: first.color_space }
    } else {
        first
    }
}

/// How presentation is paced.
#[derive(Clone, Copy, PartialEq, Eq, Structural, Debug)]
pub enum PresentMode {
    Immediate,
    Mailbox,
    Fifo,
    FifoRelaxed,
}

/// The presentation mode to use: immediate where the device offers it, else
/// first-in-first-out, which every device offers.
pub fn present_mode(modes: &Vec<PresentMode>) -> (chosen: PresentMode)
    ensures
        chosen == if modes@.contains(PresentMode::Immediate) {
            PresentMode::Immediate
        } else {
            PresentMode::Fifo
        },
{
    let mut i: usize = 0;
    while i < modes.len()
        invariant
            i <= modes@.len(),
            forall|j: int| 0 <= j < i ==> modes@[j] != PresentMode::Immediate,
        decreases modes@.len() - i,
    {
        if modes[i] == PresentMode::Immediate {
            return PresentMode::Immediate;
        }
        i = i + 1;
    }
    PresentMode::Fifo
}

/// Memory type `i` is allowed by the requirement bit mask.
pub open spec fn memory_type_enabled(memory_type_bits: u32, i: int) -> bool {
    0 <= i < 32 && (memory_type_bits >> (i as u32)) & 1 == 1
}

/// Memory type `i` is allowed and its property flags are wanted: exactly
/// the wanted flags, or at least the wanted flags.
pub open spec fn memory_type_matches(
    memory_type_bits: u32,
    memory_types: Seq<u32>,
    flags: u32,
    i: int,
    exact: bool,
) -> bool {
    &&& 0 <= i < memory_types.len()
    &&& memory_type_enabled(memory_type_bits, i)
    &&& if exact {
        memory_types[i] == flags
    } else {
        memory_types[i] & flags == flags
    }
}

fn find_memorytype_index_f(
    memory_type_bits: u32,
    memory_types: &Vec<u32>,
    flags: u32,
    exact: bool,
) -> (index: Option<u32>)
    requires
        memory_types@.len() <= 32,
    ensures
        match index {
            Some(i) => {
                &&& memory_type_matches(memory_type_bits, memory_types@, flags, i as int, exact)
                &&& forall|j: int|
                    0 <= j < i ==> !memory_type_matches(
                        memory_type_bits,
                        memory_types@,
                        flags,
                        j,
                        exact,
                    )
            },
            None => forall|j: int|
                !memory_type_matches(memory_type_bits, memory_types@, flags, j, exact),
        },
{
    let mut i: usize = 0;
    while i < memory_types.len()
        invariant
            memory_types@.len() <= 32,
            i <= memory_types@.len(),
            forall|j: int|
                0 <= j < i ==> !memory_type_matches(memory_type_bits, memory_types@, flags, j, exact),
        decreases memory_types@.len() - i,
    {
        let enabled = (memory_type_bits >> (i as u32)) & 1 == 1;
        let wanted = if exact {
            memory_types[i] == flags
        } else {
            memory_types[i] & flags == flags
        };
        if enabled && wanted {
            return Some(i as u32);
        }
        i = i + 1;
    }
    None
}

/// Picks the memory type for an allocation: the first allowed type whose
/// property flags equal `flags` exactly; failing that, the first allowed
/// type that has at least `flags`; failing that, none.
pub fn find_memorytype_index(memory_type_bits: u32, memory_types: &Vec<u32>, flags: u32) -> (index:
    Option<u32>)
    requires
        memory_types@.len() <= 32,
    ensures
        match index {
            Some(i) => {
                ||| ({
                    &&& memory_type_matches(memory_type_bits, memory_types@, flags, i as int, true)
                    &&& forall|j: int|
                        0 <= j < i ==> !memory_type_matches(
                            memory_type_bits,
                            memory_types@,
                            flags,
                            j,
                            true,
                        )
                })
                ||| ({
                    &&& forall|j: int|
                        !memory_type_matches(memory_type_bits, memory_types@, flags, j, true)
                    &&& memory_type_matches(memory_type_bits, memory_types@, flags, i as int, false)
                    &&& forall|j: int|
                        0 <= j < i ==> !memory_type_matches(
                            memory_type_bits,
                            memory_types@,
                            flags,
                            j,
                            false,
                        )
                })
            },
            None => forall|j: int|
                !memory_type_matches(memory_type_bits, memory_types@, flags, j, false),
        },
{
    let best_suitable_index = find_memorytype_index_f(memory_type_bits, memory_types, flags, true);
    if best_suitable_index.is_some() {
        return best_suitable_index;
    }
    let fallback = find_memorytype_index_f(memory_type_bits, memory_types, flags, false);
    proof {
        assert(forall|x: u32, f: u32| x == f ==> x & f == f) by (bit_vector);
    }
    fallback
}

} // verus!
