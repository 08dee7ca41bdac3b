//! The two-pass command-stream composition.
//!
//! One frame is encoded as one command stream holding exactly two
//! render passes against the same color target: first the scene pass,
//! which clears color and depth and draws the mesh; then the overlay
//! pass, which loads the existing contents, has no depth attachment,
//! and composites the pre-recorded overlay geometry. The ordering
//! contract is carried by the stream value itself: the surrounding
//! binary replays the descriptors against the device in sequence, so
//! submission order fixes GPU execution order.

use vstd::prelude::*;

verus! {

/// Bit pattern of the fixed background red channel (the 64-bit
/// encoding of 0.1).
pub const CLEAR_R_BITS: u64 = 0x3FB999999999999A;

/// Bit pattern of the fixed background green channel (0.2).
pub const CLEAR_G_BITS: u64 = 0x3FC999999999999A;

/// Bit pattern of the fixed background blue channel (0.3).
pub const CLEAR_B_BITS: u64 = 0x3FD3333333333333;

/// Bit pattern of the fixed background alpha channel (1.0).
pub const CLEAR_A_BITS: u64 = 0x3FF0000000000000;

/// Bit pattern of the far-plane depth clear value (the 32-bit
/// encoding of 1.0).
pub const CLEAR_DEPTH_BITS: u32 = 0x3F800000;

/// What a pass does with the color target's prior contents when it
/// begins: discard them for a fixed background, or preserve them.
/// Channel values are carried as 64-bit encodings chosen by the replay.
/// Stores are always kept.
#[derive(Clone, Copy, PartialEq, Eq, Structural, Debug)]
pub enum ColorLoadOp {
    Clear { r_bits: u64, g_bits: u64, b_bits: u64, a_bits: u64 },
    Load,
}

/// What a pass does with the depth attachment's prior contents.
#[derive(Clone, Copy, PartialEq, Eq, Structural, Debug)]
pub enum DepthLoadOp {
    Clear { depth_bits: u32 },
    Load,
}

/// The color target of one pass: the acquired surface texture's view.
#[derive(Clone, Copy, PartialEq, Eq, Structural, Debug)]
pub struct ColorAttachment {
    pub width: u32,
    pub height: u32,
    pub load: ColorLoadOp,
}

/// The depth attachment of one pass: the depth target's view.
#[derive(Clone, Copy, PartialEq, Eq, Structural, Debug)]
pub struct DepthAttachment {
    pub width: u32,
    pub height: u32,
    pub load: DepthLoadOp,
}

/// One recorded operation inside a pass.
#[derive(Clone, Copy, PartialEq, Eq, Structural, Debug)]
pub enum DrawCommand {
    /// Bind the main pipeline.
    SetPipeline,
    /// Bind the uniform bind group at the given index.
    SetBindGroup { index: u32 },
    /// Bind the mesh's vertex buffer at the given slot.
    SetVertexBuffer { slot: u32 },
    /// Bind the mesh's index buffer, 32-bit indices.
    SetIndexBufferU32,
    /// One indexed draw.
    DrawIndexed {
        first_index: u32,
        index_count: u32,
        base_vertex: i32,
        first_instance: u32,
        instance_count: u32,
    },
    /// Delegate to the overlay library's pre-recorded geometry.
    DrawOverlay,
}

/// A command that puts fragments on the target, as opposed to binding
/// state for a later draw.
pub open spec fn is_draw(c: DrawCommand) -> bool {
    c is DrawIndexed || c is DrawOverlay
}

/// One render pass: a fixed set of attachments with their load
/// behavior, and the operations recorded into the pass.
pub struct PassDesc {
    pub color: ColorAttachment,
    pub depth: Option<DepthAttachment>,
    pub commands: Vec<DrawCommand>,
}

/// The mathematical shape of one pass: the same attachments, with the
/// operations as a sequence.
pub struct PassModel {
    pub color: ColorAttachment,
    pub depth: Option<DepthAttachment>,
    pub commands: Seq<DrawCommand>,
}

impl View for PassDesc {
    type V = PassModel;

    open spec fn view(&self) -> PassModel {
        PassModel { color: self.color, depth: self.depth, commands: self.commands@ }
    }
}

/// One frame's single command stream: the passes in submission order.
pub struct CommandStream {
    pub passes: Vec<PassDesc>,
}

impl View for CommandStream {
    type V = Seq<PassModel>;

    open spec fn view(&self) -> Seq<PassModel> {
        self.passes@.map_values(|p: PassDesc| p@)
    }
}

impl CommandStream {
    /// Open an empty command recorder.
    pub fn new() -> (r: CommandStream)
        ensures
            r@ =~= Seq::<PassModel>::empty(),
    {
        CommandStream { passes: Vec::new() }
    }
}

/// The scene pass's operations: bind pipeline, uniforms, vertex and
/// index buffers, then exactly one indexed draw of the whole mesh as a
/// single instance.
pub open spec fn scene_commands_spec(index_count: u32) -> Seq<DrawCommand> {
    seq![
        DrawCommand::SetPipeline,
        DrawCommand::SetBindGroup { index: 0 },
        DrawCommand::SetVertexBuffer { slot: 0 },
        DrawCommand::SetIndexBufferU32,
        DrawCommand::DrawIndexed {
            first_index: 0,
            index_count: index_count,
            base_vertex: 0,
            first_instance: 0,
            instance_count: 1,
        },
    ]
}

/// The scene pass: clear the color target to the fixed background,
/// clear depth to the far plane, draw the mesh once.
pub open spec fn scene_pass_spec(width: u32, height: u32, index_count: u32) -> PassModel {
    PassModel {
        color: ColorAttachment {
            width,
            height,
            load: ColorLoadOp::Clear {
                r_bits: CLEAR_R_BITS,
                g_bits: CLEAR_G_BITS,
                b_bits: CLEAR_B_BITS,
                a_bits: CLEAR_A_BITS,
            },
        },
        depth: Some(
            DepthAttachment { width, height, load: DepthLoadOp::Clear { depth_bits: CLEAR_DEPTH_BITS } },
        ),
        commands: scene_commands_spec(index_count),
    }
}

/// The overlay pass: load the color target, no depth attachment,
/// delegate to the overlay geometry.
pub open spec fn overlay_pass_spec(width: u32, height: u32) -> PassModel {
    PassModel {
        color: ColorAttachment { width, height, load: ColorLoadOp::Load },
        depth: None,
        commands: seq![DrawCommand::DrawOverlay],
    }
}

/// Marker for the scene pass: stateless, it only records.
pub struct ScenePass {
}

impl ScenePass {
    /// Record the scene pass into the stream. It must be the first pass
    /// of the frame, because it performs the clears; the orchestrator
    /// enforces that ordering. Back-face culling, winding, and the
    /// depth test live in the pipeline description bound by the first
    /// command.
    pub fn record(stream: &mut CommandStream, width: u32, height: u32, index_count: u32)
        ensures
            final(stream)@ == old(stream)@.push(scene_pass_spec(width, height, index_count)),
    {
        let mut commands: Vec<DrawCommand> = Vec::new();
        commands.push(DrawCommand::SetPipeline);
        commands.push(DrawCommand::SetBindGroup { index: 0 });
        commands.push(DrawCommand::SetVertexBuffer { slot: 0 });
        commands.push(DrawCommand::SetIndexBufferU32);
        commands.push(
            DrawCommand::DrawIndexed {
                first_index: 0,
                index_count,
                base_vertex: 0,
                first_instance: 0,
                instance_count: 1,
            },
        );
        assert(commands@ =~= scene_commands_spec(index_count));
        let pass = PassDesc {
            color: ColorAttachment {
                width,
                height,
                load: ColorLoadOp::Clear {
                    r_bits: CLEAR_R_BITS,
                    g_bits: CLEAR_G_BITS,
                    b_bits: CLEAR_B_BITS,
                    a_bits: CLEAR_A_BITS,
                },
            },
            depth: Some(
                DepthAttachment { width, height, load: DepthLoadOp::Clear { depth_bits: CLEAR_DEPTH_BITS } },
            ),
            commands,
        };
        stream.passes.push(pass);
        assert(stream@ =~= old(stream)@.push(scene_pass_spec(width, height, index_count)));
    }
}

/// Marker for the overlay pass: stateless, it only records.
pub struct OverlayPass {
}

impl OverlayPass {
    /// Record the overlay pass into the stream. It loads rather than
    /// clears, so it must run strictly after the scene pass within the
    /// same submitted stream to observe the scene's output.
    pub fn record(stream: &mut CommandStream, width: u32, height: u32)
        ensures
            final(stream)@ == old(stream)@.push(overlay_pass_spec(width, height)),
    {
        let mut commands: Vec<DrawCommand> = Vec::new();
        commands.push(DrawCommand::DrawOverlay);
        assert(commands@ =~= seq![DrawCommand::DrawOverlay]);
        let pass = PassDesc {
            color: ColorAttachment { width, height, load: ColorLoadOp::Load },
            depth: None,
            commands,
        };
        stream.passes.push(pass);
        assert(stream@ =~= old(stream)@.push(overlay_pass_spec(width, height)));
    }
}

/// One frame's whole stream: the scene pass, then the overlay pass,
/// and nothing else.
pub open spec fn frame_stream_spec(width: u32, height: u32, index_count: u32) -> Seq<PassModel> {
    seq![scene_pass_spec(width, height, index_count), overlay_pass_spec(width, height)]
}

/// Record one frame: exactly two passes in order, sharing one stream.
pub fn record_frame(width: u32, height: u32, index_count: u32) -> (r: CommandStream)
    ensures
        r@ == frame_stream_spec(width, height, index_count),
{
    let mut stream = CommandStream::new();
    ScenePass::record(&mut stream, width, height, index_count);
    OverlayPass::record(&mut stream, width, height);
    assert(stream@ =~= frame_stream_spec(width, height, index_count));
    stream
}

/// The ordering law of the composition: every frame stream holds
/// exactly two passes; the first clears both color and depth and
/// carries a depth attachment of the same dimensions as its color
/// target; the second loads color, has no depth attachment, and only
/// delegates to the overlay.
pub proof fn lemma_frame_stream_ordering(width: u32, height: u32, index_count: u32)
    ensures
        frame_stream_spec(width, height, index_count).len() == 2,
        frame_stream_spec(width, height, index_count)[0].color.load is Clear,
        frame_stream_spec(width, height, index_count)[0].depth matches Some(d) && d.load is Clear
            && d.width == width && d.height == height,
        frame_stream_spec(width, height, index_count)[0].commands == scene_commands_spec(
            index_count,
        ),
        frame_stream_spec(width, height, index_count)[1].color.load is Load,
        frame_stream_spec(width, height, index_count)[1].depth is None,
        frame_stream_spec(width, height, index_count)[1].commands == seq![
            DrawCommand::DrawOverlay,
        ],
{
}

/// The draw law of the scene pass: its commands end in exactly one
/// draw, indexed, covering the given index count as a single instance;
/// everything before it only binds state.
pub proof fn lemma_scene_pass_single_draw(width: u32, height: u32, index_count: u32)
    ensures
        scene_pass_spec(width, height, index_count).commands.len() == 5,
        scene_pass_spec(width, height, index_count).commands[4] == (DrawCommand::DrawIndexed {
            first_index: 0,
            index_count: index_count,
            base_vertex: 0,
            first_instance: 0,
            instance_count: 1,
        }),
        forall|i: int|
            0 <= i < 4 ==> !is_draw(scene_pass_spec(width, height, index_count).commands[i]),
{
}

} // verus!
