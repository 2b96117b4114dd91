//! The frame composer: the per-frame state machine that sequences the manual
//! cube pass and the 2D overlay pass into one submitted command list.
//!
//! The composer records the frame as an explicit list of commands; the
//! unverified shell replays them against the GPU and the 2D canvas. Its
//! stages advance `Idle -> Acquired -> ThreeDPassActive -> ThreeDPassEnded
//! -> TwoDPassActive -> Submitted -> Idle`; one frame is one full traversal,
//! and the contracts force every traversal to record exactly the cube
//! frame's command sequence.

use crate::pipeline::{clear_bits_spec, scene_depth_policy, DepthPolicy, IndexFormat};
use vstd::prelude::*;

verus! {

/// An sRGB color as the IEEE-754 bit patterns of its four `f32` channels.
#[derive(Clone, Copy, Debug, PartialEq, Eq, Structural)]
pub struct ColorBits {
    pub r: u32,
    pub g: u32,
    pub b: u32,
    pub a: u32,
}

/// The fixed background color of the cube pass: dark gray, `(0.1, 0.1,
/// 0.1, 1.0)`, each channel as its `f32` bit pattern.
pub open spec fn background_color() -> ColorBits {
    ColorBits { r: 0x3DCC_CCCD, g: 0x3DCC_CCCD, b: 0x3DCC_CCCD, a: 0x3F80_0000 }
}

/// One of the two fixed status lines the overlay draws.
#[derive(Clone, Copy, Debug, PartialEq, Eq, Structural)]
pub enum OverlayText {
    MixNote,
    OrderNote,
}

/// The fixed content of an overlay status line.
pub fn overlay_text_content(t: OverlayText) -> (r: &'static str)
    ensures
        t == OverlayText::MixNote ==> r@ == "You can mix ggez and wgpu drawing;"@,
        t == OverlayText::OrderNote ==> r@ == "it basically draws wgpu stuff first, then ggez"@,
{
    match t {
        OverlayText::MixNote => "You can mix ggez and wgpu drawing;",
        OverlayText::OrderNote => "it basically draws wgpu stuff first, then ggez",
    }
}

/// One recorded command of a frame, in the shell's replay vocabulary.
#[derive(Clone, Copy, Debug, PartialEq, Eq, Structural)]
pub enum RenderCommand {
    /// Open the 3D render pass: clear the frame target to the given color
    /// and keep it; clear the depth target to the given `f32` bit pattern
    /// and discard it after the pass.
    BeginCubePass { clear_color: ColorBits, color_store: bool, depth_clear_bits: u32, depth_store: bool },
    /// Bind the cube render pipeline.
    SetPipeline,
    /// Bind a bind group at the given index.
    SetBindGroup { index: u32 },
    /// Bind the vertex buffer at the given slot.
    SetVertexBuffer { slot: u32 },
    /// Bind the index buffer under the given index format.
    SetIndexBuffer { format: IndexFormat },
    /// One indexed draw.
    DrawIndexed { index_count: u32, instance_count: u32, first_index: u32, base_vertex: i32 },
    /// Close the 3D render pass.
    EndCubePass,
    /// Hand the same frame target to the 2D canvas; `None` means the canvas
    /// must not clear, preserving the pixels the cube pass just wrote.
    BeginOverlay { clear: Option<ColorBits> },
    /// Draw a status line at a fixed screen position.
    DrawText { line: OverlayText, x: u32, y: u32 },
    /// Finalize the overlay pass and submit all recorded commands as one
    /// queue submission.
    Submit,
}

/// The stages of one frame traversal.
#[derive(Clone, Copy, Debug, PartialEq, Eq, Structural)]
pub enum FrameStage {
    Idle,
    Acquired,
    ThreeDPassActive,
    ThreeDPassEnded,
    TwoDPassActive,
    Submitted,
}

/// The complete command sequence of one cube frame.
pub open spec fn frame_commands() -> Seq<RenderCommand> {
    seq![
        RenderCommand::BeginCubePass {
            clear_color: background_color(),
            color_store: true,
            depth_clear_bits: clear_bits_spec(scene_depth_policy()),
            depth_store: false,
        },
        RenderCommand::SetPipeline,
        RenderCommand::SetBindGroup { index: 0 },
        RenderCommand::SetBindGroup { index: 1 },
        RenderCommand::SetVertexBuffer { slot: 0 },
        RenderCommand::SetIndexBuffer { format: IndexFormat::Uint32 },
        RenderCommand::DrawIndexed { index_count: 36, instance_count: 1, first_index: 0, base_vertex: 0 },
        RenderCommand::EndCubePass,
        RenderCommand::BeginOverlay { clear: None },
        RenderCommand::DrawText { line: OverlayText::MixNote, x: 10, y: 210 },
        RenderCommand::DrawText { line: OverlayText::OrderNote, x: 10, y: 250 },
        RenderCommand::Submit,
    ]
}

/// The frame composer: the current stage and the commands recorded so far.
pub struct FrameComposer {
    pub stage: FrameStage,
    pub commands: Vec<RenderCommand>,
}

/// The composer's invariant: what is recorded is always a prefix of the
/// frame's command sequence, of a length the current stage allows. Within
/// the 3D pass the length tells whether the cube has been drawn yet; within
/// the 2D pass, whether the status lines have.
pub open spec fn composer_inv(c: FrameComposer) -> bool {
    &&& c.commands@ == frame_commands().take(c.commands@.len() as int)
    &&& match c.stage {
        FrameStage::Idle => c.commands@.len() == 0,
        FrameStage::Acquired => c.commands@.len() == 0,
        FrameStage::ThreeDPassActive => c.commands@.len() == 1 || c.commands@.len() == 7,
        FrameStage::ThreeDPassEnded => c.commands@.len() == 8,
        FrameStage::TwoDPassActive => c.commands@.len() == 9 || c.commands@.len() == 11,
        FrameStage::Submitted => c.commands@.len() == 12,
    }
}

impl FrameComposer {
    /// A composer at rest, with nothing recorded.
    pub fn new() -> (c: FrameComposer)
        ensures
            composer_inv(c),
            c.stage == FrameStage::Idle,
    {
        let c = FrameComposer { stage: FrameStage::Idle, commands: Vec::new() };
        proof {
            assert(c.commands@ =~= frame_commands().take(0));
        }
        c
    }

    /// Step 1 — acquire: the shell has obtained the frame color target and
    /// the depth target for the current drawable size; the composer leaves
    /// `Idle`. No command is recorded: acquisition is the provider's work.
    pub fn acquire(&mut self)
        requires
            composer_inv(*old(self)),
            old(self).stage == FrameStage::Idle,
        ensures
            composer_inv(*final(self)),
            final(self).stage == FrameStage::Acquired,
            final(self).commands@ == old(self).commands@,
    {
        self.stage = FrameStage::Acquired;
    }

    /// Step 2 — begin the 3D pass: clear the color target to the fixed
    /// background and keep it; clear the depth target to the reversed-Z
    /// clear value and discard it after the pass.
    pub fn begin_cube_pass(&mut self)
        requires
            composer_inv(*old(self)),
            old(self).stage == FrameStage::Acquired,
        ensures
            composer_inv(*final(self)),
            final(self).stage == FrameStage::ThreeDPassActive,
            final(self).commands@ == old(self).commands@ + seq![frame_commands()[0]],
    {
        let policy = DepthPolicy::ReversedZ;
        self.commands.push(RenderCommand::BeginCubePass {
            clear_color: ColorBits { r: 0x3DCC_CCCD, g: 0x3DCC_CCCD, b: 0x3DCC_CCCD, a: 0x3F80_0000 },
            color_store: true,
            depth_clear_bits: policy.clear_value_bits(),
            depth_store: false,
        });
        self.stage = FrameStage::ThreeDPassActive;
        proof {
            assert(self.commands@ =~= frame_commands().take(1));
        }
    }

    /// Step 3 — bind and draw: bind the pipeline, the texture bind group at
    /// index 0, the camera bind group at index 1, the vertex buffer at slot
    /// 0 and the 32-bit index buffer, then issue the single indexed draw of
    /// the cube's 36 indices. This happens exactly once per pass.
    pub fn draw_cube(&mut self)
        requires
            composer_inv(*old(self)),
            old(self).stage == FrameStage::ThreeDPassActive,
            old(self).commands@.len() == 1,
        ensures
            composer_inv(*final(self)),
            final(self).stage == FrameStage::ThreeDPassActive,
            final(self).commands@ == old(self).commands@ + frame_commands().subrange(1, 7),
    {
        self.commands.push(RenderCommand::SetPipeline);
        self.commands.push(RenderCommand::SetBindGroup { index: 0 });
        self.commands.push(RenderCommand::SetBindGroup { index: 1 });
        self.commands.push(RenderCommand::SetVertexBuffer { slot: 0 });
        self.commands.push(RenderCommand::SetIndexBuffer { format: IndexFormat::Uint32 });
        self.commands.push(RenderCommand::DrawIndexed {
            index_count: 36,
            instance_count: 1,
            first_index: 0,
            base_vertex: 0,
        });
        proof {
            assert(self.commands@ =~= frame_commands().take(7));
            assert(self.commands@ =~= old(self).commands@ + frame_commands().subrange(1, 7));
        }
    }

    /// Step 4 — end the 3D pass: the cube's commands are final but nothing
    /// is submitted yet.
    pub fn end_cube_pass(&mut self)
        requires
            composer_inv(*old(self)),
            old(self).stage == FrameStage::ThreeDPassActive,
            old(self).commands@.len() == 7,
        ensures
            composer_inv(*final(self)),
            final(self).stage == FrameStage::ThreeDPassEnded,
            final(self).commands@ == old(self).commands@ + seq![frame_commands()[7]],
    {
        self.commands.push(RenderCommand::EndCubePass);
        self.stage = FrameStage::ThreeDPassEnded;
        proof {
            assert(self.commands@ =~= frame_commands().take(8));
        }
    }

    /// Step 5 — begin the 2D pass: hand the same frame target to the 2D
    /// canvas with no clear, so the overlay layers over the pixels the cube
    /// pass wrote instead of starting a fresh surface.
    pub fn begin_overlay(&mut self)
        requires
            composer_inv(*old(self)),
            old(self).stage == FrameStage::ThreeDPassEnded,
        ensures
            composer_inv(*final(self)),
            final(self).stage == FrameStage::TwoDPassActive,
            final(self).commands@ == old(self).commands@ + seq![frame_commands()[8]],
            final(self).commands@[8] == (RenderCommand::BeginOverlay { clear: None }),
    {
        self.commands.push(RenderCommand::BeginOverlay { clear: None });
        self.stage = FrameStage::TwoDPassActive;
        proof {
            assert(self.commands@ =~= frame_commands().take(9));
        }
    }

    /// Step 6 — overlay draws: the two fixed status lines at `(10, 210)`
    /// and `(10, 250)`, and nothing else.
    pub fn draw_overlay_text(&mut self)
        requires
            composer_inv(*old(self)),
            old(self).stage == FrameStage::TwoDPassActive,
            old(self).commands@.len() == 9,
        ensures
            composer_inv(*final(self)),
            final(self).stage == FrameStage::TwoDPassActive,
            final(self).commands@ == old(self).commands@ + frame_commands().subrange(9, 11),
    {
        self.commands.push(RenderCommand::DrawText { line: OverlayText::MixNote, x: 10, y: 210 });
        self.commands.push(RenderCommand::DrawText { line: OverlayText::OrderNote, x: 10, y: 250 });
        proof {
            assert(self.commands@ =~= frame_commands().take(11));
            assert(self.commands@ =~= old(self).commands@ + frame_commands().subrange(9, 11));
        }
    }

    /// Step 7 — finish and submit: all recorded commands go to the GPU as a
    /// single queue submission. A submission failure is the shell's to
    /// surface; the composer's record is complete either way.
    pub fn submit(&mut self)
        requires
            composer_inv(*old(self)),
            old(self).stage == FrameStage::TwoDPassActive,
            old(self).commands@.len() == 11,
        ensures
            composer_inv(*final(self)),
            final(self).stage == FrameStage::Submitted,
            final(self).commands@ == frame_commands(),
    {
        self.commands.push(RenderCommand::Submit);
        self.stage = FrameStage::Submitted;
        proof {
            assert(self.commands@ =~= frame_commands().take(12));
            assert(self.commands@ =~= frame_commands());
        }
    }

    /// One full frame traversal on this composer: every stage in order,
    /// ending back at `Idle` with the cube frame's exact command sequence
    /// handed out. Because the composer both starts and ends at `Idle`,
    /// frames can only follow one another — never overlap — and every frame
    /// records the same sequence.
    pub fn run_frame(&mut self) -> (cmds: Vec<RenderCommand>)
        requires
            composer_inv(*old(self)),
            old(self).stage == FrameStage::Idle,
        ensures
            composer_inv(*final(self)),
            final(self).stage == FrameStage::Idle,
            cmds@ == frame_commands(),
    {
        self.acquire();
        self.begin_cube_pass();
        self.draw_cube();
        self.end_cube_pass();
        self.begin_overlay();
        self.draw_overlay_text();
        self.submit();
        self.finish_frame()
    }

    /// Step 8 — return to `Idle`: hand the finished frame's commands out
    /// and drop every borrowed target reference; the composer keeps nothing
    /// past submission.
    pub fn finish_frame(&mut self) -> (cmds: Vec<RenderCommand>)
        requires
            composer_inv(*old(self)),
            old(self).stage == FrameStage::Submitted,
        ensures
            composer_inv(*final(self)),
            final(self).stage == FrameStage::Idle,
            final(self).commands@.len() == 0,
            cmds@ == frame_commands(),
    {
        let mut out: Vec<RenderCommand> = Vec::new();
        core::mem::swap(&mut out, &mut self.commands);
        self.stage = FrameStage::Idle;
        proof {
            assert(self.commands@ =~= frame_commands().take(0));
            assert(out@ =~= frame_commands());
        }
        out
    }
}

/// One full frame traversal: runs the composer through every stage and
/// returns exactly the cube frame's command sequence.
pub fn compose_frame() -> (cmds: Vec<RenderCommand>)
    ensures
        cmds@ == frame_commands(),
{
    let mut c = FrameComposer::new();
    c.run_frame()
}

/// The frame contains exactly one indexed draw — 36 indices, one instance,
/// first index 0, base vertex 0 — and after it exactly two text draws, at
/// `(10, 210)` and `(10, 250)`, in that order.
pub proof fn lemma_frame_draws()
    ensures
        frame_commands().len() == 12,
        frame_commands()[6] == (RenderCommand::DrawIndexed {
            index_count: 36,
            instance_count: 1,
            first_index: 0,
            base_vertex: 0,
        }),
        forall|i: int| 0 <= i < 12 && i != 6 ==> !(#[trigger] frame_commands()[i] is DrawIndexed),
        frame_commands()[9] == (RenderCommand::DrawText { line: OverlayText::MixNote, x: 10, y: 210 }),
        frame_commands()[10] == (RenderCommand::DrawText {
            line: OverlayText::OrderNote,
            x: 10,
            y: 250,
        }),
        forall|i: int| 0 <= i < 12 && i != 9 && i != 10 ==> !(#[trigger] frame_commands()[i] is DrawText),
{
}

/// The depth convention is consistent across the frame: the pass clears the
/// depth target to exactly the clear value the reversed-Z policy pairs with
/// the pipeline's `Greater` compare function, which is the bit pattern of
/// `0.0`.
pub proof fn lemma_depth_convention_consistent()
    ensures
        frame_commands()[0] is BeginCubePass,
        frame_commands()[0]->BeginCubePass_depth_clear_bits == clear_bits_spec(scene_depth_policy()),
        clear_bits_spec(scene_depth_policy()) == 0,
        crate::pipeline::compare_spec(scene_depth_policy()) == crate::pipeline::CompareFunction::Greater,
        frame_commands()[0]->BeginCubePass_depth_store == false,
{
}

/// The overlay never clears: the 2D pass preserves the cube pass's pixels.
pub proof fn lemma_overlay_preserves_frame()
    ensures
        frame_commands()[8] == (RenderCommand::BeginOverlay { clear: None }),
{
}

} // verus!
