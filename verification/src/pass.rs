//! The pass itself: gathering the lines of a frame, and drawing them.

use crate::change::{dirty_after, record_needed, ChangeDetection, PrepareResult};
use crate::line::{append_lines, joined_lines, DebugLine, DebugLines, DebugLinesComponent};
use crate::params::{resolve_line_width, resolved_line_width, DebugLinesParams};
use crate::pipeline::{CAMERA_SET, LINE_BINDING, STYLE_SET, VERTICES_PER_LINE};
use vstd::prelude::*;

verus! {

/// What is to be written into the buffers of a frame slot once the slot is
/// prepared, and what the scheduler is told.
#[derive(Clone, Copy, Debug, PartialEq, Eq, Structural)]
pub struct FrameUpload {
    /// The frame slot to write to.
    pub index: usize,
    /// The number of lines to write into the vertex buffer.
    pub line_count: u64,
    /// The line width, as the bit pattern of a single-precision number.
    pub line_width: u32,
    pub framebuffer_width: u32,
    pub framebuffer_height: u32,
    pub result: PrepareResult,
}

/// One command recorded into a render pass.
#[derive(Clone, Copy, Debug, PartialEq, Eq, Structural)]
pub enum DrawCommand {
    BindGraphicsPipeline,
    /// Bind the camera uniform of frame slot `index` as descriptor set `set`.
    BindCameraUniform { index: usize, set: u32 },
    /// Bind the line-style uniform of frame slot `index` as descriptor set
    /// `set`.
    BindStyleUniform { index: usize, set: u32 },
    /// Bind the line buffer of frame slot `index` at vertex-input `binding`.
    BindLineBuffer { index: usize, binding: u32 },
    /// Draw `instances` instances of `vertices` vertices each.
    Draw { vertices: u32, instances: usize },
}

/// A GPU object that the pass owns and releases by hand.
#[derive(Clone, Copy, Debug, PartialEq, Eq, Structural)]
pub enum GpuRelease {
    GraphicsPipeline,
    PipelineLayout,
}

/// The lines of a frame: those of all components, then those that waited in
/// the pool, if there is a pool.
pub open spec fn gathered(
    components: Seq<DebugLinesComponent>,
    queued: Option<Seq<DebugLine>>,
) -> Seq<DebugLine> {
    joined_lines(components) + match queued {
        Some(lines) => lines,
        None => Seq::empty(),
    }
}

/// What a pool holds, where there is one.
pub open spec fn queued_in(pool: Option<&mut DebugLines>) -> Option<Seq<DebugLine>> {
    match pool {
        Some(p) => Some(p@),
        None => None,
    }
}

/// What the scheduler is told about frame slot `index` when the frame before
/// had `before` lines and this one has `after`: only the two numbers are
/// compared, and a slot that is dirty is recorded again in any case.
pub open spec fn prepare_outcome(dirty: Set<usize>, index: usize, before: nat, after: nat)
    -> PrepareResult {
    if record_needed(dirty, index, before != after) {
        PrepareResult::DrawRecord
    } else {
        PrepareResult::DrawReuse
    }
}

/// The commands that draw `lines` lines from frame slot `index`.
pub open spec fn draw_commands(index: usize, lines: nat) -> Seq<DrawCommand> {
    seq![
        DrawCommand::BindGraphicsPipeline,
        DrawCommand::BindCameraUniform { index, set: CAMERA_SET },
        DrawCommand::BindStyleUniform { index, set: STYLE_SET },
        DrawCommand::BindLineBuffer { index, binding: LINE_BINDING },
        DrawCommand::Draw { vertices: VERTICES_PER_LINE, instances: lines as usize },
    ]
}

/// Builds the pass that draws debug lines.
#[derive(Clone, Copy, Debug, PartialEq, Eq, Structural)]
pub struct DrawDebugLinesDesc {}

impl DrawDebugLinesDesc {
    /// A description of the pass.
    pub fn new() -> (desc: DrawDebugLinesDesc)
        ensures
            desc == (DrawDebugLinesDesc {  }),
    {
        DrawDebugLinesDesc {  }
    }

    /// The pass for a frame buffer of the given size, once its GPU objects
    /// stand: without lines, and with no frame slot dirty.
    pub fn build(self, framebuffer_width: u32, framebuffer_height: u32) -> (pass: DrawDebugLines)
        ensures
            pass@ == (PassState {
                lines: Seq::empty(),
                dirty: Set::empty(),
                framebuffer_width,
                framebuffer_height,
            }),
    {
        DrawDebugLines {
            framebuffer_width,
            framebuffer_height,
            lines: Vec::new(),
            change: ChangeDetection::new(),
        }
    }
}

impl Default for DrawDebugLinesDesc {
    fn default() -> (desc: DrawDebugLinesDesc)
        ensures
            desc == (DrawDebugLinesDesc {  }),
    {
        DrawDebugLinesDesc {  }
    }
}

/// What a pass holds.
pub ghost struct PassState {
    /// The lines gathered when a frame slot was last prepared.
    pub lines: Seq<DebugLine>,
    /// The frame slots whose commands have to be recorded again.
    pub dirty: Set<usize>,
    pub framebuffer_width: u32,
    pub framebuffer_height: u32,
}

/// The pass that draws debug lines.
#[derive(Debug)]
pub struct DrawDebugLines {
    framebuffer_width: u32,
    framebuffer_height: u32,
    lines: Vec<DebugLine>,
    change: ChangeDetection,
}

impl View for DrawDebugLines {
    type V = PassState;

    closed spec fn view(&self) -> PassState {
        PassState {
            lines: self.lines@,
            dirty: self.change@,
            framebuffer_width: self.framebuffer_width,
            framebuffer_height: self.framebuffer_height,
        }
    }
}

impl DrawDebugLines {
    /// The lines gathered when a frame slot was last prepared: the contents
    /// of the vertex buffer.
    pub fn lines(&self) -> (lines: &Vec<DebugLine>)
        ensures
            lines@ == self@.lines,
    {
        &self.lines
    }

    /// Gathers the lines of this frame for frame slot `index`: those of all
    /// `components`, in their order, then all that wait in `pool`, which is
    /// left empty. Tells what to write into the buffers of the slot, and
    /// whether the number of lines differs from the frame before or the
    /// slot was dirty already: then its commands are to be recorded again.
    pub fn prepare(
        &mut self,
        index: usize,
        components: &Vec<DebugLinesComponent>,
        pool: Option<&mut DebugLines>,
        params: Option<&DebugLinesParams>,
    ) -> (upload: FrameUpload)
        ensures
            final(self)@.lines == gathered(components@, queued_in(pool)),
            pool.is_some() ==> final(pool.unwrap())@ == Seq::<DebugLine>::empty(),
            final(self)@.dirty == dirty_after(
                old(self)@.dirty,
                index,
                old(self)@.lines.len() != final(self)@.lines.len(),
            ),
            final(self)@.framebuffer_width == old(self)@.framebuffer_width,
            final(self)@.framebuffer_height == old(self)@.framebuffer_height,
            upload == (FrameUpload {
                index,
                line_count: final(self)@.lines.len() as u64,
                line_width: resolved_line_width(params),
                framebuffer_width: old(self)@.framebuffer_width,
                framebuffer_height: old(self)@.framebuffer_height,
                result: prepare_outcome(
                    old(self)@.dirty,
                    index,
                    old(self)@.lines.len(),
                    final(self)@.lines.len(),
                ),
            }),
    {
        let old_len: usize = self.lines.len();
        self.lines.clear();
        let n: usize = components.len();
        let mut i: usize = 0;
        while i < n
            invariant
                n == components@.len(),
                i <= n,
                self.lines@ == joined_lines(components@.take(i as int)),
                self.change == old(self).change,
                self.framebuffer_width == old(self).framebuffer_width,
                self.framebuffer_height == old(self).framebuffer_height,
            decreases n - i,
        {
            append_lines(&mut self.lines, components[i].lines());
            assert(components@.take(i + 1).drop_last() =~= components@.take(i as int));
            i += 1;
        }
        assert(components@.take(n as int) =~= components@);
        match pool {
            Some(p) => {
                let mut taken = p.drain();
                self.lines.append(&mut taken);
            },
            None => {},
        }
        let line_width = resolve_line_width(params);
        let changed = old_len != self.lines.len();
        let result = self.change.prepare_result(index, changed);
        FrameUpload {
            index,
            line_count: self.lines.len() as u64,
            line_width,
            framebuffer_width: self.framebuffer_width,
            framebuffer_height: self.framebuffer_height,
            result,
        }
    }

    /// The commands that draw the lines of frame slot `index`: one instance
    /// of four vertices for every line gathered. The pass stays as it is.
    pub fn draw_inline(&self, index: usize) -> (commands: Vec<DrawCommand>)
        ensures
            commands@ == draw_commands(index, self@.lines.len()),
    {
        let mut commands: Vec<DrawCommand> = Vec::new();
        commands.push(DrawCommand::BindGraphicsPipeline);
        commands.push(DrawCommand::BindCameraUniform { index, set: CAMERA_SET });
        commands.push(DrawCommand::BindStyleUniform { index, set: STYLE_SET });
        commands.push(DrawCommand::BindLineBuffer { index, binding: LINE_BINDING });
        commands.push(
            DrawCommand::Draw { vertices: VERTICES_PER_LINE, instances: self.lines.len() },
        );
        assert(commands@ =~= draw_commands(index, self@.lines.len()));
        commands
    }

    /// Ends the pass and names what is to be released, in this order: the
    /// pipeline, then its layout.
    pub fn dispose(self) -> (releases: Vec<GpuRelease>)
        ensures
            releases@ == seq![GpuRelease::GraphicsPipeline, GpuRelease::PipelineLayout],
    {
        let mut releases: Vec<GpuRelease> = Vec::new();
        releases.push(GpuRelease::GraphicsPipeline);
        releases.push(GpuRelease::PipelineLayout);
        assert(releases@ =~= seq![GpuRelease::GraphicsPipeline, GpuRelease::PipelineLayout]);
        releases
    }
}

/// For a slot that is clean, the commands are recorded again exactly when
/// the number of lines differs from the frame before. Lines that differ
/// while their number stays are not noticed.
pub proof fn lemma_outcome_compares_counts(
    dirty: Set<usize>,
    index: usize,
    before: Seq<DebugLine>,
    after: Seq<DebugLine>,
)
    requires
        !dirty.contains(index),
    ensures
        prepare_outcome(dirty, index, before.len(), after.len()) == PrepareResult::DrawRecord
            <==> before.len() != after.len(),
        prepare_outcome(dirty, index, before.len(), after.len()) == PrepareResult::DrawReuse
            <==> before.len() == after.len(),
{
}

/// Preparing the same slot again right away leaves it clean, so the second
/// of two such frames is recorded again exactly when its number of lines
/// differs from the first.
pub proof fn lemma_same_slot_compares_counts(
    dirty: Set<usize>,
    index: usize,
    start: nat,
    first: nat,
    second: nat,
)
    ensures
        prepare_outcome(dirty_after(dirty, index, start != first), index, first, second)
            == PrepareResult::DrawRecord <==> first != second,
{
}

/// The draw that follows a prepared frame has one instance for every line
/// gathered, none where there is no line, and four vertices each in either
/// case.
pub proof fn lemma_draw_instances(
    index: usize,
    components: Seq<DebugLinesComponent>,
    queued: Option<Seq<DebugLine>>,
)
    requires
        gathered(components, queued).len() <= usize::MAX,
    ensures
        draw_commands(index, gathered(components, queued).len()).last() == (DrawCommand::Draw {
            vertices: 4,
            instances: gathered(components, queued).len() as usize,
        }),
        gathered(components, queued).len() as usize == gathered(components, queued).len(),
{
}

} // verus!
