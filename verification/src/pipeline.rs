//! The graphics pipeline of the pass, and the order in which its GPU
//! objects are created and released.

use vstd::prelude::*;

verus! {

/// How the vertices of one instance are assembled into primitives.
#[derive(Clone, Copy, Debug, PartialEq, Eq, Structural)]
pub enum PrimitiveTopology {
    PointList,
    LineList,
    LineStrip,
    TriangleList,
    TriangleStrip,
}

/// The comparison of the depth test.
#[derive(Clone, Copy, Debug, PartialEq, Eq, Structural)]
pub enum Comparison {
    Never,
    Less,
    Equal,
    LessEqual,
    Greater,
    NotEqual,
    GreaterEqual,
    Always,
}

/// How a fragment is combined with what the target holds.
#[derive(Clone, Copy, Debug, PartialEq, Eq, Structural)]
pub enum Blend {
    /// The fragment replaces the target.
    Replace,
    /// All colour channels are written, weighted by the fragment's alpha.
    Alpha,
}

/// The descriptor set of the camera uniform.
pub const CAMERA_SET: u32 = 0;

/// The descriptor set of the line-style uniform.
pub const STYLE_SET: u32 = 1;

/// The vertex-input binding of the line buffer.
pub const LINE_BINDING: u32 = 0;

/// The corners of the quad that a line is widened to.
pub const VERTICES_PER_LINE: u32 = 4;

/// The fixed state of the pipeline that draws the lines.
#[derive(Clone, Copy, Debug, PartialEq, Eq, Structural)]
pub struct LinesPipelineDesc {
    /// The line buffer advances by one element every this many instances.
    pub instance_rate: u32,
    pub topology: PrimitiveTopology,
    pub blend: Blend,
    pub depth_test: Comparison,
    pub depth_write: bool,
    /// The number of descriptor sets in the layout: the camera uniform, then
    /// the line-style uniform.
    pub descriptor_sets: u32,
    pub viewport_width: u32,
    pub viewport_height: u32,
}

/// The pipeline for a frame buffer of the given size: one line per instance,
/// drawn as a triangle strip, blended by alpha, in front of or level with
/// what the depth buffer holds, which it overwrites.
pub open spec fn lines_pipeline(width: u32, height: u32) -> LinesPipelineDesc {
    LinesPipelineDesc {
        instance_rate: 1,
        topology: PrimitiveTopology::TriangleStrip,
        blend: Blend::Alpha,
        depth_test: Comparison::LessEqual,
        depth_write: true,
        descriptor_sets: 2,
        viewport_width: width,
        viewport_height: height,
    }
}

impl LinesPipelineDesc {
    /// The pipeline state for a frame buffer of `width` by `height` pixels.
    pub fn new(width: u32, height: u32) -> (desc: LinesPipelineDesc)
        ensures
            desc == lines_pipeline(width, height),
    {
        LinesPipelineDesc {
            instance_rate: 1,
            topology: PrimitiveTopology::TriangleStrip,
            blend: Blend::Alpha,
            depth_test: Comparison::LessEqual,
            depth_write: true,
            descriptor_sets: STYLE_SET + 1,
            viewport_width: width,
            viewport_height: height,
        }
    }
}

/// One step of constructing the pass on a device.
#[derive(Clone, Copy, Debug, PartialEq, Eq, Structural)]
pub enum BuildAction {
    CreateCameraUniform,
    CreateStyleUniform,
    CreateVertexBuffer,
    /// From the layouts of the camera uniform and the line-style uniform, in
    /// this order.
    CreatePipelineLayout,
    LoadVertexShader,
    LoadFragmentShader,
    CreatePipeline,
    ReleaseVertexShader,
    ReleaseFragmentShader,
    ReleasePipelineLayout,
    /// Construction succeeded: hand out the pass.
    Finish,
    /// Construction failed: hand out the error of the step that failed.
    Fail,
}

/// The GPU objects that are released by hand and are alive right now.
#[derive(Clone, Copy, Debug, PartialEq, Eq, Structural)]
pub struct Held {
    pub layout: bool,
    pub vertex_shader: bool,
    pub fragment_shader: bool,
    pub pipeline: bool,
}

/// Where the construction of the pass stands.
#[derive(Clone, Copy, Debug, PartialEq, Eq, Structural)]
pub struct BuildState {
    /// The step to perform next.
    pub next: BuildAction,
    /// Whether a step has failed.
    pub failed: bool,
    pub held: Held,
}

impl BuildState {
    /// Before the first step.
    pub open spec fn initial() -> BuildState {
        BuildState {
            next: BuildAction::CreateCameraUniform,
            failed: false,
            held: Held { layout: false, vertex_shader: false, fragment_shader: false, pipeline: false },
        }
    }

    /// Whether nothing is left to do.
    pub open spec fn is_final(self) -> bool {
        self.next == BuildAction::Finish || self.next == BuildAction::Fail
    }

    /// The step that follows once nothing more is to be created: release
    /// what is alive, the shader modules before the layout, then end. The
    /// layout stays alive where nothing has failed.
    pub open spec fn cleanup_step(self) -> BuildAction {
        if self.held.vertex_shader {
            BuildAction::ReleaseVertexShader
        } else if self.held.fragment_shader {
            BuildAction::ReleaseFragmentShader
        } else if !self.failed {
            BuildAction::Finish
        } else if self.held.layout {
            BuildAction::ReleasePipelineLayout
        } else {
            BuildAction::Fail
        }
    }

    /// Where the pending step has failed: nothing more is created.
    pub open spec fn given_up(self) -> BuildState {
        let failure = BuildState { failed: true, ..self };
        BuildState { next: failure.cleanup_step(), ..failure }
    }

    /// Where the pending step has released an object and `held` is what
    /// stays alive.
    pub open spec fn released(self, held: Held) -> BuildState {
        let rest = BuildState { held, ..self };
        BuildState { next: rest.cleanup_step(), ..rest }
    }

    /// The state after the pending step was performed and went well (`ok`)
    /// or failed. A release always goes well, whatever `ok` says.
    pub open spec fn advanced(self, ok: bool) -> BuildState {
        let h = self.held;
        match self.next {
            BuildAction::Finish | BuildAction::Fail => self,
            BuildAction::ReleaseVertexShader => self.released(Held { vertex_shader: false, ..h }),
            BuildAction::ReleaseFragmentShader => self.released(
                Held { fragment_shader: false, ..h },
            ),
            BuildAction::ReleasePipelineLayout => self.released(Held { layout: false, ..h }),
            _ => if !ok {
                self.given_up()
            } else {
                match self.next {
                    BuildAction::CreateCameraUniform => BuildState {
                        next: BuildAction::CreateStyleUniform,
                        ..self
                    },
                    BuildAction::CreateStyleUniform => BuildState {
                        next: BuildAction::CreateVertexBuffer,
                        ..self
                    },
                    BuildAction::CreateVertexBuffer => BuildState {
                        next: BuildAction::CreatePipelineLayout,
                        ..self
                    },
                    BuildAction::CreatePipelineLayout => BuildState {
                        next: BuildAction::LoadVertexShader,
                        held: Held { layout: true, ..h },
                        ..self
                    },
                    BuildAction::LoadVertexShader => BuildState {
                        next: BuildAction::LoadFragmentShader,
                        held: Held { vertex_shader: true, ..h },
                        ..self
                    },
                    BuildAction::LoadFragmentShader => BuildState {
                        next: BuildAction::CreatePipeline,
                        held: Held { fragment_shader: true, ..h },
                        ..self
                    },
                    _ => BuildState {
                        next: BuildAction::ReleaseVertexShader,
                        held: Held { pipeline: true, ..h },
                        ..self
                    },
                }
            },
        }
    }

    /// An upper bound on the steps that are left.
    pub open spec fn steps_left(self) -> nat {
        match self.next {
            BuildAction::CreateCameraUniform => 10,
            BuildAction::CreateStyleUniform => 9,
            BuildAction::CreateVertexBuffer => 8,
            BuildAction::CreatePipelineLayout => 7,
            BuildAction::LoadVertexShader => 6,
            BuildAction::LoadFragmentShader => 5,
            BuildAction::CreatePipeline => 4,
            BuildAction::ReleaseVertexShader => 3,
            BuildAction::ReleaseFragmentShader => 2,
            BuildAction::ReleasePipelineLayout => 1,
            BuildAction::Finish => 0,
            BuildAction::Fail => 0,
        }
    }

    /// The number of objects that are still to be created.
    pub open spec fn creations_left(self) -> nat {
        match self.next {
            BuildAction::CreateCameraUniform => 7,
            BuildAction::CreateStyleUniform => 6,
            BuildAction::CreateVertexBuffer => 5,
            BuildAction::CreatePipelineLayout => 4,
            BuildAction::LoadVertexShader => 3,
            BuildAction::LoadFragmentShader => 2,
            BuildAction::CreatePipeline => 1,
            _ => 0,
        }
    }

    /// What holds of every state that construction passes through: the
    /// objects alive are those that the steps so far have created and not
    /// released.
    pub open spec fn consistent(self) -> bool {
        let h = self.held;
        match self.next {
            BuildAction::CreateCameraUniform
            | BuildAction::CreateStyleUniform
            | BuildAction::CreateVertexBuffer
            | BuildAction::CreatePipelineLayout => !self.failed && !h.layout && !h.vertex_shader
                && !h.fragment_shader && !h.pipeline,
            BuildAction::LoadVertexShader => !self.failed && h.layout && !h.vertex_shader
                && !h.fragment_shader && !h.pipeline,
            BuildAction::LoadFragmentShader => !self.failed && h.layout && h.vertex_shader
                && !h.fragment_shader && !h.pipeline,
            BuildAction::CreatePipeline => !self.failed && h.layout && h.vertex_shader
                && h.fragment_shader && !h.pipeline,
            BuildAction::ReleaseVertexShader => h.layout && h.vertex_shader && h.pipeline
                == !self.failed && (h.fragment_shader || self.failed),
            BuildAction::ReleaseFragmentShader => h.layout && !h.vertex_shader
                && h.fragment_shader && h.pipeline == !self.failed,
            BuildAction::ReleasePipelineLayout => self.failed && h.layout && !h.vertex_shader
                && !h.fragment_shader && !h.pipeline,
            BuildAction::Finish => !self.failed && h.layout && !h.vertex_shader
                && !h.fragment_shader && h.pipeline,
            BuildAction::Fail => self.failed && !h.layout && !h.vertex_shader
                && !h.fragment_shader && !h.pipeline,
        }
    }

    /// The state after the steps from `self` on had the given outcomes, one
    /// after the other.
    pub open spec fn run(self, outcomes: Seq<bool>) -> BuildState
        decreases outcomes.len(),
    {
        if outcomes.len() == 0 {
            self
        } else {
            self.advanced(outcomes.first()).run(outcomes.drop_first())
        }
    }

    /// The state before the first step.
    pub fn start() -> (state: BuildState)
        ensures
            state == BuildState::initial(),
            state.consistent(),
    {
        BuildState {
            next: BuildAction::CreateCameraUniform,
            failed: false,
            held: Held { layout: false, vertex_shader: false, fragment_shader: false, pipeline: false },
        }
    }

    /// The step to perform next.
    pub fn action(&self) -> (action: BuildAction)
        ensures
            action == self.next,
    {
        self.next
    }

    /// Whether construction has ended, well or not.
    pub fn is_done(&self) -> (done: bool)
        ensures
            done == self.is_final(),
    {
        match self.next {
            BuildAction::Finish => true,
            BuildAction::Fail => true,
            _ => false,
        }
    }

    /// Takes note of how the pending step went and says what comes next.
    pub fn advance(self, ok: bool) -> (state: BuildState)
        ensures
            state == self.advanced(ok),
            self.consistent() ==> state.consistent(),
            self.consistent() && !self.is_final() ==> state.steps_left() < self.steps_left(),
    {
        let mut state = self;
        match self.next {
            BuildAction::Finish => {
                return state;
            },
            BuildAction::Fail => {
                return state;
            },
            BuildAction::ReleaseVertexShader => {
                state.held.vertex_shader = false;
                state.next = state.cleanup();
                return state;
            },
            BuildAction::ReleaseFragmentShader => {
                state.held.fragment_shader = false;
                state.next = state.cleanup();
                return state;
            },
            BuildAction::ReleasePipelineLayout => {
                state.held.layout = false;
                state.next = state.cleanup();
                return state;
            },
            _ => {},
        }
        if !ok {
            state.failed = true;
            state.next = state.cleanup();
            return state;
        }
        match self.next {
            BuildAction::CreateCameraUniform => {
                state.next = BuildAction::CreateStyleUniform;
            },
            BuildAction::CreateStyleUniform => {
                state.next = BuildAction::CreateVertexBuffer;
            },
            BuildAction::CreateVertexBuffer => {
                state.next = BuildAction::CreatePipelineLayout;
            },
            BuildAction::CreatePipelineLayout => {
                state.next = BuildAction::LoadVertexShader;
                state.held.layout = true;
            },
            BuildAction::LoadVertexShader => {
                state.next = BuildAction::LoadFragmentShader;
                state.held.vertex_shader = true;
            },
            BuildAction::LoadFragmentShader => {
                state.next = BuildAction::CreatePipeline;
                state.held.fragment_shader = true;
            },
            _ => {
                state.next = BuildAction::ReleaseVertexShader;
                state.held.pipeline = true;
            },
        }
        state
    }

    /// The next step once nothing more is to be created.
    fn cleanup(&self) -> (action: BuildAction)
        ensures
            action == self.cleanup_step(),
    {
        if self.held.vertex_shader {
            BuildAction::ReleaseVertexShader
        } else if self.held.fragment_shader {
            BuildAction::ReleaseFragmentShader
        } else if !self.failed {
            BuildAction::Finish
        } else if self.held.layout {
            BuildAction::ReleasePipelineLayout
        } else {
            BuildAction::Fail
        }
    }
}

/// A step keeps the account of what is alive in order, and brings the end
/// nearer.
pub proof fn lemma_advanced_consistent(state: BuildState, ok: bool)
    requires
        state.consistent(),
    ensures
        state.advanced(ok).consistent(),
        !state.is_final() ==> state.advanced(ok).steps_left() < state.steps_left(),
{
}

/// Whatever the outcomes of the steps, the objects alive are those that the
/// steps have created and not released.
pub proof fn lemma_run_consistent(state: BuildState, outcomes: Seq<bool>)
    requires
        state.consistent(),
    ensures
        state.run(outcomes).consistent(),
    decreases outcomes.len(),
{
    if outcomes.len() > 0 {
        lemma_advanced_consistent(state, outcomes.first());
        lemma_run_consistent(state.advanced(outcomes.first()), outcomes.drop_first());
    }
}

/// Construction leaks nothing. Where it ends in failure, no object that is
/// released by hand is alive: neither shader module, nor the layout, nor a
/// pipeline. Where it ends well, the layout and the pipeline are alive and
/// both shader modules are released.
pub proof fn lemma_build_leaks_nothing(outcomes: Seq<bool>)
    ensures
        ({
            let end = BuildState::initial().run(outcomes);
            &&& end.next == BuildAction::Fail ==> end.failed && end.held == (Held {
                layout: false,
                vertex_shader: false,
                fragment_shader: false,
                pipeline: false,
            })
            &&& end.next == BuildAction::Finish ==> !end.failed && end.held == (Held {
                layout: true,
                vertex_shader: false,
                fragment_shader: false,
                pipeline: true,
            })
        }),
{
    lemma_run_consistent(BuildState::initial(), outcomes);
}

/// Construction ends: after as many steps as `steps_left` says, nothing is
/// left to do.
pub proof fn lemma_build_ends(state: BuildState, outcomes: Seq<bool>)
    requires
        state.consistent(),
        outcomes.len() >= state.steps_left(),
    ensures
        state.run(outcomes).is_final(),
    decreases outcomes.len(),
{
    if outcomes.len() > 0 {
        lemma_advanced_consistent(state, outcomes.first());
        lemma_build_ends(state.advanced(outcomes.first()), outcomes.drop_first());
    }
}

/// Construction ends well exactly when nothing has failed before and every
/// object that is still to be created is created.
pub proof fn lemma_build_succeeds_iff(state: BuildState, outcomes: Seq<bool>)
    requires
        state.consistent(),
        outcomes.len() >= state.steps_left(),
    ensures
        state.run(outcomes).next == BuildAction::Finish <==> !state.failed && forall|i: int|
            0 <= i < state.creations_left() ==> outcomes[i],
    decreases outcomes.len(),
{
    if outcomes.len() > 0 {
        let ok = outcomes.first();
        let rest = outcomes.drop_first();
        let after = state.advanced(ok);
        lemma_advanced_consistent(state, ok);
        lemma_build_succeeds_iff(after, rest);
        if state.creations_left() > 0 {
            if ok {
                assert(after.creations_left() + 1 == state.creations_left());
                if forall|i: int| 0 <= i < after.creations_left() ==> rest[i] {
                    assert forall|i: int| 0 <= i < state.creations_left() implies outcomes[i] by {
                        if i > 0 {
                            assert(rest[i - 1] == outcomes[i]);
                        }
                    }
                }
                if forall|i: int| 0 <= i < state.creations_left() ==> outcomes[i] {
                    assert forall|i: int| 0 <= i < after.creations_left() implies rest[i] by {
                        assert(rest[i] == outcomes[i + 1]);
                    }
                }
            } else {
                assert(after.failed);
                assert(!outcomes[0]);
            }
        }
    }
}

/// From the first step on, construction ends well exactly when each of the
/// seven objects is created; how the releases are reported plays no part.
pub proof fn lemma_build_succeeds_iff_all_created(outcomes: Seq<bool>)
    requires
        outcomes.len() >= 10,
    ensures
        BuildState::initial().run(outcomes).next == BuildAction::Finish <==> forall|i: int|
            0 <= i < 7 ==> outcomes[i],
        BuildState::initial().run(outcomes).next != BuildAction::Finish
            ==> BuildState::initial().run(outcomes).next == BuildAction::Fail,
{
    lemma_build_succeeds_iff(BuildState::initial(), outcomes);
    lemma_build_ends(BuildState::initial(), outcomes);
}

/// Once the pipeline was asked for, both shader modules are released next,
/// the vertex shader first, whether the pipeline was built or not. Only then
/// construction ends well, or turns to releasing the layout.
pub proof fn lemma_shaders_released_either_way(state: BuildState, built: bool, a: bool, b: bool)
    requires
        state.consistent(),
        state.next == BuildAction::CreatePipeline,
    ensures
        state.advanced(built).next == BuildAction::ReleaseVertexShader,
        state.advanced(built).advanced(a).next == BuildAction::ReleaseFragmentShader,
        state.advanced(built).advanced(a).advanced(b).next == if built {
            BuildAction::Finish
        } else {
            BuildAction::ReleasePipelineLayout
        },
        !state.advanced(built).advanced(a).advanced(b).held.vertex_shader,
        !state.advanced(built).advanced(a).advanced(b).held.fragment_shader,
{
}

} // verus!
