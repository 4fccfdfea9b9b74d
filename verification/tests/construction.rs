use debug_lines::pipeline::{Blend, Comparison, Held, PrimitiveTopology};
use debug_lines::{BuildAction, BuildState, LinesPipelineDesc};

fn actions(outcomes: &[bool]) -> (Vec<BuildAction>, BuildState) {
    let mut state = BuildState::start();
    let mut done = Vec::new();
    let mut i = 0;
    while !state.is_done() {
        done.push(state.action());
        let ok = if i < outcomes.len() { outcomes[i] } else { true };
        state = state.advance(ok);
        i += 1;
    }
    done.push(state.action());
    (done, state)
}

const NOTHING: Held =
    Held { layout: false, vertex_shader: false, fragment_shader: false, pipeline: false };

#[test]
fn pipeline_state_of_the_lines() {
    assert_eq!(
        LinesPipelineDesc::new(800, 600),
        LinesPipelineDesc {
            instance_rate: 1,
            topology: PrimitiveTopology::TriangleStrip,
            blend: Blend::Alpha,
            depth_test: Comparison::LessEqual,
            depth_write: true,
            descriptor_sets: 2,
            viewport_width: 800,
            viewport_height: 600,
        }
    );
}

#[test]
fn construction_starts_with_nothing() {
    let state = BuildState::start();
    assert_eq!(state.action(), BuildAction::CreateCameraUniform);
    assert!(!state.is_done());
    assert!(!state.failed);
    assert_eq!(state.held, NOTHING);
}

#[test]
fn construction_that_goes_well() {
    let (done, state) = actions(&[]);
    assert_eq!(
        done,
        vec![
            BuildAction::CreateCameraUniform,
            BuildAction::CreateStyleUniform,
            BuildAction::CreateVertexBuffer,
            BuildAction::CreatePipelineLayout,
            BuildAction::LoadVertexShader,
            BuildAction::LoadFragmentShader,
            BuildAction::CreatePipeline,
            BuildAction::ReleaseVertexShader,
            BuildAction::ReleaseFragmentShader,
            BuildAction::Finish,
        ]
    );
    assert!(!state.failed);
    assert_eq!(
        state.held,
        Held { layout: true, vertex_shader: false, fragment_shader: false, pipeline: true }
    );
}

#[test]
fn failed_uniform_ends_at_once() {
    let (done, state) = actions(&[false]);
    assert_eq!(done, vec![BuildAction::CreateCameraUniform, BuildAction::Fail]);
    assert!(state.failed);
    assert_eq!(state.held, NOTHING);
    let (done, _) = actions(&[true, false]);
    assert_eq!(
        done,
        vec![BuildAction::CreateCameraUniform, BuildAction::CreateStyleUniform, BuildAction::Fail]
    );
}

#[test]
fn failed_layout_ends_at_once() {
    let (done, state) = actions(&[true, true, true, false]);
    assert_eq!(done.len(), 5);
    assert_eq!(done[3], BuildAction::CreatePipelineLayout);
    assert_eq!(done[4], BuildAction::Fail);
    assert_eq!(state.held, NOTHING);
}

#[test]
fn failed_vertex_shader_releases_layout() {
    let (done, state) = actions(&[true, true, true, true, false]);
    assert_eq!(
        done[4..],
        [BuildAction::LoadVertexShader, BuildAction::ReleasePipelineLayout, BuildAction::Fail]
    );
    assert!(state.failed);
    assert_eq!(state.held, NOTHING);
}

#[test]
fn failed_fragment_shader_releases_vertex_shader_and_layout() {
    let (done, state) = actions(&[true, true, true, true, true, false]);
    assert_eq!(
        done[5..],
        [
            BuildAction::LoadFragmentShader,
            BuildAction::ReleaseVertexShader,
            BuildAction::ReleasePipelineLayout,
            BuildAction::Fail,
        ]
    );
    assert_eq!(state.held, NOTHING);
}

#[test]
fn failed_pipeline_releases_shaders_then_layout() {
    let (done, state) = actions(&[true, true, true, true, true, true, false]);
    assert_eq!(
        done[6..],
        [
            BuildAction::CreatePipeline,
            BuildAction::ReleaseVertexShader,
            BuildAction::ReleaseFragmentShader,
            BuildAction::ReleasePipelineLayout,
            BuildAction::Fail,
        ]
    );
    assert!(state.failed);
    assert_eq!(state.held, NOTHING);
}

#[test]
fn a_release_cannot_fail() {
    let (done, state) = actions(&[true, true, true, true, true, true, true, false, false]);
    assert_eq!(done.len(), 10);
    assert_eq!(done[9], BuildAction::Finish);
    assert!(!state.failed);
}

#[test]
fn nothing_follows_the_end() {
    let (_, state) = actions(&[]);
    assert_eq!(state.advance(false), state);
    let (_, state) = actions(&[false]);
    assert_eq!(state.advance(true), state);
}
