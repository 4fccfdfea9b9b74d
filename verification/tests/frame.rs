use debug_lines::params::{resolve_line_width, DEFAULT_LINE_WIDTH};
use debug_lines::pass::FrameUpload;
use debug_lines::{
    ChangeDetection, DebugLine, DebugLines, DebugLinesComponent, DebugLinesParams, DrawCommand,
    DrawDebugLines, DrawDebugLinesDesc, GpuRelease, LineVertex, PrepareResult,
};

fn vertex(x: f32, y: f32, z: f32) -> LineVertex {
    LineVertex {
        x: x.to_bits(),
        y: y.to_bits(),
        z: z.to_bits(),
        r: 1.0f32.to_bits(),
        g: 0.5f32.to_bits(),
        b: 0.0f32.to_bits(),
        a: 1.0f32.to_bits(),
    }
}

fn line(n: u32) -> DebugLine {
    DebugLine::new(vertex(n as f32, 0.0, 0.0), vertex(n as f32, 1.0, 2.0))
}

fn component(ns: &[u32]) -> DebugLinesComponent {
    let mut c = DebugLinesComponent::new();
    for n in ns {
        c.add_line(line(*n));
    }
    c
}

fn pool(ns: &[u32]) -> DebugLines {
    let mut p = DebugLines::new();
    for n in ns {
        p.add_line(line(*n));
    }
    p
}

fn lines(ns: &[u32]) -> Vec<DebugLine> {
    ns.iter().map(|n| line(*n)).collect()
}

fn pass() -> DrawDebugLines {
    DrawDebugLinesDesc::new().build(800, 600)
}

#[test]
fn new_line_keeps_both_ends() {
    let l = DebugLine::new(vertex(1.0, 2.0, 3.0), vertex(4.0, 5.0, 6.0));
    assert_eq!(l.start, vertex(1.0, 2.0, 3.0));
    assert_eq!(l.end, vertex(4.0, 5.0, 6.0));
    assert_eq!(f32::from_bits(l.end.y), 5.0);
}

#[test]
fn component_keeps_lines_in_order() {
    let c = component(&[3, 1, 2]);
    assert_eq!(c.lines(), &lines(&[3, 1, 2]));
    assert!(DebugLinesComponent::new().lines().is_empty());
}

#[test]
fn drain_hands_out_everything_once() {
    let mut p = pool(&[7, 8, 9]);
    assert_eq!(p.len(), 3);
    assert_eq!(p.drain(), lines(&[7, 8, 9]));
    assert_eq!(p.len(), 0);
    assert_eq!(p.drain(), Vec::<DebugLine>::new());
    assert_eq!(p.len(), 0);
}

#[test]
fn pool_can_be_filled_again_after_drain() {
    let mut p = pool(&[1]);
    p.drain();
    p.add_line(line(2));
    assert_eq!(p.drain(), lines(&[2]));
}

#[test]
fn fresh_pass_is_empty() {
    let p = pass();
    assert!(p.lines().is_empty());
}

#[test]
fn prepare_joins_components_then_pool() {
    let mut p = pass();
    let comps = vec![component(&[1, 2]), component(&[]), component(&[3])];
    let mut shared = pool(&[10, 11]);
    let upload = p.prepare(0, &comps, Some(&mut shared), None);
    assert_eq!(p.lines(), &lines(&[1, 2, 3, 10, 11]));
    assert_eq!(shared.len(), 0);
    assert_eq!(
        upload,
        FrameUpload {
            index: 0,
            line_count: 5,
            line_width: 1.0f32.to_bits(),
            framebuffer_width: 800,
            framebuffer_height: 600,
            result: PrepareResult::DrawRecord,
        }
    );
}

#[test]
fn prepare_forgets_the_lines_of_the_frame_before() {
    let mut p = pass();
    let mut shared = pool(&[10, 11]);
    p.prepare(0, &vec![component(&[1])], Some(&mut shared), None);
    let upload = p.prepare(0, &vec![component(&[4])], Some(&mut shared), None);
    assert_eq!(p.lines(), &lines(&[4]));
    assert_eq!(upload.line_count, 1);
    assert_eq!(upload.result, PrepareResult::DrawRecord);
}

#[test]
fn prepare_without_pool_takes_components_only() {
    let mut p = pass();
    let upload = p.prepare(2, &vec![component(&[5, 6])], None, None);
    assert_eq!(p.lines(), &lines(&[5, 6]));
    assert_eq!(upload.index, 2);
    assert_eq!(upload.line_count, 2);
}

#[test]
fn prepare_without_any_source_is_empty_and_reusable() {
    let mut p = pass();
    let upload = p.prepare(0, &Vec::new(), None, None);
    assert!(p.lines().is_empty());
    assert_eq!(upload.line_count, 0);
    assert_eq!(upload.result, PrepareResult::DrawReuse);
}

#[test]
fn prepare_compares_counts_not_contents() {
    let mut p = pass();
    assert_eq!(
        p.prepare(0, &vec![component(&[1, 2])], None, None).result,
        PrepareResult::DrawRecord
    );
    assert_eq!(
        p.prepare(0, &vec![component(&[8, 9])], None, None).result,
        PrepareResult::DrawReuse
    );
    assert_eq!(p.lines(), &lines(&[8, 9]));
    assert_eq!(
        p.prepare(0, &vec![component(&[8])], None, None).result,
        PrepareResult::DrawRecord
    );
}

#[test]
fn a_change_reaches_the_other_slots() {
    let mut p = pass();
    let comps = vec![component(&[1, 2, 3])];
    assert_eq!(p.prepare(0, &comps, None, None).result, PrepareResult::DrawRecord);
    assert_eq!(p.prepare(1, &comps, None, None).result, PrepareResult::DrawRecord);
    assert_eq!(p.prepare(2, &comps, None, None).result, PrepareResult::DrawRecord);
    assert_eq!(p.prepare(0, &comps, None, None).result, PrepareResult::DrawReuse);
    assert_eq!(p.prepare(1, &comps, None, None).result, PrepareResult::DrawReuse);
    assert_eq!(p.prepare(2, &comps, None, None).result, PrepareResult::DrawReuse);
}

#[test]
fn change_detection_follows_the_slots() {
    let mut c = ChangeDetection::new();
    assert!(c.can_reuse(0, false));
    assert!(c.can_reuse(40, false));
    assert!(!c.can_reuse(0, true));
    assert!(c.can_reuse(0, false));
    assert!(!c.can_reuse(40, false));
    assert!(c.can_reuse(40, false));
    assert!(!c.can_reuse(usize::MAX, false));
    assert!(c.can_reuse(usize::MAX, false));
    assert!(!c.can_reuse(40, true));
    assert!(!c.can_reuse(0, false));
}

#[test]
fn prepare_result_names_the_outcome() {
    let mut c = ChangeDetection::default();
    assert_eq!(c.prepare_result(1, false), PrepareResult::DrawReuse);
    assert_eq!(c.prepare_result(1, true), PrepareResult::DrawRecord);
    assert_eq!(c.prepare_result(1, false), PrepareResult::DrawReuse);
    assert_eq!(c.prepare_result(0, false), PrepareResult::DrawRecord);
}

#[test]
fn default_line_width_is_one_pixel() {
    assert_eq!(f32::from_bits(DEFAULT_LINE_WIDTH), 1.0);
    assert_eq!(f32::from_bits(DebugLinesParams::default().line_width), 1.0);
    assert_eq!(f32::from_bits(resolve_line_width(None)), 1.0);
    let mut p = pass();
    let upload = p.prepare(0, &Vec::new(), None, None);
    assert_eq!(f32::from_bits(upload.line_width), 1.0);
}

#[test]
fn given_line_width_is_used() {
    let params = DebugLinesParams { line_width: 2.0f32.to_bits() };
    assert_eq!(f32::from_bits(resolve_line_width(Some(&params))), 2.0);
    let mut p = pass();
    let upload = p.prepare(1, &Vec::new(), None, Some(&params));
    assert_eq!(f32::from_bits(upload.line_width), 2.0);
    assert_eq!(upload.framebuffer_width, 800);
    assert_eq!(upload.framebuffer_height, 600);
}

#[test]
fn draw_has_one_instance_per_line() {
    let mut p = pass();
    let mut shared = pool(&[1, 2]);
    p.prepare(1, &vec![component(&[3])], Some(&mut shared), None);
    assert_eq!(
        p.draw_inline(1),
        vec![
            DrawCommand::BindGraphicsPipeline,
            DrawCommand::BindCameraUniform { index: 1, set: 0 },
            DrawCommand::BindStyleUniform { index: 1, set: 1 },
            DrawCommand::BindLineBuffer { index: 1, binding: 0 },
            DrawCommand::Draw { vertices: 4, instances: 3 },
        ]
    );
    assert_eq!(p.lines(), &lines(&[3, 1, 2]));
}

#[test]
fn draw_without_lines_has_no_instance() {
    let mut p = pass();
    p.prepare(0, &Vec::new(), None, None);
    let commands = p.draw_inline(0);
    assert_eq!(commands.len(), 5);
    assert_eq!(commands[4], DrawCommand::Draw { vertices: 4, instances: 0 });
}

#[test]
fn dispose_releases_pipeline_then_layout() {
    let p = pass();
    assert_eq!(p.dispose(), vec![GpuRelease::GraphicsPipeline, GpuRelease::PipelineLayout]);
}

#[test]
fn description_is_its_own_default() {
    assert_eq!(DrawDebugLinesDesc::new(), DrawDebugLinesDesc::default());
}

#[test]
fn append_lines_keeps_both_orders() {
    let mut dst = lines(&[1, 2]);
    debug_lines::line::append_lines(&mut dst, &lines(&[3, 4]));
    assert_eq!(dst, lines(&[1, 2, 3, 4]));
    debug_lines::line::append_lines(&mut dst, &Vec::new());
    assert_eq!(dst, lines(&[1, 2, 3, 4]));
}

#[test]
fn upload_gives_what_the_thickness_is_made_of() {
    let params = DebugLinesParams { line_width: 2.0f32.to_bits() };
    let mut p = pass();
    let upload = p.prepare(0, &Vec::new(), None, Some(&params));
    let width = f32::from_bits(upload.line_width);
    let thickness = (
        upload.framebuffer_width as f32 / (width * 2.0),
        upload.framebuffer_height as f32 / (width * 2.0),
    );
    assert_eq!(thickness, (200.0, 150.0));
}

#[test]
fn counts_that_return_still_dirty_the_slot() {
    let mut p = pass();
    let three = vec![component(&[1, 2, 3])];
    let five = vec![component(&[1, 2, 3, 4, 5])];
    assert_eq!(p.prepare(0, &three, None, None).result, PrepareResult::DrawRecord);
    assert_eq!(p.prepare(1, &five, None, None).result, PrepareResult::DrawRecord);
    assert_eq!(p.prepare(0, &three, None, None).result, PrepareResult::DrawRecord);
    assert_eq!(p.prepare(0, &three, None, None).result, PrepareResult::DrawReuse);
}
