use shader_playground::gpu::{GpuCommand, Rect};
use shader_playground::opengl_renderer::{quad_indices, quad_vertex_half_units, OpenGLRenderer};
use shader_playground::program::{compile_result, Program};
use shader_playground::shell::{
    fragment_boilerplate, on_teardown, status_message, wrap_fragment_source, CompileStatus,
};

const BOILERPLATE: &str = "#version 300 es\nprecision mediump float;\nuniform vec2 u_resolution;\n";

fn fresh_renderer() -> OpenGLRenderer {
    let (renderer, _) = OpenGLRenderer::new(1, 2, 3, 4, Ok(10), Ok(11)).unwrap();
    renderer
}

#[test]
fn renderer_construction_succeeds_without_error() {
    let (renderer, cmds) = OpenGLRenderer::new(1, 2, 3, 4, Ok(10), Ok(11)).unwrap();
    assert!(renderer.get_error().is_none());
    assert_eq!(
        cmds,
        vec![
            GpuCommand::BindVertexArray { vertex_array: 1 },
            GpuCommand::UploadQuadVertices { buffer: 2 },
            GpuCommand::ConfigurePositionAttribute { location: 0, components: 3, stride_bytes: 12 },
            GpuCommand::UploadQuadIndices { buffer: 3 },
            GpuCommand::UnbindVertexArray,
            GpuCommand::AttachShader { program: 4, shader: 10 },
            GpuCommand::AttachShader { program: 4, shader: 11 },
            GpuCommand::LinkProgram { program: 4 },
            GpuCommand::ValidateProgram { program: 4 },
        ]
    );
}

#[test]
fn renderer_construction_fails_on_vertex_compile_failure() {
    let r = OpenGLRenderer::new(1, 2, 3, 4, Err("bad vertex".to_string()), Ok(11));
    assert_eq!(r.err().unwrap(), "bad vertex");
}

#[test]
fn renderer_construction_fails_on_fragment_compile_failure() {
    let r = OpenGLRenderer::new(1, 2, 3, 4, Ok(10), Err("bad fragment".to_string()));
    assert_eq!(r.err().unwrap(), "bad fragment");
}

#[test]
fn program_construction_reports_vertex_failure_first() {
    let r = Program::new(4, Err("vertex log".to_string()), Err("fragment log".to_string()));
    assert_eq!(r.err().unwrap(), "vertex log");
}

#[test]
fn failed_recompile_stores_diagnostic_and_keeps_program() {
    let mut renderer = fresh_renderer();
    let cmds = renderer.recompile_fragment_shader(Err("0:2: unterminated statement".to_string()));
    assert!(cmds.is_empty());
    let err = renderer.get_error().unwrap();
    assert!(!err.is_empty());
    assert_eq!(err, "0:2: unterminated statement");
    // The prior program still renders: the paint plan binds the same program.
    let plan = renderer.paint(Rect { min_x: 0, min_y: 0, width: 320, height: 200 });
    assert!(plan.contains(&GpuCommand::UseProgram { program: 4 }));
}

#[test]
fn successful_recompile_clears_prior_error_and_swaps_stage() {
    let mut renderer = fresh_renderer();
    renderer.recompile_fragment_shader(Err("0:2: unterminated statement".to_string()));
    assert!(renderer.get_error().is_some());
    let cmds = renderer.recompile_fragment_shader(Ok(12));
    assert!(renderer.get_error().is_none());
    assert_eq!(
        cmds,
        vec![
            GpuCommand::DetachShader { program: 4, shader: 11 },
            GpuCommand::DeleteShader { shader: 11 },
            GpuCommand::AttachShader { program: 4, shader: 12 },
            GpuCommand::LinkProgram { program: 4 },
            GpuCommand::ValidateProgram { program: 4 },
        ]
    );
    // The paint plan afterwards still binds the (relinked) program object.
    let plan = renderer.paint(Rect { min_x: 0, min_y: 0, width: 320, height: 200 });
    assert!(plan.contains(&GpuCommand::UseProgram { program: 4 }));
}

#[test]
fn each_swap_detaches_and_releases_exactly_the_old_stage() {
    let mut renderer = fresh_renderer();
    renderer.recompile_fragment_shader(Err("first failure".to_string()));
    let first = renderer.recompile_fragment_shader(Ok(12));
    let second = renderer.recompile_fragment_shader(Ok(13));
    assert_eq!(first[0], GpuCommand::DetachShader { program: 4, shader: 11 });
    assert_eq!(first[1], GpuCommand::DeleteShader { shader: 11 });
    assert_eq!(first[2], GpuCommand::AttachShader { program: 4, shader: 12 });
    assert_eq!(second[0], GpuCommand::DetachShader { program: 4, shader: 12 });
    assert_eq!(second[1], GpuCommand::DeleteShader { shader: 12 });
    assert_eq!(second[2], GpuCommand::AttachShader { program: 4, shader: 13 });
}

#[test]
fn failed_compile_with_empty_log_still_yields_a_diagnostic() {
    let (outcome, cleanup) = compile_result(5, false, String::new());
    let message = outcome.err().unwrap();
    assert!(!message.is_empty());
    assert_eq!(message, "shader compilation failed");
    assert_eq!(cleanup, vec![GpuCommand::DeleteShader { shader: 5 }]);
}

#[test]
fn successful_compile_needs_no_cleanup() {
    let (outcome, cleanup) = compile_result(5, true, String::new());
    assert_eq!(outcome.unwrap(), 5);
    assert!(cleanup.is_empty());
}

#[test]
fn paint_sets_viewport_and_resolution_to_rect_size() {
    let renderer = fresh_renderer();
    let plan = renderer.paint(Rect { min_x: 0, min_y: 0, width: 800, height: 600 });
    assert_eq!(plan[0], GpuCommand::SetViewport { x: 0, y: 0, width: 800, height: 600 });
    assert_eq!(plan[1], GpuCommand::UseProgram { program: 4 });
    assert_eq!(plan[2], GpuCommand::SetResolutionUniform { width: 800, height: 600 });
    assert_eq!(plan[3], GpuCommand::BindVertexArray { vertex_array: 1 });
    assert_eq!(plan[4], GpuCommand::DrawTriangles { index_count: 6 });
    assert_eq!(plan[5], GpuCommand::UnbindVertexArray);
}

#[test]
fn paint_twice_issues_identical_draw_calls() {
    let renderer = fresh_renderer();
    let rect = Rect { min_x: 7, min_y: 9, width: 512, height: 256 };
    let first = renderer.paint(rect);
    let second = renderer.paint(rect);
    assert_eq!(first, second);
    assert!(renderer.get_error().is_none());
}

#[test]
fn destroy_releases_program_and_vertex_array() {
    let mut renderer = fresh_renderer();
    let cmds = renderer.destroy();
    assert_eq!(
        cmds,
        vec![
            GpuCommand::DeleteProgram { program: 4 },
            GpuCommand::DeleteVertexArray { vertex_array: 1 },
        ]
    );
}

#[test]
fn teardown_without_context_releases_nothing() {
    let mut renderer = fresh_renderer();
    let cmds = on_teardown(&mut renderer, false);
    assert!(cmds.is_empty());
    // The renderer is untouched and still paints.
    let plan = renderer.paint(Rect { min_x: 0, min_y: 0, width: 64, height: 64 });
    assert_eq!(plan.len(), 6);
    // Once the context is available the teardown happens, exactly once.
    let cmds = on_teardown(&mut renderer, true);
    assert_eq!(cmds.len(), 2);
}

#[test]
fn boilerplate_is_prepended_to_user_source() {
    let full = wrap_fragment_source("void main() {}");
    assert_eq!(
        full,
        "#version 300 es\nprecision mediump float;\nuniform vec2 u_resolution;\nvoid main() {}"
    );
    assert_eq!(fragment_boilerplate(), BOILERPLATE);
}

#[test]
fn wrapping_empty_source_yields_the_bare_boilerplate() {
    assert_eq!(wrap_fragment_source(""), BOILERPLATE);
}

#[test]
fn status_message_reports_success_without_error() {
    let (text, is_failure) = status_message(&None);
    assert_eq!(text, "Shader compilation was successful");
    assert!(!is_failure);
}

#[test]
fn status_message_reports_failure_with_diagnostic() {
    let (text, is_failure) = status_message(&Some("0:3: bad token".to_string()));
    assert_eq!(text, "Failed to compile shader\nerror: 0:3: bad token");
    assert!(is_failure);
}

#[test]
fn compile_status_follows_the_polled_error() {
    let status = CompileStatus::initial();
    assert!(matches!(status, CompileStatus::Unknown));
    let status = status.after_recompile(&None);
    assert!(matches!(status, CompileStatus::Success));
    let status = status.after_recompile(&Some("broken".to_string()));
    assert!(matches!(status, CompileStatus::Failed(m) if m == "broken"));
}

#[test]
fn quad_mesh_is_a_unit_quad_with_two_triangles() {
    assert_eq!(quad_vertex_half_units(), vec![1, 1, 0, 1, -1, 0, -1, -1, 0, -1, 1, 0]);
    assert_eq!(quad_indices(), vec![0, 1, 3, 1, 2, 3]);
}
