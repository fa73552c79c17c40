//! The renderer: the quad mesh, the linked program, the per-frame draw plan
//! and explicit teardown.
//!
//! The front end creates the GPU objects (vertex array, the two buffers, the
//! program object, the compiled stages) and passes their handles in as plain
//! values; the renderer decides what to do with them and returns the exact
//! command lists to issue. `paint` reads the renderer without changing it, so
//! a frame can be drawn any number of times between edits. `destroy` must be
//! called exactly once, when the owning graphics context is about to
//! disappear; painting after that is ruled out by contract.

use vstd::prelude::*;
use crate::gpu::{GpuCommand, GpuState, Rect, run_commands, step_command};
use crate::program::{Program, ProgramModel, spec_initial_commands, spec_outcome, spec_recompile};

verus! {

/// The renderer: the linked program, the vertex-array object holding the
/// quad mesh layout, and whether the renderer is still live (not yet
/// destroyed).
pub struct OpenGLRenderer {
    program: Program,
    vertex_array: u32,
    live: bool,
}

/// Mathematical view of an [`OpenGLRenderer`].
#[verifier::ext_equal]
pub struct RendererModel {
    pub program: ProgramModel,
    pub vertex_array: u32,
    pub live: bool,
}

impl RendererModel {
    /// Well-formedness of the owned program.
    pub open spec fn wf(self) -> bool {
        self.program.wf()
    }
}

impl View for OpenGLRenderer {
    type V = RendererModel;

    closed spec fn view(&self) -> RendererModel {
        RendererModel { program: self.program@, vertex_array: self.vertex_array, live: self.live }
    }
}

/// The quad's vertex positions in half units: each entry denotes half its
/// value in clip space, so the rows are the four corners (±0.5, ±0.5, 0) of
/// a unit quad centred at the origin, three components per vertex, tightly
/// packed, in the order upper-right, lower-right, lower-left, upper-left.
pub open spec fn spec_quad_vertex_half_units() -> Seq<i32> {
    seq![1i32, 1i32, 0i32, 1i32, -1i32, 0i32, -1i32, -1i32, 0i32, -1i32, 1i32, 0i32]
}

/// The quad's indices: two triangles covering the quad.
pub open spec fn spec_quad_indices() -> Seq<u32> {
    seq![0, 1, 3, 1, 2, 3]
}

/// The quad's vertex positions in half units (see
/// [`spec_quad_vertex_half_units`]); the front end divides by two when it
/// fills the vertex buffer.
pub fn quad_vertex_half_units() -> (v: Vec<i32>)
    ensures
        v@ == spec_quad_vertex_half_units(),
{
    let mut v: Vec<i32> = Vec::new();
    v.push(1);
    v.push(1);
    v.push(0);
    v.push(1);
    v.push(-1);
    v.push(0);
    v.push(-1);
    v.push(-1);
    v.push(0);
    v.push(-1);
    v.push(1);
    v.push(0);
    proof {
        assert(v@ =~= spec_quad_vertex_half_units());
    }
    v
}

/// The quad's index list.
pub fn quad_indices() -> (v: Vec<u32>)
    ensures
        v@ == spec_quad_indices(),
{
    let mut v: Vec<u32> = Vec::new();
    v.push(0);
    v.push(1);
    v.push(3);
    v.push(1);
    v.push(2);
    v.push(3);
    proof {
        assert(v@ =~= spec_quad_indices());
    }
    v
}

/// Every index addresses one of the quad's four vertices.
pub proof fn lemma_quad_indices_in_range()
    ensures
        forall|i: int| 0 <= i < spec_quad_indices().len() ==> spec_quad_indices()[i] < 4,
{
}

/// Commands that build the quad mesh once: bind the vertex-array object,
/// upload the vertex and index buffers, and describe the single position
/// attribute — location 0, 3 floating components per vertex, tightly packed
/// rows of 12 bytes.
pub open spec fn spec_mesh_setup_commands(
    vertex_array: u32,
    vertex_buffer: u32,
    index_buffer: u32,
) -> Seq<GpuCommand> {
    seq![
        GpuCommand::BindVertexArray { vertex_array },
        GpuCommand::UploadQuadVertices { buffer: vertex_buffer },
        GpuCommand::ConfigurePositionAttribute { location: 0, components: 3, stride_bytes: 12 },
        GpuCommand::UploadQuadIndices { buffer: index_buffer },
        GpuCommand::UnbindVertexArray,
    ]
}

/// Commands that draw one frame into `rect`: set the viewport to the
/// rectangle's origin and size, bind the program, set the resolution
/// uniform to the rectangle's width and height, and draw the quad's six
/// indices from the bound vertex array.
pub open spec fn spec_paint_commands(r: RendererModel, rect: Rect) -> Seq<GpuCommand> {
    seq![
        GpuCommand::SetViewport {
            x: rect.min_x,
            y: rect.min_y,
            width: rect.width,
            height: rect.height,
        },
        GpuCommand::UseProgram { program: r.program.program },
        GpuCommand::SetResolutionUniform { width: rect.width, height: rect.height },
        GpuCommand::BindVertexArray { vertex_array: r.vertex_array },
        GpuCommand::DrawTriangles { index_count: 6 },
        GpuCommand::UnbindVertexArray,
    ]
}

/// Commands that release the renderer's GPU objects: the linked program and
/// the vertex-array object.
pub open spec fn spec_destroy_commands(r: RendererModel) -> Seq<GpuCommand> {
    seq![
        GpuCommand::DeleteProgram { program: r.program.program },
        GpuCommand::DeleteVertexArray { vertex_array: r.vertex_array },
    ]
}

impl OpenGLRenderer {
    /// Build the renderer from the handles of the freshly created GPU
    /// objects and the two constructor-time compile outcomes. The returned
    /// commands set up the quad mesh once, then attach, link and validate
    /// the initial program. A compile failure of either stage is fatal to
    /// construction and returned as the error.
    pub fn new(
        vertex_array: u32,
        vertex_buffer: u32,
        index_buffer: u32,
        program: u32,
        vert_compile: Result<u32, String>,
        frag_compile: Result<u32, String>,
    ) -> (r: Result<(OpenGLRenderer, Vec<GpuCommand>), String>)
        requires
            (vert_compile is Ok && frag_compile is Ok) ==> vert_compile->Ok_0
                != frag_compile->Ok_0,
        ensures
            r is Ok <==> (vert_compile is Ok && frag_compile is Ok),
            vert_compile is Err ==> (r matches Err(e) && e@ == vert_compile->Err_0@),
            (vert_compile is Ok && frag_compile is Err) ==> (r matches Err(e) && e@
                == frag_compile->Err_0@),
            (vert_compile is Ok && frag_compile is Ok) ==> (r matches Ok(rc) && {
                &&& rc.0@ == (RendererModel {
                    program: ProgramModel {
                        program,
                        vert_shader: vert_compile->Ok_0,
                        frag_shader: frag_compile->Ok_0,
                        error: None,
                    },
                    vertex_array,
                    live: true,
                })
                &&& rc.0@.wf()
                &&& rc.1@ == spec_mesh_setup_commands(vertex_array, vertex_buffer, index_buffer)
                    + spec_initial_commands(program, vert_compile->Ok_0, frag_compile->Ok_0)
            }),
    {
        let (p, link_cmds) = match Program::new(program, vert_compile, frag_compile) {
            Ok(pc) => pc,
            Err(e) => {
                return Err(e);
            },
        };
        let mut cmds: Vec<GpuCommand> = Vec::new();
        cmds.push(GpuCommand::BindVertexArray { vertex_array });
        cmds.push(GpuCommand::UploadQuadVertices { buffer: vertex_buffer });
        cmds.push(
            GpuCommand::ConfigurePositionAttribute { location: 0, components: 3, stride_bytes: 12 },
        );
        cmds.push(GpuCommand::UploadQuadIndices { buffer: index_buffer });
        cmds.push(GpuCommand::UnbindVertexArray);
        let mut i: usize = 0;
        while i < link_cmds.len()
            invariant
                0 <= i <= link_cmds.len(),
                cmds@ == spec_mesh_setup_commands(vertex_array, vertex_buffer, index_buffer)
                    + link_cmds@.subrange(0, i as int),
            decreases link_cmds.len() - i,
        {
            cmds.push(link_cmds[i]);
            i = i + 1;
            proof {
                assert(cmds@ =~= spec_mesh_setup_commands(
                    vertex_array,
                    vertex_buffer,
                    index_buffer,
                ) + link_cmds@.subrange(0, i as int));
            }
        }
        proof {
            assert(link_cmds@.subrange(0, link_cmds@.len() as int) =~= link_cmds@);
        }
        let r = OpenGLRenderer { program: p, vertex_array, live: true };
        Ok((r, cmds))
    }

    /// Replace the fragment stage from one driver compile outcome; a pure
    /// forwarding call to the owned program (see
    /// [`Program::recompile_fragment_shader`]). The vertex-array object and
    /// liveness are untouched.
    pub fn recompile_fragment_shader(&mut self, outcome: Result<u32, String>) -> (cmds: Vec<
        GpuCommand,
    >)
        requires
            old(self)@.wf(),
            old(self)@.live,
            outcome matches Ok(h) ==> h != old(self)@.program.vert_shader && h != old(
                self,
            )@.program.frag_shader,
        ensures
            final(self)@.program == spec_recompile(old(self)@.program, spec_outcome(outcome)).0,
            cmds@ == spec_recompile(old(self)@.program, spec_outcome(outcome)).1,
            final(self)@.vertex_array == old(self)@.vertex_array,
            final(self)@.live,
            final(self)@.wf(),
    {
        self.program.recompile_fragment_shader(outcome)
    }

    /// The handles of the two attached stages; forwards to the owned
    /// program (see [`Program::stage_handles`]).
    pub fn stage_handles(&self) -> (r: (u32, u32))
        ensures
            r.0 == self@.program.vert_shader,
            r.1 == self@.program.frag_shader,
    {
        self.program.stage_handles()
    }

    /// The diagnostic of the most recent failed recompile, if the most
    /// recent recompile failed; forwards to the owned program. Read-only.
    pub fn get_error(&self) -> (r: Option<&String>)
        ensures
            r matches Some(m) ==> self@.program.error == Some(m@),
            r is None ==> self@.program.error is None,
    {
        self.program.get_error()
    }

    /// The draw plan for one frame into `rect`. Reads the renderer without
    /// changing it: the commands are a function of the renderer's state and
    /// the rectangle alone, and none of them creates or releases a GPU
    /// object.
    pub fn paint(&self, rect: Rect) -> (cmds: Vec<GpuCommand>)
        requires
            self@.wf(),
            self@.live,
        ensures
            cmds@ == spec_paint_commands(self@, rect),
    {
        let mut cmds: Vec<GpuCommand> = Vec::new();
        cmds.push(
            GpuCommand::SetViewport {
                x: rect.min_x,
                y: rect.min_y,
                width: rect.width,
                height: rect.height,
            },
        );
        cmds.push(GpuCommand::UseProgram { program: self.program.get_program() });
        cmds.push(GpuCommand::SetResolutionUniform { width: rect.width, height: rect.height });
        cmds.push(GpuCommand::BindVertexArray { vertex_array: self.vertex_array });
        cmds.push(GpuCommand::DrawTriangles { index_count: 6 });
        cmds.push(GpuCommand::UnbindVertexArray);
        proof {
            assert(cmds@ =~= spec_paint_commands(self@, rect));
        }
        cmds
    }

    /// Release the renderer's GPU objects. Must be called exactly once, when
    /// the owning graphics context is about to disappear: it requires a live
    /// renderer and leaves a dead one, on which neither `paint` nor a second
    /// `destroy` is permitted.
    pub fn destroy(&mut self) -> (cmds: Vec<GpuCommand>)
        requires
            old(self)@.wf(),
            old(self)@.live,
        ensures
            !final(self)@.live,
            final(self)@.program == old(self)@.program,
            final(self)@.vertex_array == old(self)@.vertex_array,
            cmds@ == spec_destroy_commands(old(self)@),
    {
        self.live = false;
        let mut cmds: Vec<GpuCommand> = Vec::new();
        cmds.push(GpuCommand::DeleteProgram { program: self.program.get_program() });
        cmds.push(GpuCommand::DeleteVertexArray { vertex_array: self.vertex_array });
        proof {
            assert(cmds@ =~= spec_destroy_commands(old(self)@));
        }
        cmds
    }
}

/// Running a six-command list is six steps in order.
proof fn lemma_run_six(
    g: GpuState,
    c0: GpuCommand,
    c1: GpuCommand,
    c2: GpuCommand,
    c3: GpuCommand,
    c4: GpuCommand,
    c5: GpuCommand,
)
    ensures
        run_commands(g, seq![c0, c1, c2, c3, c4, c5]) == step_command(
            step_command(
                step_command(step_command(step_command(step_command(g, c0), c1), c2), c3),
                c4,
            ),
            c5,
        ),
{
    reveal_with_fuel(run_commands, 7);
    let s = seq![c0, c1, c2, c3, c4, c5];
    assert(s.subrange(1, 6) =~= seq![c1, c2, c3, c4, c5]);
    assert(seq![c1, c2, c3, c4, c5].subrange(1, 5) =~= seq![c2, c3, c4, c5]);
    assert(seq![c2, c3, c4, c5].subrange(1, 4) =~= seq![c3, c4, c5]);
    assert(seq![c3, c4, c5].subrange(1, 3) =~= seq![c4, c5]);
    assert(seq![c4, c5].subrange(1, 2) =~= seq![c5]);
    assert(seq![c5].subrange(1, 1) =~= Seq::<GpuCommand>::empty());
}

/// The draw plan is a function of the renderer's state and the rectangle
/// alone: two paints from the same state into the same rectangle issue
/// identical GPU calls — same viewport, same uniform values, same draw.
pub proof fn lemma_paint_deterministic(r1: RendererModel, r2: RendererModel, a: Rect, b: Rect)
    requires
        r1 == r2,
        a == b,
    ensures
        spec_paint_commands(r1, a) == spec_paint_commands(r2, b),
{
}

/// Painting has no effect on the GPU object model: it neither attaches nor
/// detaches a stage and neither creates nor releases any object, whatever
/// state the GPU is in.
pub proof fn lemma_paint_preserves_gpu_objects(r: RendererModel, rect: Rect, g: GpuState)
    ensures
        run_commands(g, spec_paint_commands(r, rect)) == g,
{
    let cmds = spec_paint_commands(r, rect);
    lemma_run_six(g, cmds[0], cmds[1], cmds[2], cmds[3], cmds[4], cmds[5]);
}

/// Setting up the quad mesh touches no modelled GPU object: the buffers are
/// filled and the layout described, but nothing is attached, created or
/// released in the object model.
pub proof fn lemma_mesh_setup_preserves_gpu_objects(
    vertex_array: u32,
    vertex_buffer: u32,
    index_buffer: u32,
    g: GpuState,
)
    ensures
        run_commands(g, spec_mesh_setup_commands(vertex_array, vertex_buffer, index_buffer))
            == g,
{
    reveal_with_fuel(run_commands, 6);
    let cmds = spec_mesh_setup_commands(vertex_array, vertex_buffer, index_buffer);
    assert(cmds.subrange(1, 5) =~= seq![cmds[1], cmds[2], cmds[3], cmds[4]]);
    assert(seq![cmds[1], cmds[2], cmds[3], cmds[4]].subrange(1, 4) =~= seq![
        cmds[2],
        cmds[3],
        cmds[4],
    ]);
    assert(seq![cmds[2], cmds[3], cmds[4]].subrange(1, 3) =~= seq![cmds[3], cmds[4]]);
    assert(seq![cmds[3], cmds[4]].subrange(1, 2) =~= seq![cmds[4]]);
    assert(seq![cmds[4]].subrange(1, 1) =~= Seq::<GpuCommand>::empty());
}

/// A failed recompile does not change what a subsequent paint issues: the
/// draw plan binds the same program into the same viewport as before the
/// failure, so the previously working output keeps rendering.
pub proof fn lemma_failed_recompile_keeps_paint_plan(r: RendererModel, log: Seq<char>, rect: Rect)
    requires
        r.wf(),
    ensures
        ({
            let after = RendererModel { program: spec_recompile(r.program, Err(log)).0, ..r };
            spec_paint_commands(after, rect) == spec_paint_commands(r, rect)
        }),
{
}

/// Teardown releases exactly the renderer's own two objects: the linked
/// program and the vertex-array object. Shader stages and attachments are
/// untouched (the driver releases stages of a deleted program itself once
/// they are detached or deleted).
pub proof fn lemma_destroy_releases_objects(r: RendererModel, g: GpuState)
    ensures
        ({
            let g2 = run_commands(g, spec_destroy_commands(r));
            &&& g2.programs =~= g.programs.remove(r.program.program)
            &&& g2.vertex_arrays =~= g.vertex_arrays.remove(r.vertex_array)
            &&& g2.attached == g.attached
            &&& g2.shaders == g.shaders
        }),
{
    reveal_with_fuel(run_commands, 3);
    let cmds = spec_destroy_commands(r);
    assert(cmds.subrange(1, 2) =~= seq![cmds[1]]);
    assert(seq![cmds[1]].subrange(1, 1) =~= Seq::<GpuCommand>::empty());
}

} // verus!
