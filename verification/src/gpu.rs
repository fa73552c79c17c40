//! GPU commands and an abstract model of the GPU object state.
//!
//! The library never touches a graphics context. Instead each operation
//! returns a list of [`GpuCommand`] values that the unverified front end
//! executes in order. [`GpuState`] is the ghost model of the driver-side
//! objects those commands act on: which shader stages are attached to the
//! linked program and which GPU objects still exist. The lifecycle proofs
//! (single attached fragment stage, no leaked shader objects) are stated as
//! facts about running a command list over this model.

use vstd::prelude::*;

verus! {

/// A target rectangle in whole device units: origin plus size.
#[derive(Clone, Copy, Debug, PartialEq, Eq, Structural)]
pub struct Rect {
    pub min_x: i32,
    pub min_y: i32,
    pub width: u32,
    pub height: u32,
}

/// One GPU call the front end must issue. Handles are the plain integer ids
/// the driver returned when the front end created the objects.
#[derive(Clone, Copy, Debug, PartialEq, Eq, Structural)]
pub enum GpuCommand {
    /// Attach `shader` to the linked program `program`.
    AttachShader { program: u32, shader: u32 },
    /// Detach `shader` from the linked program `program`.
    DetachShader { program: u32, shader: u32 },
    /// Release the shader object `shader`.
    DeleteShader { shader: u32 },
    /// Link the program from its currently attached stages.
    LinkProgram { program: u32 },
    /// Validate the linked program.
    ValidateProgram { program: u32 },
    /// Bind the program for drawing.
    UseProgram { program: u32 },
    /// Set the viewport to the given origin and size.
    SetViewport { x: i32, y: i32, width: u32, height: u32 },
    /// Set the fragment stage's 2-component resolution uniform, if the linked
    /// program declares one; a program without it skips this command silently.
    SetResolutionUniform { width: u32, height: u32 },
    /// Bind the vertex-array object holding the quad mesh layout.
    BindVertexArray { vertex_array: u32 },
    /// Unbind the current vertex-array object.
    UnbindVertexArray,
    /// Fill `buffer` with the quad's vertex data (see `quad_vertex_half_units`).
    UploadQuadVertices { buffer: u32 },
    /// Fill `buffer` with the quad's index data (see `quad_indices`).
    UploadQuadIndices { buffer: u32 },
    /// Enable vertex attribute `location` and describe it: `components`
    /// floating components per vertex, tightly packed rows of `stride_bytes`.
    ConfigurePositionAttribute { location: u32, components: u32, stride_bytes: u32 },
    /// Draw `index_count` indices as triangles from the bound vertex array.
    DrawTriangles { index_count: u32 },
    /// Release the linked program object.
    DeleteProgram { program: u32 },
    /// Release the vertex-array object.
    DeleteVertexArray { vertex_array: u32 },
}

/// Ghost model of the driver-side objects the commands act on.
pub struct GpuState {
    /// Shader stages currently attached to the linked program.
    pub attached: Set<u32>,
    /// Shader objects that exist (created and not yet deleted).
    pub shaders: Set<u32>,
    /// Program objects that exist.
    pub programs: Set<u32>,
    /// Vertex-array objects that exist.
    pub vertex_arrays: Set<u32>,
}

/// Effect of a single command on the modelled GPU state. Commands that only
/// affect per-frame draw state (viewport, uniforms, binds, draws) leave the
/// object model unchanged.
pub open spec fn step_command(g: GpuState, c: GpuCommand) -> GpuState {
    match c {
        GpuCommand::AttachShader { program: _, shader } => GpuState {
            attached: g.attached.insert(shader),
            ..g
        },
        GpuCommand::DetachShader { program: _, shader } => GpuState {
            attached: g.attached.remove(shader),
            ..g
        },
        GpuCommand::DeleteShader { shader } => GpuState { shaders: g.shaders.remove(shader), ..g },
        GpuCommand::DeleteProgram { program } => GpuState {
            programs: g.programs.remove(program),
            ..g
        },
        GpuCommand::DeleteVertexArray { vertex_array } => GpuState {
            vertex_arrays: g.vertex_arrays.remove(vertex_array),
            ..g
        },
        _ => g,
    }
}

/// Effect of running a whole command list, first command first.
pub open spec fn run_commands(g: GpuState, cmds: Seq<GpuCommand>) -> GpuState
    decreases cmds.len(),
{
    if cmds.len() == 0 {
        g
    } else {
        run_commands(step_command(g, cmds[0]), cmds.subrange(1, cmds.len() as int))
    }
}

/// Running a concatenation runs the two halves in order.
pub proof fn lemma_run_commands_append(g: GpuState, a: Seq<GpuCommand>, b: Seq<GpuCommand>)
    ensures
        run_commands(g, a + b) == run_commands(run_commands(g, a), b),
    decreases a.len(),
{
    if a.len() == 0 {
        assert(a + b =~= b);
    } else {
        assert((a + b)[0] == a[0]);
        assert((a + b).subrange(1, (a + b).len() as int) =~= a.subrange(1, a.len() as int) + b);
        lemma_run_commands_append(step_command(g, a[0]), a.subrange(1, a.len() as int), b);
    }
}

} // verus!
