//! The linked GPU program: a fixed vertex stage plus a hot-swappable
//! fragment stage, with error bookkeeping across recompiles.
//!
//! Compiling happens in the driver, so the front end performs the compile
//! call and hands the result back as plain values: the new shader handle on
//! success, the driver's info log on failure. The functions here decide what
//! the attempt means for the program — which stage is live, which diagnostic
//! is stored — and return the exact GPU commands that realise the decision.

use vstd::prelude::*;
use crate::gpu::{GpuCommand, GpuState, run_commands, step_command};

verus! {

/// A linked GPU program. `program`, `vert_shader` and `frag_shader` are the
/// driver handles of the program object and its two attached stages; `error`
/// is the diagnostic of the most recent failed fragment recompile, `None`
/// after a successful one.
pub struct Program {
    program: u32,
    vert_shader: u32,
    frag_shader: u32,
    error: Option<String>,
}

/// Mathematical view of a [`Program`].
#[verifier::ext_equal]
pub struct ProgramModel {
    pub program: u32,
    pub vert_shader: u32,
    pub frag_shader: u32,
    pub error: Option<Seq<char>>,
}

impl ProgramModel {
    /// Well-formedness: the two stage handles are distinct objects, and a
    /// stored diagnostic is never the empty string.
    pub open spec fn wf(self) -> bool {
        &&& self.vert_shader != self.frag_shader
        &&& (self.error matches Some(m) ==> m.len() > 0)
    }

    /// The stages the linked program keeps attached: the fixed vertex stage
    /// and exactly one fragment stage.
    pub open spec fn attached_stages(self) -> Set<u32> {
        set![self.vert_shader, self.frag_shader]
    }
}

impl View for Program {
    type V = ProgramModel;

    closed spec fn view(&self) -> ProgramModel {
        ProgramModel {
            program: self.program,
            vert_shader: self.vert_shader,
            frag_shader: self.frag_shader,
            error: match self.error {
                Some(m) => Some(m@),
                None => None,
            },
        }
    }
}

/// View of a driver compile outcome: the new shader handle, or the info log.
pub open spec fn spec_outcome(o: Result<u32, String>) -> Result<u32, Seq<char>> {
    match o {
        Ok(h) => Ok(h),
        Err(m) => Err(m@),
    }
}

/// The diagnostic stored for a failed compile whose info log was empty.
pub open spec fn spec_default_diagnostic() -> Seq<char> {
    "shader compilation failed"@
}

/// The diagnostic stored for a failed compile: the driver's info log, or a
/// fixed message when the driver returned none.
pub open spec fn spec_diagnostic(log: Seq<char>) -> Seq<char> {
    if log.len() > 0 {
        log
    } else {
        spec_default_diagnostic()
    }
}

/// Commands that build the initial linked program: attach both stages, link,
/// validate.
pub open spec fn spec_initial_commands(program: u32, vert_shader: u32, frag_shader: u32) -> Seq<
    GpuCommand,
> {
    seq![
        GpuCommand::AttachShader { program, shader: vert_shader },
        GpuCommand::AttachShader { program, shader: frag_shader },
        GpuCommand::LinkProgram { program },
        GpuCommand::ValidateProgram { program },
    ]
}

/// Commands that swap the fragment stage: detach and release the old stage,
/// attach the new one, relink and revalidate. The detached stage is released
/// immediately, so no shader object is leaked.
pub open spec fn spec_swap_commands(program: u32, old_frag: u32, new_frag: u32) -> Seq<
    GpuCommand,
> {
    seq![
        GpuCommand::DetachShader { program, shader: old_frag },
        GpuCommand::DeleteShader { shader: old_frag },
        GpuCommand::AttachShader { program, shader: new_frag },
        GpuCommand::LinkProgram { program },
        GpuCommand::ValidateProgram { program },
    ]
}

/// What one recompile attempt does to the program: on failure only the
/// stored diagnostic changes and no GPU command is issued; on success the
/// diagnostic is cleared, the new stage becomes live and the swap commands
/// are issued.
pub open spec fn spec_recompile(p: ProgramModel, outcome: Result<u32, Seq<char>>) -> (
    ProgramModel,
    Seq<GpuCommand>,
) {
    match outcome {
        Err(log) => (
            ProgramModel { error: Some(spec_diagnostic(log)), ..p },
            Seq::<GpuCommand>::empty(),
        ),
        Ok(new_frag) => (
            ProgramModel { frag_shader: new_frag, error: None, ..p },
            spec_swap_commands(p.program, p.frag_shader, new_frag),
        ),
    }
}

/// Never-empty diagnostic for a failed compile.
fn diagnostic_message(log: String) -> (r: String)
    ensures
        r@ == spec_diagnostic(log@),
        r@.len() > 0,
{
    if log.as_str().is_empty() {
        proof {
            reveal_strlit("shader compilation failed");
        }
        "shader compilation failed".to_owned()
    } else {
        log
    }
}

/// Decide the outcome of one driver compile attempt from the plain values
/// the driver reported: the handle of the shader object that was created,
/// whether compilation succeeded, and the info log. A failed attempt's
/// partially created shader object must be released at once, so the failure
/// case returns the command that deletes it together with the diagnostic.
pub fn compile_result(shader: u32, compile_status: bool, info_log: String) -> (r: (
    Result<u32, String>,
    Vec<GpuCommand>,
))
    ensures
        compile_status ==> r.0 == Ok::<u32, String>(shader) && r.1@ == Seq::<GpuCommand>::empty(),
        !compile_status ==> (r.0 matches Err(m) && m@ == spec_diagnostic(info_log@) && m@.len()
            > 0) && r.1@ == seq![GpuCommand::DeleteShader { shader }],
{
    if compile_status {
        (Ok(shader), Vec::new())
    } else {
        let mut cmds: Vec<GpuCommand> = Vec::new();
        cmds.push(GpuCommand::DeleteShader { shader });
        proof {
            assert(cmds@ =~= seq![GpuCommand::DeleteShader { shader }]);
        }
        (Err(diagnostic_message(info_log)), cmds)
    }
}

impl Program {
    /// Build the initial linked program from the two constructor-time compile
    /// outcomes. Both stages must compile: a failure of either is fatal to
    /// construction and is returned as the error, the vertex stage's first.
    /// The two handles are distinct whenever both compiles succeeded, since
    /// both shader objects exist at once. On success the returned commands
    /// attach both stages, link and validate.
    pub fn new(
        program: u32,
        vert_compile: Result<u32, String>,
        frag_compile: Result<u32, String>,
    ) -> (r: Result<(Program, Vec<GpuCommand>), String>)
        requires
            (vert_compile is Ok && frag_compile is Ok) ==> vert_compile->Ok_0
                != frag_compile->Ok_0,
        ensures
            r is Ok <==> (vert_compile is Ok && frag_compile is Ok),
            vert_compile is Err ==> (r matches Err(e) && e@ == vert_compile->Err_0@),
            (vert_compile is Ok && frag_compile is Err) ==> (r matches Err(e) && e@
                == frag_compile->Err_0@),
            (vert_compile is Ok && frag_compile is Ok) ==> (r matches Ok(pc) && {
                &&& pc.0@ == (ProgramModel {
                    program,
                    vert_shader: vert_compile->Ok_0,
                    frag_shader: frag_compile->Ok_0,
                    error: None,
                })
                &&& pc.0@.wf()
                &&& pc.1@ == spec_initial_commands(program, vert_compile->Ok_0, frag_compile->Ok_0)
            }),
    {
        let vert_shader = match vert_compile {
            Ok(v) => v,
            Err(m) => {
                return Err(m);
            },
        };
        let frag_shader = match frag_compile {
            Ok(f) => f,
            Err(m) => {
                return Err(m);
            },
        };
        let mut cmds: Vec<GpuCommand> = Vec::new();
        cmds.push(GpuCommand::AttachShader { program, shader: vert_shader });
        cmds.push(GpuCommand::AttachShader { program, shader: frag_shader });
        cmds.push(GpuCommand::LinkProgram { program });
        cmds.push(GpuCommand::ValidateProgram { program });
        let p = Program { program, vert_shader, frag_shader, error: None };
        proof {
            assert(cmds@ =~= spec_initial_commands(program, vert_shader, frag_shader));
            assert(p@ =~= (ProgramModel {
                program,
                vert_shader,
                frag_shader,
                error: None,
            }));
        }
        Ok((p, cmds))
    }

    /// The diagnostic of the most recent failed recompile, if the most
    /// recent recompile failed. Read-only.
    pub fn get_error(&self) -> (r: Option<&String>)
        ensures
            r matches Some(m) ==> self@.error == Some(m@),
            r is None ==> self@.error is None,
    {
        self.error.as_ref()
    }

    /// Replace the fragment stage from one driver compile outcome.
    ///
    /// On failure the diagnostic is stored and nothing else changes: the
    /// previously linked program keeps rendering and no command is issued
    /// (the failed shader object was already released by `compile_result`).
    /// On success any prior diagnostic is cleared, the old stage is detached
    /// and released, and the new stage is attached, linked and validated.
    /// A successful compile's handle is a freshly created object, distinct
    /// from both stages that still exist.
    ///
    /// The relink happens with the fixed vertex stage and an individually
    /// valid fragment stage; its driver status is deliberately not read
    /// back, so a failure there is a driver-level logic error outside this
    /// model, not a recoverable state.
    pub fn recompile_fragment_shader(&mut self, outcome: Result<u32, String>) -> (cmds: Vec<
        GpuCommand,
    >)
        requires
            old(self)@.wf(),
            outcome matches Ok(h) ==> h != old(self)@.vert_shader && h != old(
                self,
            )@.frag_shader,
        ensures
            final(self)@ == spec_recompile(old(self)@, spec_outcome(outcome)).0,
            cmds@ == spec_recompile(old(self)@, spec_outcome(outcome)).1,
            final(self)@.wf(),
    {
        match outcome {
            Err(log) => {
                self.error = Some(diagnostic_message(log));
                proof {
                    assert(self@ =~= spec_recompile(old(self)@, spec_outcome(outcome)).0);
                }
                Vec::new()
            },
            Ok(new_frag) => {
                self.error = None;
                let mut cmds: Vec<GpuCommand> = Vec::new();
                cmds.push(
                    GpuCommand::DetachShader { program: self.program, shader: self.frag_shader },
                );
                cmds.push(GpuCommand::DeleteShader { shader: self.frag_shader });
                cmds.push(GpuCommand::AttachShader { program: self.program, shader: new_frag });
                cmds.push(GpuCommand::LinkProgram { program: self.program });
                cmds.push(GpuCommand::ValidateProgram { program: self.program });
                self.frag_shader = new_frag;
                proof {
                    assert(cmds@ =~= spec_recompile(old(self)@, spec_outcome(outcome)).1);
                    assert(self@ =~= spec_recompile(old(self)@, spec_outcome(outcome)).0);
                }
                cmds
            },
        }
    }

    /// The handles of the two attached stages: the fixed vertex stage and
    /// the live fragment stage. The front end reads them to check a freshly
    /// compiled handle against the stages that still exist before it asks
    /// for a swap.
    pub fn stage_handles(&self) -> (r: (u32, u32))
        ensures
            r.0 == self@.vert_shader,
            r.1 == self@.frag_shader,
    {
        (self.vert_shader, self.frag_shader)
    }

    /// The handle of the linked program object.
    pub fn get_program(&self) -> (r: u32)
        ensures
            r == self@.program,
    {
        self.program
    }
}

/// Running a five-command list is five steps in order.
proof fn lemma_run_five(
    g: GpuState,
    c0: GpuCommand,
    c1: GpuCommand,
    c2: GpuCommand,
    c3: GpuCommand,
    c4: GpuCommand,
)
    ensures
        run_commands(g, seq![c0, c1, c2, c3, c4]) == step_command(
            step_command(step_command(step_command(step_command(g, c0), c1), c2), c3),
            c4,
        ),
{
    reveal_with_fuel(run_commands, 6);
    let s = seq![c0, c1, c2, c3, c4];
    assert(s.subrange(1, 5) =~= seq![c1, c2, c3, c4]);
    assert(seq![c1, c2, c3, c4].subrange(1, 4) =~= seq![c2, c3, c4]);
    assert(seq![c2, c3, c4].subrange(1, 3) =~= seq![c3, c4]);
    assert(seq![c3, c4].subrange(1, 2) =~= seq![c4]);
    assert(seq![c4].subrange(1, 1) =~= Seq::<GpuCommand>::empty());
}

/// A failed recompile stores a non-empty diagnostic and leaves the program
/// handle, both attached stages and the whole GPU object state untouched:
/// the previously working program keeps rendering.
pub proof fn lemma_recompile_failure_preserves_program(
    p: ProgramModel,
    log: Seq<char>,
    g: GpuState,
)
    requires
        p.wf(),
    ensures
        ({
            let (p2, cmds) = spec_recompile(p, Err(log));
            &&& p2.program == p.program
            &&& p2.vert_shader == p.vert_shader
            &&& p2.frag_shader == p.frag_shader
            &&& (p2.error matches Some(m) && m.len() > 0)
            &&& cmds.len() == 0
            &&& run_commands(g, cmds) == g
            &&& p2.wf()
        }),
{
    reveal_strlit("shader compilation failed");
}

/// A successful recompile clears any previously stored diagnostic, whatever
/// error state the program was in.
pub proof fn lemma_recompile_success_clears_error(p: ProgramModel, new_frag: u32)
    ensures
        spec_recompile(p, Ok(new_frag)).0.error is None,
{
}

/// The fragment-stage swap releases exactly the stage it detached — the
/// momentarily orphaned old fragment stage does not leak — and leaves the
/// program attached to the fixed vertex stage plus the new fragment stage.
/// Program and vertex-array objects are untouched.
pub proof fn lemma_swap_commands_effect(p: ProgramModel, new_frag: u32, g: GpuState)
    requires
        p.wf(),
        new_frag != p.vert_shader,
        new_frag != p.frag_shader,
        g.attached =~= p.attached_stages(),
    ensures
        ({
            let g2 = run_commands(g, spec_swap_commands(p.program, p.frag_shader, new_frag));
            &&& g2.attached =~= set![p.vert_shader, new_frag]
            &&& g2.shaders =~= g.shaders.remove(p.frag_shader)
            &&& g2.programs == g.programs
            &&& g2.vertex_arrays == g.vertex_arrays
        }),
{
    let cmds = spec_swap_commands(p.program, p.frag_shader, new_frag);
    lemma_run_five(g, cmds[0], cmds[1], cmds[2], cmds[3], cmds[4]);
}

/// Building the initial program attaches exactly the two stages: run on a
/// program object with nothing attached, the construction commands leave
/// the fixed vertex stage plus one fragment stage attached, and neither
/// release a shader object nor touch any other object.
pub proof fn lemma_initial_commands_attach_stages(p: ProgramModel, g: GpuState)
    requires
        p.wf(),
        g.attached =~= Set::<u32>::empty(),
    ensures
        ({
            let g2 = run_commands(
                g,
                spec_initial_commands(p.program, p.vert_shader, p.frag_shader),
            );
            &&& g2.attached =~= p.attached_stages()
            &&& g2.shaders == g.shaders
            &&& g2.programs == g.programs
            &&& g2.vertex_arrays == g.vertex_arrays
        }),
{
    reveal_with_fuel(run_commands, 5);
    let cmds = spec_initial_commands(p.program, p.vert_shader, p.frag_shader);
    assert(cmds.subrange(1, 4) =~= seq![cmds[1], cmds[2], cmds[3]]);
    assert(seq![cmds[1], cmds[2], cmds[3]].subrange(1, 3) =~= seq![cmds[2], cmds[3]]);
    assert(seq![cmds[2], cmds[3]].subrange(1, 2) =~= seq![cmds[3]]);
    assert(seq![cmds[3]].subrange(1, 1) =~= Seq::<GpuCommand>::empty());
}

/// Freshness of a sequence of compile outcomes: each successful compile
/// yields a handle distinct from the two stages attached at that point, as
/// the driver guarantees for objects that exist simultaneously.
pub open spec fn spec_outcomes_fresh(p: ProgramModel, outs: Seq<Result<u32, Seq<char>>>) -> bool
    decreases outs.len(),
{
    outs.len() == 0 || ({
        let head_ok = match outs[0] {
            Ok(h) => h != p.vert_shader && h != p.frag_shader,
            Err(_) => true,
        };
        head_ok && spec_outcomes_fresh(
            spec_recompile(p, outs[0]).0,
            outs.subrange(1, outs.len() as int),
        )
    })
}

/// The program state and accumulated commands after a whole sequence of
/// recompile attempts, first attempt first.
pub open spec fn spec_apply_recompiles(p: ProgramModel, outs: Seq<Result<u32, Seq<char>>>) -> (
    ProgramModel,
    Seq<GpuCommand>,
)
    decreases outs.len(),
{
    if outs.len() == 0 {
        (p, Seq::<GpuCommand>::empty())
    } else {
        let first = spec_recompile(p, outs[0]);
        let rest = spec_apply_recompiles(first.0, outs.subrange(1, outs.len() as int));
        (rest.0, first.1 + rest.1)
    }
}

/// A compile attempt's effect on the set of existing shader objects: a
/// successful compile is the driver creating one fresh object; a failed
/// compile creates and at once releases one, a net no-op (see
/// [`compile_result`]).
pub open spec fn spec_record_compile(g: GpuState, outcome: Result<u32, Seq<char>>) -> GpuState {
    match outcome {
        Ok(h) => GpuState { shaders: g.shaders.insert(h), ..g },
        Err(_) => g,
    }
}

/// The GPU state after a whole sequence of recompile attempts, each one
/// first creating its shader object and then running the commands the
/// attempt decided on.
pub open spec fn spec_run_recompiles(
    g: GpuState,
    p: ProgramModel,
    outs: Seq<Result<u32, Seq<char>>>,
) -> GpuState
    decreases outs.len(),
{
    if outs.len() == 0 {
        g
    } else {
        let g2 = run_commands(spec_record_compile(g, outs[0]), spec_recompile(p, outs[0]).1);
        spec_run_recompiles(g2, spec_recompile(p, outs[0]).0, outs.subrange(1, outs.len() as int))
    }
}

/// No shader object leaks across any sequence of recompile attempts: when
/// the program's stages are the only shader objects alive, then afterwards
/// the objects alive are exactly the fixed vertex stage and the final live
/// fragment stage — every replaced or failed stage has been released.
pub proof fn lemma_no_shader_leak(p: ProgramModel, outs: Seq<Result<u32, Seq<char>>>, g: GpuState)
    requires
        p.wf(),
        spec_outcomes_fresh(p, outs),
        g.attached =~= p.attached_stages(),
        g.shaders =~= set![p.vert_shader, p.frag_shader],
    ensures
        ({
            let p2 = spec_apply_recompiles(p, outs).0;
            let g2 = spec_run_recompiles(g, p, outs);
            &&& g2.shaders =~= set![p2.vert_shader, p2.frag_shader]
            &&& g2.attached =~= p2.attached_stages()
        }),
    decreases outs.len(),
{
    reveal_strlit("shader compilation failed");
    if outs.len() == 0 {
    } else {
        let tail = outs.subrange(1, outs.len() as int);
        let p1 = spec_recompile(p, outs[0]).0;
        let g1 = run_commands(spec_record_compile(g, outs[0]), spec_recompile(p, outs[0]).1);
        match outs[0] {
            Err(log) => {
                lemma_recompile_failure_preserves_program(p, log, g);
                lemma_no_shader_leak(p1, tail, g1);
            },
            Ok(new_frag) => {
                let created = spec_record_compile(g, outs[0]);
                lemma_swap_commands_effect(p, new_frag, created);
                assert(g1.shaders =~= set![p.vert_shader, new_frag]);
                lemma_no_shader_leak(p1, tail, g1);
            },
        }
    }
}

/// After any sequence of recompile attempts — failures and successes in any
/// order — the linked program has exactly the fixed vertex stage and one
/// fragment stage attached: the one the model records as live. No recompile
/// leaves the program half-attached or doubly attached.
pub proof fn lemma_single_fragment_attached(
    p: ProgramModel,
    outs: Seq<Result<u32, Seq<char>>>,
    g: GpuState,
)
    requires
        p.wf(),
        spec_outcomes_fresh(p, outs),
        g.attached =~= p.attached_stages(),
    ensures
        ({
            let (p2, cmds) = spec_apply_recompiles(p, outs);
            &&& p2.wf()
            &&& p2.vert_shader == p.vert_shader
            &&& run_commands(g, cmds).attached =~= p2.attached_stages()
        }),
    decreases outs.len(),
{
    reveal_strlit("shader compilation failed");
    if outs.len() == 0 {
    } else {
        let first = spec_recompile(p, outs[0]);
        let tail = outs.subrange(1, outs.len() as int);
        let rest = spec_apply_recompiles(first.0, tail);
        crate::gpu::lemma_run_commands_append(g, first.1, rest.1);
        match outs[0] {
            Err(log) => {
                lemma_recompile_failure_preserves_program(p, log, g);
                lemma_single_fragment_attached(first.0, tail, g);
            },
            Ok(new_frag) => {
                lemma_swap_commands_effect(p, new_frag, g);
                let g2 = run_commands(g, first.1);
                lemma_single_fragment_attached(first.0, tail, g2);
            },
        }
    }
}

} // verus!
