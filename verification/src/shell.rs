//! Application-shell logic: the fixed source preamble, the display status of
//! the most recent compile, and the teardown decision at exit.
//!
//! The GUI itself — panels, text widget, buttons, the per-frame callback
//! registration — is unverified plumbing around these functions: it owns the
//! editable text, calls [`wrap_fragment_source`] when the compile button is
//! clicked, polls the stored error to render the status panel via
//! [`status_message`], and calls [`on_teardown`] when the window goes away.

use vstd::prelude::*;
use vstd::string::StringExecFns;
use crate::gpu::GpuCommand;
use crate::opengl_renderer::{OpenGLRenderer, spec_destroy_commands};

verus! {

/// View of the fixed preamble prepended to every user fragment source.
pub open spec fn spec_fragment_boilerplate() -> Seq<char> {
    "#version 300 es\nprecision mediump float;\nuniform vec2 u_resolution;\n"@
}

/// The fixed preamble prepended to every user fragment source: the version
/// directive, the precision qualifier and the declaration of the
/// 2-component resolution uniform.
pub fn fragment_boilerplate() -> (s: String)
    ensures
        s@ == spec_fragment_boilerplate(),
{
    "#version 300 es\nprecision mediump float;\nuniform vec2 u_resolution;\n".to_owned()
}

/// The full fragment source handed to the driver: the fixed preamble
/// followed by the user's editable text. User text is never compiled bare.
pub fn wrap_fragment_source(user_source: &str) -> (full: String)
    ensures
        full@ == spec_fragment_boilerplate() + user_source@,
{
    let mut s = fragment_boilerplate();
    s.append(user_source);
    s
}

/// Display status of the most recent compile attempt: unknown before the
/// first attempt, then success or failure with the stored diagnostic.
#[derive(Debug, Clone)]
pub enum CompileStatus {
    Unknown,
    Success,
    Failed(String),
}

impl CompileStatus {
    /// The display status before the first compile attempt.
    pub fn initial() -> (r: CompileStatus)
        ensures
            r is Unknown,
    {
        CompileStatus::Unknown
    }

    /// The transition taken after a recompile, from the polled error state:
    /// no stored error means success, a stored error is displayed as
    /// failure. Whatever the prior status was, it does not matter.
    pub fn after_recompile(self, error: &Option<String>) -> (r: CompileStatus)
        ensures
            error is None ==> r is Success,
            error matches Some(m) ==> (r matches CompileStatus::Failed(d) && d@ == m@),
    {
        match error {
            None => CompileStatus::Success,
            Some(m) => CompileStatus::Failed(m.clone()),
        }
    }
}

/// View of the status panel's success line.
pub open spec fn spec_success_message() -> Seq<char> {
    "Shader compilation was successful"@
}

/// View of the prefix of the status panel's failure line; the raw driver
/// diagnostic follows it.
pub open spec fn spec_failure_prefix() -> Seq<char> {
    "Failed to compile shader\nerror: "@
}

/// The status panel line for the polled error state, and whether it reports
/// a failure: the success message when no error is stored, otherwise the
/// failure prefix followed by the raw diagnostic.
pub fn status_message(error: &Option<String>) -> (r: (String, bool))
    ensures
        error is None ==> r.0@ == spec_success_message() && !r.1,
        error matches Some(e) ==> r.0@ == spec_failure_prefix() + e@ && r.1,
{
    match error {
        None => ("Shader compilation was successful".to_owned(), false),
        Some(e) => {
            let mut s = "Failed to compile shader\nerror: ".to_owned();
            s.append(e.as_str());
            (s, true)
        },
    }
}

/// The teardown decision at exit: while the graphics context is still
/// available the renderer is destroyed — exactly once — and the returned
/// commands must be issued against it; when the context has already
/// disappeared there is nothing left to release and the renderer is left
/// untouched.
pub fn on_teardown(renderer: &mut OpenGLRenderer, gl_available: bool) -> (cmds: Vec<GpuCommand>)
    requires
        old(renderer)@.wf(),
        old(renderer)@.live,
    ensures
        gl_available ==> !final(renderer)@.live && cmds@ == spec_destroy_commands(
            old(renderer)@,
        ),
        !gl_available ==> final(renderer)@ == old(renderer)@ && cmds@ == Seq::<
            GpuCommand,
        >::empty(),
{
    if gl_available {
        renderer.destroy()
    } else {
        Vec::new()
    }
}

} // verus!
