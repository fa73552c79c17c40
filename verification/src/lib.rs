//! Verified core of an interactive fragment-shader playground.
//!
//! The library owns the shader-program lifecycle logic: hot-swapping the
//! fragment stage of a linked GPU program without leaking shader objects,
//! error bookkeeping across recompiles, the fixed quad mesh layout, and the
//! per-frame draw plan. GPU objects are modelled as plain integer handles and
//! every operation returns the exact sequence of GPU commands the caller must
//! issue; the unverified front end executes those commands against a real
//! graphics context and feeds driver results (compile status, diagnostic
//! logs, freshly created handles) back in as plain values.

pub mod gpu;
pub mod program;
pub mod opengl_renderer;
pub mod shell;
