//! Session protocol of a process-global, non-reentrant native compiler
//! engine: who may talk to the engine, in which order the calls of one
//! compilation session may come, and what each of the engine's answers means.
//!
//! Nothing here calls the engine. A driver makes each native call and hands
//! the library what the engine returned; the library decides what that answer
//! means and what the session may do next:
//!
//! - a [`Guard`] is taken on the flag that stands for the engine, and proves
//!   that no other session is active;
//! - a [`Context`] is opened under the guard on the handle that the engine
//!   allocated, and follows the session through configuration and
//!   compilation;
//! - the session ends with [`Context::output_file`], or with
//!   [`Context::relocate`] and [`Relocation::finish`], which leave a
//!   [`RelocatedCtx`] to look symbols up in;
//! - whenever a handle is to be destroyed, it is handed back as a
//!   [`TCCState`].
//!
//! Addresses are plain integers here. What lies behind one is the driver's
//! business, and the caller's.

pub mod context;
pub mod cstr;
pub mod error;
pub mod guard;
pub mod handle;
pub mod output;
pub mod relocated;

pub use context::call_back;
pub use context::Context;
pub use context::Stage;
pub use cstr::is_nul_free;
pub use cstr::to_cstr;
pub use error::map_c_ret;
pub use error::Error;
pub use guard::Guard;
pub use handle::TCCState;
pub use output::OutputType;
pub use relocated::RelocatedCtx;
pub use relocated::Relocation;
