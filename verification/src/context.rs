//! One compilation session, from the allocation of its handle to the step
//! that ends it.
//!
//! A session is created, configured, fed with source units, and then
//! ended in one of two ways: the artifact is written to a file, or it is
//! relocated into memory. Configuring and compiling may alternate. Each
//! method is called with what the engine returned for the native call of the
//! same name, and says what that answer means. The two ending steps take the
//! context by value, so that neither can follow the other.

use crate::error::map_status;
use crate::error::status;
use crate::error::Error;
use crate::guard::Guard;
use crate::handle::TCCState;
use crate::output::OutputType;
use vstd::prelude::*;

verus! {

/// How far a session has come.
#[derive(Debug, Clone, Copy, PartialEq, Eq, Structural)]
pub enum Stage {
    /// The handle is allocated and nothing was asked of it.
    Created,
    /// Something was configured, and no unit was handed over yet.
    Configured,
    /// A compilation call was made. The output kind is fixed from here on.
    Compiled,
}

/// What a session is, as far as its rules go.
pub struct ContextView {
    /// The address of the engine's handle.
    pub handle: usize,
    /// The kind of artifact that the session produces.
    pub output: OutputType,
    /// How far the session has come.
    pub stage: Stage,
}

impl ContextView {
    /// A session right after the allocation of `handle`.
    pub open spec fn created(handle: usize) -> ContextView {
        ContextView {
            handle,
            output: OutputType::Memory,
            stage: Stage::Created,
        }
    }

    /// Whether a compilation call was made.
    pub open spec fn compilation_begun(self) -> bool {
        self.stage == Stage::Compiled
    }

    /// The session after a configuration call.
    pub open spec fn configured(self) -> ContextView {
        ContextView {
            stage: if self.stage == Stage::Created {
                Stage::Configured
            } else {
                self.stage
            },
            ..self
        }
    }

    /// The session after the output kind was set to `output`.
    pub open spec fn with_output(self, output: OutputType) -> ContextView {
        ContextView { output, ..self.configured() }
    }

    /// The session after a compilation call, whatever its outcome.
    pub open spec fn compiled(self) -> ContextView {
        ContextView { stage: Stage::Compiled, ..self }
    }
}

/// What a session can be asked to do before it ends, as far as its rules
/// tell the calls apart.
pub enum ContextOp {
    /// Any configuration call but the setting of the output kind.
    Configure,
    /// The setting of the output kind.
    SetOutput(OutputType),
    /// A compilation call, of a source text or of a file.
    Compile,
}

impl ContextView {
    /// How far `stage` is from the start.
    pub open spec fn rank(stage: Stage) -> nat {
        match stage {
            Stage::Created => 0,
            Stage::Configured => 1,
            Stage::Compiled => 2,
        }
    }

    /// Whether the session may be asked for `op`: everything but a change of
    /// the output kind once compilation has begun.
    pub open spec fn admits(self, op: ContextOp) -> bool {
        op is SetOutput ==> !self.compilation_begun()
    }

    /// The session after `op`.
    pub open spec fn step(self, op: ContextOp) -> ContextView {
        match op {
            ContextOp::Configure => self.configured(),
            ContextOp::SetOutput(output) => self.with_output(output),
            ContextOp::Compile => self.compiled(),
        }
    }

    /// The session after `ops`, first to last.
    pub open spec fn run(self, ops: Seq<ContextOp>) -> ContextView
        decreases ops.len(),
    {
        if ops.len() == 0 {
            self
        } else {
            self.run(ops.drop_last()).step(ops.last())
        }
    }

    /// Whether each of `ops` may be asked for when its turn comes.
    pub open spec fn admits_all(self, ops: Seq<ContextOp>) -> bool
        decreases ops.len(),
    {
        ops.len() == 0 || (self.admits_all(ops.drop_last()) && self.run(ops.drop_last()).admits(
            ops.last(),
        ))
    }
}

/// Whatever a session is asked to do, it keeps its handle and never falls
/// back to an earlier stage.
pub proof fn lemma_session_moves_forward(s: ContextView, ops: Seq<ContextOp>)
    ensures
        s.run(ops).handle == s.handle,
        ContextView::rank(s.stage) <= ContextView::rank(s.run(ops).stage),
    decreases ops.len(),
{
    if ops.len() > 0 {
        lemma_session_moves_forward(s, ops.drop_last());
    }
}

/// Once compilation has begun, the output kind stays what it is, whatever
/// admitted calls follow.
pub proof fn lemma_output_fixed_once_compiling(s: ContextView, ops: Seq<ContextOp>)
    requires
        s.compilation_begun(),
        s.admits_all(ops),
    ensures
        s.run(ops).compilation_begun(),
        s.run(ops).output == s.output,
    decreases ops.len(),
{
    if ops.len() > 0 {
        lemma_output_fixed_once_compiling(s, ops.drop_last());
    }
}

/// A session that is only configured is still free to choose its output
/// kind, and the kind is the one that was set last.
pub proof fn lemma_last_output_wins(s: ContextView, first: OutputType, second: OutputType)
    requires
        !s.compilation_begun(),
    ensures
        s.with_output(first).admits(ContextOp::SetOutput(second)),
        s.with_output(first).with_output(second) == s.with_output(second),
        s.with_output(first).compiled().output == first,
{
}

/// Hands one diagnostic of the engine to the closure that was registered for
/// it. The closure is called once, with exactly the message. The message is
/// only lent: a closure that wants to keep it makes a copy.
pub fn call_back<F: FnMut(&[u8])>(func: &mut F, msg: &[u8])
    requires
        call_requires(*old(func), (msg,)),
    ensures
        call_ensures(*old(func), (msg,), ()),
        *final(func) == *old(func),
{
    func(msg)
}

/// Compilation context: one handle of the engine, held under a guard, and
/// the diagnostic closure that was registered for it, if any.
///
/// The context borrows the guard exclusively, so no second context can be
/// opened against the same guard while this one is alive. The closure lives
/// on the heap, so its address stays the same while it is registered.
pub struct Context<'a, 'g, F: FnMut(&[u8])> {
    inner: TCCState,
    _g: &'a mut Guard<'g>,
    output: OutputType,
    stage: Stage,
    err_func: Option<Box<F>>,
}

impl<'a, 'g, F: FnMut(&[u8])> View for Context<'a, 'g, F> {
    type V = ContextView;

    closed spec fn view(&self) -> ContextView {
        ContextView { handle: self.inner.addr_spec(), output: self.output, stage: self.stage }
    }
}

impl<'a, 'g, F: FnMut(&[u8])> Context<'a, 'g, F> {
    /// The diagnostic closure that is registered, if any.
    pub closed spec fn func(&self) -> Option<F> {
        match self.err_func {
            Some(f) => Some(*f),
            None => None,
        }
    }

    /// Opens a session on what the engine's allocation returned. A null
    /// handle means that the engine is out of memory; nothing else fails.
    pub fn new(g: &'a mut Guard<'g>, handle: usize) -> (r: Result<Self, Error>)
        ensures
            r.is_ok() <==> handle != 0,
            r matches Ok(c) ==> c@ == ContextView::created(handle) && c.func().is_none(),
            r matches Err(e) ==> e == Error::OutOfMemory,
    {
        match TCCState::from_addr(handle) {
            None => Err(Error::OutOfMemory),
            Some(inner) => Ok(
                Context {
                    inner,
                    _g: g,
                    output: OutputType::Memory,
                    stage: Stage::Created,
                    err_func: None,
                },
            ),
        }
    }

    /// The address of the handle, for the native calls. It is never null.
    pub fn handle(&self) -> (a: usize)
        ensures
            a == self@.handle,
            a != 0,
    {
        self.inner.addr()
    }

    /// The kind of artifact that the session produces.
    pub fn output_type(&self) -> (o: OutputType)
        ensures
            o == self@.output,
    {
        self.output
    }

    /// How far the session has come.
    pub fn stage(&self) -> (s: Stage)
        ensures
            s == self@.stage,
    {
        self.stage
    }

    /// Whether a diagnostic callback is registered.
    pub fn has_call_back(&self) -> (b: bool)
        ensures
            b == self.func().is_some(),
    {
        self.err_func.is_some()
    }

    /// Whether a compilation call was made, after which the output kind can
    /// no longer be set.
    pub fn compilation_begun(&self) -> (b: bool)
        ensures
            b == self@.compilation_begun(),
    {
        match self.stage {
            Stage::Compiled => true,
            Stage::Configured => false,
            Stage::Created => false,
        }
    }

    fn configure(&mut self)
        ensures
            final(self)@ == old(self)@.configured(),
            final(self).func() == old(self).func(),
    {
        match self.stage {
            Stage::Created => {
                self.stage = Stage::Configured;
            },
            Stage::Configured => {},
            Stage::Compiled => {},
        }
    }

    /// Records that the engine's own directory was set. The engine returns
    /// nothing for it.
    pub fn set_lib_path(&mut self) -> (r: &mut Self)
        ensures
            r@ == old(self)@.configured(),
            r.func() == old(self).func(),
            *final(self) == *final(r),
    {
        self.configure();
        self
    }

    /// Records that a string of options was handed over. The engine returns
    /// nothing for it.
    pub fn set_options(&mut self) -> (r: &mut Self)
        ensures
            r@ == old(self)@.configured(),
            r.func() == old(self).func(),
            *final(self) == *final(r),
    {
        self.configure();
        self
    }

    /// Takes over the closure that the engine was given for its diagnostics.
    /// A closure registered before is replaced and dropped: the engine no
    /// longer calls it.
    pub fn set_call_back(&mut self, f: Box<F>) -> (r: &mut Self)
        ensures
            r@ == old(self)@.configured(),
            r.func() == Some(*f),
            *final(self) == *final(r),
    {
        self.configure();
        self.err_func = Some(f);
        self
    }

    /// Hands one diagnostic of the engine to the registered closure. Without
    /// a closure the diagnostic is dropped. The session is as before.
    pub fn call_back(&mut self, msg: &[u8])
        requires
            old(self).func() matches Some(f) ==> call_requires(f, (msg,)),
        ensures
            old(self).func() matches Some(f) ==> call_ensures(f, (msg,), ()),
            final(self)@ == old(self)@,
            final(self).func() == old(self).func(),
    {
        match &mut self.err_func {
            Some(b) => {
                self::call_back(&mut **b, msg);
            },
            None => {},
        }
    }

    /// Records that an include directory was added. The engine answers this
    /// call with zero and nothing else.
    pub fn add_include_path(&mut self, ret: i32) -> (r: &mut Self)
        requires
            ret == 0,
        ensures
            r@ == old(self)@.configured(),
            r.func() == old(self).func(),
            *final(self) == *final(r),
    {
        self.configure();
        self
    }

    /// Records that a system include directory was added. The engine answers
    /// this call with zero and nothing else.
    pub fn add_sys_include_path(&mut self, ret: i32) -> (r: &mut Self)
        requires
            ret == 0,
        ensures
            r@ == old(self)@.configured(),
            r.func() == old(self).func(),
            *final(self) == *final(r),
    {
        self.configure();
        self
    }

    /// Records that a preprocessor symbol was defined. The engine returns
    /// nothing for it.
    pub fn define_symbol(&mut self) -> (r: &mut Self)
        ensures
            r@ == old(self)@.configured(),
            r.func() == old(self).func(),
            *final(self) == *final(r),
    {
        self.configure();
        self
    }

    /// Records that a preprocessor symbol was undefined. The engine returns
    /// nothing for it.
    pub fn undefine_symbol(&mut self) -> (r: &mut Self)
        ensures
            r@ == old(self)@.configured(),
            r.func() == old(self).func(),
            *final(self) == *final(r),
    {
        self.configure();
        self
    }

    /// Records the output kind that the engine was given. The kind is set
    /// before the first compilation call, and the engine answers with zero.
    pub fn set_output_type(&mut self, output: OutputType, ret: i32) -> (r: &mut Self)
        requires
            !old(self)@.compilation_begun(),
            ret == 0,
        ensures
            r@ == old(self)@.with_output(output),
            r.func() == old(self).func(),
            *final(self) == *final(r),
    {
        self.configure();
        self.output = output;
        self
    }

    /// Reads the engine's answer to a file handed over for compilation. A
    /// file that cannot be read fails like one that does not compile.
    pub fn add_file(&mut self, ret: i32) -> (r: Result<(), Error>)
        ensures
            r == status(ret, Error::CompileError),
            final(self)@ == old(self)@.compiled(),
            final(self).func() == old(self).func(),
    {
        self.stage = Stage::Compiled;
        map_status(ret, Error::CompileError)
    }

    /// Reads the engine's answer to a source text handed over for
    /// compilation.
    pub fn compile_string(&mut self, ret: i32) -> (r: Result<(), Error>)
        ensures
            r == status(ret, Error::CompileError),
            final(self)@ == old(self)@.compiled(),
            final(self).func() == old(self).func(),
    {
        self.stage = Stage::Compiled;
        map_status(ret, Error::CompileError)
    }

    /// Records that a library search directory was added. The engine answers
    /// this call with zero and nothing else.
    pub fn add_library_path(&mut self, ret: i32) -> (r: &mut Self)
        requires
            ret == 0,
        ensures
            r@ == old(self)@.configured(),
            r.func() == old(self).func(),
            *final(self) == *final(r),
    {
        self.configure();
        self
    }

    /// Reads the engine's answer to a library added by name: a library that
    /// is not found on the search path is a link error.
    pub fn add_library(&mut self, ret: i32) -> (r: Result<(), Error>)
        ensures
            r == status(ret, Error::LinkError),
            final(self)@ == old(self)@.configured(),
            final(self).func() == old(self).func(),
    {
        self.configure();
        map_status(ret, Error::LinkError)
    }

    /// Records that an address of the host was bound to a name of the
    /// compiled program. The engine answers with zero; that the address fits
    /// the declared type is the caller's word alone.
    pub fn add_symbol(&mut self, ret: i32)
        requires
            ret == 0,
        ensures
            final(self)@ == old(self)@.configured(),
            final(self).func() == old(self).func(),
    {
        self.configure();
    }

    /// Ends the session on the engine's answer to the writing of the output
    /// file. The handle comes back to be destroyed, whatever the answer.
    pub fn output_file(self, ret: i32) -> (r: (TCCState, Result<(), Error>))
        ensures
            r.0.addr_spec() == self@.handle,
            r.1 == status(ret, Error::LinkError),
    {
        (self.inner, map_status(ret, Error::LinkError))
    }

    /// Ends the session without an artifact. The handle comes back to be
    /// destroyed.
    pub fn close(self) -> (h: TCCState)
        ensures
            h.addr_spec() == self@.handle,
    {
        self.inner
    }
}

} // verus!
