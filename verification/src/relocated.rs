//! Relocation into memory, and the image that it leaves.
//!
//! The engine relocates in two calls. The first, made with a null target,
//! returns the number of bytes that the image needs. The second is made with
//! a buffer of exactly that size and copies code and data into it. Either
//! call can fail, and each answer is read on its own.

use crate::context::Context;
use crate::error::Error;
use crate::handle::TCCState;
use vstd::prelude::*;

verus! {

/// A handle together with the bytes that back its image.
pub struct ImageView {
    /// The address of the engine's handle.
    pub handle: usize,
    /// The buffer that holds the relocated code and data.
    pub image: Seq<u8>,
}

/// `n` zero bytes.
pub open spec fn zeroed(n: nat) -> Seq<u8> {
    Seq::new(n, |i: int| 0u8)
}

/// A relocation between its two calls: the size is known, the buffer is
/// allocated, and the engine has yet to fill it.
pub struct Relocation {
    inner: TCCState,
    bin: Vec<u8>,
}

/// Relocated compilation context: the handle, frozen, and the buffer that the
/// addresses of its symbols point into. An address is good for as long as
/// this value lives.
pub struct RelocatedCtx {
    inner: TCCState,
    _bin: Vec<u8>,
}

impl View for Relocation {
    type V = ImageView;

    closed spec fn view(&self) -> ImageView {
        ImageView { handle: self.inner.addr_spec(), image: self.bin@ }
    }
}

impl View for RelocatedCtx {
    type V = ImageView;

    closed spec fn view(&self) -> ImageView {
        ImageView { handle: self.inner.addr_spec(), image: self._bin@ }
    }
}

impl<'a, 'g, F: FnMut(&[u8])> Context<'a, 'g, F> {
    /// Ends the session on the engine's answer to the size query, the first
    /// call of a relocation. A size of zero or less is a failure, and the
    /// handle comes back to be destroyed. Otherwise a buffer of exactly that
    /// many bytes is allocated for the second call.
    pub fn relocate(self, size: i32) -> (r: Result<Relocation, (TCCState, Error)>)
        ensures
            r.is_ok() <==> size > 0,
            r matches Ok(p) ==> p@.handle == self@.handle && p@.image == zeroed(size as nat),
            r matches Err(e) ==> e.0.addr_spec() == self@.handle && e.1 == Error::RelocationError,
    {
        let inner = self.close();
        if size <= 0 {
            return Err((inner, Error::RelocationError));
        }
        let len: usize = size as usize;
        let bin: Vec<u8> = vec![0u8; len];
        proof {
            assert(bin@ =~= zeroed(size as nat));
        }
        Ok(Relocation { inner, bin })
    }
}

impl Relocation {
    /// The address of the handle, for the second call. It is never null.
    pub fn handle(&self) -> (a: usize)
        ensures
            a == self@.handle,
            a != 0,
    {
        self.inner.addr()
    }

    /// The size that the engine asked for.
    pub fn len(&self) -> (n: usize)
        ensures
            n == self@.image.len(),
    {
        self.bin.len()
    }

    /// The buffer for the engine to fill in the second call. Its length
    /// cannot be changed through the slice.
    pub fn target(&mut self) -> (t: &mut [u8])
        ensures
            t@ == old(self)@.image,
            final(self)@.image == final(t)@,
            final(self)@.handle == old(self)@.handle,
    {
        self.bin.as_mut_slice()
    }

    /// Reads the engine's answer to the second call. Zero means that the
    /// buffer holds the image; the handle and the buffer then become the
    /// relocated context. On any other answer the relocation has failed,
    /// although the size query had succeeded, and the handle comes back to be
    /// destroyed.
    pub fn finish(self, ret: i32) -> (r: Result<RelocatedCtx, (TCCState, Error)>)
        ensures
            r.is_ok() <==> ret == 0,
            r matches Ok(img) ==> img@ == self@,
            r matches Err(e) ==> e.0.addr_spec() == self@.handle && e.1 == Error::RelocationError,
    {
        if ret != 0 {
            return Err((self.inner, Error::RelocationError));
        }
        Ok(RelocatedCtx { inner: self.inner, _bin: self.bin })
    }
}

impl RelocatedCtx {
    /// The address of the handle, for symbol lookups. It is never null.
    pub fn handle(&self) -> (a: usize)
        ensures
            a == self@.handle,
            a != 0,
    {
        self.inner.addr()
    }

    /// The relocated code and data.
    pub fn image(&self) -> (b: &[u8])
        ensures
            b@ == self@.image,
    {
        self._bin.as_slice()
    }

    /// Reads the engine's answer to a symbol lookup: the symbol's address, or
    /// `None` where the engine returned null. A miss is an ordinary outcome.
    /// The address says nothing of what lies behind it; to call it or to read
    /// through it the caller has to know its type.
    pub fn get_symbol(&mut self, found: usize) -> (r: Option<usize>)
        ensures
            r == (if found == 0 {
                None
            } else {
                Some(found)
            }),
            final(self)@ == old(self)@,
    {
        if found == 0 {
            None
        } else {
            Some(found)
        }
    }

    /// Takes the image apart for its destruction: the handle, which is
    /// destroyed first, and the buffer, which is freed after it.
    pub fn release(self) -> (r: (TCCState, Vec<u8>))
        ensures
            r.0.addr_spec() == self@.handle,
            r.1@ == self@.image,
    {
        (self.inner, self._bin)
    }
}

} // verus!
