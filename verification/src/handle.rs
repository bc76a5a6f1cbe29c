//! The engine's handle.

use vstd::prelude::*;

verus! {

/// One compilation session inside the engine, known by the address that the
/// engine gave out for it. The address is never null. The value cannot be
/// copied: whoever holds it owns the session and is the one to destroy it.
#[derive(Debug)]
pub struct TCCState {
    addr: usize,
}

impl TCCState {
    #[verifier::type_invariant]
    spec fn live(&self) -> bool {
        self.addr != 0
    }

    /// The address of the engine's state.
    pub closed spec fn addr_spec(&self) -> usize {
        self.addr
    }

    /// Takes ownership of what the engine's allocation returned: `None` where
    /// it returned null.
    pub fn from_addr(addr: usize) -> (r: Option<TCCState>)
        ensures
            r.is_some() <==> addr != 0,
            r matches Some(h) ==> h.addr_spec() == addr,
    {
        if addr == 0 {
            None
        } else {
            Some(TCCState { addr })
        }
    }

    /// The address to hand to the engine.
    pub fn addr(&self) -> (a: usize)
        ensures
            a == self.addr_spec(),
            a != 0,
    {
        proof {
            use_type_invariant(self);
        }
        self.addr
    }
}

} // verus!
