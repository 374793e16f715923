//! A resolved address bound to the signature by which it is called.

use vstd::prelude::*;
use crate::symbols::{CallSignature, FunctionDescriptor, GuestAddr, UNRESOLVED};

verus! {

/// Why no handle could be made.
#[derive(Clone, Copy, Debug, PartialEq, Eq, Structural)]
pub enum FunctionPointerError {
    /// The address is the sentinel: the function was never resolved.
    BadAddress(GuestAddr),
}

/// The real implementation of an intercepted function, ready to be called:
/// its address, which is never the sentinel, and its declared signature.
///
/// That the address is one of a function with this signature is the
/// descriptor's author's word; nothing checks it when the handle is made.
#[derive(Clone, Copy, Debug)]
pub struct FunctionHandle {
    addr: GuestAddr,
    signature: CallSignature,
}

impl FunctionHandle {
    #[verifier::type_invariant]
    spec fn is_bound(self) -> bool {
        self.addr != UNRESOLVED
    }

    /// The address that the handle calls.
    pub closed spec fn address(&self) -> GuestAddr {
        self.addr
    }

    /// The signature by which the handle calls.
    pub closed spec fn shape(&self) -> CallSignature {
        self.signature
    }

    /// Binds `addr` to the descriptor's signature. Fails on the sentinel and
    /// on nothing else.
    pub fn bind(descriptor: &FunctionDescriptor, addr: GuestAddr) -> (bound: Result<
        FunctionHandle,
        FunctionPointerError,
    >)
        ensures
            addr == UNRESOLVED ==> bound == Err::<FunctionHandle, FunctionPointerError>(
                FunctionPointerError::BadAddress(addr),
            ),
            addr != UNRESOLVED ==> bound is Ok && bound->Ok_0.address() == addr
                && bound->Ok_0.shape() == descriptor.signature,
    {
        if addr == UNRESOLVED {
            Err(FunctionPointerError::BadAddress(addr))
        } else {
            Ok(FunctionHandle { addr, signature: descriptor.signature })
        }
    }

    /// The address to call. It is never the sentinel.
    pub fn addr(&self) -> (addr: GuestAddr)
        ensures
            addr == self.address(),
            addr != UNRESOLVED,
    {
        proof {
            use_type_invariant(self);
        }
        self.addr
    }

    /// The signature to call by.
    pub fn signature(&self) -> (signature: CallSignature)
        ensures
            signature == self.shape(),
    {
        self.signature
    }
}

} // verus!
