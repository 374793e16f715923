//! The intercepted `write`: arguments are validated and the memory they name
//! is checked before the real implementation is resolved and called with
//! interception switched off.

use vstd::prelude::*;
use crate::cache::AddressCache;
use crate::handle::FunctionHandle;
use crate::shadow::ShadowRegion;
use crate::symbols::{FunctionDescriptor, GuestAddr, SymbolName, Symbols, UNRESOLVED};

verus! {

/// The process-wide switch that keeps a hook from intercepting the calls that
/// the real implementation makes in its turn.
#[derive(Debug)]
pub struct InterceptionGate {
    enabled: bool,
}

impl InterceptionGate {
    /// Whether interception is on.
    pub closed spec fn enabled(&self) -> bool {
        self.enabled
    }

    /// A gate with interception on.
    pub fn new() -> (gate: InterceptionGate)
        ensures
            gate.enabled(),
    {
        InterceptionGate { enabled: true }
    }

    /// Whether interception is on.
    pub fn is_enabled(&self) -> (enabled: bool)
        ensures
            enabled == self.enabled(),
    {
        self.enabled
    }

    /// Switches interception on or off.
    pub fn swap(&mut self, enable: bool)
        ensures
            final(self).enabled() == enable,
    {
        self.enabled = enable;
    }
}

/// The arguments of one call of `write`.
#[derive(Clone, Copy, Debug, PartialEq, Eq, Structural)]
pub struct WriteCall {
    pub fd: i32,
    pub buf: GuestAddr,
    pub count: usize,
}

/// What is wrong with the memory that a call names.
#[derive(Clone, Copy, Debug, PartialEq, Eq, Structural)]
pub enum MemoryViolation {
    /// A null buffer with a length that is not zero.
    NullBuffer { count: usize },
    /// The bytes to be read are not all accessible.
    Inaccessible { addr: GuestAddr, len: usize },
}

/// Why a hooked call did not reach the real implementation. Each of these is
/// fatal to the process that made the call.
#[derive(Debug, PartialEq, Eq)]
pub enum HookError {
    /// The call would touch memory that it may not touch.
    MemoryValidation(MemoryViolation),
    /// The resolver does not know the real implementation.
    SymbolNotFound(SymbolName),
    /// The resolver gave the sentinel for an address.
    BadAddress(GuestAddr),
}

/// A call that has passed every check: the real implementation and the
/// caller's arguments, as they came.
#[derive(Clone, Copy, Debug)]
pub struct RealCall {
    pub target: FunctionHandle,
    pub args: WriteCall,
}

/// The violation that a call is rejected for, if any. The shape of the
/// arguments is judged first: a null buffer with a length is rejected
/// whatever the metadata says of address zero.
pub open spec fn validation(call: WriteCall, shadow: &ShadowRegion) -> Option<MemoryViolation> {
    if call.buf == 0 && call.count != 0 {
        Some(MemoryViolation::NullBuffer { count: call.count })
    } else if !shadow.accessible(call.buf as int, call.count as int) {
        Some(MemoryViolation::Inaccessible { addr: call.buf, len: call.count })
    } else {
        None
    }
}

/// Validates the arguments of a call and the memory that it reads.
pub fn validate(call: WriteCall, shadow: &ShadowRegion) -> (verdict: Result<(), MemoryViolation>)
    ensures
        match validation(call, shadow) {
            Some(violation) => verdict == Err::<(), MemoryViolation>(violation),
            None => verdict is Ok,
        },
{
    if call.buf == 0 && call.count != 0 {
        return Err(MemoryViolation::NullBuffer { count: call.count });
    }
    if !shadow.is_accessible(call.buf, call.count) {
        return Err(MemoryViolation::Inaccessible { addr: call.buf, len: call.count });
    }
    Ok(())
}

/// One intercepted function: its descriptor and the slot for the address of
/// its real implementation.
pub struct Hook {
    descriptor: FunctionDescriptor,
    cache: AddressCache,
}

impl Hook {
    /// The intercepted function.
    pub closed spec fn descriptor(&self) -> FunctionDescriptor {
        self.descriptor
    }

    /// The address slot: `None` until the real implementation is resolved.
    pub closed spec fn resolved(&self) -> Option<GuestAddr> {
        self.cache@
    }

    /// What `enter` leaves behind and returns, for a call that begins with
    /// the hook as `self` and the switch as `gate`.
    ///
    /// - A call that fails validation is rejected, and nothing changes.
    /// - Else the address comes from the slot or, while that is unresolved,
    ///   from `S::lookup` on the descriptor's name. An address other than the
    ///   sentinel is kept in the slot, bound to the descriptor's signature
    ///   and returned with the caller's arguments, and interception is off.
    /// - A lookup that fails, or gives the sentinel, is an error; slot and
    ///   gate stay as they were.
    pub open spec fn entered<S: Symbols>(
        &self,
        call: WriteCall,
        shadow: &ShadowRegion,
        gate: InterceptionGate,
        after: Hook,
        gate_after: InterceptionGate,
        outcome: Result<RealCall, HookError>,
    ) -> bool {
        &&& after.descriptor() == self.descriptor()
        &&& match validation(call, shadow) {
            Some(violation) => {
                &&& outcome matches Err(HookError::MemoryValidation(v))
                &&& v == violation
                &&& after.resolved() == self.resolved()
                &&& gate_after == gate
            },
            None => match outcome {
                Ok(ready) => {
                    &&& ready.args == call
                    &&& ready.target.shape() == self.descriptor().signature
                    &&& ready.target.address() != UNRESOLVED
                    &&& after.resolved() == Some(ready.target.address())
                    &&& !gate_after.enabled()
                    &&& match self.resolved() {
                        Some(addr) => ready.target.address() == addr,
                        None => call_ensures(
                            S::lookup,
                            (&self.descriptor().name,),
                            Ok::<GuestAddr, S::Error>(ready.target.address()),
                        ),
                    }
                },
                Err(error) => {
                    &&& self.resolved() is None
                    &&& after.resolved() is None
                    &&& gate_after == gate
                    &&& match error {
                        HookError::SymbolNotFound(name) => {
                            &&& name@ == self.descriptor().name@
                            &&& exists|e: S::Error| #[trigger]
                                call_ensures(
                                    S::lookup,
                                    (&self.descriptor().name,),
                                    Err::<GuestAddr, S::Error>(e),
                                )
                        },
                        HookError::BadAddress(addr) => {
                            &&& addr == UNRESOLVED
                            &&& call_ensures(
                                S::lookup,
                                (&self.descriptor().name,),
                                Ok::<GuestAddr, S::Error>(UNRESOLVED),
                            )
                        },
                        HookError::MemoryValidation(_) => false,
                    }
                },
            },
        }
    }

    /// A hook for `descriptor`, with its real implementation unresolved.
    pub fn new(descriptor: FunctionDescriptor) -> (hook: Hook)
        ensures
            hook.descriptor() == descriptor,
            hook.resolved() is None,
    {
        Hook { descriptor, cache: AddressCache::new() }
    }

    /// The resolved address of the real implementation, if there is one.
    pub fn address(&self) -> (addr: Option<GuestAddr>)
        ensures
            addr == self.resolved(),
    {
        self.cache.get()
    }

    /// Everything that comes before the real call: validates `call`, checks
    /// the memory that it reads, resolves the real implementation and
    /// switches interception off.
    pub fn enter<S: Symbols>(
        &mut self,
        call: WriteCall,
        shadow: &ShadowRegion,
        gate: &mut InterceptionGate,
    ) -> (outcome: Result<RealCall, HookError>)
        ensures
            old(self).entered::<S>(call, shadow, *old(gate), *final(self), *final(gate), outcome),
    {
        match validate(call, shadow) {
            Err(violation) => {
                return Err(HookError::MemoryValidation(violation));
            },
            Ok(()) => {},
        }
        proof {
            self.cache.lemma_never_sentinel();
        }
        let addr = match self.cache.get_or_resolve::<S>(&self.descriptor) {
            Ok(addr) => addr,
            Err(e) => {
                return Err(HookError::SymbolNotFound(self.descriptor.name.clone()));
            },
        };
        let target = match FunctionHandle::bind(&self.descriptor, addr) {
            Ok(target) => target,
            Err(_) => {
                return Err(HookError::BadAddress(addr));
            },
        };
        gate.swap(false);
        Ok(RealCall { target, args: call })
    }
}

/// Everything that comes after the real call: switches interception back on
/// and hands the real implementation's result on, unchanged.
pub fn leave(gate: &mut InterceptionGate, ret: isize) -> (result: isize)
    ensures
        result == ret,
        final(gate).enabled(),
{
    gate.swap(true);
    ret
}

/// The intercepted `write`.
///
/// Validates the arguments, checks that the `count` bytes at `buf` may be
/// read, resolves the real implementation, calls it through `callee` with
/// interception off, switches interception back on and returns what the
/// real implementation returned. `callee` is shown the switch as it stands
/// during the call. A call that is rejected, or whose real implementation
/// cannot be found, never reaches `callee`.
pub fn write<S: Symbols, F: FnOnce(RealCall, &InterceptionGate) -> isize>(
    hook: &mut Hook,
    shadow: &ShadowRegion,
    gate: &mut InterceptionGate,
    fd: i32,
    buf: GuestAddr,
    count: usize,
    callee: F,
) -> (outcome: Result<isize, HookError>)
    requires
        forall|ready: RealCall, off: InterceptionGate|
            ready.args == (WriteCall { fd, buf, count }) && !off.enabled() ==> call_requires(
                callee,
                (ready, &off),
            ),
    ensures
        match outcome {
            Ok(ret) => {
                &&& final(gate).enabled()
                &&& exists|ready: RealCall, off: InterceptionGate|
                    {
                        &&& #[trigger] old(hook).entered::<S>(
                            WriteCall { fd, buf, count },
                            shadow,
                            *old(gate),
                            *final(hook),
                            off,
                            Ok(ready),
                        )
                        &&& call_ensures(callee, (ready, &off), ret)
                    }
            },
            Err(error) => old(hook).entered::<S>(
                WriteCall { fd, buf, count },
                shadow,
                *old(gate),
                *final(hook),
                *final(gate),
                Err(error),
            ),
        },
{
    let call = WriteCall { fd, buf, count };
    match hook.enter::<S>(call, shadow, gate) {
        Ok(ready) => {
            let ghost off = *gate;
            let ret = callee(ready, gate);
            let result = leave(gate, ret);
            assert(old(hook).entered::<S>(call, shadow, *old(gate), *hook, off, Ok(ready))
                && call_ensures(callee, (ready, &off), ret));
            Ok(result)
        },
        Err(error) => Err(error),
    }
}

/// A call with a null buffer and a length that is not zero fails validation,
/// whatever the metadata holds: `enter` and `write` reject it with this
/// violation before anything is resolved, switched or called.
pub proof fn lemma_null_buffer_is_rejected(call: WriteCall, shadow: &ShadowRegion)
    requires
        call.buf == 0,
        call.count != 0,
    ensures
        validation(call, shadow) == Some(MemoryViolation::NullBuffer { count: call.count }),
{
}

} // verus!
