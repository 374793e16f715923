//! Names of intercepted functions and the resolvers that map them to
//! addresses in the guest's own address space.

use vstd::prelude::*;

verus! {

/// An address in the address space of the program under test.
pub type GuestAddr = usize;

/// The address that stands for "not resolved".
pub const UNRESOLVED: GuestAddr = 0;

/// The name of a library function, as the guest's symbol table spells it.
#[derive(Debug, PartialEq, Eq)]
pub struct SymbolName {
    text: String,
}

impl View for SymbolName {
    type V = Seq<char>;

    closed spec fn view(&self) -> Seq<char> {
        self.text@
    }
}

impl Clone for SymbolName {
    fn clone(&self) -> (copy: SymbolName)
        ensures
            copy@ == self@,
    {
        SymbolName { text: self.text.clone() }
    }
}

impl SymbolName {
    /// The name that `text` spells.
    pub fn new(text: &str) -> (name: SymbolName)
        ensures
            name@ == text@,
    {
        SymbolName { text: text.to_owned() }
    }

    /// The name as text.
    pub fn as_str(&self) -> (text: &str)
        ensures
            text@ == self@,
    {
        self.text.as_str()
    }
}

/// A strategy for finding a function's address by name.
///
/// Nothing is promised of an implementation here; callers state what holds
/// for whatever `lookup` hands back.
pub trait Symbols {
    type Error;

    fn lookup(name: &SymbolName) -> Result<GuestAddr, Self::Error>;
}

/// Why `NopSymbols` did not resolve a name.
#[derive(Debug, PartialEq)]
pub enum NopSymbolsError {
    SymbolNotFound(SymbolName),
}

impl Clone for NopSymbolsError {
    fn clone(&self) -> (copy: NopSymbolsError)
        ensures
            copy matches NopSymbolsError::SymbolNotFound(name) && name@ == self->0@,
    {
        match self {
            NopSymbolsError::SymbolNotFound(name) => NopSymbolsError::SymbolNotFound(name.clone()),
        }
    }
}

impl NopSymbolsError {
    /// The error in words.
    pub fn message(&self) -> (text: String)
        ensures
            text@ == "Symbol not found: "@ + self->0@,
    {
        match self {
            NopSymbolsError::SymbolNotFound(name) => String::from_str("Symbol not found: ").concat(
                name.as_str(),
            ),
        }
    }
}

/// The resolver that knows no symbol: every lookup fails, so that a missing
/// resolution strategy shows as an error and never as an invalid address.
#[derive(Debug)]
pub struct NopSymbols;

impl Symbols for NopSymbols {
    type Error = NopSymbolsError;

    fn lookup(name: &SymbolName) -> (found: Result<GuestAddr, NopSymbolsError>)
        ensures
            found matches Err(NopSymbolsError::SymbolNotFound(missing)) && missing@ == name@,
    {
        Err(NopSymbolsError::SymbolNotFound(name.clone()))
    }
}

/// The shape of a call: how many arguments are fixed, and whether more may
/// follow.
#[derive(Clone, Copy, Debug, PartialEq, Eq, Structural)]
pub struct CallSignature {
    pub fixed_args: usize,
    pub variadic: bool,
}

/// An intercepted function as it is compiled in: its name and the signature
/// by which its real implementation is called.
#[derive(Debug)]
pub struct FunctionDescriptor {
    pub name: SymbolName,
    pub signature: CallSignature,
}

} // verus!
