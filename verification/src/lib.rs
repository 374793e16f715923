//! Guest-side instrumentation runtime: safety-checked interception of library
//! calls, lazy resolution of the real implementations, a coverage byte map, a
//! symbolic trace pipeline and the derivation of input mutations from a trace.

pub mod cache;
pub mod capture;
pub mod coverage;
pub mod handle;
pub mod hook;
pub mod launch;
pub mod mutation;
pub mod pipeline;
pub mod shadow;
pub mod stream;
pub mod symbols;
pub mod text;
pub mod trace;
