//! Allocation-free numeric routines over borrowed views of caller-owned data.
//!
//! Every routine is a pure function of its arguments. An absent buffer or
//! array stands for a null address and yields the sentinel `0`; nothing is
//! retained past the call.

pub mod djb2;
pub mod fib;
pub mod sum;
pub mod word;

pub use djb2::hash_djb2;
pub use fib::fibonacci;
pub use sum::soma_array;
