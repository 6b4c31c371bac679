//! The host bridge of the Clean Language runner.
//!
//! A compiled program is a WebAssembly module that calls back into its host for
//! text, strings, lists and memory. The modules here hold what the host decides
//! and computes, from the bytes of a module to the answer to each of its calls;
//! reading files, running the guest, printing and floating-point arithmetic are
//! left to the program around the library.

pub mod abi;
pub mod abi_laws;
pub mod arena;
pub mod arrays;
pub mod bridge;
pub mod call_laws;
pub mod frame;
pub mod guest;
pub mod host;
pub mod launch;
pub mod laws;
pub mod list;
pub mod output;
pub mod scalar;
pub mod strings;
pub mod text;
pub mod text_laws;
pub mod word;
