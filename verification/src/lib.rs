//! A verified model of a BPF object loader: the load/relocate pipeline that
//! turns a parsed bytecode object into live kernel maps and loadable program
//! images, and the runtime-checked shared-access layer that hands out typed
//! views of the created maps.
//!
//! Parsing raw object bytes, BTF-based portability rewriting, and the raw
//! syscall layer are external collaborators: their results enter the library
//! as plain values, and the kernel's map table is modelled explicitly by
//! [`sys::KernelMaps`] so that every pipeline decision is verified.

pub mod obj;
pub mod sys;
pub mod maps;
pub mod programs;
pub mod relocation;
pub mod bpf;
