//! Core of a Java virtual machine interpreter: runtime values, heap objects,
//! class metadata and initialization, class mirrors, native methods, frames,
//! the bytecode instructions and the interpreter loop.
pub mod value;
pub mod heap;
pub mod class;
pub mod init;
pub mod mirror;
pub mod native;
pub mod thread;
pub mod frame;
pub mod ops_local;
pub mod ops_math;
pub mod ops_branch;
pub mod ops_array;
pub mod ops_object;
pub mod ops_field;
pub mod ops_constant;
pub mod exception;
pub mod invoke;
pub mod interp;
