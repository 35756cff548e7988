//! The logic of a kernel module's entry points, kept apart from the C
//! linkage that exports them.
//!
//! An entry point is called by the kernel with two integers and returns one.
//! Some entry points also have the kernel console print a line first. The
//! functions here decide both: they return the integer, together with the
//! line where there is one, and leave the call into the kernel to the code
//! that exports them. None of them can unwind, so none of them ever reaches
//! the module's panic handler.

pub mod arith;
pub mod console;
pub mod example;
pub mod parport;
