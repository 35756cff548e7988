//! The entry points of the parallel port module.

use vstd::prelude::*;
use vstd::string::{is_ascii_spec_bytes, StringSliceAdditionalSpecFns};
use crate::console::{c_string, is_c_string, Reply};

verus! {

/// Greets on the console and returns ten, whatever its arguments are.
///
/// The line is `Hello NK Rust Parallel Port` with a line feed, as a C
/// string.
pub fn nk_rust_parport(_a: i32, _b: i32) -> (reply: Reply)
    ensures
        reply.line.spec_bytes() == c_string("Hello NK Rust Parallel Port\n".spec_bytes()),
        is_c_string(reply.line.spec_bytes()),
        reply.value == 10,
    no_unwind
{
    let line = "Hello NK Rust Parallel Port\n\0";
    proof {
        reveal_strlit("Hello NK Rust Parallel Port\n\0");
        reveal_strlit("Hello NK Rust Parallel Port\n");
        is_ascii_spec_bytes(line);
        is_ascii_spec_bytes("Hello NK Rust Parallel Port\n");
        assert(line.spec_bytes() =~= c_string("Hello NK Rust Parallel Port\n".spec_bytes()));
    }
    Reply { line, value: 10 }
}

/// Names itself on the console, then adds its two arguments.
///
/// The line is `parport` with a line feed, as a C string. The value is the
/// mathematical sum, which has to fit in an `i32`.
pub fn parport(a: i32, b: i32) -> (reply: Reply)
    requires
        i32::MIN <= a + b <= i32::MAX,
    ensures
        reply.line.spec_bytes() == c_string("parport\n".spec_bytes()),
        is_c_string(reply.line.spec_bytes()),
        reply.value == a + b,
    no_unwind
{
    let line = "parport\n\0";
    proof {
        reveal_strlit("parport\n\0");
        reveal_strlit("parport\n");
        is_ascii_spec_bytes(line);
        is_ascii_spec_bytes("parport\n");
        assert(line.spec_bytes() =~= c_string("parport\n".spec_bytes()));
    }
    Reply { line, value: a + b }
}

} // verus!
