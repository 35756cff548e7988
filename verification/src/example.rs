//! The entry point that greets and adds.

use vstd::prelude::*;
use vstd::string::{is_ascii_spec_bytes, StringSliceAdditionalSpecFns};
use crate::console::{c_string, is_c_string, Reply};

verus! {

/// Greets on the console, then adds its two arguments.
///
/// The line is `Hello NK Rust Example` with a line feed, as a C string. The
/// value is the mathematical sum, which has to fit in an `i32`.
pub fn nk_rust_example(a: i32, b: i32) -> (reply: Reply)
    requires
        i32::MIN <= a + b <= i32::MAX,
    ensures
        reply.line.spec_bytes() == c_string("Hello NK Rust Example\n".spec_bytes()),
        is_c_string(reply.line.spec_bytes()),
        reply.value == a + b,
    no_unwind
{
    let line = "Hello NK Rust Example\n\0";
    proof {
        reveal_strlit("Hello NK Rust Example\n\0");
        reveal_strlit("Hello NK Rust Example\n");
        is_ascii_spec_bytes(line);
        is_ascii_spec_bytes("Hello NK Rust Example\n");
        assert(line.spec_bytes() =~= c_string("Hello NK Rust Example\n".spec_bytes()));
    }
    Reply { line, value: a + b }
}

} // verus!
