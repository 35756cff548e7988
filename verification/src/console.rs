//! What an entry point hands to the kernel console.
//!
//! The console reads a line through a bare pointer, as C does: byte by byte
//! up to the first zero byte. It is handed the address of the line's first
//! byte and nothing else, so the line itself has to say where it ends.

use vstd::prelude::*;

verus! {

/// The bytes of the C string that holds `text`: the text, then one zero byte.
pub open spec fn c_string(text: Seq<u8>) -> Seq<u8> {
    text.push(0u8)
}

/// Whether a reader that stops at the first zero byte reads all of `bytes`
/// and no further: the last byte is zero and no byte before it is.
pub open spec fn is_c_string(bytes: Seq<u8>) -> bool {
    &&& bytes.len() > 0
    &&& bytes.last() == 0u8
    &&& forall|i: int| 0 <= i < bytes.len() - 1 ==> bytes[i] != 0u8
}

/// What an entry point that uses the console asks of the code that exports
/// it: have the console print `line`, once, then return `value` to the
/// kernel.
///
/// `line` lives as long as the module's image and is never written to, so
/// its address stays good for the whole call into the console.
#[derive(Clone, Copy, Debug, PartialEq, Eq)]
pub struct Reply {
    /// The line for the console, terminator included.
    pub line: &'static str,
    /// The integer for the kernel.
    pub value: i32,
}

} // verus!
