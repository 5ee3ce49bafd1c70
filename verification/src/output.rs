use vstd::prelude::*;

use vstd::slice::slice_to_vec;

verus! {

/// The bytes to print to a stream destination: `data`, with a single newline
/// appended when `data` does not already end with one. A file destination
/// takes `data` verbatim instead, so only stream output is adjusted.
pub fn with_trailing_newline(data: &[u8]) -> (r: Vec<u8>)
    ensures
        r@ == (if data@.len() > 0 && data@.last() == 10u8 {
            data@
        } else {
            data@.push(10u8)
        }),
{
    let mut out = slice_to_vec(data);
    let n = data.len();
    if n == 0 || data[n - 1] != 10 {
        out.push(10);
    }
    out
}

} // verus!
