//! What the trap entry does with a trap: which handler it calls, if any.

use vstd::prelude::*;

verus! {

/// What to do with a trap.
#[derive(Clone, Copy, PartialEq, Eq, Debug, Structural)]
pub enum Dispatch {
    /// Nothing handles the trap: spin forever.
    Hang,
    /// Call the handler at this place of the vector table.
    Call(usize),
}

/// What to do with a trap of cause `code`, given for each place of the
/// vector table the word it holds: an exception hangs, and so does an
/// interrupt without a place in the table or with an empty place; any
/// other interrupt calls the handler at its place.
pub open spec fn dispatch_of(is_exception: bool, code: usize, vectors: Seq<usize>) -> Dispatch {
    if !is_exception && code < vectors.len() && vectors[code as int] != 0 {
        Dispatch::Call(code)
    } else {
        Dispatch::Hang
    }
}

/// What to do with a trap of cause `code`, given the words of the vector
/// table.
pub fn dispatch(is_exception: bool, code: usize, vectors: &[usize]) -> (r: Dispatch)
    ensures
        r == dispatch_of(is_exception, code, vectors@),
{
    if is_exception {
        Dispatch::Hang
    } else if code < vectors.len() {
        if vectors[code] == 0 {
            Dispatch::Hang
        } else {
            Dispatch::Call(code)
        }
    } else {
        Dispatch::Hang
    }
}

} // verus!
