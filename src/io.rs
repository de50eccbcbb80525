use vstd::prelude::*;

verus! {

/// Accepts the outcome of a read only when it brought at least `count`
/// bytes; `None` stands for a failed read.
pub fn check_read(read: Option<usize>, count: usize) -> (r: Option<usize>)
    ensures
        r == (match read {
            Some(n) => if n >= count {
                Some(n)
            } else {
                None
            },
            None => None,
        }),
{
    match read {
        Some(n) => if n < count {
            None
        } else {
            Some(n)
        },
        None => None,
    }
}

} // verus!
