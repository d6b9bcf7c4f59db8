//! Copies of values that are not copied by assignment.

use vstd::prelude::*;

verus! {

/// A value of which an equal one can be made.
pub trait Duplicate: Sized {
    /// A value equal to this one.
    fn copy(&self) -> (r: Self)
        ensures
            r == *self,
    ;
}

impl Duplicate for u8 {
    fn copy(&self) -> (r: Self) {
        *self
    }
}

/// A list of copies of the values of a list, in its order.
pub fn copy_all<T: Duplicate>(list: &Vec<T>) -> (r: Vec<T>)
    ensures
        r@ == list@,
{
    let n = list.len();
    let mut out: Vec<T> = Vec::new();
    let mut i: usize = 0;
    while i < n
        invariant
            n == list@.len(),
            i <= n,
            out@ == list@.take(i as int),
        decreases n - i,
    {
        out.push(list[i].copy());
        proof {
            assert(list@.take(i + 1) =~= list@.take(i as int).push(list@[i as int]));
        }
        i += 1;
    }
    proof {
        assert(list@.take(n as int) =~= list@);
    }
    out
}

} // verus!
