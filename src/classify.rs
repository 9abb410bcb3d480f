use vstd::prelude::*;

use crate::host::HostValue;

verus! {

/// `h` is an association list: nil, or a cons cell whose head is a cons
/// cell and whose tail is an association list.
pub open spec fn is_alist(h: HostValue) -> bool
    decreases h,
{
    match h {
        HostValue::Nil => true,
        HostValue::Cons(a, d) => *a is Cons && is_alist(*d),
        _ => false,
    }
}

/// Tells whether a host list stands for a mapping (every element is a
/// cons pair) rather than a sequence.
pub fn is_association_list(h: &HostValue) -> (r: bool)
    ensures
        r == is_alist(*h),
    decreases h,
{
    match h {
        HostValue::Nil => true,
        HostValue::Cons(a, d) => match **a {
            HostValue::Cons(_, _) => is_association_list(d),
            _ => false,
        },
        _ => false,
    }
}

} // verus!
