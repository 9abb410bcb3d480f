use vstd::prelude::*;

use crate::classify::{is_alist, is_association_list};
use crate::error::MapError;
use crate::host::HostValue;
use crate::wire::WireValue;

verus! {

/// The first failure met when translating `h`, visiting its parts in
/// order; `None` when there is none.
pub open spec fn fault(h: HostValue) -> Option<MapError>
    decreases h, 1nat,
{
    match h {
        HostValue::BigInteger => Some(MapError::IntegerOutOfRange),
        HostValue::Vector(v) => items_fault(v@, 0),
        HostValue::Cons(_, _) => if is_alist(h) {
            alist_fault(h)
        } else {
            list_fault(h)
        },
        _ => None,
    }
}

/// The first failure among the items of `s` from index `i` on.
pub open spec fn items_fault(s: Seq<HostValue>, i: int) -> Option<MapError>
    decreases s, s.len() - i,
{
    if 0 <= i < s.len() {
        match fault(s[i]) {
            Some(e) => Some(e),
            None => items_fault(s, i + 1),
        }
    } else {
        None
    }
}

/// The first failure among the elements of the list `l`, or its improper end.
pub open spec fn list_fault(l: HostValue) -> Option<MapError>
    decreases l, 0nat,
{
    match l {
        HostValue::Nil => None,
        HostValue::Cons(a, d) => match fault(*a) {
            Some(e) => Some(e),
            None => list_fault(*d),
        },
        _ => Some(MapError::ImproperList),
    }
}

/// The first failure among the keys and values of the association list `l`.
pub open spec fn alist_fault(l: HostValue) -> Option<MapError>
    decreases l, 0nat,
{
    match l {
        HostValue::Nil => None,
        HostValue::Cons(a, d) => match *a {
            HostValue::Cons(k, v) => match fault(*k) {
                Some(e) => Some(e),
                None => match fault(*v) {
                    Some(e) => Some(e),
                    None => alist_fault(*d),
                },
            },
            _ => Some(MapError::ImproperList),
        },
        _ => Some(MapError::ImproperList),
    }
}

/// `w` is the wire value that `h` translates to: `t` becomes true, nil
/// becomes nil, a vector an array, an association list a map of
/// (head, tail) pairs, any other list an array, and a value with no wire
/// counterpart becomes nil.
pub open spec fn encodes_to(h: HostValue, w: WireValue) -> bool
    decreases h, 1nat,
{
    match h {
        HostValue::True => w == WireValue::Boolean(true),
        HostValue::Nil => w == WireValue::Nil,
        HostValue::Integer(i) => w == WireValue::Integer(i),
        HostValue::BigInteger => false,
        HostValue::Float(f) => w == WireValue::Float64(f),
        HostValue::Str(s) => w matches WireValue::String(t) && t@ == s@,
        HostValue::Vector(v) => w matches WireValue::Array(a) && a.len() == v.len() && forall|i: int|
            0 <= i < v.len() ==> encodes_to(v[i], #[trigger] a[i]),
        HostValue::Cons(_, _) => if is_alist(h) {
            w matches WireValue::Pairs(m) && alist_encodes_to(h, m@)
        } else {
            w matches WireValue::Array(a) && list_encodes_to(h, a@)
        },
        HostValue::Symbol(_) => w == WireValue::Nil,
        HostValue::Other => w == WireValue::Nil,
    }
}

/// `s` holds, in order, the translations of the elements of the proper list `l`.
pub open spec fn list_encodes_to(l: HostValue, s: Seq<WireValue>) -> bool
    decreases l, 0nat,
{
    match l {
        HostValue::Nil => s.len() == 0,
        HostValue::Cons(a, d) => s.len() > 0 && encodes_to(*a, s[0]) && list_encodes_to(
            *d,
            s.drop_first(),
        ),
        _ => false,
    }
}

/// `s` holds, in order, the translated (head, tail) pairs of the elements of
/// the association list `l`.
pub open spec fn alist_encodes_to(l: HostValue, s: Seq<(WireValue, WireValue)>) -> bool
    decreases l, 0nat,
{
    match l {
        HostValue::Nil => s.len() == 0,
        HostValue::Cons(a, d) => s.len() > 0 && (match *a {
            HostValue::Cons(k, v) => encodes_to(*k, s[0].0) && encodes_to(*v, s[0].1),
            _ => false,
        }) && alist_encodes_to(*d, s.drop_first()),
        _ => false,
    }
}

/// Translates a host value into a wire value, or reports the first
/// failure met.
pub fn map_to_wire(h: &HostValue) -> (r: Result<WireValue, MapError>)
    ensures
        match fault(*h) {
            Some(e) => r == Err::<WireValue, MapError>(e),
            None => r matches Ok(w) && encodes_to(*h, w),
        },
    decreases h, 1nat,
{
    match h {
        HostValue::True => Ok(WireValue::Boolean(true)),
        HostValue::Nil => Ok(WireValue::Nil),
        HostValue::Integer(i) => Ok(WireValue::Integer(*i)),
        HostValue::BigInteger => Err(MapError::IntegerOutOfRange),
        HostValue::Float(f) => Ok(WireValue::Float64(*f)),
        HostValue::Str(s) => Ok(WireValue::String(s.clone())),
        HostValue::Vector(v) => {
            let mut a: Vec<WireValue> = Vec::new();
            let mut i: usize = 0;
            while i < v.len()
                invariant
                    *h == HostValue::Vector(*v),
                    i <= v.len(),
                    a.len() == i,
                    items_fault(v@, 0) == items_fault(v@, i as int),
                    forall|j: int| 0 <= j < i ==> encodes_to(v[j], #[trigger] a[j]),
                decreases v.len() - i,
            {
                proof {
                    assert(decreases_to!(*h => (*h)->Vector_0));
                }
                match map_to_wire(&v[i]) {
                    Ok(w) => a.push(w),
                    Err(e) => return Err(e),
                }
                i += 1;
            }
            Ok(WireValue::Array(a))
        },
        HostValue::Cons(_, _) => if is_association_list(h) {
            match map_alist(h) {
                Ok(m) => Ok(WireValue::Pairs(m)),
                Err(e) => Err(e),
            }
        } else {
            match map_list(h) {
                Ok(a) => Ok(WireValue::Array(a)),
                Err(e) => Err(e),
            }
        },
        HostValue::Symbol(_) => Ok(WireValue::Nil),
        HostValue::Other => Ok(WireValue::Nil),
    }
}

/// Translates the elements of a proper list, in order.
fn map_list(l: &HostValue) -> (r: Result<Vec<WireValue>, MapError>)
    ensures
        match list_fault(*l) {
            Some(e) => r == Err::<Vec<WireValue>, MapError>(e),
            None => r matches Ok(s) && list_encodes_to(*l, s@),
        },
    decreases l, 0nat,
{
    match l {
        HostValue::Nil => Ok(Vec::new()),
        HostValue::Cons(a, d) => {
            let w = match map_to_wire(a) {
                Ok(w) => w,
                Err(e) => return Err(e),
            };
            let mut rest = match map_list(d) {
                Ok(s) => s,
                Err(e) => return Err(e),
            };
            let ghost tail = rest@;
            rest.insert(0, w);
            assert(rest@.drop_first() =~= tail);
            Ok(rest)
        },
        _ => Err(MapError::ImproperList),
    }
}

/// Translates the elements of an association list into (head, tail) pairs,
/// in order.
fn map_alist(l: &HostValue) -> (r: Result<Vec<(WireValue, WireValue)>, MapError>)
    ensures
        match alist_fault(*l) {
            Some(e) => r == Err::<Vec<(WireValue, WireValue)>, MapError>(e),
            None => r matches Ok(s) && alist_encodes_to(*l, s@),
        },
    decreases l, 0nat,
{
    match l {
        HostValue::Nil => Ok(Vec::new()),
        HostValue::Cons(a, d) => {
            let (k, v) = match &**a {
                HostValue::Cons(k, v) => (k, v),
                _ => return Err(MapError::ImproperList),
            };
            let wk = match map_to_wire(k) {
                Ok(w) => w,
                Err(e) => return Err(e),
            };
            let wv = match map_to_wire(v) {
                Ok(w) => w,
                Err(e) => return Err(e),
            };
            let mut rest = match map_alist(d) {
                Ok(s) => s,
                Err(e) => return Err(e),
            };
            let ghost tail = rest@;
            rest.insert(0, (wk, wv));
            assert(rest@.drop_first() =~= tail);
            Ok(rest)
        },
        _ => Err(MapError::ImproperList),
    }
}

} // verus!
