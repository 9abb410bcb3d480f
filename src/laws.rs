use vstd::prelude::*;

use crate::classify::is_alist;
use crate::host::{list_elems, HostValue};
use crate::to_host::decodes_to;
use crate::to_wire::{encodes_to, fault, items_fault};
use crate::wire::WireValue;

verus! {

/// Each wire leaf translates to exactly the host value of the table: nil
/// and false to nil, true to `t`, an integer, a float or a string to the
/// same integer, float or text.
pub proof fn leaves_follow_table(b: bool, i: i64, f: u64, s: String, h: HostValue)
    ensures
        decodes_to(WireValue::Nil, h) <==> h == HostValue::Nil,
        decodes_to(WireValue::Boolean(b), h) <==> h == (if b {
            HostValue::True
        } else {
            HostValue::Nil
        }),
        decodes_to(WireValue::Integer(i), h) <==> h == HostValue::Integer(i),
        decodes_to(WireValue::Float64(f), h) <==> h == HostValue::Float(f),
        decodes_to(WireValue::String(s), h) <==> (h matches HostValue::Str(t) && t@ == s@),
{
}

/// An empty array and an empty binary both translate to the empty host
/// vector, so the host side cannot tell them apart.
pub proof fn empty_array_and_binary_agree(a: Vec<WireValue>, b: Vec<u8>, h: HostValue)
    requires
        a.len() == 0,
        b.len() == 0,
    ensures
        decodes_to(WireValue::Array(a), h) <==> (h matches HostValue::Vector(v) && v.len() == 0),
        decodes_to(WireValue::Binary(b), h) <==> (h matches HostValue::Vector(v) && v.len() == 0),
{
    if let HostValue::Vector(v) = h {
        if v.len() == 0 {
            assert(v@ =~= b@.map_values(|x: u8| crate::host::byte_value(x)));
        }
    }
}

/// A map translates to a proper host list whose i-th element is the
/// two-element list of the translated key and value of the i-th pair.
pub proof fn map_keeps_pair_order(m: Vec<(WireValue, WireValue)>, h: HostValue, i: int)
    requires
        decodes_to(WireValue::Pairs(m), h),
        0 <= i < m.len(),
    ensures
        list_elems(h) matches Some(s) && s.len() == m.len() && (list_elems(s[i]) matches Some(p)
            && p.len() == 2 && decodes_to(m[i].0, p[0]) && decodes_to(m[i].1, p[1])),
{
}

/// `h` is built from nil, `t`, 64-bit integers, floats, strings and vectors
/// of such values only.
pub open spec fn is_plain(h: HostValue) -> bool
    decreases h,
{
    match h {
        HostValue::Nil => true,
        HostValue::True => true,
        HostValue::Integer(_) => true,
        HostValue::Float(_) => true,
        HostValue::Str(_) => true,
        HostValue::Vector(v) => forall|i: int| 0 <= i < v.len() ==> is_plain(#[trigger] v[i]),
        _ => false,
    }
}

/// A plain host value translates to the wire without failure, and that wire
/// value translates back to the same host value.
pub proof fn plain_values_round_trip(h: HostValue, w: WireValue)
    requires
        is_plain(h),
        encodes_to(h, w),
    ensures
        fault(h) == None::<crate::error::MapError>,
        decodes_to(w, h),
    decreases h,
{
    if let HostValue::Vector(v) = h {
        let a = w->Array_0;
        assert forall|i: int| 0 <= i < v.len() implies fault(#[trigger] v[i]) == None::<
            crate::error::MapError,
        > && decodes_to(a[i], v[i]) by {
            plain_values_round_trip(v[i], a[i]);
        }
        plain_items_have_no_fault(v@, 0);
    }
}

proof fn plain_items_have_no_fault(s: Seq<HostValue>, i: int)
    requires
        0 <= i,
        forall|j: int| 0 <= j < s.len() ==> fault(#[trigger] s[j]) == None::<crate::error::MapError>,
    ensures
        items_fault(s, i) == None::<crate::error::MapError>,
    decreases s.len() - i,
{
    if i < s.len() {
        plain_items_have_no_fault(s, i + 1);
    }
}

/// A proper host list is an association list exactly when every element is
/// a cons cell: nil is one, and a list that holds a bare integer is not.
pub proof fn alist_iff_all_cons(h: HostValue)
    requires
        list_elems(h) is Some,
    ensures
        is_alist(h) <==> forall|i: int|
            0 <= i < list_elems(h)->0.len() ==> #[trigger] list_elems(h)->0[i] is Cons,
    decreases h,
{
    if let HostValue::Cons(a, d) = h {
        alist_iff_all_cons(*d);
        let s = list_elems(h)->0;
        let t = list_elems(*d)->0;
        assert(s =~= seq![*a] + t);
        assert(s[0] == *a);
        if !is_alist(h) && *a is Cons {
            let j = choose|j: int| 0 <= j < t.len() && !(#[trigger] t[j] is Cons);
            assert(s[j + 1] == t[j]);
        }
        if is_alist(h) {
            assert forall|i: int| 0 <= i < s.len() implies #[trigger] s[i] is Cons by {
                if i > 0 {
                    assert(s[i] == t[i - 1]);
                }
            }
        }
    }
}

} // verus!
