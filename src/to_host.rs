use vstd::prelude::*;

use crate::host::{byte_value, ext_name, list_elems, make_list, HostValue};
use crate::wire::WireValue;

verus! {

/// `h` is the host value that `w` translates to: nil and false become host
/// nil, true the `t` symbol, a binary or an array a vector, a map a list of
/// two-element lists, and an extension the list `(ext TAG (BYTES...))`.
pub open spec fn decodes_to(w: WireValue, h: HostValue) -> bool
    decreases w,
{
    match w {
        WireValue::Nil => h == HostValue::Nil,
        WireValue::Boolean(b) => if b {
            h == HostValue::True
        } else {
            h == HostValue::Nil
        },
        WireValue::Integer(i) => h == HostValue::Integer(i),
        WireValue::Float64(f) => h == HostValue::Float(f),
        WireValue::String(s) => h matches HostValue::Str(t) && t@ == s@,
        WireValue::Binary(b) => h matches HostValue::Vector(v) && v@ == b@.map_values(
            |x: u8| byte_value(x),
        ),
        WireValue::Array(a) => h matches HostValue::Vector(v) && v.len() == a.len() && forall|i: int|
            0 <= i < a.len() ==> decodes_to(a[i], #[trigger] v[i]),
        WireValue::Pairs(m) => list_elems(h) matches Some(s) && s.len() == m.len() && forall|i: int|
            0 <= i < m.len() ==> (list_elems(#[trigger] s[i]) matches Some(p) && p.len() == 2
                && decodes_to(m[i].0, p[0]) && decodes_to(m[i].1, p[1])),
        WireValue::Ext(tag, b) => list_elems(h) matches Some(s) && s.len() == 3 && (s[0] matches HostValue::Symbol(n)
            && n@ == ext_name()) && s[1] == HostValue::Integer(tag as i64) && list_elems(s[2]) == Some(
            b@.map_values(|x: u8| byte_value(x)),
        ),
    }
}

/// The host vector of the integers of `b`, in order.
fn byte_vector(b: &Vec<u8>) -> (r: Vec<HostValue>)
    ensures
        r@ == b@.map_values(|x: u8| byte_value(x)),
{
    let mut r: Vec<HostValue> = Vec::new();
    let mut i: usize = 0;
    while i < b.len()
        invariant
            i <= b.len(),
            r@ == b@.subrange(0, i as int).map_values(|x: u8| byte_value(x)),
        decreases b.len() - i,
    {
        r.push(HostValue::Integer(b[i] as i64));
        i += 1;
        assert(b@.subrange(0, i as int).map_values(|x: u8| byte_value(x)) =~= r@);
    }
    assert(b@.subrange(0, b.len() as int) =~= b@);
    r
}

/// Builds the proper host list of the integers of `b`, in order.
pub fn byte_list(b: &Vec<u8>) -> (r: HostValue)
    ensures
        list_elems(r) == Some(b@.map_values(|x: u8| byte_value(x))),
{
    make_list(byte_vector(b))
}

/// Translates a wire value into the host value it stands for.
pub fn map_to_host(w: &WireValue) -> (h: HostValue)
    ensures
        decodes_to(*w, h),
    decreases w,
{
    match w {
        WireValue::Nil => HostValue::Nil,
        WireValue::Boolean(b) => if *b {
            HostValue::True
        } else {
            HostValue::Nil
        },
        WireValue::Integer(i) => HostValue::Integer(*i),
        WireValue::Float64(f) => HostValue::Float(*f),
        WireValue::String(s) => HostValue::Str(s.clone()),
        WireValue::Binary(b) => HostValue::Vector(byte_vector(b)),
        WireValue::Array(a) => {
            let mut v: Vec<HostValue> = Vec::new();
            let mut i: usize = 0;
            while i < a.len()
                invariant
                    *w == WireValue::Array(*a),
                    i <= a.len(),
                    v.len() == i,
                    forall|j: int| 0 <= j < i ==> decodes_to(a[j], #[trigger] v[j]),
                decreases a.len() - i,
            {
                proof {
                    assert(decreases_to!(*w => (*w)->Array_0));
                }
                let e = map_to_host(&a[i]);
                v.push(e);
                i += 1;
            }
            HostValue::Vector(v)
        },
        WireValue::Pairs(m) => {
            let mut v: Vec<HostValue> = Vec::new();
            let mut i: usize = 0;
            while i < m.len()
                invariant
                    *w == WireValue::Pairs(*m),
                    i <= m.len(),
                    v.len() == i,
                    forall|j: int|
                        0 <= j < i ==> (list_elems(#[trigger] v[j]) matches Some(p) && p.len() == 2
                            && decodes_to(m[j].0, p[0]) && decodes_to(m[j].1, p[1])),
                decreases m.len() - i,
            {
                proof {
                    assert(decreases_to!(*w => (*w)->Pairs_0));
                }
                let k = map_to_host(&m[i].0);
                let x = map_to_host(&m[i].1);
                let pair = make_list(vec![k, x]);
                v.push(pair);
                i += 1;
            }
            make_list(v)
        },
        WireValue::Ext(tag, b) => {
            let name = "ext".to_owned();
            proof {
                reveal_strlit("ext");
                assert(name@ =~= ext_name());
            }
            let bytes = byte_list(b);
            let items = vec![HostValue::Symbol(name), HostValue::Integer(*tag as i64), bytes];
            make_list(items)
        },
    }
}

} // verus!
