use vstd::prelude::*;

verus! {

/// A value of the host runtime's dynamic type system.
///
/// `Symbol` is any symbol other than `t` and `nil`, which are `True` and
/// `Nil`. `BigInteger` is an integer the host holds that does not fit in
/// 64 signed bits. `Other` is any value the mappers do not translate
/// (a function, a buffer, ...). A float is held as its IEEE-754 bits.
#[derive(Debug, PartialEq)]
pub enum HostValue {
    Nil,
    True,
    Integer(i64),
    BigInteger,
    Float(u64),
    Str(String),
    Vector(Vec<HostValue>),
    Cons(Box<HostValue>, Box<HostValue>),
    Symbol(String),
    Other,
}

/// The elements of `h` when it is a proper (nil-terminated) list.
pub open spec fn list_elems(h: HostValue) -> Option<Seq<HostValue>>
    decreases h,
{
    match h {
        HostValue::Nil => Some(Seq::empty()),
        HostValue::Cons(a, d) => match list_elems(*d) {
            Some(s) => Some(seq![*a] + s),
            None => None,
        },
        _ => None,
    }
}

/// The host integer that stands for a byte.
pub open spec fn byte_value(b: u8) -> HostValue {
    HostValue::Integer(b as i64)
}

/// The name of the marker symbol that heads a decoded extension value.
pub open spec fn ext_name() -> Seq<char> {
    seq!['e', 'x', 't']
}

/// Builds the proper list of `items`, in order.
pub fn make_list(items: Vec<HostValue>) -> (r: HostValue)
    ensures
        list_elems(r) == Some(items@),
{
    let ghost all = items@;
    let mut items = items;
    let mut r = HostValue::Nil;
    while items.len() > 0
        invariant
            list_elems(r) == Some(all.subrange(items.len() as int, all.len() as int)),
            items.len() <= all.len(),
            items@ == all.subrange(0, items.len() as int),
        decreases items.len(),
    {
        let x = items.pop().unwrap();
        let ghost rest = list_elems(r)->0;
        r = HostValue::Cons(Box::new(x), Box::new(r));
        assert(all.subrange(items.len() as int, all.len() as int) =~= seq![x] + rest);
    }
    assert(all.subrange(0, all.len() as int) =~= all);
    r
}

} // verus!
