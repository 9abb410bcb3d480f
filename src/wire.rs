use vstd::prelude::*;

verus! {

/// A value of the MessagePack data model, as a wire codec parses or
/// serialises it. A 64-bit float is held as its IEEE-754 bit pattern.
#[derive(Debug, PartialEq)]
pub enum WireValue {
    Nil,
    Boolean(bool),
    Integer(i64),
    Float64(u64),
    String(String),
    Binary(Vec<u8>),
    Array(Vec<WireValue>),
    Pairs(Vec<(WireValue, WireValue)>),
    Ext(i8, Vec<u8>),
}

} // verus!
