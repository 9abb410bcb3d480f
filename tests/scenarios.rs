use msgpack_lisp::bytes::host_bytes;
use msgpack_lisp::classify::is_association_list;
use msgpack_lisp::host::{make_list, HostValue};
use msgpack_lisp::to_host::{byte_list, map_to_host};
use msgpack_lisp::to_wire::map_to_wire;
use msgpack_lisp::wire::WireValue;

fn to_rmpv(w: &WireValue) -> rmpv::Value {
    match w {
        WireValue::Nil => rmpv::Value::Nil,
        WireValue::Boolean(b) => rmpv::Value::Boolean(*b),
        WireValue::Integer(i) => rmpv::Value::from(*i),
        WireValue::Float64(f) => rmpv::Value::F64(f64::from_bits(*f)),
        WireValue::String(s) => rmpv::Value::from(s.as_str()),
        WireValue::Binary(b) => rmpv::Value::Binary(b.clone()),
        WireValue::Array(a) => rmpv::Value::Array(a.iter().map(to_rmpv).collect()),
        WireValue::Pairs(m) => rmpv::Value::Map(m.iter().map(|(k, v)| (to_rmpv(k), to_rmpv(v))).collect()),
        WireValue::Ext(t, b) => rmpv::Value::Ext(*t, b.clone()),
    }
}

fn from_rmpv(v: rmpv::Value) -> WireValue {
    match v {
        rmpv::Value::Nil => WireValue::Nil,
        rmpv::Value::Boolean(b) => WireValue::Boolean(b),
        rmpv::Value::Integer(i) => i.as_i64().map_or(WireValue::Nil, WireValue::Integer),
        rmpv::Value::F32(f) => WireValue::Float64((f as f64).to_bits()),
        rmpv::Value::F64(f) => WireValue::Float64(f.to_bits()),
        rmpv::Value::String(s) => s.into_str().map_or(WireValue::Nil, WireValue::String),
        rmpv::Value::Binary(b) => WireValue::Binary(b),
        rmpv::Value::Array(a) => WireValue::Array(a.into_iter().map(from_rmpv).collect()),
        rmpv::Value::Map(m) => WireValue::Pairs(m.into_iter().map(|(k, v)| (from_rmpv(k), from_rmpv(v))).collect()),
        rmpv::Value::Ext(t, b) => WireValue::Ext(t, b),
    }
}

fn encode_host(h: &HostValue) -> (WireValue, Vec<u8>) {
    let w = map_to_wire(h).unwrap();
    let mut buf = Vec::new();
    rmpv::encode::write_value(&mut buf, &to_rmpv(&w)).unwrap();
    (w, buf)
}

fn decode_bytes(b: &[u8]) -> HostValue {
    let v = rmpv::decode::read_value(&mut &b[..]).unwrap();
    map_to_host(&from_rmpv(v))
}

fn hint(i: i64) -> HostValue {
    HostValue::Integer(i)
}

fn text(s: &str) -> HostValue {
    HostValue::Str(s.to_string())
}

fn cons(a: HostValue, d: HostValue) -> HostValue {
    HostValue::Cons(Box::new(a), Box::new(d))
}

#[test]
fn integer_42_round_trip() {
    let (w, bytes) = encode_host(&hint(42));
    assert_eq!(w, WireValue::Integer(42));
    assert_eq!(bytes, vec![0x2A]);
    assert_eq!(byte_list(&bytes), make_list(vec![hint(42)]));
    let read_back = host_bytes(&byte_list(&bytes)).unwrap();
    assert_eq!(decode_bytes(&read_back), hint(42));
}

#[test]
fn vector_of_three_round_trip() {
    let h = HostValue::Vector(vec![hint(1), hint(2), hint(3)]);
    let (w, bytes) = encode_host(&h);
    assert_eq!(w, WireValue::Array(vec![WireValue::Integer(1), WireValue::Integer(2), WireValue::Integer(3)]));
    assert_eq!(bytes, vec![0x93, 0x01, 0x02, 0x03]);
    assert_eq!(decode_bytes(&bytes), h);
}

#[test]
fn alist_round_trip_gives_list_of_pairs() {
    let h = make_list(vec![cons(hint(1), text("a")), cons(hint(2), text("b"))]);
    let (w, bytes) = encode_host(&h);
    assert_eq!(
        w,
        WireValue::Pairs(vec![
            (WireValue::Integer(1), WireValue::String("a".to_string())),
            (WireValue::Integer(2), WireValue::String("b".to_string())),
        ])
    );
    let back = decode_bytes(&bytes);
    let expected = make_list(vec![make_list(vec![hint(1), text("a")]), make_list(vec![hint(2), text("b")])]);
    assert_eq!(back, expected);
    assert!(is_association_list(&back));
    assert!(matches!(map_to_wire(&back), Ok(WireValue::Pairs(_))));
}

#[test]
fn extension_decodes_to_ext_list() {
    let mut bytes = Vec::new();
    rmpv::encode::write_value(&mut bytes, &rmpv::Value::Ext(5, vec![1, 2])).unwrap();
    let expected = make_list(vec![HostValue::Symbol("ext".to_string()), hint(5), make_list(vec![hint(1), hint(2)])]);
    assert_eq!(decode_bytes(&bytes), expected);
}
