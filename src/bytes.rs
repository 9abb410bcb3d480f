use vstd::prelude::*;

use crate::error::MapError;
use crate::host::HostValue;

verus! {

/// The bytes that the host list `h` holds: each element must be an integer
/// from 0 to 255, and the list must end in nil. The first failure in list
/// order decides the error.
pub open spec fn bytes_of(h: HostValue) -> Result<Seq<u8>, MapError>
    decreases h,
{
    match h {
        HostValue::Nil => Ok(Seq::empty()),
        HostValue::Cons(a, d) => match *a {
            HostValue::Integer(i) => if 0 <= i <= 255 {
                match bytes_of(*d) {
                    Ok(s) => Ok(seq![i as u8] + s),
                    Err(e) => Err(e),
                }
            } else {
                Err(MapError::NotAByte)
            },
            _ => Err(MapError::NotAByte),
        },
        _ => Err(MapError::ImproperList),
    }
}

/// Reads a host list of byte-sized integers into a byte buffer.
pub fn host_bytes(h: &HostValue) -> (r: Result<Vec<u8>, MapError>)
    ensures
        match bytes_of(*h) {
            Ok(s) => r matches Ok(b) && b@ == s,
            Err(e) => r == Err::<Vec<u8>, MapError>(e),
        },
{
    let mut out: Vec<u8> = Vec::new();
    let mut l: &HostValue = h;
    loop
        invariant
            match bytes_of(*l) {
                Ok(s) => bytes_of(*h) == Ok::<Seq<u8>, MapError>(out@ + s),
                Err(e) => bytes_of(*h) == Err::<Seq<u8>, MapError>(e),
            },
        decreases *l,
    {
        match l {
            HostValue::Nil => {
                assert(out@ + Seq::<u8>::empty() =~= out@);
                return Ok(out);
            },
            HostValue::Cons(a, d) => {
                match **a {
                    HostValue::Integer(i) => {
                        if 0 <= i && i <= 255 {
                            let ghost before = out@;
                            out.push(i as u8);
                            proof {
                                if let Ok(s) = bytes_of(**d) {
                                    assert(before + (seq![i as u8] + s) =~= out@ + s);
                                }
                            }
                            l = d;
                        } else {
                            return Err(MapError::NotAByte);
                        }
                    },
                    _ => return Err(MapError::NotAByte),
                }
            },
            _ => return Err(MapError::ImproperList),
        }
    }
}

} // verus!
