//! Whether diagnostic logging is switched on.

use vstd::prelude::*;

verus! {

/// The property values that switch logging on: `1` and `true`.
pub open spec fn enables_logging(value: Seq<u8>) -> bool {
    value == seq![0x31u8] || value == seq![0x74u8, 0x72u8, 0x75u8, 0x65u8]
}

/// Whether a system property read into `value`, `len` bytes long (or
/// not set, for a `len` of 0 or less), switches logging on.
pub fn logging_enabled(value: &[u8], len: i32) -> (enabled: bool)
    requires
        len <= value@.len(),
    ensures
        enabled == (len > 0 && enables_logging(value@.take(len as int))),
{
    if len <= 0 {
        return false;
    }
    let n = len as usize;
    let one = n == 1 && value[0] == 0x31u8;
    let truth = n == 4 && value[0] == 0x74u8 && value[1] == 0x72u8 && value[2] == 0x75u8 && value[3] == 0x65u8;
    proof {
        let v = value@.take(len as int);
        let a = seq![0x31u8];
        let b = seq![0x74u8, 0x72u8, 0x75u8, 0x65u8];
        assert(a.len() == 1 && a[0] == 0x31u8);
        assert(b.len() == 4 && b[0] == 0x74u8 && b[1] == 0x72u8 && b[2] == 0x75u8 && b[3] == 0x65u8);
        if v == a {
            assert(v[0] == value@[0]);
        }
        if v == b {
            assert(v[0] == value@[0] && v[1] == value@[1] && v[2] == value@[2] && v[3] == value@[3]);
        }
        if one {
            assert(v =~= a);
        }
        if truth {
            assert(v =~= b);
        }
    }
    one || truth
}

} // verus!
