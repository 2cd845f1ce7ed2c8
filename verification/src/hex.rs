//! Lower-case hexadecimal encoding and constant-time comparison.

use vstd::prelude::*;

verus! {

/// The lower-case hex digit for a value below 16.
pub open spec fn hex_digit(v: int) -> char {
    if v < 10 {
        (('0' as int) + v) as char
    } else {
        (('a' as int) + v - 10) as char
    }
}

/// Lower-case hex encoding: two digits per byte, high nibble first.
pub open spec fn hex_of(b: Seq<u8>) -> Seq<char> {
    Seq::new(
        2 * b.len(),
        |i: int|
            if i % 2 == 0 {
                hex_digit(b[i / 2] as int / 16)
            } else {
                hex_digit(b[i / 2] as int % 16)
            },
    )
}

fn hex_char(v: u8) -> (c: char)
    requires
        v < 16,
    ensures
        c == hex_digit(v as int),
{
    if v < 10 {
        ((48u8 + v) as char)
    } else {
        ((87u8 + v) as char)
    }
}

/// Encodes bytes as lower-case hex.
pub fn encode_hex(data: &[u8]) -> (r: String)
    ensures
        r@ == hex_of(data@),
{
    let mut r = String::new();
    let mut i: usize = 0;
    while i < data.len()
        invariant
            i <= data.len(),
            r@ == hex_of(data@.take(i as int)),
        decreases data.len() - i,
    {
        let b = data[i];
        r.push(hex_char(b / 16));
        r.push(hex_char(b % 16));
        i = i + 1;
        assert(r@ =~= hex_of(data@.take(i as int)));
    }
    assert(data@.take(data.len() as int) =~= data@);
    r
}

/// Compares two byte strings, looking at every byte whatever the
/// earlier ones held.
pub fn constant_time_eq(a: &[u8], b: &[u8]) -> (r: bool)
    ensures
        r == (a@ == b@),
{
    if a.len() != b.len() {
        return false;
    }
    let mut diff: u8 = 0;
    let mut i: usize = 0;
    assert(a@.take(0) =~= b@.take(0));
    while i < a.len()
        invariant
            i <= a.len(),
            a.len() == b.len(),
            (diff == 0) == (a@.take(i as int) == b@.take(i as int)),
        decreases a.len() - i,
    {
        let x = a[i];
        let y = b[i];
        let d = x ^ y;
        assert((d == 0) == (x == y)) by (bit_vector)
            requires d == x ^ y;
        let nd = diff | d;
        assert((nd == 0) == (diff == 0 && d == 0)) by (bit_vector)
            requires nd == diff | d;
        proof {
            if diff == 0 && d == 0 {
                assert(a@.take(i + 1) =~= a@.take(i as int).push(x));
                assert(b@.take(i + 1) =~= b@.take(i as int).push(y));
            } else if d != 0 {
                assert(a@.take(i + 1)[i as int] == x);
                assert(b@.take(i + 1)[i as int] == y);
            } else {
                assert(a@.take(i + 1).take(i as int) =~= a@.take(i as int));
                assert(b@.take(i + 1).take(i as int) =~= b@.take(i as int));
            }
        }
        diff = nd;
        i = i + 1;
    }
    assert(a@.take(a.len() as int) =~= a@);
    assert(b@.take(b.len() as int) =~= b@);
    diff == 0
}

/// Compares two strings character by character in constant time.
pub fn constant_time_eq_str(a: &str, b: &str) -> (r: bool)
    ensures
        r == (a@ == b@),
{
    let x = a.as_bytes();
    let y = b.as_bytes();
    let r = constant_time_eq(x, y);
    proof {
        vstd::utf8::encode_utf8_decode_utf8(a@);
        vstd::utf8::encode_utf8_decode_utf8(b@);
    }
    r
}

} // verus!
