//! Standard padded base64 (RFC 4648 alphabet, `=` padding): the text an
//! encoding produces, and the bytes a decoding accepts. Decoding accepts
//! exactly the canonical encodings, so it undoes encoding.

use vstd::prelude::*;

verus! {

/// The base64 symbol of a six-bit value.
pub open spec fn b64_char(v: int) -> char {
    if v < 26 {
        (('A' as int) + v) as char
    } else if v < 52 {
        (('a' as int) + v - 26) as char
    } else if v < 62 {
        (('0' as int) + v - 52) as char
    } else if v == 62 {
        '+'
    } else {
        '/'
    }
}

/// Four symbols for a 24-bit word holding `k` (1 to 3) real bytes; the
/// symbols that carry no real bits are `=`.
pub open spec fn b64_quad(w: int, k: int) -> Seq<char> {
    let c0 = b64_char(w / 262144 % 64);
    let c1 = b64_char(w / 4096 % 64);
    let c2 = b64_char(w / 64 % 64);
    let c3 = b64_char(w % 64);
    if k >= 3 {
        seq![c0, c1, c2, c3]
    } else if k == 2 {
        seq![c0, c1, c2, '=']
    } else {
        seq![c0, c1, '=', '=']
    }
}

/// The 24-bit word of the first (up to) three bytes, missing bytes zero.
pub open spec fn b64_word(b: Seq<u8>) -> int {
    let b0: int = b[0] as int;
    let b1: int = if b.len() > 1 { b[1] as int } else { 0 };
    let b2: int = if b.len() > 2 { b[2] as int } else { 0 };
    b0 * 65536 + b1 * 256 + b2
}

/// Padded base64 text of a byte string.
pub open spec fn base64_of(b: Seq<u8>) -> Seq<char>
    decreases b.len(),
{
    if b.len() == 0 {
        Seq::<char>::empty()
    } else if b.len() <= 3 {
        b64_quad(b64_word(b), b.len() as int)
    } else {
        b64_quad(b64_word(b), 3) + base64_of(b.skip(3))
    }
}

/// What decoding a text gives: the bytes whose canonical encoding it is,
/// or nothing when it is no canonical encoding.
pub open spec fn base64_decoded(s: Seq<char>) -> Option<Seq<u8>> {
    if exists|b: Seq<u8>| base64_of(b) == s {
        Some(choose|b: Seq<u8>| base64_of(b) == s)
    } else {
        None
    }
}

pub proof fn lemma_b64_char(v: int, u: int)
    requires
        0 <= v < 64,
        0 <= u < 64,
    ensures
        b64_char(v) != '=',
        b64_char(v) == b64_char(u) ==> v == u,
{
}

pub proof fn lemma_word_bytes(x0: u32, x1: u32, x2: u32)
    by (bit_vector)
    requires
        x0 < 256,
        x1 < 256,
        x2 < 256,
    ensures
        x0 == ((x0 * 65536 + x1 * 256 + x2) / 262144 % 64) * 4 + ((x0 * 65536 + x1 * 256 + x2)
            / 4096 % 64) / 16,
        x1 == (((x0 * 65536 + x1 * 256 + x2) / 4096 % 64) % 16) * 16 + ((x0 * 65536 + x1 * 256
            + x2) / 64 % 64) / 4,
        x2 == (((x0 * 65536 + x1 * 256 + x2) / 64 % 64) % 4) * 64 + (x0 * 65536 + x1 * 256 + x2)
            % 64,
{
}

/// Equal quads come from the same bytes.
pub proof fn lemma_quad_injective(a: Seq<u8>, b: Seq<u8>, ka: int, kb: int)
    requires
        a.len() >= 1,
        b.len() >= 1,
        ka == if a.len() >= 3 { 3 } else { a.len() as int },
        kb == if b.len() >= 3 { 3 } else { b.len() as int },
        b64_quad(b64_word(a), ka) == b64_quad(b64_word(b), kb),
    ensures
        ka == kb,
        a.take(ka) == b.take(kb),
{
    let wa = b64_word(a);
    let wb = b64_word(b);
    let qa = b64_quad(wa, ka);
    let qb = b64_quad(wb, kb);
    let a0 = a[0] as u32;
    let a1: u32 = if a.len() > 1 { a[1] as u32 } else { 0 };
    let a2: u32 = if a.len() > 2 { a[2] as u32 } else { 0 };
    let b0 = b[0] as u32;
    let b1: u32 = if b.len() > 1 { b[1] as u32 } else { 0 };
    let b2: u32 = if b.len() > 2 { b[2] as u32 } else { 0 };
    assert(wa == a0 * 65536 + a1 * 256 + a2);
    assert(wb == b0 * 65536 + b1 * 256 + b2);
    lemma_word_bytes(a0, a1, a2);
    lemma_word_bytes(b0, b1, b2);
    assert(0 <= wa && 0 <= wb);
    lemma_b64_char(wa / 262144 % 64, wb / 262144 % 64);
    lemma_b64_char(wa / 4096 % 64, wb / 4096 % 64);
    lemma_b64_char(wa / 64 % 64, wb / 64 % 64);
    lemma_b64_char(wa % 64, wb % 64);
    assert(qa[0] == qb[0]);
    assert(qa[1] == qb[1]);
    assert(qa[2] == qb[2]);
    assert(qa[3] == qb[3]);
    assert(ka == kb);
    if ka >= 2 {
        assert(wa / 64 % 64 == wb / 64 % 64);
    }
    if ka >= 3 {
        assert(wa % 64 == wb % 64);
    }
    assert(a.take(ka) =~= b.take(kb));
}

pub proof fn lemma_base64_len(b: Seq<u8>)
    ensures
        b.len() == 0 <==> base64_of(b).len() == 0,
        1 <= b.len() <= 3 ==> base64_of(b).len() == 4,
        b.len() > 3 ==> base64_of(b).len() > 4,
    decreases b.len(),
{
    if b.len() > 3 {
        lemma_base64_len(b.skip(3));
    }
}

/// Base64 encoding is injective.
pub proof fn lemma_base64_injective(a: Seq<u8>, b: Seq<u8>)
    requires
        base64_of(a) == base64_of(b),
    ensures
        a == b,
    decreases a.len(),
{
    lemma_base64_len(a);
    lemma_base64_len(b);
    if a.len() == 0 {
        assert(b.len() == 0);
        assert(a =~= b);
    } else if a.len() <= 3 {
        assert(1 <= b.len() <= 3);
        lemma_quad_injective(a, b, a.len() as int, b.len() as int);
        assert(a.take(a.len() as int) =~= a);
        assert(b.take(b.len() as int) =~= b);
    } else {
        assert(b.len() > 3);
        let qa = b64_quad(b64_word(a), 3);
        let qb = b64_quad(b64_word(b), 3);
        let ea = base64_of(a);
        assert(ea.take(4) =~= qa);
        assert(base64_of(b).take(4) =~= qb);
        assert(ea.skip(4) =~= base64_of(a.skip(3)));
        assert(base64_of(b).skip(4) =~= base64_of(b.skip(3)));
        lemma_quad_injective(a, b, 3, 3);
        lemma_base64_injective(a.skip(3), b.skip(3));
        assert(a =~= a.take(3) + a.skip(3));
        assert(b =~= b.take(3) + b.skip(3));
    }
}

/// Decoding an encoding gives back the bytes.
pub proof fn lemma_base64_roundtrip(b: Seq<u8>)
    ensures
        base64_decoded(base64_of(b)) == Some(b),
{
    let s = base64_of(b);
    assert(exists|x: Seq<u8>| base64_of(x) == s);
    let c = choose|x: Seq<u8>| base64_of(x) == s;
    lemma_base64_injective(c, b);
}

} // verus!
