//! The canonical byte encoding that all peers hash.
//!
//! A block header is rendered as the concatenation of its fields: integers in
//! decimal, byte strings in the bracketed form `[1, 2, 3]`, timestamps as
//! their UTF-8 bytes. Every peer must produce exactly these bytes or block
//! hashes will not validate across the network.

use vstd::prelude::*;

verus! {

/// Decimal rendering of `n` as ASCII bytes, most significant digit first,
/// with no leading zeroes (`0` renders as "0").
pub open spec fn dec_bytes(n: nat) -> Seq<u8>
    decreases n,
{
    if n < 10 {
        seq![(48 + n) as u8]
    } else {
        dec_bytes(n / 10) + seq![(48 + n % 10) as u8]
    }
}

/// The comma-separated decimal list inside a bracketed byte string.
pub open spec fn byte_list_body(s: Seq<u8>) -> Seq<u8>
    decreases s.len(),
{
    if s.len() == 0 {
        seq![]
    } else if s.len() == 1 {
        dec_bytes(s[0] as nat)
    } else {
        dec_bytes(s[0] as nat) + seq![44u8, 32u8] + byte_list_body(s.drop_first())
    }
}

/// Bracketed rendering of a byte string: `[1, 2, 3]`, `[]` when empty.
pub open spec fn render_bytes(s: Seq<u8>) -> Seq<u8> {
    seq![91u8] + byte_list_body(s) + seq![93u8]
}

/// Appends the decimal rendering of `n` to `out`.
pub fn push_dec_u128(out: &mut Vec<u8>, n: u128)
    ensures
        final(out)@ == old(out)@ + dec_bytes(n as nat),
    decreases n,
{
    if n < 10 {
        out.push(48 + n as u8);
        assert(out@ == old(out)@ + dec_bytes(n as nat));
    } else {
        push_dec_u128(out, n / 10);
        out.push(48 + (n % 10) as u8);
        assert(out@ == old(out)@ + dec_bytes(n as nat));
    }
}

fn push_list_body(out: &mut Vec<u8>, bytes: &Vec<u8>, from: usize)
    requires
        from <= bytes@.len(),
    ensures
        final(out)@ == old(out)@ + byte_list_body(bytes@.skip(from as int)),
    decreases bytes@.len() - from,
{
    if from < bytes.len() {
        let b = bytes[from];
        push_dec_u128(out, b as u128);
        if from + 1 < bytes.len() {
            out.push(44);
            out.push(32);
        }
        push_list_body(out, bytes, from + 1);
        proof {
            let s = bytes@.skip(from as int);
            assert(s[0] == bytes@[from as int]);
            assert(s.drop_first() =~= bytes@.skip(from as int + 1));
            assert(out@ == old(out)@ + byte_list_body(s));
        }
    } else {
        assert(bytes@.skip(from as int) =~= Seq::<u8>::empty());
    }
}

/// Appends the bracketed rendering of `bytes` to `out`.
pub fn push_rendered_bytes(out: &mut Vec<u8>, bytes: &Vec<u8>)
    ensures
        final(out)@ == old(out)@ + render_bytes(bytes@),
{
    out.push(91);
    push_list_body(out, bytes, 0);
    out.push(93);
    proof {
        assert(bytes@.skip(0) =~= bytes@);
        assert(out@ == old(out)@ + render_bytes(bytes@));
    }
}

/// Appends the UTF-8 bytes of `s` to `out`.
pub fn push_str_bytes(out: &mut Vec<u8>, s: &str)
    ensures
        final(out)@ == old(out)@ + vstd::utf8::encode_utf8(s@),
{
    let bs = s.as_bytes();
    let n = bs.len();
    for i in 0..n
        invariant
            n == bs@.len(),
            bs@ == vstd::utf8::encode_utf8(s@),
            out@ == old(out)@ + bs@.take(i as int),
    {
        let b = *vstd::slice::slice_index_get(bs, i);
        out.push(b);
        assert(bs@.take(i as int).push(b) =~= bs@.take(i + 1));
    }
    assert(bs@.take(n as int) =~= bs@);
}

} // verus!
