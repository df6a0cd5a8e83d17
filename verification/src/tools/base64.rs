//! Standard base64 (RFC 4648, with `=` padding), used to embed SVG images in
//! tool results.
use vstd::prelude::*;

use crate::text::push_char;

verus! {

/// The alphabet character for a 6-bit value `v`.
pub open spec fn sextet_char(v: int) -> char {
    if v < 26 {
        (65 + v) as char
    } else if v < 52 {
        (97 + (v - 26)) as char
    } else if v < 62 {
        (48 + (v - 52)) as char
    } else if v == 62 {
        '+'
    } else {
        '/'
    }
}

/// The four output characters of one input group of one to three bytes.
pub open spec fn encode_group(g: Seq<u8>) -> Seq<char> {
    let b0 = g[0] as int;
    let b1 = if g.len() > 1 { g[1] as int } else { 0 };
    let b2 = if g.len() > 2 { g[2] as int } else { 0 };
    seq![
        sextet_char(b0 / 4),
        sextet_char((b0 % 4) * 16 + b1 / 16),
        if g.len() > 1 { sextet_char((b1 % 16) * 4 + b2 / 64) } else { '=' },
        if g.len() > 2 { sextet_char(b2 % 64) } else { '=' },
    ]
}

/// The base64 text of `b`: each group of three bytes, the last one possibly
/// shorter, becomes four characters.
pub open spec fn base64_text(b: Seq<u8>) -> Seq<char>
    decreases b.len(),
{
    if b.len() == 0 {
        Seq::empty()
    } else if b.len() <= 3 {
        encode_group(b)
    } else {
        encode_group(b.take(3)) + base64_text(b.skip(3))
    }
}

/// The characters base64 may produce: the 64 alphabet characters and `=`.
pub open spec fn base64_alphabet(c: char) -> bool {
    ||| ('A' <= c && c <= 'Z')
    ||| ('a' <= c && c <= 'z')
    ||| ('0' <= c && c <= '9')
    ||| c == '+'
    ||| c == '/'
    ||| c == '='
}

/// Law: encoding a concatenation whose first part is a whole number of
/// three-byte groups is the concatenation of the encodings.
pub proof fn law_base64_concat(x: Seq<u8>, y: Seq<u8>)
    requires
        x.len() % 3 == 0,
    ensures
        base64_text(x + y) == base64_text(x) + base64_text(y),
    decreases x.len(),
{
    if x.len() == 0 {
        assert(x + y =~= y);
        assert(Seq::<char>::empty() + base64_text(y) =~= base64_text(y));
    } else {
        let xy = x + y;
        assert(xy.take(3) =~= x.take(3));
        assert(xy.skip(3) =~= x.skip(3) + y);
        law_base64_concat(x.skip(3), y);
        if x.len() == 3 {
            assert(x.skip(3) =~= Seq::<u8>::empty());
            assert(x.take(3) =~= x);
            assert(x.skip(3) + y =~= y);
            if y.len() == 0 {
                assert(xy =~= x);
                assert(base64_text(x) + base64_text(y) =~= base64_text(x));
            }
        } else {
            assert(encode_group(x.take(3)) + (base64_text(x.skip(3)) + base64_text(y))
                =~= encode_group(x.take(3)) + base64_text(x.skip(3)) + base64_text(y));
        }
    }
}

/// Law: the encoding of `n` bytes has `4 * ceil(n / 3)` characters.
pub proof fn law_base64_length(b: Seq<u8>)
    ensures
        base64_text(b).len() == 4 * ((b.len() + 2) / 3),
    decreases b.len(),
{
    if b.len() > 3 {
        law_base64_length(b.skip(3));
    }
}

/// Law: the encoding holds only alphabet characters and `=`.
pub proof fn law_base64_alphabet(b: Seq<u8>)
    ensures
        forall|i: int| 0 <= i < base64_text(b).len() ==> base64_alphabet(#[trigger] base64_text(b)[i]),
    decreases b.len(),
{
    if b.len() > 3 {
        law_base64_alphabet(b.skip(3));
        let e = base64_text(b);
        assert forall|i: int| 0 <= i < e.len() implies base64_alphabet(#[trigger] e[i]) by {
            if i >= 4 {
                assert(e[i] == base64_text(b.skip(3))[i - 4]);
            }
        }
    }
}

/// The 6-bit value of an alphabet character (zero for any other).
pub open spec fn sextet_value(c: char) -> int {
    if 'A' <= c && c <= 'Z' {
        c as int - 65
    } else if 'a' <= c && c <= 'z' {
        c as int - 97 + 26
    } else if '0' <= c && c <= '9' {
        c as int - 48 + 52
    } else if c == '+' {
        62
    } else if c == '/' {
        63
    } else {
        0
    }
}

/// The bytes of one four-character group, as RFC 4648 decodes it: a `=` in
/// the third place leaves one byte, in the fourth place two.
pub open spec fn decode_group(q: Seq<char>) -> Seq<u8> {
    let v0 = sextet_value(q[0]);
    let v1 = sextet_value(q[1]);
    let v2 = sextet_value(q[2]);
    let v3 = sextet_value(q[3]);
    let b0 = (v0 * 4 + v1 / 16) as u8;
    let b1 = ((v1 % 16) * 16 + v2 / 4) as u8;
    let b2 = ((v2 % 4) * 64 + v3) as u8;
    if q[2] == '=' {
        seq![b0]
    } else if q[3] == '=' {
        seq![b0, b1]
    } else {
        seq![b0, b1, b2]
    }
}

/// The standard (RFC 4648) decoding of a base64 text, group by group.
pub open spec fn base64_decoded(s: Seq<char>) -> Seq<u8>
    decreases s.len(),
{
    if s.len() < 4 {
        Seq::empty()
    } else {
        decode_group(s.take(4)) + base64_decoded(s.skip(4))
    }
}

proof fn lemma_sextet_round_trip(v: int)
    requires
        0 <= v < 64,
    ensures
        sextet_value(sextet_char(v)) == v,
        sextet_char(v) != '=',
{
}

proof fn lemma_group_round_trip(g: Seq<u8>)
    requires
        1 <= g.len() <= 3,
    ensures
        decode_group(encode_group(g)) == g,
{
    let b0 = g[0];
    let b1: u8 = if g.len() > 1 { g[1] } else { 0 };
    let b2: u8 = if g.len() > 2 { g[2] } else { 0 };
    let v0 = b0 / 4;
    let v1 = (b0 % 4) * 16 + b1 / 16;
    let v2 = (b1 % 16) * 4 + b2 / 64;
    let v3 = b2 % 64;
    assert(0 <= v0 < 64 && 0 <= v1 < 64 && 0 <= v2 < 64 && 0 <= v3 < 64);
    lemma_sextet_round_trip(v0 as int);
    lemma_sextet_round_trip(v1 as int);
    lemma_sextet_round_trip(v2 as int);
    lemma_sextet_round_trip(v3 as int);
    assert(v0 * 4 + v1 / 16 == b0 && (v1 % 16) * 16 + v2 / 4 == b1 && (v2 % 4) * 64 + v3 == b2)
        by (nonlinear_arith)
        requires
            0 <= b0 < 256,
            0 <= b1 < 256,
            0 <= b2 < 256,
            v0 == b0 / 4,
            v1 == (b0 % 4) * 16 + b1 / 16,
            v2 == (b1 % 16) * 4 + b2 / 64,
            v3 == b2 % 64,
    ;
    assert(decode_group(encode_group(g)) =~= g);
}

/// Law: decoding the encoding gives the bytes back.
pub proof fn law_base64_round_trip(b: Seq<u8>)
    ensures
        base64_decoded(base64_text(b)) == b,
    decreases b.len(),
{
    let e = base64_text(b);
    law_base64_length(b);
    if b.len() == 0 {
    } else if b.len() <= 3 {
        lemma_group_round_trip(b);
        assert(e.take(4) =~= e);
        assert(e.skip(4) =~= Seq::<char>::empty());
        assert(base64_decoded(e) == decode_group(e.take(4)) + base64_decoded(e.skip(4)));
        assert(decode_group(e) + Seq::<u8>::empty() =~= b);
    } else {
        law_base64_round_trip(b.skip(3));
        lemma_group_round_trip(b.take(3));
        assert(e.take(4) =~= encode_group(b.take(3)));
        assert(e.skip(4) =~= base64_text(b.skip(3)));
        assert(base64_decoded(e) == decode_group(e.take(4)) + base64_decoded(e.skip(4)));
        assert(b.take(3) + b.skip(3) =~= b);
    }
}

/// Law: `=` stands only at the end of the encoding, exactly
/// `(3 - n % 3) % 3` times for `n` bytes.
pub proof fn law_base64_padding(b: Seq<u8>)
    ensures
        forall|i: int|
            0 <= i < base64_text(b).len() ==> (#[trigger] base64_text(b)[i] == '=' <==> i >= base64_text(
                b,
            ).len() - (3 - b.len() % 3) % 3),
    decreases b.len(),
{
    law_base64_length(b);
    let e = base64_text(b);
    if b.len() == 0 {
    } else if b.len() <= 3 {
        let b0 = b[0];
        let b1: u8 = if b.len() > 1 { b[1] } else { 0 };
        let b2: u8 = if b.len() > 2 { b[2] } else { 0 };
        lemma_sextet_round_trip((b0 / 4) as int);
        lemma_sextet_round_trip(((b0 % 4) * 16 + b1 / 16) as int);
        lemma_sextet_round_trip(((b1 % 16) * 4 + b2 / 64) as int);
        lemma_sextet_round_trip((b2 % 64) as int);
    } else {
        law_base64_padding(b.skip(3));
        law_base64_length(b.skip(3));
        let b0 = b[0];
        let b1 = b[1];
        let b2 = b[2];
        lemma_sextet_round_trip((b0 / 4) as int);
        lemma_sextet_round_trip(((b0 % 4) * 16 + b1 / 16) as int);
        lemma_sextet_round_trip(((b1 % 16) * 4 + b2 / 64) as int);
        lemma_sextet_round_trip((b2 % 64) as int);
        assert(b.skip(3).len() % 3 == b.len() % 3);
        assert forall|i: int| 0 <= i < e.len() implies (#[trigger] e[i] == '=' <==> i >= e.len() - (3
            - b.len() % 3) % 3) by {
            if i >= 4 {
                assert(e[i] == base64_text(b.skip(3))[i - 4]);
            } else {
                assert(e[i] == encode_group(b.take(3))[i]);
                assert(b.take(3)[0] == b0 && b.take(3)[1] == b1 && b.take(3)[2] == b2);
            }
        }
    }
}

fn sextet(v: u32) -> (c: char)
    requires
        v < 64,
    ensures
        c == sextet_char(v as int),
{
    if v < 26 {
        ((65 + v) as u8) as char
    } else if v < 52 {
        ((97 + (v - 26)) as u8) as char
    } else if v < 62 {
        ((48 + (v - 52)) as u8) as char
    } else if v == 62 {
        '+'
    } else {
        '/'
    }
}

/// Appends the encoding of the group `bytes[i..i + k]`.
fn push_group(out: &mut String, bytes: &[u8], i: usize, k: usize)
    requires
        1 <= k <= 3,
        i + k <= bytes@.len(),
    ensures
        final(out)@ == old(out)@ + encode_group(bytes@.subrange(i as int, i + k)),
{
    let ghost g = bytes@.subrange(i as int, i + k);
    let b0 = bytes[i];
    let b1 = if k > 1 { bytes[i + 1] } else { 0u8 };
    let b2 = if k > 2 { bytes[i + 2] } else { 0u8 };
    let n: u32 = ((b0 as u32) << 16u32) | ((b1 as u32) << 8u32) | (b2 as u32);
    assert(((n >> 18u32) & 0x3fu32) == b0 / 4 && ((n >> 12u32) & 0x3fu32) == (b0 % 4) * 16 + b1 / 16
        && ((n >> 6u32) & 0x3fu32) == (b1 % 16) * 4 + b2 / 64 && (n & 0x3fu32) == b2 % 64) by (bit_vector)
        requires
            n == ((b0 as u32) << 16u32) | ((b1 as u32) << 8u32) | (b2 as u32),
    ;
    push_char(out, sextet((n >> 18u32) & 0x3f));
    push_char(out, sextet((n >> 12u32) & 0x3f));
    if k > 1 {
        push_char(out, sextet((n >> 6u32) & 0x3f));
    } else {
        push_char(out, '=');
    }
    if k > 2 {
        push_char(out, sextet(n & 0x3f));
    } else {
        push_char(out, '=');
    }
    assert(final(out)@ =~= old(out)@ + encode_group(g));
}

/// Standard base64 (RFC 4648) encoding of `bytes`, with `=` padding.
pub fn base64_encode(bytes: &[u8]) -> (out: String)
    ensures
        out@ == base64_text(bytes@),
{
    let mut out = String::new();
    let n = bytes.len();
    let mut i: usize = 0;
    assert(bytes@.take(0) =~= Seq::<u8>::empty());
    while i < n
        invariant
            n == bytes@.len(),
            0 <= i <= n,
            i % 3 == 0 || i == n,
            out@ == base64_text(bytes@.take(i as int)),
        decreases n - i,
    {
        let k: usize = if n - i >= 3 { 3 } else { n - i };
        let ghost g = bytes@.subrange(i as int, i + k);
        let ghost before = bytes@.take(i as int);
        push_group(&mut out, bytes, i, k);
        proof {
            assert(base64_text(g) == encode_group(g));
            law_base64_concat(before, g);
            assert(before + g =~= bytes@.take(i + k));
        }
        i = i + k;
    }
    assert(bytes@.take(n as int) =~= bytes@);
    out
}

} // verus!
