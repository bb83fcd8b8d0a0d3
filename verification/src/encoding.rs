//! Byte-level encoding helpers: big-endian length fields and lowercase hex.

use vstd::prelude::*;

verus! {

/// The two big-endian bytes of `n` modulo 2^16.
pub open spec fn spec_u16_be(n: nat) -> Seq<u8> {
    seq![((n / 256) % 256) as u8, (n % 256) as u8]
}

/// One lowercase hex digit for a nibble.
pub open spec fn spec_hex_digit(n: u8) -> char
    recommends
        n < 16,
{
    if n < 10 {
        ((n + 48) as u8) as char
    } else {
        ((n + 87) as u8) as char
    }
}

/// Lowercase hex encoding of a byte string: two digits per byte, high nibble
/// first.
pub open spec fn spec_hex(bytes: Seq<u8>) -> Seq<char>
    decreases bytes.len(),
{
    if bytes.len() == 0 {
        Seq::empty()
    } else {
        spec_hex(bytes.drop_last()) + seq![
            spec_hex_digit(bytes.last() / 16),
            spec_hex_digit(bytes.last() % 16),
        ]
    }
}

/// A character the digest may contain.
pub open spec fn is_hex_char(c: char) -> bool {
    ('0' <= c && c <= '9') || ('a' <= c && c <= 'f')
}

pub proof fn lemma_hex_digit_is_hex_char(n: u8)
    requires
        n < 16,
    ensures
        is_hex_char(spec_hex_digit(n)),
{
}

pub proof fn lemma_spec_hex_len(bytes: Seq<u8>)
    ensures
        spec_hex(bytes).len() == 2 * bytes.len(),
    decreases bytes.len(),
{
    if bytes.len() > 0 {
        lemma_spec_hex_len(bytes.drop_last());
    }
}

pub proof fn lemma_spec_hex_chars(bytes: Seq<u8>)
    ensures
        forall|i: int| 0 <= i < spec_hex(bytes).len() ==> is_hex_char(#[trigger] spec_hex(bytes)[i]),
    decreases bytes.len(),
{
    if bytes.len() > 0 {
        lemma_spec_hex_chars(bytes.drop_last());
        lemma_hex_digit_is_hex_char(bytes.last() / 16);
        lemma_hex_digit_is_hex_char(bytes.last() % 16);
        lemma_spec_hex_len(bytes.drop_last());
        assert forall|i: int| 0 <= i < spec_hex(bytes).len() implies is_hex_char(
            #[trigger] spec_hex(bytes)[i],
        ) by {
            if i < spec_hex(bytes.drop_last()).len() {
                assert(spec_hex(bytes)[i] == spec_hex(bytes.drop_last())[i]);
            }
        }
    }
}

/// Hex encoding distributes over concatenation.
pub proof fn lemma_spec_hex_add(a: Seq<u8>, b: Seq<u8>)
    ensures
        spec_hex(a + b) == spec_hex(a) + spec_hex(b),
    decreases b.len(),
{
    if b.len() == 0 {
        assert(a + b =~= a);
        assert(spec_hex(a) + spec_hex(b) =~= spec_hex(a));
    } else {
        lemma_spec_hex_add(a, b.drop_last());
        assert((a + b).drop_last() =~= a + b.drop_last());
        assert((a + b).last() == b.last());
        assert(spec_hex(a) + spec_hex(b.drop_last()) + seq![
            spec_hex_digit(b.last() / 16),
            spec_hex_digit(b.last() % 16),
        ] =~= spec_hex(a) + spec_hex(b));
    }
}

/// Relies on hex::encode: every input byte becomes two lowercase hex digits,
/// high nibble first, in input order.
#[verifier::external_body]
pub(crate) fn hex_encode(bytes: &[u8]) -> (r: String)
    ensures
        r@ == spec_hex(bytes@),
{
    hex::encode(bytes)
}

/// Relies on String::push: appends the given character to the end of the
/// string.
#[verifier::external_body]
pub(crate) fn push_char(s: &mut String, c: char)
    ensures
        final(s)@ == old(s)@.push(c),
{
    s.push(c);
}

/// One byte out of a length that is known to be small.
pub fn pack_as_unsigned_char(n: usize) -> (r: u8)
    requires
        n < 256,
    ensures
        r == n,
{
    n as u8
}

/// The two big-endian bytes of a 16-bit length field; larger values are
/// truncated to their low 16 bits.
pub fn pack_as_unsigned_short(n: usize) -> (r: Vec<u8>)
    ensures
        r@ == spec_u16_be(n as nat),
{
    let hi: u8 = ((n / 256) % 256) as u8;
    let lo: u8 = (n % 256) as u8;
    let mut r: Vec<u8> = Vec::new();
    r.push(hi);
    r.push(lo);
    assert(r@ =~= spec_u16_be(n as nat));
    r
}

/// Reads a 2-byte big-endian integer.
pub fn to_u32_be(array: &[u8]) -> (r: u32)
    requires
        array@.len() == 2,
    ensures
        r == array@[0] * 256 + array@[1],
{
    let b0 = *vstd::slice::slice_index_get(array, 0);
    let b1 = *vstd::slice::slice_index_get(array, 1);
    (b0 as u32) * 256 + (b1 as u32)
}

} // verus!
