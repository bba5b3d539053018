//! Byte-level primitives of the platform's canonical binary interface
//! encoding.
//!
//! Every payload this library submits or decodes is a flat concatenation of a
//! fixed per-message type-table prefix and the values themselves. The
//! primitives here are the value encoders (unsigned LEB128 integers,
//! length-prefixed byte strings, UTF-8 text, fixed-width little-endian words
//! and principal references), their parsing counterparts, and the lemmas that
//! parsing inverts encoding.
use vstd::prelude::*;

use vstd::slice::{slice_subrange, slice_to_vec};
use vstd::utf8::encode_utf8;

verus! {

/// Unsigned LEB128 encoding of a natural number.
pub open spec fn spec_leb(n: nat) -> Seq<u8>
    decreases n,
{
    if n < 128 {
        seq![n as u8]
    } else {
        seq![(n % 128 + 128) as u8] + spec_leb(n / 128)
    }
}

/// A length-prefixed byte string: LEB128 length, then the bytes.
pub open spec fn spec_blob(b: Seq<u8>) -> Seq<u8> {
    spec_leb(b.len()) + b
}

/// A text value: the LEB128 byte length, then the UTF-8 bytes.
pub open spec fn spec_text(m: Seq<char>) -> Seq<u8> {
    spec_blob(encode_utf8(m))
}

/// A principal reference value: the id form tag, then the identifier bytes.
pub open spec fn spec_principal_val(p: Seq<u8>) -> Seq<u8> {
    seq![1u8] + spec_blob(p)
}

/// A 64-bit word, least significant byte first.
pub open spec fn spec_nat64le(n: u64) -> Seq<u8> {
    seq![
        (n % 256) as u8,
        ((n / 256) % 256) as u8,
        ((n / 65536) % 256) as u8,
        ((n / 16777216) % 256) as u8,
        ((n / 4294967296) % 256) as u8,
        ((n / 1099511627776) % 256) as u8,
        ((n / 281474976710656) % 256) as u8,
        ((n / 72057594037927936) % 256) as u8,
    ]
}

/// Append the LEB128 encoding of `n`.
pub fn push_leb(out: &mut Vec<u8>, n: u64)
    ensures
        final(out)@ == old(out)@ + spec_leb(n as nat),
    decreases n,
{
    if n < 128 {
        out.push(n as u8);
        proof {
            assert(out@ =~= old(out)@ + spec_leb(n as nat));
        }
    } else {
        let b: u8 = (n % 128 + 128) as u8;
        let ghost mid: Seq<u8> = old(out)@ + seq![b];
        out.push(b);
        assert(out@ =~= mid);
        push_leb(out, n / 128);
        proof {
            assert((n as nat) / 128 == (n / 128) as nat);
            assert(out@ =~= old(out)@ + spec_leb(n as nat));
        }
    }
}

/// Append all bytes of a slice.
pub fn push_bytes(out: &mut Vec<u8>, b: &[u8])
    ensures
        final(out)@ == old(out)@ + b@,
{
    let mut i: usize = 0;
    while i < b.len()
        invariant
            i <= b.len(),
            out@ == old(out)@ + b@.take(i as int),
        decreases b.len() - i,
    {
        let ghost prev: Seq<u8> = out@;
        out.push(b[i]);
        i = i + 1;
        proof {
            assert(out@ =~= old(out)@ + b@.take(i as int));
        }
    }
    proof {
        assert(b@.take(b@.len() as int) =~= b@);
    }
}

/// Append a length-prefixed byte string.
pub fn push_blob(out: &mut Vec<u8>, b: &[u8])
    ensures
        final(out)@ == old(out)@ + spec_blob(b@),
{
    push_leb(out, b.len() as u64);
    push_bytes(out, b);
    proof {
        assert(out@ =~= old(out)@ + spec_blob(b@));
    }
}

/// Append a text value.
pub fn push_text(out: &mut Vec<u8>, s: &str)
    ensures
        final(out)@ == old(out)@ + spec_text(s@),
{
    push_blob(out, s.as_bytes());
}

/// Append a principal reference value.
pub fn push_principal_val(out: &mut Vec<u8>, p: &[u8])
    ensures
        final(out)@ == old(out)@ + spec_principal_val(p@),
{
    out.push(1u8);
    push_blob(out, p);
    proof {
        assert(out@ =~= old(out)@ + spec_principal_val(p@));
    }
}

/// Append a 64-bit word, least significant byte first.
pub fn push_nat64le(out: &mut Vec<u8>, n: u64)
    ensures
        final(out)@ == old(out)@ + spec_nat64le(n),
{
    out.push((n % 256) as u8);
    out.push(((n / 256) % 256) as u8);
    out.push(((n / 65536) % 256) as u8);
    out.push(((n / 16777216) % 256) as u8);
    out.push(((n / 4294967296) % 256) as u8);
    out.push(((n / 1099511627776) % 256) as u8);
    out.push(((n / 281474976710656) % 256) as u8);
    out.push(((n / 72057594037927936) % 256) as u8);
    proof {
        assert(out@ =~= old(out)@ + spec_nat64le(n));
    }
}

/// Append a single byte, as a one-element sequence.
pub fn push_byte(out: &mut Vec<u8>, b: u8)
    ensures
        final(out)@ == old(out)@ + seq![b],
{
    out.push(b);
    proof {
        assert(out@ =~= old(out)@ + seq![b]);
    }
}

/// The encoding of an empty argument tuple: the header alone.
pub open spec fn spec_unit_args() -> Seq<u8> {
    seq![0x44u8, 0x49u8, 0x44u8, 0x4cu8, 0x00u8, 0x00u8]
}

/// Build the encoding of an empty argument tuple.
pub fn unit_args() -> (v: Vec<u8>)
    ensures
        v@ == spec_unit_args(),
{
    let mut v: Vec<u8> = Vec::new();
    v.push(0x44);
    v.push(0x49);
    v.push(0x44);
    v.push(0x4c);
    v.push(0x00);
    v.push(0x00);
    proof {
        assert(v@ =~= spec_unit_args());
    }
    v
}

/// Relies on `String::from_utf8`: it succeeds exactly on valid UTF-8 bytes
/// and returns the string those bytes spell.
#[verifier::external_body]
pub(crate) fn string_from_utf8(v: Vec<u8>) -> (r: Option<String>)
    ensures
        r is Some <==> vstd::utf8::valid_utf8(v@),
        r matches Some(s) ==> encode_utf8(s@) == v@,
{
    String::from_utf8(v).ok()
}

// ------------------------------------------------------------------
// Parsing: each parser yields the parsed value and the remaining bytes.
// ------------------------------------------------------------------

/// Parse an unsigned LEB128 integer.
pub open spec fn parse_leb(s: Seq<u8>) -> Option<(nat, Seq<u8>)>
    decreases s.len(),
{
    if s.len() == 0 {
        None
    } else if s[0] < 128 {
        Some(((s[0] as nat), s.drop_first()))
    } else {
        match parse_leb(s.drop_first()) {
            Some(r) => Some((((s[0] - 128) + 128 * r.0) as nat, r.1)),
            None => None,
        }
    }
}

/// Split off the first `n` bytes.
pub open spec fn parse_take(s: Seq<u8>, n: nat) -> Option<(Seq<u8>, Seq<u8>)> {
    if n <= s.len() {
        Some((s.take(n as int), s.skip(n as int)))
    } else {
        None
    }
}

/// Parse a length-prefixed byte string.
pub open spec fn parse_blob(s: Seq<u8>) -> Option<(Seq<u8>, Seq<u8>)> {
    match parse_leb(s) {
        Some(r) => parse_take(r.1, r.0),
        None => None,
    }
}

/// Require a fixed prefix and yield what follows it.
pub open spec fn parse_prefix(s: Seq<u8>, p: Seq<u8>) -> Option<Seq<u8>> {
    if p.len() <= s.len() && s.take(p.len() as int) == p {
        Some(s.skip(p.len() as int))
    } else {
        None
    }
}

/// Parse a principal reference value: the id form tag, then the bytes.
pub open spec fn parse_principal_val(s: Seq<u8>) -> Option<(Seq<u8>, Seq<u8>)> {
    if s.len() > 0 && s[0] == 1u8 {
        parse_blob(s.drop_first())
    } else {
        None
    }
}

/// The value of eight little-endian bytes.
pub open spec fn le_val8(b: Seq<u8>) -> int
    recommends
        b.len() == 8,
{
    b[0] + 256 * b[1] + 65536 * b[2] + 16777216 * b[3] + 4294967296 * b[4]
        + 1099511627776 * b[5] + 281474976710656 * b[6] + 72057594037927936 * b[7]
}

/// Parse a 64-bit little-endian word.
pub open spec fn parse_nat64(s: Seq<u8>) -> Option<(u64, Seq<u8>)> {
    if s.len() >= 8 {
        Some((le_val8(s.take(8)) as u64, s.skip(8)))
    } else {
        None
    }
}

// ------------------------------------------------------------------
// Parsing inverts encoding.
// ------------------------------------------------------------------

/// A successful LEB128 parse always consumes at least one byte.
pub proof fn lemma_parse_leb_remainder(s: Seq<u8>)
    ensures
        parse_leb(s) matches Some(t) ==> t.1.len() < s.len(),
    decreases s.len(),
{
    if s.len() > 0 && s[0] >= 128 {
        lemma_parse_leb_remainder(s.drop_first());
    }
}

/// Parsing a LEB128 encoding recovers the number and leaves the rest.
pub proof fn lemma_parse_leb_round(n: nat, rest: Seq<u8>)
    ensures
        parse_leb(spec_leb(n) + rest) == Some((n, rest)),
    decreases n,
{
    let s = spec_leb(n) + rest;
    if n < 128 {
        assert(s[0] == n as u8);
        assert(s.drop_first() =~= rest);
    } else {
        lemma_parse_leb_round(n / 128, rest);
        assert(n % 128 + 128 < 256);
        assert(s[0] == (n % 128 + 128) as u8);
        assert(s[0] >= 128);
        assert(s.drop_first() =~= spec_leb(n / 128) + rest);
        vstd::arithmetic::div_mod::lemma_fundamental_div_mod(n as int, 128);
        assert((s[0] - 128) + 128 * (n / 128) == n);
    }
}

/// Taking exactly the first bytes of a concatenation splits it back apart.
pub proof fn lemma_parse_take_round(b: Seq<u8>, rest: Seq<u8>)
    ensures
        parse_take(b + rest, b.len()) == Some((b, rest)),
{
    assert((b + rest).take(b.len() as int) =~= b);
    assert((b + rest).skip(b.len() as int) =~= rest);
}

/// Parsing a length-prefixed byte string recovers the bytes.
pub proof fn lemma_parse_blob_round(b: Seq<u8>, rest: Seq<u8>)
    ensures
        parse_blob(spec_blob(b) + rest) == Some((b, rest)),
{
    assert(spec_blob(b) + rest =~= spec_leb(b.len()) + (b + rest));
    lemma_parse_leb_round(b.len(), b + rest);
    lemma_parse_take_round(b, rest);
}

/// A prefix put in front is parsed off again.
pub proof fn lemma_parse_prefix_round(p: Seq<u8>, rest: Seq<u8>)
    ensures
        parse_prefix(p + rest, p) == Some(rest),
{
    assert((p + rest).take(p.len() as int) =~= p);
    assert((p + rest).skip(p.len() as int) =~= rest);
}

/// Parsing a principal reference value recovers the identifier bytes.
pub proof fn lemma_parse_principal_round(p: Seq<u8>, rest: Seq<u8>)
    ensures
        parse_principal_val(spec_principal_val(p) + rest) == Some((p, rest)),
{
    let s = spec_principal_val(p) + rest;
    assert(s[0] == 1u8);
    assert(s.drop_first() =~= spec_blob(p) + rest);
    lemma_parse_blob_round(p, rest);
}

/// The little-endian digits of a word recombine to the word itself.
pub proof fn lemma_le_digits(x: u64)
    ensures
        le_val8(spec_nat64le(x)) == x,
{
    let xi = x as int;
    let q1 = xi / 256;
    let q2 = xi / 65536;
    let q3 = xi / 16777216;
    let q4 = xi / 4294967296;
    let q5 = xi / 1099511627776;
    let q6 = xi / 281474976710656;
    let q7 = xi / 72057594037927936;
    vstd::arithmetic::div_mod::lemma_div_denominator(xi, 256, 256);
    vstd::arithmetic::div_mod::lemma_div_denominator(xi, 65536, 256);
    vstd::arithmetic::div_mod::lemma_div_denominator(xi, 16777216, 256);
    vstd::arithmetic::div_mod::lemma_div_denominator(xi, 4294967296, 256);
    vstd::arithmetic::div_mod::lemma_div_denominator(xi, 1099511627776, 256);
    vstd::arithmetic::div_mod::lemma_div_denominator(xi, 281474976710656, 256);
    vstd::arithmetic::div_mod::lemma_fundamental_div_mod(xi, 256);
    vstd::arithmetic::div_mod::lemma_fundamental_div_mod(q1, 256);
    vstd::arithmetic::div_mod::lemma_fundamental_div_mod(q2, 256);
    vstd::arithmetic::div_mod::lemma_fundamental_div_mod(q3, 256);
    vstd::arithmetic::div_mod::lemma_fundamental_div_mod(q4, 256);
    vstd::arithmetic::div_mod::lemma_fundamental_div_mod(q5, 256);
    vstd::arithmetic::div_mod::lemma_fundamental_div_mod(q6, 256);
    vstd::arithmetic::div_mod::lemma_multiply_divide_lt(xi, 72057594037927936, 256);
    vstd::arithmetic::div_mod::lemma_small_mod(q7 as nat, 256);
}

// ------------------------------------------------------------------
// Executable readers over a byte buffer and a position.
// ------------------------------------------------------------------

/// Read an unsigned LEB128 integer at `pos`; `None` when the bytes run out
/// or the value does not fit a `u64`.
pub fn read_leb(data: &Vec<u8>, pos: usize) -> (r: Option<(u64, usize)>)
    requires
        pos <= data.len(),
    ensures
        r matches Some(vp) ==> {
            &&& pos < vp.1 <= data.len()
            &&& parse_leb(data@.skip(pos as int)) == Some((vp.0 as nat, data@.skip(vp.1 as int)))
        },
        r is None ==> (parse_leb(data@.skip(pos as int)) matches Some(t) ==> t.0 > u64::MAX),
    decreases data.len() - pos,
{
    let ghost s: Seq<u8> = data@.skip(pos as int);
    if pos == data.len() {
        return None;
    }
    let b: u8 = data[pos];
    proof {
        assert(s[0] == b);
        assert(s.drop_first() =~= data@.skip(pos as int + 1));
    }
    if b < 128 {
        Some((b as u64, pos + 1))
    } else {
        match read_leb(data, pos + 1) {
            None => None,
            Some((v, p)) => {
                let c: u64 = (b - 128) as u64;
                if v <= (u64::MAX - c) / 128 {
                    proof {
                        vstd::arithmetic::div_mod::lemma_fundamental_div_mod(
                            (u64::MAX - c) as int,
                            128,
                        );
                    }
                    Some((c + 128 * v, p))
                } else {
                    proof {
                        vstd::arithmetic::div_mod::lemma_fundamental_div_mod(
                            (u64::MAX - c) as int,
                            128,
                        );
                    }
                    None
                }
            },
        }
    }
}

/// Read exactly `n` bytes at `pos`.
pub fn read_bytes(data: &Vec<u8>, pos: usize, n: usize) -> (r: Option<(Vec<u8>, usize)>)
    requires
        pos <= data.len(),
    ensures
        r matches Some(t) ==> {
            &&& t.1 == pos + n
            &&& t.1 <= data.len()
            &&& parse_take(data@.skip(pos as int), n as nat) == Some((
                t.0@,
                data@.skip(t.1 as int),
            ))
        },
        r is None ==> parse_take(data@.skip(pos as int), n as nat) is None,
{
    if n <= data.len() - pos {
        let piece: Vec<u8> = slice_to_vec(slice_subrange(data.as_slice(), pos, pos + n));
        proof {
            assert(data@.subrange(pos as int, pos as int + n as int) =~= data@.skip(
                pos as int,
            ).take(n as int));
            assert(data@.skip(pos as int).skip(n as int) =~= data@.skip(pos as int + n as int));
        }
        Some((piece, pos + n))
    } else {
        None
    }
}

/// Read a length-prefixed byte string at `pos`.
pub fn read_blob(data: &Vec<u8>, pos: usize) -> (r: Option<(Vec<u8>, usize)>)
    requires
        pos <= data.len(),
    ensures
        r matches Some(t) ==> {
            &&& pos < t.1 <= data.len()
            &&& parse_blob(data@.skip(pos as int)) == Some((t.0@, data@.skip(t.1 as int)))
        },
        r is None ==> parse_blob(data@.skip(pos as int)) is None,
{
    match read_leb(data, pos) {
        None => {
            proof {
                lemma_parse_leb_remainder(data@.skip(pos as int));
            }
            None
        },
        Some((len, p)) => {
            if len <= (data.len() - p) as u64 {
                read_bytes(data, p, len as usize)
            } else {
                None
            }
        },
    }
}

/// Require the fixed bytes of `prefix` at `pos`.
pub fn expect_prefix(data: &Vec<u8>, pos: usize, prefix: &Vec<u8>) -> (r: Option<usize>)
    requires
        pos <= data.len(),
    ensures
        r matches Some(p) ==> {
            &&& p == pos + prefix.len()
            &&& p <= data.len()
            &&& parse_prefix(data@.skip(pos as int), prefix@) == Some(data@.skip(p as int))
        },
        r is None ==> parse_prefix(data@.skip(pos as int), prefix@) is None,
{
    if prefix.len() > data.len() - pos {
        return None;
    }
    let mut i: usize = 0;
    while i < prefix.len()
        invariant
            pos + prefix.len() <= data.len(),
            i <= prefix.len(),
            forall|j: int| 0 <= j < i ==> data@[pos + j] == prefix@[j],
        decreases prefix.len() - i,
    {
        if data[pos + i] != prefix[i] {
            proof {
                assert(data@.skip(pos as int).take(prefix@.len() as int)[i as int] != prefix@[
                    i as int
                ]);
            }
            return None;
        }
        i = i + 1;
    }
    proof {
        assert(data@.skip(pos as int).take(prefix@.len() as int) =~= prefix@);
        assert(data@.skip(pos as int).skip(prefix@.len() as int) =~= data@.skip(
            pos as int + prefix@.len() as int,
        ));
    }
    Some(pos + prefix.len())
}

/// Read a 64-bit little-endian word at `pos`.
pub fn read_nat64(data: &Vec<u8>, pos: usize) -> (r: Option<(u64, usize)>)
    requires
        pos <= data.len(),
    ensures
        r matches Some(t) ==> {
            &&& t.1 == pos + 8
            &&& t.1 <= data.len()
            &&& parse_nat64(data@.skip(pos as int)) == Some((t.0, data@.skip(t.1 as int)))
        },
        r is None ==> parse_nat64(data@.skip(pos as int)) is None,
{
    if 8 <= data.len() - pos {
        let b0: u64 = data[pos] as u64;
        let b1: u64 = data[pos + 1] as u64;
        let b2: u64 = data[pos + 2] as u64;
        let b3: u64 = data[pos + 3] as u64;
        let b4: u64 = data[pos + 4] as u64;
        let b5: u64 = data[pos + 5] as u64;
        let b6: u64 = data[pos + 6] as u64;
        let b7: u64 = data[pos + 7] as u64;
        let x: u64 = b0 + 256 * b1 + 65536 * b2 + 16777216 * b3 + 4294967296 * b4 + 1099511627776
            * b5 + 281474976710656 * b6 + 72057594037927936 * b7;
        proof {
            let s: Seq<u8> = data@.skip(pos as int);
            assert(s.take(8)[0] == b0);
            assert(s.take(8)[1] == b1);
            assert(s.take(8)[2] == b2);
            assert(s.take(8)[3] == b3);
            assert(s.take(8)[4] == b4);
            assert(s.take(8)[5] == b5);
            assert(s.take(8)[6] == b6);
            assert(s.take(8)[7] == b7);
            assert(s.skip(8) =~= data@.skip(pos as int + 8));
        }
        Some((x, pos + 8))
    } else {
        None
    }
}

/// Parsing an encoded 64-bit word recovers it and leaves the rest.
pub proof fn lemma_parse_nat64_round(x: u64, rest: Seq<u8>)
    ensures
        parse_nat64(spec_nat64le(x) + rest) == Some((x, rest)),
{
    let s = spec_nat64le(x) + rest;
    assert(s.take(8) =~= spec_nat64le(x));
    assert(s.skip(8) =~= rest);
    lemma_le_digits(x);
}

} // verus!
