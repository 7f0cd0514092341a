//! Parsing of a DER `ECDSA-Sig-Value`: `SEQUENCE { r INTEGER, s INTEGER }`.

use vstd::prelude::*;

use crate::error::SshError;

verus! {

/// Tag of a DER SEQUENCE.
pub const TAG_SEQUENCE: u8 = 0x30;

/// Tag of a DER INTEGER.
pub const TAG_INTEGER: u8 = 0x02;

/// The unsigned big-endian value of a byte sequence.
pub open spec fn be_value(b: Seq<u8>) -> nat
    decreases b.len(),
{
    if b.len() == 0 {
        0
    } else {
        be_value(b.drop_last()) * 256 + b.last() as nat
    }
}

/// A DER length field at the start of `b`: its value and how many bytes it
/// takes. Short form below 0x80; long form with one to four length octets,
/// in minimal form (no leading zero octet, and never for a value below 0x80).
pub open spec fn der_length(b: Seq<u8>) -> Option<(nat, nat)> {
    if b.len() == 0 {
        None
    } else if b[0] < 0x80 {
        Some((b[0] as nat, 1))
    } else {
        let n = (b[0] - 0x80) as nat;
        if 1 <= n <= 4 && b.len() >= 1 + n && b[1] != 0 && (n > 1 || b[1] >= 0x80) {
            Some((be_value(b.subrange(1, 1 + n as int)), 1 + n))
        } else {
            None
        }
    }
}

/// A DER element with tag `tag` at the start of `b`: its content and the
/// number of bytes that the whole element (tag, length, content) takes.
pub open spec fn der_element(b: Seq<u8>, tag: u8) -> Option<(Seq<u8>, nat)> {
    if b.len() >= 1 && b[0] == tag {
        match der_length(b.drop_first()) {
            Some((len, hdr)) => if 1 + hdr + len <= b.len() {
                Some((b.subrange(1 + hdr as int, 1 + hdr + len as int), 1 + hdr + len))
            } else {
                None
            },
            None => None,
        }
    } else {
        None
    }
}

/// The content of a DER INTEGER that is positive and minimally encoded: not
/// empty, no sign bit set, and a leading zero byte only where the next byte
/// has its high bit set.
pub open spec fn valid_unsigned_int(c: Seq<u8>) -> bool {
    &&& c.len() >= 1
    &&& c[0] < 0x80
    &&& c[0] == 0 ==> c.len() >= 2 && c[1] >= 0x80
}

/// The two integers of a DER `ECDSA-Sig-Value` that makes up all of `b`,
/// each exactly as DER encodes it; `None` where `b` is not one.
pub open spec fn der_signature(b: Seq<u8>) -> Option<(Seq<u8>, Seq<u8>)> {
    match der_element(b, TAG_SEQUENCE) {
        Some((body, used)) => if used != b.len() {
            None
        } else {
            match der_element(body, TAG_INTEGER) {
                Some((r, used_r)) => match der_element(body.skip(used_r as int), TAG_INTEGER) {
                    Some((s, used_s)) => if used_r + used_s == body.len()
                        && valid_unsigned_int(r) && valid_unsigned_int(s) {
                        Some((r, s))
                    } else {
                        None
                    },
                    None => None,
                },
                None => None,
            }
        },
        None => None,
    }
}

/// Reads the DER length field that starts at `pos`: its value and the
/// position just after it.
fn read_length(buf: &[u8], pos: usize) -> (res: Option<(usize, usize)>)
    requires
        pos <= buf@.len(),
    ensures
        match der_length(buf@.skip(pos as int)) {
            Some((len, hdr)) => len <= usize::MAX && res == Some((len as usize, (pos + hdr) as usize)),
            None => res.is_none(),
        },
{
    let ghost b = buf@.skip(pos as int);
    if pos >= buf.len() {
        return None;
    }
    let first = buf[pos];
    if first < 0x80 {
        return Some((first as usize, pos + 1));
    }
    let n: usize = (first - 0x80) as usize;
    if n < 1 || n > 4 || buf.len() - pos < 1 + n || buf[pos + 1] == 0 || (n == 1 && buf[pos + 1] < 0x80) {
        return None;
    }
    let ghost len = buf.len();
    let mut value: u64 = 0;
    let mut i: usize = 0;
    while i < n
        invariant
            b == buf@.skip(pos as int),
            1 <= n <= 4,
            pos + 1 + n <= buf@.len(),
            len == buf@.len(),
            len <= usize::MAX,
            i <= n,
            value == be_value(b.subrange(1, 1 + i as int)),
            value < pow256(i as nat),
        decreases n - i,
    {
        proof {
            assert(b.subrange(1, 1 + i + 1).drop_last() =~= b.subrange(1, 1 + i as int));
            lemma_pow256_small(i as nat);
        }
        let byte = buf[pos + 1 + i];
        assert(byte == b.subrange(1, 1 + i + 1).last());
        assert(value * 256 + byte < pow256(i as nat) * 256) by (nonlinear_arith)
            requires value < pow256(i as nat), byte < 256;
        value = value * 256 + byte as u64;
        i = i + 1;
    }
    proof {
        lemma_pow256_small(n as nat);
    }
    if value > usize::MAX as u64 {
        return None;
    }
    Some((value as usize, pos + 1 + n))
}

/// Reads the DER element with tag `tag` that starts at `pos`: the bounds of
/// its content.
fn read_element(buf: &[u8], pos: usize, tag: u8) -> (res: Option<(usize, usize)>)
    requires
        pos <= buf@.len(),
    ensures
        match der_element(buf@.skip(pos as int), tag) {
            Some((c, used)) => match res {
                Some((start, end)) => pos <= start <= end == pos + used <= buf@.len()
                    && buf@.subrange(start as int, end as int) == c,
                None => false,
            },
            None => res.is_none(),
        },
{
    let ghost b = buf@.skip(pos as int);
    if pos >= buf.len() || buf[pos] != tag {
        return None;
    }
    assert(buf@.skip(pos + 1) =~= b.drop_first());
    match read_length(buf, pos + 1) {
        Some((len, after)) => {
            if len > buf.len() - after {
                return None;
            }
            assert(buf@.subrange(after as int, (after + len) as int) =~= b.subrange(
                after - pos,
                after - pos + len,
            ));
            Some((after, after + len))
        },
        None => None,
    }
}

/// Copies `buf[start..end]` into a new vector.
fn copy_range(buf: &[u8], start: usize, end: usize) -> (v: Vec<u8>)
    requires
        start <= end <= buf@.len(),
    ensures
        v@ == buf@.subrange(start as int, end as int),
{
    let mut v: Vec<u8> = Vec::new();
    let mut i: usize = start;
    while i < end
        invariant
            start <= i <= end <= buf@.len(),
            v@ == buf@.subrange(start as int, i as int),
        decreases end - i,
    {
        v.push(buf[i]);
        assert(v@ =~= buf@.subrange(start as int, i + 1));
        i = i + 1;
    }
    v
}

/// Tells whether the content `buf[start..end]` of a DER INTEGER is a
/// positive, minimally encoded value.
fn check_unsigned_int(buf: &[u8], start: usize, end: usize) -> (ok: bool)
    requires
        start <= end <= buf@.len(),
    ensures
        ok == valid_unsigned_int(buf@.subrange(start as int, end as int)),
{
    if start == end || buf[start] >= 0x80 {
        return false;
    }
    if buf[start] == 0 {
        return end - start >= 2 && buf[start + 1] >= 0x80;
    }
    true
}

/// Splits a DER `ECDSA-Sig-Value` into its integers `r` and `s`, each exactly
/// as DER encodes it (a sign-disambiguation zero byte is kept). Fails with
/// `MalformedSignature` on a wrong tag, a bad or overlong length, an empty or
/// badly padded integer, or bytes after the structure.
pub fn asn_der_to_r_s(buf: &[u8]) -> (res: Result<(Vec<u8>, Vec<u8>), SshError>)
    ensures
        match der_signature(buf@) {
            Some((r, s)) => match res {
                Ok((vr, vs)) => vr@ == r && vs@ == s,
                Err(_) => false,
            },
            None => res == Err::<(Vec<u8>, Vec<u8>), SshError>(SshError::MalformedSignature),
        },
{
    let ghost b = buf@;
    assert(buf@.skip(0) =~= b);
    let (body_start, body_end) = match read_element(buf, 0, TAG_SEQUENCE) {
        Some(bounds) => bounds,
        None => return Err(SshError::MalformedSignature),
    };
    if body_end != buf.len() {
        return Err(SshError::MalformedSignature);
    }
    let ghost body = b.subrange(body_start as int, body_end as int);
    assert(buf@.skip(body_start as int) =~= body);
    let (r_start, r_end) = match read_element(buf, body_start, TAG_INTEGER) {
        Some(bounds) => bounds,
        None => return Err(SshError::MalformedSignature),
    };
    assert(buf@.skip(r_end as int) =~= body.skip(r_end - body_start));
    let (s_start, s_end) = match read_element(buf, r_end, TAG_INTEGER) {
        Some(bounds) => bounds,
        None => return Err(SshError::MalformedSignature),
    };
    assert(buf@.subrange(r_start as int, r_end as int) =~= body.subrange(r_start - body_start, r_end - body_start));
    if s_end != body_end || !check_unsigned_int(buf, r_start, r_end) || !check_unsigned_int(
        buf,
        s_start,
        s_end,
    ) {
        return Err(SshError::MalformedSignature);
    }
    Ok((copy_range(buf, r_start, r_end), copy_range(buf, s_start, s_end)))
}

/// An element takes at least two bytes beyond its content: its tag and its
/// length.
pub proof fn lemma_element_size(b: Seq<u8>, tag: u8)
    requires
        der_element(b, tag) is Some,
    ensures
        der_element(b, tag).unwrap().0.len() + 2 <= der_element(b, tag).unwrap().1 <= b.len(),
{
}

/// The integers of a signature take up at most its length less six bytes:
/// one tag and one length for the sequence and for each integer.
pub proof fn lemma_signature_size(b: Seq<u8>)
    requires
        der_signature(b) is Some,
    ensures
        der_signature(b).unwrap().0.len() + der_signature(b).unwrap().1.len() + 6 <= b.len(),
{
    lemma_element_size(b, TAG_SEQUENCE);
    let (body, _) = der_element(b, TAG_SEQUENCE).unwrap();
    lemma_element_size(body, TAG_INTEGER);
    let (_, used_r) = der_element(body, TAG_INTEGER).unwrap();
    lemma_element_size(body.skip(used_r as int), TAG_INTEGER);
}

/// A length field read from a prefix of `x` is the one read from `x`.
proof fn lemma_length_prefix(x: Seq<u8>, k: int)
    requires
        0 <= k <= x.len(),
        der_length(x.subrange(0, k)) is Some,
    ensures
        der_length(x.subrange(0, k)) == der_length(x),
{
    let p = x.subrange(0, k);
    if p[0] >= 0x80 {
        let n = (p[0] - 0x80) as nat;
        assert(p.subrange(1, 1 + n as int) =~= x.subrange(1, 1 + n as int));
    }
}

/// An input whose outer length declares more bytes than follow is no
/// signature.
pub proof fn lemma_overlong_outer_length(b: Seq<u8>)
    requires
        b.len() >= 1,
        b[0] == TAG_SEQUENCE,
        der_length(b.drop_first()) matches Some((len, hdr)) && 1 + hdr + len > b.len(),
    ensures
        der_signature(b) is None,
{
}

/// No proper prefix of a signature is a signature: a truncated signature is
/// always rejected as a whole.
pub proof fn lemma_truncated_signature(b: Seq<u8>, k: int)
    requires
        der_signature(b) is Some,
        0 <= k < b.len(),
    ensures
        der_signature(b.subrange(0, k)) is None,
{
    let p = b.subrange(0, k);
    if k >= 1 && der_length(p.drop_first()) is Some {
        assert(p.drop_first() =~= b.drop_first().subrange(0, k - 1));
        lemma_length_prefix(b.drop_first(), k - 1);
    }
}

/// Each integer of a signature is positive and minimally encoded: it is not
/// empty, its sign bit is clear, and it starts with a zero byte exactly where
/// its value's first byte has the high bit set. So an input with a negative
/// integer, or with two leading zero bytes, is no signature.
pub proof fn lemma_integers_minimal(b: Seq<u8>)
    requires
        der_signature(b) is Some,
    ensures
        ({
            let (r, s) = der_signature(b).unwrap();
            &&& r.len() >= 1 && s.len() >= 1
            &&& r[0] < 0x80 && s[0] < 0x80
            &&& r[0] == 0 ==> r[1] >= 0x80
            &&& s[0] == 0 ==> s[1] >= 0x80
            &&& !(r.len() >= 2 && r[0] == 0 && r[1] == 0)
            &&& !(s.len() >= 2 && s[0] == 0 && s[1] == 0)
        }),
{
}

/// 256 to the power `i`.
pub open spec fn pow256(i: nat) -> nat
    decreases i,
{
    if i == 0 {
        1
    } else {
        256 * pow256((i - 1) as nat)
    }
}

proof fn lemma_pow256_small(i: nat)
    requires
        i <= 4,
    ensures
        pow256(i) <= 0x1_0000_0000,
        pow256(i) * 256 == pow256(i + 1),
{
    reveal_with_fuel(pow256, 6);
}

} // verus!
