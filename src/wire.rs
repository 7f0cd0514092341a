//! SSH wire encoding of an ECDSA signature (RFC 5656, section 3.1.2).

use vstd::prelude::*;
use vstd::string::StringSliceAdditionalSpecFns;

verus! {

/// The four big-endian bytes of `n`.
pub open spec fn u32_be(n: nat) -> Seq<u8> {
    seq![
        (n / 0x100_0000 % 256) as u8,
        (n / 0x1_0000 % 256) as u8,
        (n / 0x100 % 256) as u8,
        (n % 256) as u8,
    ]
}

/// An SSH `string`: the length of `x` in four big-endian bytes, then `x`.
pub open spec fn ssh_string(x: Seq<u8>) -> Seq<u8> {
    u32_be(x.len()) + x
}

/// The SSH ECDSA signature blob: the algorithm name as a `string`, then a
/// `string` that holds `r` and `s`, each as a `string` of its own.
pub open spec fn ssh_ecdsa_signature(alg: Seq<u8>, r: Seq<u8>, s: Seq<u8>) -> Seq<u8> {
    ssh_string(alg) + ssh_string(ssh_string(r) + ssh_string(s))
}

/// Appends the four big-endian bytes of `n` to `out`.
fn push_u32_be(out: &mut Vec<u8>, n: u32)
    ensures
        final(out)@ == old(out)@ + u32_be(n as nat),
{
    let b0 = (n >> 24) as u8;
    let b1 = (n >> 16) as u8;
    let b2 = (n >> 8) as u8;
    let b3 = n as u8;
    assert(b0 == (n / 0x100_0000 % 256) as u8) by (bit_vector)
        requires b0 == (n >> 24) as u8;
    assert(b1 == (n / 0x1_0000 % 256) as u8) by (bit_vector)
        requires b1 == (n >> 16) as u8;
    assert(b2 == (n / 0x100 % 256) as u8) by (bit_vector)
        requires b2 == (n >> 8) as u8;
    assert(b3 == (n % 256) as u8) by (bit_vector)
        requires b3 == n as u8;
    out.push(b0);
    out.push(b1);
    out.push(b2);
    out.push(b3);
    assert(final(out)@ =~= old(out)@ + u32_be(n as nat));
}

/// Appends the bytes of `x` to `out`.
fn push_bytes(out: &mut Vec<u8>, x: &[u8])
    ensures
        final(out)@ == old(out)@ + x@,
{
    let ghost start = out@;
    let mut i: usize = 0;
    while i < x.len()
        invariant
            i <= x@.len(),
            out@ == start + x@.subrange(0, i as int),
        decreases x@.len() - i,
    {
        out.push(x[i]);
        assert(out@ =~= start + x@.subrange(0, i + 1));
        i = i + 1;
    }
    assert(x@.subrange(0, x@.len() as int) =~= x@);
}

/// Appends `x` to `out` as an SSH `string`.
fn push_string(out: &mut Vec<u8>, x: &[u8])
    requires
        x@.len() <= u32::MAX,
    ensures
        final(out)@ == old(out)@ + ssh_string(x@),
{
    push_u32_be(out, x.len() as u32);
    push_bytes(out, x);
    assert(final(out)@ =~= old(out)@ + ssh_string(x@));
}

/// Encodes `r` and `s` under the algorithm name `alg` as an SSH ECDSA
/// signature blob. Each length field is four bytes, so the name and the
/// inner payload must fit there.
pub fn encode_ssh_signature(alg: &str, r: &[u8], s: &[u8]) -> (blob: Vec<u8>)
    requires
        alg.spec_bytes().len() <= u32::MAX,
        8 + r@.len() + s@.len() <= u32::MAX,
    ensures
        blob@ == ssh_ecdsa_signature(alg.spec_bytes(), r@, s@),
{
    let mut inner: Vec<u8> = Vec::new();
    push_string(&mut inner, r);
    push_string(&mut inner, s);
    let mut blob: Vec<u8> = Vec::new();
    push_string(&mut blob, alg.as_bytes());
    push_string(&mut blob, inner.as_slice());
    assert(inner@ =~= ssh_string(r@) + ssh_string(s@));
    assert(blob@ =~= ssh_ecdsa_signature(alg.spec_bytes(), r@, s@));
    blob
}

} // verus!
