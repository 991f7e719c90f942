use vstd::prelude::*;

use crate::digest::H256;

verus! {

/// The Keccak-256 digest of a byte string.
pub uninterp spec fn keccak_of(data: Seq<u8>) -> Seq<u8>;

/// Relies on `ethers::utils::keccak256`: the Keccak-256 digest of the bytes,
/// a function of the bytes alone.
#[verifier::external_body]
pub(crate) fn keccak(data: &Vec<u8>) -> (r: H256)
    ensures
        r@ == keccak_of(data@),
{
    H256(ethers::utils::keccak256(data.as_slice()))
}

/// Big-endian encoding of a 32-bit integer.
pub open spec fn be_bytes(n: u32) -> Seq<u8> {
    seq![
        ((n >> 24u32) & 0xffu32) as u8,
        ((n >> 16u32) & 0xffu32) as u8,
        ((n >> 8u32) & 0xffu32) as u8,
        (n & 0xffu32) as u8,
    ]
}

/// The protocol's domain-separation tag, "ABACUS" in ASCII.
pub open spec fn domain_tag() -> Seq<u8> {
    seq![0x41u8, 0x42u8, 0x41u8, 0x43u8, 0x55u8, 0x53u8]
}

/// Canonical encoding of a domain id that its hash is taken over.
pub open spec fn domain_encoding(domain: u32) -> Seq<u8> {
    be_bytes(domain) + domain_tag()
}

/// The domain-separation hash of a domain id.
pub open spec fn spec_domain_hash(domain: u32) -> Seq<u8> {
    keccak_of(domain_encoding(domain))
}

/// Appends the big-endian bytes of `n` to `out`.
pub fn push_be_bytes(out: &mut Vec<u8>, n: u32)
    ensures
        final(out)@ == old(out)@ + be_bytes(n),
{
    out.push(((n >> 24u32) & 0xffu32) as u8);
    out.push(((n >> 16u32) & 0xffu32) as u8);
    out.push(((n >> 8u32) & 0xffu32) as u8);
    out.push((n & 0xffu32) as u8);
    assert(final(out)@ =~= old(out)@ + be_bytes(n));
}

/// The bytes that `domain_hash` digests.
pub fn encode_domain(domain: u32) -> (r: Vec<u8>)
    ensures
        r@ == domain_encoding(domain),
{
    let mut out: Vec<u8> = Vec::new();
    push_be_bytes(&mut out, domain);
    out.push(0x41u8);
    out.push(0x42u8);
    out.push(0x41u8);
    out.push(0x43u8);
    out.push(0x55u8);
    out.push(0x53u8);
    assert(out@ =~= domain_encoding(domain));
    out
}

/// Hash of a domain id, used to bind checkpoints and messages to one chain:
/// Keccak-256 over the big-endian id followed by the protocol tag.
pub fn domain_hash(domain: u32) -> (r: H256)
    ensures
        r@ == spec_domain_hash(domain),
{
    let bytes = encode_domain(domain);
    keccak(&bytes)
}

/// Distinct 32-bit integers have distinct big-endian encodings.
pub proof fn lemma_be_bytes_injective(a: u32, b: u32)
    requires
        a != b,
    ensures
        be_bytes(a) != be_bytes(b),
{
    if be_bytes(a) == be_bytes(b) {
        assert(be_bytes(a)[0] == be_bytes(b)[0]);
        assert(be_bytes(a)[1] == be_bytes(b)[1]);
        assert(be_bytes(a)[2] == be_bytes(b)[2]);
        assert(be_bytes(a)[3] == be_bytes(b)[3]);
        assert(a == b) by (bit_vector)
            requires
                ((a >> 24u32) & 0xffu32) as u8 == ((b >> 24u32) & 0xffu32) as u8,
                ((a >> 16u32) & 0xffu32) as u8 == ((b >> 16u32) & 0xffu32) as u8,
                ((a >> 8u32) & 0xffu32) as u8 == ((b >> 8u32) & 0xffu32) as u8,
                (a & 0xffu32) as u8 == (b & 0xffu32) as u8,
        ;
    }
}

/// Domain separation at the encoding level: distinct domains are hashed over
/// distinct byte strings, so their hashes differ unless Keccak-256 collides.
pub proof fn lemma_domain_encoding_injective(a: u32, b: u32)
    requires
        a != b,
    ensures
        domain_encoding(a) != domain_encoding(b),
{
    lemma_be_bytes_injective(a, b);
    if domain_encoding(a) == domain_encoding(b) {
        assert(domain_encoding(a).subrange(0, 4) =~= be_bytes(a));
        assert(domain_encoding(b).subrange(0, 4) =~= be_bytes(b));
    }
}

} // verus!
