//! The canonical byte form of a block header: the bytes that are hashed.

use vstd::prelude::*;

verus! {

/// Length of an encoded header: 4 + 32 + 32 + 4 + 4 + 4 + 8 bytes.
pub const HEADER_LEN: usize = 88;

/// The four bytes of `value`, least significant first.
pub open spec fn u32_le_bytes(value: u32) -> Seq<u8> {
    seq![
        (value % 0x100) as u8,
        (value / 0x100 % 0x100) as u8,
        (value / 0x1_0000 % 0x100) as u8,
        (value / 0x100_0000 % 0x100) as u8,
    ]
}

/// The eight bytes of `value`, least significant first.
pub open spec fn u64_le_bytes(value: u64) -> Seq<u8> {
    seq![
        (value % 0x100) as u8,
        (value / 0x100 % 0x100) as u8,
        (value / 0x1_0000 % 0x100) as u8,
        (value / 0x100_0000 % 0x100) as u8,
        (value / 0x1_0000_0000 % 0x100) as u8,
        (value / 0x100_0000_0000 % 0x100) as u8,
        (value / 0x1_0000_0000_0000 % 0x100) as u8,
        (value / 0x100_0000_0000_0000 % 0x100) as u8,
    ]
}

/// The canonical bytes of a header: the seven fields in this order, each in
/// its fixed-width little-endian form, with nothing between them.
pub open spec fn header_bytes(
    version: u32,
    prev_hash: Seq<u8>,
    merkle_root: Seq<u8>,
    reference_timestamp: u32,
    bits: u32,
    nonce: u32,
    extra_nonce: u64,
) -> Seq<u8> {
    u32_le_bytes(version) + prev_hash + merkle_root + u32_le_bytes(reference_timestamp)
        + u32_le_bytes(bits) + u32_le_bytes(nonce) + u64_le_bytes(extra_nonce)
}

fn push_u32_le(out: &mut Vec<u8>, value: u32)
    ensures
        final(out)@ == old(out)@ + u32_le_bytes(value),
{
    out.push((value % 0x100) as u8);
    out.push((value / 0x100 % 0x100) as u8);
    out.push((value / 0x1_0000 % 0x100) as u8);
    out.push((value / 0x100_0000 % 0x100) as u8);
}

fn push_u64_le(out: &mut Vec<u8>, value: u64)
    ensures
        final(out)@ == old(out)@ + u64_le_bytes(value),
{
    out.push((value % 0x100) as u8);
    out.push((value / 0x100 % 0x100) as u8);
    out.push((value / 0x1_0000 % 0x100) as u8);
    out.push((value / 0x100_0000 % 0x100) as u8);
    out.push((value / 0x1_0000_0000 % 0x100) as u8);
    out.push((value / 0x100_0000_0000 % 0x100) as u8);
    out.push((value / 0x1_0000_0000_0000 % 0x100) as u8);
    out.push((value / 0x100_0000_0000_0000 % 0x100) as u8);
}

fn push_hash(out: &mut Vec<u8>, hash: &[u8; 32])
    ensures
        final(out)@ == old(out)@ + hash@,
{
    let mut i: usize = 0;
    while i < 32
        invariant
            i <= 32,
            hash@.len() == 32,
            out@ == old(out)@ + hash@.subrange(0, i as int),
        decreases 32 - i,
    {
        out.push(hash[i]);
        i = i + 1;
    }
}

/// Encodes a header for hashing. `reference_timestamp` is the time the
/// oracle feed reports, not a time the submitter names.
pub fn encode(
    version: u32,
    prev_hash: &[u8; 32],
    merkle_root: &[u8; 32],
    reference_timestamp: u32,
    bits: u32,
    nonce: u32,
    extra_nonce: u64,
) -> (header: Vec<u8>)
    ensures
        header@ == header_bytes(
            version,
            prev_hash@,
            merkle_root@,
            reference_timestamp,
            bits,
            nonce,
            extra_nonce,
        ),
        header@.len() == HEADER_LEN,
{
    let mut header: Vec<u8> = Vec::new();
    push_u32_le(&mut header, version);
    push_hash(&mut header, prev_hash);
    push_hash(&mut header, merkle_root);
    push_u32_le(&mut header, reference_timestamp);
    push_u32_le(&mut header, bits);
    push_u32_le(&mut header, nonce);
    push_u64_le(&mut header, extra_nonce);
    assert(header@ =~= header_bytes(
        version,
        prev_hash@,
        merkle_root@,
        reference_timestamp,
        bits,
        nonce,
        extra_nonce,
    ));
    header
}

/// Four little-endian bytes name one value only.
pub proof fn lemma_u32_le_bytes_injective(a: u32, b: u32)
    requires
        u32_le_bytes(a) == u32_le_bytes(b),
    ensures
        a == b,
{
    let (x, y) = (u32_le_bytes(a), u32_le_bytes(b));
    assert(x[0] == y[0] && x[1] == y[1] && x[2] == y[2] && x[3] == y[3]);
}

/// Eight little-endian bytes name one value only.
pub proof fn lemma_u64_le_bytes_injective(a: u64, b: u64)
    requires
        u64_le_bytes(a) == u64_le_bytes(b),
    ensures
        a == b,
{
    let (x, y) = (u64_le_bytes(a), u64_le_bytes(b));
    assert(x[0] == y[0] && x[1] == y[1] && x[2] == y[2] && x[3] == y[3]);
    assert(x[4] == y[4] && x[5] == y[5] && x[6] == y[6] && x[7] == y[7]);
    assert(a == b) by (bit_vector)
        requires
            a % 0x100 == b % 0x100,
            a / 0x100 % 0x100 == b / 0x100 % 0x100,
            a / 0x1_0000 % 0x100 == b / 0x1_0000 % 0x100,
            a / 0x100_0000 % 0x100 == b / 0x100_0000 % 0x100,
            a / 0x1_0000_0000 % 0x100 == b / 0x1_0000_0000 % 0x100,
            a / 0x100_0000_0000 % 0x100 == b / 0x100_0000_0000 % 0x100,
            a / 0x1_0000_0000_0000 % 0x100 == b / 0x1_0000_0000_0000 % 0x100,
            a / 0x100_0000_0000_0000 % 0x100 == b / 0x100_0000_0000_0000 % 0x100,
    ;
}

/// Where each field lies in the encoded header.
proof fn lemma_header_layout(
    version: u32,
    prev_hash: Seq<u8>,
    merkle_root: Seq<u8>,
    reference_timestamp: u32,
    bits: u32,
    nonce: u32,
    extra_nonce: u64,
)
    requires
        prev_hash.len() == 32,
        merkle_root.len() == 32,
    ensures
        ({
            let header = header_bytes(
                version,
                prev_hash,
                merkle_root,
                reference_timestamp,
                bits,
                nonce,
                extra_nonce,
            );
            &&& header.len() == HEADER_LEN
            &&& header.subrange(0, 4) == u32_le_bytes(version)
            &&& header.subrange(4, 36) == prev_hash
            &&& header.subrange(36, 68) == merkle_root
            &&& header.subrange(68, 72) == u32_le_bytes(reference_timestamp)
            &&& header.subrange(72, 76) == u32_le_bytes(bits)
            &&& header.subrange(76, 80) == u32_le_bytes(nonce)
            &&& header.subrange(80, 88) == u64_le_bytes(extra_nonce)
        }),
{
}

/// The encoding is canonical: the bytes are a function of the seven fields,
/// and two headers with the same bytes have the same fields.
pub proof fn lemma_header_bytes_canonical(
    version: (u32, u32),
    prev_hash: (Seq<u8>, Seq<u8>),
    merkle_root: (Seq<u8>, Seq<u8>),
    reference_timestamp: (u32, u32),
    bits: (u32, u32),
    nonce: (u32, u32),
    extra_nonce: (u64, u64),
)
    requires
        prev_hash.0.len() == 32,
        prev_hash.1.len() == 32,
        merkle_root.0.len() == 32,
        merkle_root.1.len() == 32,
    ensures
        header_bytes(
            version.0,
            prev_hash.0,
            merkle_root.0,
            reference_timestamp.0,
            bits.0,
            nonce.0,
            extra_nonce.0,
        ) == header_bytes(
            version.1,
            prev_hash.1,
            merkle_root.1,
            reference_timestamp.1,
            bits.1,
            nonce.1,
            extra_nonce.1,
        ) <==> {
            &&& version.0 == version.1
            &&& prev_hash.0 == prev_hash.1
            &&& merkle_root.0 == merkle_root.1
            &&& reference_timestamp.0 == reference_timestamp.1
            &&& bits.0 == bits.1
            &&& nonce.0 == nonce.1
            &&& extra_nonce.0 == extra_nonce.1
        },
{
    let first = header_bytes(
        version.0,
        prev_hash.0,
        merkle_root.0,
        reference_timestamp.0,
        bits.0,
        nonce.0,
        extra_nonce.0,
    );
    let second = header_bytes(
        version.1,
        prev_hash.1,
        merkle_root.1,
        reference_timestamp.1,
        bits.1,
        nonce.1,
        extra_nonce.1,
    );
    if first == second {
        lemma_header_layout(
            version.0,
            prev_hash.0,
            merkle_root.0,
            reference_timestamp.0,
            bits.0,
            nonce.0,
            extra_nonce.0,
        );
        lemma_header_layout(
            version.1,
            prev_hash.1,
            merkle_root.1,
            reference_timestamp.1,
            bits.1,
            nonce.1,
            extra_nonce.1,
        );
        lemma_u32_le_bytes_injective(version.0, version.1);
        lemma_u32_le_bytes_injective(reference_timestamp.0, reference_timestamp.1);
        lemma_u32_le_bytes_injective(bits.0, bits.1);
        lemma_u32_le_bytes_injective(nonce.0, nonce.1);
        lemma_u64_le_bytes_injective(extra_nonce.0, extra_nonce.1);
    }
}

} // verus!
