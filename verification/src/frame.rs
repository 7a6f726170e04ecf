use vstd::prelude::*;

verus! {

/// The four bytes of `n`'s unsigned big-endian encoding, most significant
/// byte first.
pub open spec fn be32(n: u32) -> Seq<u8> {
    seq![
        ((n >> 24) & 0xff) as u8,
        ((n >> 16) & 0xff) as u8,
        ((n >> 8) & 0xff) as u8,
        (n & 0xff) as u8,
    ]
}

/// The unsigned value that a four-byte big-endian sequence stands for.
pub open spec fn be32_value(s: Seq<u8>) -> int
    recommends
        s.len() == 4,
{
    s[0] * 0x100_0000 + s[1] * 0x1_0000 + s[2] * 0x100 + s[3]
}

/// A payload's wire frame: the payload's length in four big-endian bytes,
/// followed by the payload itself.
pub open spec fn frame_of(payload: Seq<u8>) -> Seq<u8>
    recommends
        payload.len() < 0x1_0000_0000,
{
    be32(payload.len() as u32) + payload
}

/// The big-endian encoding decodes back to the value it was made from.
pub proof fn lemma_be32_decodes(n: u32)
    ensures
        be32(n).len() == 4,
        be32_value(be32(n)) == n,
{
    let b0: u8 = ((n >> 24) & 0xff) as u8;
    let b1: u8 = ((n >> 16) & 0xff) as u8;
    let b2: u8 = ((n >> 8) & 0xff) as u8;
    let b3: u8 = (n & 0xff) as u8;
    assert(b0 * 0x100_0000 + b1 * 0x1_0000 + b2 * 0x100 + b3 == n) by (bit_vector)
        requires
            b0 == ((n >> 24) & 0xff) as u8,
            b1 == ((n >> 16) & 0xff) as u8,
            b2 == ((n >> 8) & 0xff) as u8,
            b3 == (n & 0xff) as u8,
    ;
}

/// Framing correctness: for every payload whose length fits in 32 bits, the
/// frame is exactly four bytes holding the payload's length, most
/// significant byte first, followed by the payload bytes and nothing else.
pub proof fn lemma_frame_layout(payload: Seq<u8>)
    requires
        payload.len() < 0x1_0000_0000,
    ensures
        frame_of(payload).len() == payload.len() + 4,
        be32_value(frame_of(payload).subrange(0, 4)) == payload.len(),
        frame_of(payload).subrange(4, frame_of(payload).len() as int) == payload,
{
    let n: u32 = payload.len() as u32;
    lemma_be32_decodes(n);
    assert(frame_of(payload).subrange(0, 4) =~= be32(n));
    assert(frame_of(payload).subrange(4, frame_of(payload).len() as int) =~= payload);
}

/// Build the wire frame for one payload: the payload's length as a
/// four-byte big-endian prefix, followed by the payload bytes themselves.
/// A payload whose length does not fit in 32 bits has no frame and is a
/// logic error in the caller, left out here.
pub fn encode_frame(payload: &Vec<u8>) -> (frame: Vec<u8>)
    requires
        payload@.len() < 0x1_0000_0000,
    ensures
        frame@ == frame_of(payload@),
{
    let len: u32 = payload.len() as u32;
    proof {
        assert((len >> 24) & 0xff < 256 && (len >> 16) & 0xff < 256 && (len >> 8) & 0xff < 256
            && len & 0xff < 256) by (bit_vector);
    }
    let mut frame: Vec<u8> = Vec::new();
    frame.push(((len >> 24) & 0xff) as u8);
    frame.push(((len >> 16) & 0xff) as u8);
    frame.push(((len >> 8) & 0xff) as u8);
    frame.push((len & 0xff) as u8);
    proof {
        assert(frame@ =~= be32(len));
    }
    let mut i: usize = 0;
    while i < payload.len()
        invariant
            i <= payload@.len(),
            frame@ == be32(payload@.len() as u32) + payload@.subrange(0, i as int),
        decreases payload@.len() - i,
    {
        frame.push(payload[i]);
        proof {
            assert(payload@.subrange(0, i + 1) =~= payload@.subrange(0, i as int).push(payload@[i as int]));
        }
        i = i + 1;
    }
    proof {
        assert(payload@.subrange(0, payload@.len() as int) =~= payload@);
    }
    frame
}

} // verus!
