//! The wire format: a four-byte little-endian payload length, then the payload.

use vstd::prelude::*;

verus! {

/// Maximum payload of a message (1 MiB), in each direction.
pub const MAX_MESSAGE_SIZE: usize = 1024 * 1024;

/// Bytes in a length prefix.
pub const PREFIX_LEN: usize = 4;

/// The four bytes of `n`, least significant first.
pub open spec fn prefix_bytes(n: nat) -> Seq<u8> {
    seq![
        (n % 256) as u8,
        (n / 256 % 256) as u8,
        (n / 65536 % 256) as u8,
        (n / 16777216 % 256) as u8,
    ]
}

/// The number whose four bytes, least significant first, stand at the head of
/// `bytes`.
pub open spec fn prefix_value(bytes: Seq<u8>) -> nat {
    (bytes[0] + 256 * bytes[1] + 65536 * bytes[2] + 16777216 * bytes[3]) as nat
}

/// The frame that carries `payload`.
pub open spec fn frame(payload: Seq<u8>) -> Seq<u8> {
    prefix_bytes(payload.len()) + payload
}

/// The frames of `payloads`, one after the other.
pub open spec fn frames(payloads: Seq<Seq<u8>>) -> Seq<u8>
    decreases payloads.len(),
{
    if payloads.len() == 0 {
        Seq::empty()
    } else {
        frame(payloads[0]) + frames(payloads.subrange(1, payloads.len() as int))
    }
}

/// The bytes of a length prefix.
pub fn prefix_of(len: u32) -> (bytes: [u8; 4])
    ensures
        bytes@ == prefix_bytes(len as nat),
{
    let bytes: [u8; 4] = [
        (len % 256) as u8,
        (len / 256 % 256) as u8,
        (len / 65536 % 256) as u8,
        (len / 16777216 % 256) as u8,
    ];
    assert(bytes@ =~= prefix_bytes(len as nat));
    bytes
}

/// The length that the first four bytes declare.
pub fn declared_len(bytes: &[u8]) -> (len: u32)
    requires
        bytes.len() >= 4,
    ensures
        len == prefix_value(bytes@),
{
    bytes[0] as u32 + 256 * bytes[1] as u32 + 65536 * bytes[2] as u32 + 16777216 * bytes[3] as u32
}

/// A length survives its encoding: reading the prefix of `n` gives `n` back,
/// whatever follows it.
pub proof fn law_prefix_round_trip(n: nat, rest: Seq<u8>)
    requires
        n <= u32::MAX,
    ensures
        prefix_bytes(n).len() == 4,
        prefix_value(prefix_bytes(n) + rest) == n,
{
    let s = prefix_bytes(n) + rest;
    assert(s[0] == prefix_bytes(n)[0]);
    assert(s[1] == prefix_bytes(n)[1]);
    assert(s[2] == prefix_bytes(n)[2]);
    assert(s[3] == prefix_bytes(n)[3]);
}

/// Every four bytes are the prefix of the length that they declare, so a length
/// has one encoding only.
pub proof fn law_prefix_is_canonical(bytes: Seq<u8>)
    requires
        bytes.len() == 4,
    ensures
        prefix_value(bytes) <= u32::MAX,
        prefix_bytes(prefix_value(bytes)) == bytes,
{
    let b0 = bytes[0] as int;
    let b1 = bytes[1] as int;
    let b2 = bytes[2] as int;
    let b3 = bytes[3] as int;
    let n = prefix_value(bytes) as int;
    assert(n == b0 + 256 * (b1 + 256 * (b2 + 256 * b3)));
    assert(n / 256 == b1 + 256 * (b2 + 256 * b3));
    assert(n / 256 / 256 == b2 + 256 * b3);
    assert(n / 256 / 256 / 256 == b3);
    assert(n / 65536 == n / 256 / 256);
    assert(n / 16777216 == n / 256 / 256 / 256);
    assert(prefix_bytes(prefix_value(bytes)) =~= bytes);
}

/// Two payloads have the same frame only if they are the same, and no frame is
/// the beginning of another payload's frame: what follows a frame cannot change
/// how it is read.
pub proof fn law_frames_are_prefix_free(p: Seq<u8>, q: Seq<u8>, after_p: Seq<u8>, after_q: Seq<u8>)
    requires
        p.len() <= u32::MAX,
        q.len() <= u32::MAX,
        frame(p) + after_p == frame(q) + after_q,
    ensures
        p == q,
        after_p == after_q,
{
    let s = frame(p) + after_p;
    assert(s =~= prefix_bytes(p.len()) + (p + after_p));
    assert(frame(q) + after_q =~= prefix_bytes(q.len()) + (q + after_q));
    law_prefix_round_trip(p.len(), p + after_p);
    law_prefix_round_trip(q.len(), q + after_q);
    assert(p.len() == q.len());
    let n = p.len() as int;
    assert(p =~= s.subrange(4, 4 + n));
    assert(q =~= s.subrange(4, 4 + n));
    assert(after_p =~= s.subrange(4 + n, s.len() as int));
    assert(after_q =~= s.subrange(4 + n, s.len() as int));
}

/// The first byte of a prefix counts ones, the second 256s, and so on: changing
/// one byte changes the length by that byte's difference at its weight.
pub proof fn law_prefix_is_little_endian(bytes: Seq<u8>, b: u8)
    requires
        bytes.len() >= 4,
    ensures
        prefix_value(bytes.update(0, b)) - prefix_value(bytes) == b - bytes[0],
        prefix_value(bytes.update(1, b)) - prefix_value(bytes) == 256 * (b - bytes[1]),
        prefix_value(bytes.update(2, b)) - prefix_value(bytes) == 65_536 * (b - bytes[2]),
        prefix_value(bytes.update(3, b)) - prefix_value(bytes) == 16_777_216 * (b - bytes[3]),
        prefix_value(seq![0u8, 0u8, 0u8, 0u8]) == 0,
{
}

/// What is written as a length is read as the same length, whatever follows it.
pub proof fn law_written_length_is_read(
    len: u32,
    written: [u8; 4],
    stream: &[u8],
    rest: Seq<u8>,
    read: u32,
)
    requires
        call_ensures(prefix_of, (len,), written),
        stream@ == written@ + rest,
        call_ensures(declared_len, (stream,), read),
    ensures
        read == len,
        len < 256 ==> written@ == seq![len as u8, 0u8, 0u8, 0u8],
        PREFIX_LEN == written@.len(),
{
    law_prefix_round_trip(len as nat, rest);
    if len < 256 {
        assert(written@ =~= seq![len as u8, 0u8, 0u8, 0u8]);
    }
}

} // verus!
