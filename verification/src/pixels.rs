//! Pixel decoding: the conversion of raw device pixels (B, G, R, A byte
//! order, with a version-dependent alpha quirk) into canonical R, G, B, A
//! order. The conversion is per 4-byte pixel group and independent across
//! pixels.

use vstd::prelude::*;

verus! {

/// The alpha-zero compensation rule: operating-system major versions below 8
/// report 0 alpha for fully opaque captures, so a raw alpha byte of exactly 0
/// is forced to fully opaque there; on version 8 and above it is preserved.
pub open spec fn compensated_alpha(a: u8, os_major: u32) -> u8 {
    if a == 0 && os_major < 8 {
        255u8
    } else {
        a
    }
}

/// Byte `i` of the decoded buffer: within each aligned 4-byte pixel group,
/// bytes 0 and 2 swap (B,G,R,A becomes R,G,B,A) and byte 3 gets the alpha
/// compensation rule.
pub open spec fn decoded_byte(raw: Seq<u8>, os_major: u32, i: int) -> u8
    recommends
        0 <= i < raw.len(),
        raw.len() % 4 == 0,
{
    if i % 4 == 0 {
        raw[i + 2]
    } else if i % 4 == 2 {
        raw[i - 2]
    } else if i % 4 == 3 {
        compensated_alpha(raw[i], os_major)
    } else {
        raw[i]
    }
}

/// The whole decoded buffer, byte for byte.
pub open spec fn decoded(raw: Seq<u8>, os_major: u32) -> Seq<u8> {
    Seq::new(raw.len(), |i: int| decoded_byte(raw, os_major, i))
}

/// Decodes a raw device buffer in place: swaps bytes 0 and 2 of every
/// aligned 4-byte pixel group and applies the alpha compensation rule to
/// byte 3.
pub fn decode_in_place(buf: &mut Vec<u8>, os_major: u32)
    requires
        old(buf).len() % 4 == 0,
    ensures
        final(buf)@ == decoded(old(buf)@, os_major),
{
    let ghost raw: Seq<u8> = buf@;
    let n = buf.len();
    let mut base: usize = 0;
    while base < n
        invariant
            n == buf.len(),
            raw.len() == n,
            n % 4 == 0,
            base % 4 == 0,
            base <= n,
            forall|i: int| 0 <= i < base ==> buf@[i] == decoded_byte(raw, os_major, i),
            forall|i: int| base <= i < n ==> buf@[i] == raw[i],
        decreases n - base,
    {
        proof {
            assert(base + 4 <= n) by {
                assert((n - base) % 4 == 0);
            }
        }
        let b = buf[base];
        let r = buf[base + 2];
        buf.set(base, r);
        buf.set(base + 2, b);
        let a = buf[base + 3];
        if a == 0 && os_major < 8 {
            buf.set(base + 3, 255);
        }
        proof {
            assert(buf@[base as int] == decoded_byte(raw, os_major, base as int));
            assert(buf@[base + 1] == decoded_byte(raw, os_major, base + 1));
            assert(buf@[base + 2] == decoded_byte(raw, os_major, base + 2));
            assert(buf@[base + 3] == decoded_byte(raw, os_major, base + 3));
        }
        base = base + 4;
    }
    proof {
        assert(buf@ =~= decoded(raw, os_major));
    }
}

/// The alpha compensation law: on a legacy version (major below 8) a raw
/// alpha byte of 0 becomes 255; on a modern version (major at least 8) it is
/// preserved; a non-zero alpha byte is never changed.
pub proof fn lemma_alpha_compensation(a: u8, os_major: u32)
    ensures
        os_major < 8 && a == 0 ==> compensated_alpha(a, os_major) == 255,
        os_major >= 8 ==> compensated_alpha(a, os_major) == a,
        a != 0 ==> compensated_alpha(a, os_major) == a,
{
}

/// The byte-order law: a single device pixel [B, G, R, A] decodes to
/// [R, G, B, compensated A].
pub proof fn lemma_pixel_byte_order(b: u8, g: u8, r: u8, a: u8, os_major: u32)
    ensures
        decoded(seq![b, g, r, a], os_major) =~= seq![r, g, b, compensated_alpha(a, os_major)],
{
    let raw = seq![b, g, r, a];
    assert(decoded(raw, os_major)[0] == r);
    assert(decoded(raw, os_major)[1] == g);
    assert(decoded(raw, os_major)[2] == b);
    assert(decoded(raw, os_major)[3] == compensated_alpha(a, os_major));
}

/// Every alpha position of a decoded buffer carries the compensated alpha of
/// the raw byte at the same position.
pub proof fn lemma_alpha_positions(raw: Seq<u8>, os_major: u32, i: int)
    requires
        0 <= i < raw.len(),
        i % 4 == 3,
    ensures
        decoded(raw, os_major)[i] == compensated_alpha(raw[i], os_major),
{
}

} // verus!
