//! The frame decryptor: raw report and key to decoded payload.

use vstd::prelude::*;

verus! {

/// The ASCII text `Htemp99e`, from which the additive mask is taken.
pub const MASK_SOURCE: [u8; 8] = [0x48, 0x74, 0x65, 0x6d, 0x70, 0x39, 0x39, 0x65];

/// Where the byte at position `i` of the permuted frame comes from: the
/// permutation swaps the positions 0 and 2, 1 and 4, 3 and 7, 5 and 6.
pub open spec fn swapped_index(i: int) -> int {
    if i == 0 {
        2
    } else if i == 1 {
        4
    } else if i == 2 {
        0
    } else if i == 3 {
        7
    } else if i == 4 {
        1
    } else if i == 5 {
        6
    } else if i == 6 {
        5
    } else {
        3
    }
}

/// A byte with its two nibbles exchanged.
pub open spec fn nibble_swap(b: u8) -> u8 {
    (b << 4) | (b >> 4)
}

/// The byte subtracted at position `i` in the last step.
pub open spec fn mask_at(i: int) -> u8 {
    nibble_swap(MASK_SOURCE[i])
}

/// Byte `i` after the permutation and the XOR with the key.
pub open spec fn mixed_at(raw: [u8; 8], key: [u8; 8], i: int) -> u8 {
    raw[swapped_index(i)] ^ key[i]
}

/// Byte `i` after the rotation of the whole frame by three bits to the
/// right: the low three bits of the byte before it (cyclically), followed
/// by the high five bits of the byte itself.
pub open spec fn rotated_at(raw: [u8; 8], key: [u8; 8], i: int) -> u8 {
    (mixed_at(raw, key, (i + 7) % 8) << 5) | (mixed_at(raw, key, i) >> 3)
}

/// Difference of two bytes modulo 256.
pub open spec fn sub_mod_256(a: u8, b: u8) -> u8 {
    ((a - b) % 256) as u8
}

/// Byte `i` of the decoded frame.
pub open spec fn decrypted_at(raw: [u8; 8], key: [u8; 8], i: int) -> u8 {
    sub_mod_256(rotated_at(raw, key, i), mask_at(i))
}

/// The decoded frame of a raw report under a key.
pub open spec fn spec_decrypt(raw: [u8; 8], key: [u8; 8]) -> [u8; 8] {
    [
        decrypted_at(raw, key, 0),
        decrypted_at(raw, key, 1),
        decrypted_at(raw, key, 2),
        decrypted_at(raw, key, 3),
        decrypted_at(raw, key, 4),
        decrypted_at(raw, key, 5),
        decrypted_at(raw, key, 6),
        decrypted_at(raw, key, 7),
    ]
}

/// Decodes one raw report with the session key.
///
/// The four steps are the byte permutation, the XOR with the key, the
/// rotation by three bits and the removal of the additive mask. There is no
/// failing input, and the result depends on the two arguments alone.
pub fn decrypt(data: [u8; 8], key: [u8; 8]) -> (out: [u8; 8])
    ensures
        out == spec_decrypt(data, key),
{
    let mut buf: [u8; 8] = data;
    exchange(&mut buf, 0, 2);
    exchange(&mut buf, 1, 4);
    exchange(&mut buf, 3, 7);
    exchange(&mut buf, 5, 6);
    assert(forall|j: int| 0 <= j < 8 ==> buf[j] == data[swapped_index(j)]);

    let mut i: usize = 0;
    while i < 8
        invariant
            i <= 8,
            forall|j: int| 0 <= j < i ==> buf[j] == mixed_at(data, key, j),
            forall|j: int| i <= j < 8 ==> buf[j] == data[swapped_index(j)],
        decreases 8 - i,
    {
        buf[i] = buf[i] ^ key[i];
        i += 1;
    }

    let carry: u8 = buf[7] << 5;
    buf[7] = (buf[6] << 5) | (buf[7] >> 3);
    buf[6] = (buf[5] << 5) | (buf[6] >> 3);
    buf[5] = (buf[4] << 5) | (buf[5] >> 3);
    buf[4] = (buf[3] << 5) | (buf[4] >> 3);
    buf[3] = (buf[2] << 5) | (buf[3] >> 3);
    buf[2] = (buf[1] << 5) | (buf[2] >> 3);
    buf[1] = (buf[0] << 5) | (buf[1] >> 3);
    buf[0] = carry | (buf[0] >> 3);
    assert(forall|j: int| 0 <= j < 8 ==> buf[j] == rotated_at(data, key, j));

    let mut k: usize = 0;
    while k < 8
        invariant
            k <= 8,
            forall|j: int| 0 <= j < k ==> buf[j] == decrypted_at(data, key, j),
            forall|j: int| k <= j < 8 ==> buf[j] == rotated_at(data, key, j),
        decreases 8 - k,
    {
        let m: u8 = MASK_SOURCE[k];
        buf[k] = buf[k].wrapping_sub((m << 4) | (m >> 4));
        k += 1;
    }
    assert(buf =~= spec_decrypt(data, key));
    buf
}

/// Exchanges the bytes at two positions of a frame.
fn exchange(frame: &mut [u8; 8], a: usize, b: usize)
    requires
        a < 8,
        b < 8,
    ensures
        final(frame)@ == old(frame)@.update(a as int, old(frame)[b as int]).update(
            b as int,
            old(frame)[a as int],
        ),
{
    let held: u8 = frame[a];
    frame[a] = frame[b];
    frame[b] = held;
}

/// The permutation is an involution: applied twice, it puts every byte
/// back where it was.
pub proof fn lemma_permutation_is_involution(i: int)
    requires
        0 <= i < 8,
    ensures
        0 <= swapped_index(i) < 8,
        swapped_index(swapped_index(i)) == i,
{
}

/// The mask source holds the ASCII codes of the text `Htemp99e`.
pub proof fn lemma_mask_source_is_text()
    ensures
        "Htemp99e"@.len() == 8,
        forall|i: int| 0 <= i < 8 ==> MASK_SOURCE[i] == #[trigger] "Htemp99e"@[i] as u8,
{
    reveal_strlit("Htemp99e");
}

/// The eight bytes of a frame as one 64-bit word, first byte highest.
pub open spec fn word_of(b: [u8; 8]) -> u64 {
    (b[0] as u64) << 56 | (b[1] as u64) << 48 | (b[2] as u64) << 40 | (b[3] as u64) << 32 | (
    b[4] as u64) << 24 | (b[5] as u64) << 16 | (b[6] as u64) << 8 | (b[7] as u64)
}

/// The frame after the permutation and the XOR with the key.
pub open spec fn mixed(raw: [u8; 8], key: [u8; 8]) -> [u8; 8] {
    [
        mixed_at(raw, key, 0),
        mixed_at(raw, key, 1),
        mixed_at(raw, key, 2),
        mixed_at(raw, key, 3),
        mixed_at(raw, key, 4),
        mixed_at(raw, key, 5),
        mixed_at(raw, key, 6),
        mixed_at(raw, key, 7),
    ]
}

/// The frame after the rotation.
pub open spec fn rotated(raw: [u8; 8], key: [u8; 8]) -> [u8; 8] {
    [
        rotated_at(raw, key, 0),
        rotated_at(raw, key, 1),
        rotated_at(raw, key, 2),
        rotated_at(raw, key, 3),
        rotated_at(raw, key, 4),
        rotated_at(raw, key, 5),
        rotated_at(raw, key, 6),
        rotated_at(raw, key, 7),
    ]
}

/// The third step, read on the frame as one 64-bit word, is a rotation of
/// that word by three bits to the right.
pub proof fn lemma_rotation_is_word_rotation(raw: [u8; 8], key: [u8; 8])
    ensures
        word_of(rotated(raw, key)) == (word_of(mixed(raw, key)) >> 3) | (word_of(mixed(raw, key))
            << 61),
{
    let m = mixed(raw, key);
    let r = rotated(raw, key);
    let (m0, m1, m2, m3, m4, m5, m6, m7) = (m[0], m[1], m[2], m[3], m[4], m[5], m[6], m[7]);
    let (r0, r1, r2, r3, r4, r5, r6, r7) = (r[0], r[1], r[2], r[3], r[4], r[5], r[6], r[7]);
    assert(r0 == (m7 << 5) | (m0 >> 3));
    assert(r1 == (m0 << 5) | (m1 >> 3));
    assert(r2 == (m1 << 5) | (m2 >> 3));
    assert(r3 == (m2 << 5) | (m3 >> 3));
    assert(r4 == (m3 << 5) | (m4 >> 3));
    assert(r5 == (m4 << 5) | (m5 >> 3));
    assert(r6 == (m5 << 5) | (m6 >> 3));
    assert(r7 == (m6 << 5) | (m7 >> 3));
    let wm: u64 = (m0 as u64) << 56 | (m1 as u64) << 48 | (m2 as u64) << 40 | (m3 as u64) << 32 | (
    m4 as u64) << 24 | (m5 as u64) << 16 | (m6 as u64) << 8 | (m7 as u64);
    let wr: u64 = (r0 as u64) << 56 | (r1 as u64) << 48 | (r2 as u64) << 40 | (r3 as u64) << 32 | (
    r4 as u64) << 24 | (r5 as u64) << 16 | (r6 as u64) << 8 | (r7 as u64);
    assert(wr == (wm >> 3) | (wm << 61)) by (bit_vector)
        requires
            r0 == (m7 << 5) | (m0 >> 3),
            r1 == (m0 << 5) | (m1 >> 3),
            r2 == (m1 << 5) | (m2 >> 3),
            r3 == (m2 << 5) | (m3 >> 3),
            r4 == (m3 << 5) | (m4 >> 3),
            r5 == (m4 << 5) | (m5 >> 3),
            r6 == (m5 << 5) | (m6 >> 3),
            r7 == (m6 << 5) | (m7 >> 3),
            wm == (m0 as u64) << 56 | (m1 as u64) << 48 | (m2 as u64) << 40 | (m3 as u64) << 32 | (
            m4 as u64) << 24 | (m5 as u64) << 16 | (m6 as u64) << 8 | (m7 as u64),
            wr == (r0 as u64) << 56 | (r1 as u64) << 48 | (r2 as u64) << 40 | (r3 as u64) << 32 | (
            r4 as u64) << 24 | (r5 as u64) << 16 | (r6 as u64) << 8 | (r7 as u64),
    ;
}

} // verus!
