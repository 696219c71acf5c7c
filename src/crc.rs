//! The 8-bit CRC (polynomial 0x07, bytes fed least-significant bit first)
//! that closes every datagram on the TMC2209 serial line.
use vstd::prelude::*;

verus! {

/// One shift/xor iteration of the CRC register on a single input bit.
pub open spec fn crc_bit(crc: u8, bit: u8) -> u8 {
    if ((crc >> 7u8) ^ bit) != 0u8 {
        ((crc << 1u8) ^ 7u8) as u8
    } else {
        (crc << 1u8) as u8
    }
}

/// The CRC register after feeding the low `n` bits of `b`, least-significant first.
pub open spec fn crc_bits(crc: u8, b: u8, n: nat) -> u8
    decreases n,
{
    if n == 0 {
        crc
    } else {
        crc_bit(crc_bits(crc, b, (n - 1) as nat), (b >> ((n - 1) as u8)) & 1u8)
    }
}

/// The CRC register after feeding one whole byte.
pub open spec fn crc_update(crc: u8, b: u8) -> u8 {
    crc_bits(crc, b, 8)
}

/// The CRC register after feeding every byte of `s`, starting from `start`.
pub open spec fn crc_from(start: u8, s: Seq<u8>) -> u8
    decreases s.len(),
{
    if s.len() == 0 {
        start
    } else {
        crc_update(crc_from(start, s.drop_last()), s.last())
    }
}

/// The CRC of a byte sequence, as the driver computes it.
pub open spec fn crc8(s: Seq<u8>) -> u8 {
    crc_from(0, s)
}

/// `s` with bit `j` of byte `i` inverted.
pub open spec fn flip_bit(s: Seq<u8>, i: int, j: u8) -> Seq<u8> {
    s.update(i, s[i] ^ (1u8 << j))
}

/// A frame whose last byte is the CRC of the bytes before it.
pub open spec fn crc_closes(frame: Seq<u8>) -> bool {
    frame.len() >= 1 && frame.last() == crc8(frame.drop_last())
}

proof fn lemma_bit_injective(s: u8, t: u8, bit: u8)
    requires
        s != t,
        bit <= 1,
    ensures
        crc_bit(s, bit) != crc_bit(t, bit),
{
    assert(s != t && bit <= 1 ==> (if ((s >> 7u8) ^ bit) != 0u8 {
        ((s << 1u8) ^ 7u8) as u8
    } else {
        (s << 1u8) as u8
    }) != (if ((t >> 7u8) ^ bit) != 0u8 {
        ((t << 1u8) ^ 7u8) as u8
    } else {
        (t << 1u8) as u8
    })) by (bit_vector);
}

proof fn lemma_bit_distinct(s: u8, b1: u8, b2: u8)
    requires
        b1 != b2,
        b1 <= 1,
        b2 <= 1,
    ensures
        crc_bit(s, b1) != crc_bit(s, b2),
{
    assert(b1 != b2 && b1 <= 1 && b2 <= 1 ==> (if ((s >> 7u8) ^ b1) != 0u8 {
        ((s << 1u8) ^ 7u8) as u8
    } else {
        (s << 1u8) as u8
    }) != (if ((s >> 7u8) ^ b2) != 0u8 {
        ((s << 1u8) ^ 7u8) as u8
    } else {
        (s << 1u8) as u8
    })) by (bit_vector);
}

proof fn lemma_bits_injective(s: u8, t: u8, b: u8, n: nat)
    requires
        s != t,
        n <= 8,
    ensures
        crc_bits(s, b, n) != crc_bits(t, b, n),
    decreases n,
{
    if n > 0 {
        let m = (n - 1) as u8;
        lemma_bits_injective(s, t, b, (n - 1) as nat);
        assert((b >> m) & 1u8 <= 1) by (bit_vector);
        lemma_bit_injective(
            crc_bits(s, b, (n - 1) as nat),
            crc_bits(t, b, (n - 1) as nat),
            (b >> m) & 1u8,
        );
    }
}

proof fn lemma_bits_flip(s: u8, b: u8, j: u8, n: nat)
    requires
        j < 8,
        n <= 8,
    ensures
        n <= j ==> crc_bits(s, b, n) == crc_bits(s, b ^ (1u8 << j), n),
        n > j ==> crc_bits(s, b, n) != crc_bits(s, b ^ (1u8 << j), n),
    decreases n,
{
    let c = b ^ (1u8 << j);
    if n > 0 {
        let m = (n - 1) as u8;
        lemma_bits_flip(s, b, j, (n - 1) as nat);
        assert(m < 8 && j < 8 ==> (m != j <==> (c >> m) & 1u8 == (b >> m) & 1u8)) by (bit_vector)
            requires
                c == b ^ (1u8 << j),
        ;
        assert((b >> m) & 1u8 <= 1 && (c >> m) & 1u8 <= 1) by (bit_vector);
        let sb = crc_bits(s, b, (n - 1) as nat);
        let sc = crc_bits(s, c, (n - 1) as nat);
        if n - 1 < j {
        } else if n - 1 == j {
            lemma_bit_distinct(sb, (b >> m) & 1u8, (c >> m) & 1u8);
        } else {
            lemma_bit_injective(sb, sc, (b >> m) & 1u8);
        }
    }
}

proof fn lemma_from_injective(s: u8, t: u8, q: Seq<u8>)
    requires
        s != t,
    ensures
        crc_from(s, q) != crc_from(t, q),
    decreases q.len(),
{
    if q.len() > 0 {
        lemma_from_injective(s, t, q.drop_last());
        lemma_bits_injective(crc_from(s, q.drop_last()), crc_from(t, q.drop_last()), q.last(), 8);
    }
}

proof fn lemma_from_split(st: u8, a: Seq<u8>, q: Seq<u8>)
    ensures
        crc_from(st, a + q) == crc_from(crc_from(st, a), q),
    decreases q.len(),
{
    if q.len() == 0 {
        assert(a + q =~= a);
    } else {
        lemma_from_split(st, a, q.drop_last());
        assert((a + q).drop_last() =~= a + q.drop_last());
    }
}

/// Appending the computed CRC to any prefix gives a frame that passes the
/// CRC check, and dropping that byte again gives back the prefix.
pub proof fn lemma_crc_round_trip(prefix: Seq<u8>)
    ensures
        crc_closes(prefix.push(crc8(prefix))),
        prefix.push(crc8(prefix)).drop_last() == prefix,
{
    assert(prefix.push(crc8(prefix)).drop_last() =~= prefix);
}

/// Inverting any single bit of a frame that passes the CRC check gives a
/// frame that fails it.
pub proof fn lemma_single_bit_flip_detected(frame: Seq<u8>, i: int, j: u8)
    requires
        crc_closes(frame),
        0 <= i < frame.len(),
        j < 8,
    ensures
        !crc_closes(flip_bit(frame, i, j)),
{
    let g = flip_bit(frame, i, j);
    let b = frame[i];
    let c = b ^ (1u8 << j);
    assert(j < 8 ==> b ^ (1u8 << j) != b) by (bit_vector);
    if i == frame.len() - 1 {
        assert(g.drop_last() =~= frame.drop_last());
    } else {
        let p = frame.drop_last();
        let h = g.drop_last();
        assert(h =~= flip_bit(p, i, j));
        let rest = p.skip(i + 1);
        assert(p =~= p.take(i + 1) + rest);
        assert(h =~= h.take(i + 1) + rest);
        assert(p.take(i + 1).drop_last() =~= p.take(i));
        assert(h.take(i + 1).drop_last() =~= p.take(i));
        lemma_from_split(0, p.take(i + 1), rest);
        lemma_from_split(0, h.take(i + 1), rest);
        let st = crc_from(0, p.take(i));
        lemma_bits_flip(st, b, j, 8);
        lemma_from_injective(crc_update(st, b), crc_update(st, c), rest);
    }
}

/// Computes the CRC8-ATM of `bytes` bit by bit, as the datasheet describes.
pub fn crc8_atm(bytes: &[u8]) -> (r: u8)
    ensures
        r == crc8(bytes@),
{
    let mut crc: u8 = 0;
    let mut i: usize = 0;
    while i < bytes.len()
        invariant
            i <= bytes@.len(),
            crc == crc_from(0, bytes@.take(i as int)),
        decreases bytes@.len() - i,
    {
        let byte: u8 = bytes[i];
        let mut b: u8 = byte;
        let mut k: u8 = 0;
        let ghost start = crc;
        assert(byte >> 0u8 == byte) by (bit_vector);
        while k < 8
            invariant
                k <= 8,
                b == byte >> k,
                crc == crc_bits(start, byte, k as nat),
            decreases 8 - k,
        {
            if (crc >> 7u8) ^ (b & 1u8) != 0 {
                crc = (crc << 1u8) ^ 7u8;
            } else {
                crc = crc << 1u8;
            }
            assert((byte >> k) >> 1u8 == byte >> ((k + 1) as u8)) by (bit_vector)
                requires
                    k < 8,
            ;
            b = b >> 1u8;
            k = k + 1;
        }
        proof {
            let s = bytes@.take((i + 1) as int);
            assert(s.drop_last() =~= bytes@.take(i as int));
        }
        i = i + 1;
    }
    proof {
        assert(bytes@.take(bytes@.len() as int) =~= bytes@);
    }
    crc
}

} // verus!
