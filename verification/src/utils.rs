use vstd::prelude::*;
use vstd::arithmetic::div_mod::lemma_fundamental_div_mod;

verus! {

/// Longest buffer the executable checksum accepts: keeps the running
/// 32-bit one's-complement sum from overflowing.
pub const MAX_CHECKSUM_LEN: usize = 131072;

/// The 16-bit value found at byte offset `i` of `d`, high byte first
/// (network byte order).
pub open spec fn be16(d: Seq<u8>, i: int) -> u16
    recommends
        0 <= i,
        i + 2 <= d.len(),
{
    ((d[i] as int) * 0x100 + (d[i + 1] as int)) as u16
}

/// The 32-bit value found at byte offset `i` of `d`, high byte first
/// (network byte order).
pub open spec fn be32(d: Seq<u8>, i: int) -> u32
    recommends
        0 <= i,
        i + 4 <= d.len(),
{
    ((d[i] as int) * 0x1000000 + (d[i + 1] as int) * 0x10000 + (d[i + 2] as int) * 0x100 + (d[i
        + 3] as int)) as u32
}

/// The two bytes of `x` in network byte order (high byte first).
pub open spec fn be16_bytes(x: u16) -> Seq<u8> {
    seq![(x / 0x100) as u8, (x % 0x100) as u8]
}

/// The four bytes of `x` in network byte order (high byte first).
pub open spec fn be32_bytes(x: u32) -> Seq<u8> {
    seq![
        (x / 0x1000000) as u8,
        ((x / 0x10000) % 0x100) as u8,
        ((x / 0x100) % 0x100) as u8,
        (x % 0x100) as u8,
    ]
}

/// Sum of the 16-bit words of `d`, taken in buffer order with the low
/// byte first in each pair; a trailing odd byte counts as a word whose
/// high byte is zero.
pub open spec fn sum_words(d: Seq<u8>) -> int
    decreases d.len(),
{
    if d.len() == 0 {
        0
    } else if d.len() == 1 {
        d[0] as int
    } else {
        (d[0] as int) + 0x100 * (d[1] as int) + sum_words(d.skip(2))
    }
}

/// One's-complement folding: move the carries above bit 16 back into
/// the low 16 bits until the sum fits.
pub open spec fn fold_carries(s: int) -> int
    recommends
        s >= 0,
    decreases s,
{
    if s <= 0xFFFF {
        s
    } else {
        fold_carries(s % 0x10000 + s / 0x10000)
    }
}

/// The internet checksum of `d`: the complement of the folded
/// one's-complement sum of its 16-bit words.
pub open spec fn spec_checksum(d: Seq<u8>) -> u16 {
    (0xFFFF - fold_carries(sum_words(d))) as u16
}

pub proof fn lemma_sum_words_nonneg(d: Seq<u8>)
    ensures
        sum_words(d) >= 0,
    decreases d.len(),
{
    if d.len() >= 2 {
        lemma_sum_words_nonneg(d.skip(2));
    }
}

pub proof fn lemma_fold_carries_range(s: int)
    requires
        s >= 0,
    ensures
        0 <= fold_carries(s) <= 0xFFFF,
    decreases s,
{
    if s > 0xFFFF {
        lemma_fold_carries_range(s % 0x10000 + s / 0x10000);
    }
}

/// Every non-negative sum is its folded value plus a multiple of 0xFFFF.
pub proof fn lemma_fold_carries_decompose(s: int) -> (k: int)
    requires
        s >= 0,
    ensures
        k >= 0,
        s == fold_carries(s) + 0xFFFF * k,
    decreases s,
{
    if s <= 0xFFFF {
        0
    } else {
        let q = s / 0x10000;
        let r = s % 0x10000;
        lemma_fundamental_div_mod(s, 0x10000);
        assert(q >= 1);
        let k2 = lemma_fold_carries_decompose(q + r);
        assert(s == (q + r) + 0xFFFF * q);
        k2 + q
    }
}

/// A positive multiple of 0xFFFF always folds to exactly 0xFFFF.
pub proof fn lemma_fold_carries_multiple(j: int)
    requires
        j >= 1,
    ensures
        fold_carries(0xFFFF * j) == 0xFFFF,
    decreases j,
{
    let s = 0xFFFF * j;
    if j == 1 {
        assert(fold_carries(s) == s);
    } else {
        let q = s / 0x10000;
        let r = s % 0x10000;
        lemma_fundamental_div_mod(s, 0x10000);
        assert(s >= 0x1FFFE) by (nonlinear_arith)
            requires
                j >= 2,
                s == 0xFFFF * j,
        ;
        assert(q >= 1);
        assert(q < j) by (nonlinear_arith)
            requires
                s == 0xFFFF * j,
                s == 0x10000 * q + r,
                0 <= r < 0x10000,
                j >= 1,
                q >= 1,
        ;
        assert(q + r == 0xFFFF * (j - q));
        lemma_fold_carries_multiple(j - q);
        assert(fold_carries(s) == fold_carries(q + r));
    }
}

/// One's-complement 16-bit internet checksum over a byte buffer.
pub fn checksum(data: &[u8]) -> (r: u16)
    requires
        data@.len() <= MAX_CHECKSUM_LEN,
    ensures
        r == spec_checksum(data@),
{
    let n: usize = data.len();
    let mut sum: u32 = 0;
    let mut i: usize = 0;
    proof {
        assert(data@.skip(0) =~= data@);
    }
    while i + 2 <= n
        invariant
            n == data@.len(),
            n <= MAX_CHECKSUM_LEN,
            i % 2 == 0,
            i <= n,
            sum <= (i as int / 2) * 0xFFFF,
            sum_words(data@) == sum + sum_words(data@.skip(i as int)),
        decreases n - i,
    {
        proof {
            assert(data@.skip(i as int).skip(2) =~= data@.skip(i as int + 2));
            assert((i as int / 2) * 0xFFFF <= 65535 * 0xFFFF) by (nonlinear_arith)
                requires
                    0 <= i as int / 2 <= 65535,
            ;
            assert((i as int + 2) / 2 * 0xFFFF == (i as int / 2) * 0xFFFF + 0xFFFF)
                by (nonlinear_arith)
                requires
                    i % 2 == 0,
                    i >= 0,
            ;
        }
        let w: u32 = (data[i] as u32) + 0x100 * (data[i + 1] as u32);
        sum = sum + w;
        i = i + 2;
    }
    if i < n {
        proof {
            assert(data@.skip(i as int).len() == 1);
            assert((i as int / 2) * 0xFFFF <= 65536 * 0xFFFF) by (nonlinear_arith)
                requires
                    0 <= i as int / 2 <= 65536,
            ;
        }
        sum = sum + (data[i] as u32);
    }
    proof {
        if i >= n {
            assert(data@.skip(i as int).len() == 0);
        }
    }
    let ghost total: int = sum as int;
    while sum > 0xFFFF
        invariant
            sum >= 0,
            total >= 0,
            fold_carries(sum as int) == fold_carries(total),
        decreases sum,
    {
        proof {
            lemma_fundamental_div_mod(sum as int, 0x10000);
        }
        sum = sum % 0x10000 + sum / 0x10000;
    }
    0xFFFFu16 - (sum as u16)
}

/// Splitting a buffer at an even offset splits its word sum.
pub proof fn lemma_sum_words_split(d: Seq<u8>, k: int)
    requires
        0 <= k,
        2 * k <= d.len(),
    ensures
        sum_words(d) == sum_words(d.take(2 * k)) + sum_words(d.skip(2 * k)),
    decreases k,
{
    if k == 0 {
        assert(d.take(0) =~= Seq::<u8>::empty());
        assert(d.skip(0) =~= d);
    } else {
        lemma_sum_words_split(d.skip(2), k - 1);
        assert(d.skip(2).take(2 * k - 2) =~= d.take(2 * k).skip(2));
        assert(d.skip(2).skip(2 * k - 2) =~= d.skip(2 * k));
        assert(sum_words(d.take(2 * k)) == (d[0] as int) + 0x100 * (d[1] as int) + sum_words(
            d.take(2 * k).skip(2),
        ));
    }
}

/// Appending the checksum of an even-length buffer, low byte first,
/// yields a buffer whose checksum is zero.
pub proof fn lemma_checksum_round_trip(d: Seq<u8>)
    requires
        d.len() % 2 == 0,
    ensures
        spec_checksum(d + seq![
            (spec_checksum(d) % 0x100) as u8,
            (spec_checksum(d) / 0x100) as u8,
        ]) == 0,
{
    let c = spec_checksum(d);
    let tail = seq![(c % 0x100) as u8, (c / 0x100) as u8];
    let d2 = d + tail;
    lemma_sum_words_nonneg(d);
    let s = sum_words(d);
    lemma_fold_carries_range(s);
    let f = fold_carries(s);
    assert(c == 0xFFFF - f);
    lemma_sum_words_split(d2, d.len() as int / 2);
    assert(2 * (d.len() as int / 2) == d.len());
    assert(d2.take(d.len() as int) =~= d);
    assert(d2.skip(d.len() as int) =~= tail);
    assert(sum_words(tail) == (tail[0] as int) + 0x100 * (tail[1] as int) + sum_words(
        tail.skip(2),
    ));
    assert(tail.skip(2) =~= Seq::<u8>::empty());
    assert((tail[0] as int) + 0x100 * (tail[1] as int) == c) by {
        lemma_fundamental_div_mod(c as int, 0x100);
    }
    assert(sum_words(d2) == s + c);
    let k = lemma_fold_carries_decompose(s);
    assert(s + c == 0xFFFF * (k + 1));
    lemma_fold_carries_multiple(k + 1);
    assert(fold_carries(sum_words(d2)) == 0xFFFF);
}

/// `p` with its own checksum written into the pair of bytes at even
/// offset `2*k`, low byte first.
pub open spec fn spec_patch_checksum(p: Seq<u8>, k: int) -> Seq<u8> {
    p.update(2 * k, (spec_checksum(p) % 0x100) as u8).update(
        2 * k + 1,
        (spec_checksum(p) / 0x100) as u8,
    )
}

/// Overwriting the zeroed pair at even offset `2*k` with the bytes of
/// `c` (low byte first) raises the word sum by exactly `c`.
pub proof fn lemma_sum_words_patch(d: Seq<u8>, k: int, c: u16)
    requires
        0 <= k,
        2 * k + 2 <= d.len(),
        d[2 * k] == 0,
        d[2 * k + 1] == 0,
    ensures
        sum_words(d.update(2 * k, (c % 0x100) as u8).update(2 * k + 1, (c / 0x100) as u8))
            == sum_words(d) + c,
    decreases k,
{
    let d2 = d.update(2 * k, (c % 0x100) as u8).update(2 * k + 1, (c / 0x100) as u8);
    if k == 0 {
        assert(d2.skip(2) =~= d.skip(2));
        assert(d2[0] == (c % 0x100) as u8);
        assert(d2[1] == (c / 0x100) as u8);
        lemma_fundamental_div_mod(c as int, 0x100);
        assert(sum_words(d2) == (d2[0] as int) + 0x100 * (d2[1] as int) + sum_words(d2.skip(2)));
        assert(sum_words(d) == (d[0] as int) + 0x100 * (d[1] as int) + sum_words(d.skip(2)));
    } else {
        lemma_sum_words_patch(d.skip(2), k - 1, c);
        assert(d2.skip(2) =~= d.skip(2).update(2 * (k - 1), (c % 0x100) as u8).update(
            2 * (k - 1) + 1,
            (c / 0x100) as u8,
        ));
        assert(sum_words(d2) == (d2[0] as int) + 0x100 * (d2[1] as int) + sum_words(d2.skip(2)));
        assert(sum_words(d) == (d[0] as int) + 0x100 * (d[1] as int) + sum_words(d.skip(2)));
    }
}

/// A packet whose zeroed checksum field at even offset `2*k` is patched
/// with its own checksum (low byte first) sums to zero overall.
pub proof fn lemma_checksum_patch_zero(d: Seq<u8>, k: int)
    requires
        0 <= k,
        2 * k + 2 <= d.len(),
        d[2 * k] == 0,
        d[2 * k + 1] == 0,
    ensures
        spec_checksum(spec_patch_checksum(d, k)) == 0,
{
    let c = spec_checksum(d);
    let d2 = d.update(2 * k, (c % 0x100) as u8).update(2 * k + 1, (c / 0x100) as u8);
    lemma_sum_words_nonneg(d);
    let s = sum_words(d);
    lemma_fold_carries_range(s);
    let f = fold_carries(s);
    assert(c == 0xFFFF - f);
    lemma_sum_words_patch(d, k, c);
    assert(sum_words(d2) == s + c);
    let j = lemma_fold_carries_decompose(s);
    assert(s + c == 0xFFFF * (j + 1));
    lemma_fold_carries_multiple(j + 1);
    assert(fold_carries(sum_words(d2)) == 0xFFFF);
}

/// Read the 16-bit big-endian value at offset `i`.
pub fn read_be16(data: &[u8], i: usize) -> (r: u16)
    requires
        i + 2 <= data@.len(),
    ensures
        r == be16(data@, i as int),
{
    (data[i] as u16) * 0x100 + (data[i + 1] as u16)
}

/// Read the 32-bit big-endian value at offset `i`.
pub fn read_be32(data: &[u8], i: usize) -> (r: u32)
    requires
        i + 4 <= data@.len(),
    ensures
        r == be32(data@, i as int),
{
    (data[i] as u32) * 0x1000000 + (data[i + 1] as u32) * 0x10000 + (data[i + 2] as u32) * 0x100 + (
    data[i + 3] as u32)
}

/// Append the two bytes of `x`, high byte first.
pub fn push_be16(out: &mut Vec<u8>, x: u16)
    ensures
        final(out)@ == old(out)@ + be16_bytes(x),
{
    out.push((x / 0x100) as u8);
    out.push((x % 0x100) as u8);
    proof {
        assert(out@ =~= old(out)@ + be16_bytes(x));
    }
}

/// Append the four bytes of `x`, high byte first.
pub fn push_be32(out: &mut Vec<u8>, x: u32)
    ensures
        final(out)@ == old(out)@ + be32_bytes(x),
{
    out.push((x / 0x1000000) as u8);
    out.push(((x / 0x10000) % 0x100) as u8);
    out.push(((x / 0x100) % 0x100) as u8);
    out.push((x % 0x100) as u8);
    proof {
        assert(out@ =~= old(out)@ + be32_bytes(x));
    }
}

} // verus!
