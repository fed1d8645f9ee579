use vstd::prelude::*;
use vstd::arithmetic::power2::{lemma2_to64, lemma_pow2_adds, lemma_pow2_pos, pow2};

use crate::crc::{crc32, spec_crc32};
use crate::text::{append_decimal, spec_decimal};

verus! {

/// Ways in which applying a BPS patch can be refused.
#[derive(Debug, Clone, Copy, PartialEq, Eq)]
pub enum BPSError {
    /// The input has another size than the patch expects: (expected, actual).
    InputSize(usize, usize),
    /// The produced output has another size than the patch declares: (expected, actual).
    OutputSize(usize, usize),
    /// The checksum of the input does not match: (expected, actual).
    InputCRC(u32, u32),
    /// The checksum of the output does not match: (expected, actual).
    OutputCRC(u32, u32),
    /// The checksum of the patch itself does not match: (expected, actual).
    PatchCRC(u32, u32),
}

/// The text that reports an error: the kind, then the expected and the actual value in
/// decimal. Both size errors read "Bad input size".
pub open spec fn spec_error_message(e: BPSError) -> Seq<char> {
    let (head, expected, actual) = match e {
        BPSError::InputSize(x, a) => ("Bad input size: Expected: "@, x as nat, a as nat),
        BPSError::OutputSize(x, a) => ("Bad input size: Expected: "@, x as nat, a as nat),
        BPSError::InputCRC(x, a) => ("Bad input checksum: Expected: "@, x as nat, a as nat),
        BPSError::OutputCRC(x, a) => ("Bad output checksum: Expected: "@, x as nat, a as nat),
        BPSError::PatchCRC(x, a) => ("Bad patch checksum: Expected: "@, x as nat, a as nat),
    };
    head + spec_decimal(expected) + ", Actual: "@ + spec_decimal(actual)
}

impl BPSError {
    /// The text that reports the error; see `spec_error_message`.
    pub fn message(&self) -> (r: String)
        ensures
            r@ == spec_error_message(*self),
    {
        let (head, expected, actual): (&str, u64, u64) = match *self {
            BPSError::InputSize(x, a) => ("Bad input size: Expected: ", x as u64, a as u64),
            BPSError::OutputSize(x, a) => ("Bad input size: Expected: ", x as u64, a as u64),
            BPSError::InputCRC(x, a) => ("Bad input checksum: Expected: ", x as u64, a as u64),
            BPSError::OutputCRC(x, a) => ("Bad output checksum: Expected: ", x as u64, a as u64),
            BPSError::PatchCRC(x, a) => ("Bad patch checksum: Expected: ", x as u64, a as u64),
        };
        let mut s = String::from_str(head);
        append_decimal(&mut s, expected);
        s.append(", Actual: ");
        append_decimal(&mut s, actual);
        s
    }
}

/// The magic number "BPS1" read as a little-endian `u32`.
pub const BPS_MAGIC: u32 = 0x3153_5042;

/// The little-endian `u32` stored at `at`, if four bytes are there.
pub open spec fn le_u32_at(s: Seq<u8>, at: int) -> Option<u32> {
    if at < 0 || at + 4 > s.len() {
        None
    } else {
        Some(
            (s[at] as int + 256 * (s[at + 1] as int) + 65536 * (s[at + 2] as int) + 16777216 * (
            s[at + 3] as int)) as u32,
        )
    }
}

/// Decoding of one BPS variable-length number from `pos` on, with `shift` bits already
/// placed, `acc` accumulated and `count` bytes consumed. `None` where the decoder would
/// run out of bytes or overflow.
pub open spec fn decode_from(buf: Seq<u8>, pos: int, shift: u64, acc: u64, count: int) -> Option<
    (u64, int),
>
    decreases buf.len() - pos,
{
    if pos < 0 || pos >= buf.len() || shift >= 64 {
        None
    } else {
        let b = buf[pos];
        let part = ((b & 0x7f) as u64) << shift;
        if acc + part > u64::MAX {
            None
        } else {
            let v = (acc + part) as u64;
            if b & 0x80 != 0 {
                Some((v, count + 1))
            } else if shift + 7 >= 64 {
                None
            } else {
                let s2 = (shift + 7) as u64;
                let one = 1u64 << s2;
                if v + one > u64::MAX {
                    None
                } else {
                    decode_from(buf, pos + 1, s2, (v + one) as u64, count + 1)
                }
            }
        }
    }
}

/// The number encoded at `offset` and the count of bytes it takes.
pub open spec fn spec_decode_number(buf: Seq<u8>, offset: int) -> Option<(u64, int)> {
    decode_from(buf, offset, 0, 0, 0)
}

pub proof fn lemma_decode_from_bounds(buf: Seq<u8>, pos: int, shift: u64, acc: u64, count: int)
    requires
        decode_from(buf, pos, shift, acc, count) is Some,
    ensures
        ({
            let (v, c) = decode_from(buf, pos, shift, acc, count)->0;
            count + 1 <= c && pos + (c - count) <= buf.len() && 0 <= pos
        }),
    decreases buf.len() - pos,
{
    let b = buf[pos];
    let part = ((b & 0x7f) as u64) << shift;
    let v = (acc + part) as u64;
    if b & 0x80 == 0 {
        let s2 = (shift + 7) as u64;
        let one = 1u64 << s2;
        lemma_decode_from_bounds(buf, pos + 1, s2, (v + one) as u64, count + 1);
    }
}

/// A decoded number takes at least one byte, and no byte past the end.
pub proof fn lemma_decode_bounds(buf: Seq<u8>, offset: int)
    requires
        spec_decode_number(buf, offset) is Some,
    ensures
        1 <= (spec_decode_number(buf, offset)->0).1,
        0 <= offset,
        offset + (spec_decode_number(buf, offset)->0).1 <= buf.len(),
{
    lemma_decode_from_bounds(buf, offset, 0, 0, 0);
}

/// How the BPS writer encodes `n`: seven bits per byte, lowest first; every byte but the
/// last stands for one more than the bits it holds, and only the last has bit 0x80 set.
pub open spec fn bps_encode(n: nat) -> Seq<u8>
    decreases n,
{
    if n < 128 {
        seq![(n + 128) as u8]
    } else {
        seq![(n % 128) as u8] + bps_encode((n / 128 - 1) as nat)
    }
}

proof fn lemma_low_byte(b: u8)
    ensures
        b < 128 ==> (b & 0x7f == b && b & 0x80 == 0),
        b >= 128 ==> (b & 0x7f == b - 128 && b & 0x80 != 0),
{
    assert(b < 128 ==> (b & 0x7f == b && b & 0x80 == 0)) by (bit_vector);
    assert(b >= 128 ==> (b & 0x7f == b - 128 && b & 0x80 != 0)) by (bit_vector);
}

/// Only the last byte of an encoding has bit 0x80 set.
pub proof fn lemma_encode_flags(n: nat)
    ensures
        bps_encode(n).len() >= 1,
        bps_encode(n).last() & 0x80 != 0,
        forall|i: int| 0 <= i < bps_encode(n).len() - 1 ==> #[trigger] bps_encode(n)[i] & 0x80 == 0,
    decreases n,
{
    if n < 128 {
        lemma_low_byte((n + 128) as u8);
    } else {
        let m = (n / 128 - 1) as nat;
        lemma_encode_flags(m);
        lemma_low_byte((n % 128) as u8);
        let e = bps_encode(n);
        assert forall|i: int| 0 <= i < e.len() - 1 implies #[trigger] e[i] & 0x80 == 0 by {
            if i > 0 {
                assert(e[i] == bps_encode(m)[i - 1]);
            }
        }
    }
}

/// A number below 2^(7k) takes at most `k` bytes.
proof fn lemma_encode_len(n: nat, k: nat)
    requires
        1 <= k,
        n < pow2(7 * k),
    ensures
        bps_encode(n).len() <= k,
    decreases n,
{
    if n >= 128 {
        let m = (n / 128 - 1) as nat;
        let p = pow2((7 * (k - 1)) as nat);
        lemma_pow2_adds((7 * (k - 1)) as nat, 7);
        lemma2_to64();
        assert(pow2(7 * k) == p * 128) by {
            assert((7 * (k - 1)) as nat + 7 == 7 * k);
        }
        if k == 1 {
            lemma_pow2_pos(0);
            assert(pow2(0) == 1);
            assert(false);
        }
        assert(m < p) by (nonlinear_arith)
            requires
                n < p * 128,
                m == n / 128 - 1,
                n >= 128,
        ;
        lemma_encode_len(m, (k - 1) as nat);
    }
}

/// Decoding from `p.len()` on, with `shift` bits placed and `acc` accumulated, reads the
/// encoding of `n` that follows `p` and adds `n` shifted by `shift` to `acc`.
proof fn lemma_decode_encoded(
    p: Seq<u8>,
    n: nat,
    q: Seq<u8>,
    shift: u64,
    acc: u64,
    count: int,
)
    requires
        shift + 7 * bps_encode(n).len() <= 63,
        acc + n * pow2(shift as nat) <= u64::MAX,
    ensures
        decode_from(p + bps_encode(n) + q, p.len() as int, shift, acc, count) == Some(
            ((acc + n * pow2(shift as nat)) as u64, count + bps_encode(n).len()),
        ),
    decreases n,
{
    let buf = p + bps_encode(n) + q;
    let pos = p.len() as int;
    let pw = pow2(shift as nat);
    lemma_pow2_pos(shift as nat);
    let b = buf[pos];
    assert(b == bps_encode(n)[0]);
    lemma_low_byte(b);
    let x: nat = (b & 0x7f) as nat;
    assert(x * pw <= n * pw) by {
        if n < 128 {
        } else {
            assert(x == n % 128);
        }
        assert(x <= n);
        vstd::arithmetic::mul::lemma_mul_inequality(x as int, n as int, pw as int);
    }
    vstd::bits::lemma_u64_shl_is_mul((b & 0x7f) as u64, shift);
    if n < 128 {
        assert(x == n);
    } else {
        let m = (n / 128 - 1) as nat;
        assert(x == n % 128);
        let s2 = (shift + 7) as u64;
        let pw2 = pow2(s2 as nat);
        lemma_pow2_adds(shift as nat, 7);
        lemma2_to64();
        assert(pw2 == pw * 128);
        vstd::bits::lemma_u64_pow2_no_overflow(s2 as nat);
        vstd::bits::lemma_u64_shl_is_mul(1u64, s2);
        assert(1 * pw2 == pw2);
        assert(n * pw == x * pw + pw2 + m * pw2) by (nonlinear_arith)
            requires
                pw2 == pw * 128,
                n == 128 * (n / 128) + x,
                m == n / 128 - 1,
                n >= 128,
        ;
        assert(m * pw2 >= 0) by (nonlinear_arith)
            requires
                pw2 >= 0,
        ;
        let v = (acc + x * pw) as u64;
        let acc2 = (v + pw2) as u64;
        let p2 = p.push(b);
        assert(buf =~= p2 + bps_encode(m) + q);
        lemma_decode_encoded(p2, m, q, s2, acc2, count + 1);
    }
}

/// Decoding reads back what the BPS writer encodes, for every number below 2^56: placed
/// between any bytes, the encoding of `v` decodes to `v` and takes exactly its own bytes.
pub proof fn lemma_decode_inverts_encode(p: Seq<u8>, v: u64, q: Seq<u8>)
    requires
        v < 0x100_0000_0000_0000u64,
    ensures
        spec_decode_number(p + bps_encode(v as nat) + q, p.len() as int) == Some(
            (v, bps_encode(v as nat).len() as int),
        ),
        bps_encode(v as nat).len() <= 8,
{
    lemma2_to64();
    vstd::arithmetic::power2::lemma2_to64_rest();
    assert(pow2(56) == 0x100_0000_0000_0000);
    lemma_encode_len(v as nat, 8);
    assert(pow2(0) == 1);
    assert(v * pow2(0) == v);
    lemma_decode_encoded(p, v as nat, q, 0, 0, 0);
}

/// Decodes the BPS variable-length number at `offset`; returns it with the count of bytes
/// it takes.
pub fn decode_number(buf: &[u8], offset: usize) -> (r: (u64, usize))
    requires
        spec_decode_number(buf@, offset as int) is Some,
    ensures
        spec_decode_number(buf@, offset as int) == Some((r.0, r.1 as int)),
{
    let blen = buf.len();
    let mut result: u64 = 0;
    let mut bit_offset: u64 = 0;
    let mut sz: usize = 0;
    loop
        invariant
            spec_decode_number(buf@, offset as int) == decode_from(
                buf@,
                offset + sz,
                bit_offset,
                result,
                sz as int,
            ),
            spec_decode_number(buf@, offset as int) is Some,
            offset + sz < buf@.len(),
            blen == buf@.len(),
        decreases buf@.len() - offset - sz,
    {
        let b = buf[offset + sz];
        sz = sz + 1;
        let part: u64 = ((b & 0x7f) as u64) << bit_offset;
        result = result + part;
        if b & 0x80 != 0 {
            return (result, sz);
        }
        bit_offset = bit_offset + 7;
        result = result + (1u64 << bit_offset);
        assert(offset + sz < buf@.len());
    }
}

/// The value a BPS copy offset stands for: its low bit is the sign.
pub open spec fn signed_offset(off: u64) -> int {
    if off & 1 != 0 {
        -((off >> 1) as int)
    } else {
        (off >> 1) as int
    }
}

pub open spec fn fits_i64(x: int) -> bool {
    i64::MIN <= x <= i64::MAX
}

/// `n` bytes copied one by one from `start` on, where the source may overlap what is
/// being written.
pub open spec fn target_copy(out: Seq<u8>, start: int, n: nat) -> Seq<u8>
    decreases n,
{
    if n == 0 {
        out
    } else {
        let o = target_copy(out, start, (n - 1) as nat);
        o.push(o[start + n - 1])
    }
}

pub proof fn lemma_target_copy_len(out: Seq<u8>, start: int, n: nat)
    ensures
        target_copy(out, start, n).len() == out.len() + n,
        forall|i: int| 0 <= i < out.len() ==> #[trigger] target_copy(out, start, n)[i] == out[i],
    decreases n,
{
    if n > 0 {
        lemma_target_copy_len(out, start, (n - 1) as nat);
    }
}

/// The segment length that a segment head declares.
pub open spec fn segment_len(head: u64) -> u64 {
    ((head >> 2) + 1) as u64
}

/// One patch segment applied at `cur`: the next offset, the output and the two copy
/// cursors. `None` where the segment reads or copies out of bounds, so that applying it
/// would panic.
pub open spec fn bps_segment(
    input: Seq<u8>,
    patch: Seq<u8>,
    cur: int,
    out: Seq<u8>,
    ia: i64,
    oa: i64,
) -> Option<(int, Seq<u8>, i64, i64)> {
    match spec_decode_number(patch, cur) {
        None => None,
        Some((head, hlen)) => {
            let cur1 = cur + hlen;
            let kind = head & 3;
            let n = (segment_len(head) as usize) as int;
            if out.len() + n > isize::MAX {
                None
            } else if kind == 0 {
                let start = out.len() as int;
                if start + n > input.len() {
                    None
                } else {
                    Some((cur1, out + input.subrange(start, start + n), ia, oa))
                }
            } else if kind == 1 {
                if cur1 + n > patch.len() {
                    None
                } else {
                    Some((cur1 + n, out + patch.subrange(cur1, cur1 + n), ia, oa))
                }
            } else {
                match spec_decode_number(patch, cur1) {
                    None => None,
                    Some((off, olen)) => {
                        let cur2 = cur1 + olen;
                        if kind == 2 {
                            let acc = ia + signed_offset(off);
                            if !fits_i64(acc) {
                                None
                            } else {
                                let start = ((acc as i64) as usize) as int;
                                let acc2 = acc + segment_len(head);
                                if start + n > input.len() || !fits_i64(acc2) {
                                    None
                                } else {
                                    Some(
                                        (
                                            cur2,
                                            out + input.subrange(start, start + n),
                                            acc2 as i64,
                                            oa,
                                        ),
                                    )
                                }
                            }
                        } else {
                            let acc = oa + signed_offset(off);
                            if !fits_i64(acc) {
                                None
                            } else {
                                let start = ((acc as i64) as usize) as int;
                                let acc2 = acc + segment_len(head);
                                if (n > 0 && start >= out.len()) || !fits_i64(acc2) {
                                    None
                                } else {
                                    Some((cur2, target_copy(out, start, n as nat), ia, acc2 as i64))
                                }
                            }
                        }
                    },
                }
            }
        },
    }
}

pub proof fn lemma_segment_advances(
    input: Seq<u8>,
    patch: Seq<u8>,
    cur: int,
    out: Seq<u8>,
    ia: i64,
    oa: i64,
)
    requires
        bps_segment(input, patch, cur, out, ia, oa) is Some,
    ensures
        cur < (bps_segment(input, patch, cur, out, ia, oa)->0).0 <= patch.len(),
{
    lemma_decode_bounds(patch, cur);
    let (head, hlen) = spec_decode_number(patch, cur)->0;
    if head & 3 >= 2 {
        lemma_decode_bounds(patch, cur + hlen);
    }
}

/// All segments from `cur` on, up to the offset `limit`: the offset reached and the output.
pub open spec fn bps_segments(
    input: Seq<u8>,
    patch: Seq<u8>,
    limit: int,
    cur: int,
    out: Seq<u8>,
    ia: i64,
    oa: i64,
) -> Option<(int, Seq<u8>)>
    decreases patch.len() - cur,
{
    if cur < limit {
        match bps_segment(input, patch, cur, out, ia, oa) {
            None => None,
            Some((c2, o2, ia2, oa2)) => {
                proof {
                    lemma_segment_advances(input, patch, cur, out, ia, oa);
                }
                bps_segments(input, patch, limit, c2, o2, ia2, oa2)
            },
        }
    } else {
        Some((cur, out))
    }
}

/// The size check and, where asked for, the three checksum checks after the segments.
pub open spec fn bps_finish(
    input: Seq<u8>,
    patch: Seq<u8>,
    out_size: u64,
    check_crc: bool,
    cur: int,
    out: Seq<u8>,
) -> Option<Result<Seq<u8>, BPSError>> {
    if out.len() != (out_size as usize) {
        Some(Err(BPSError::OutputSize(out_size as usize, out.len() as usize)))
    } else if !check_crc {
        Some(Ok(out))
    } else {
        match le_u32_at(patch, cur) {
            None => None,
            Some(ei) => {
                let ai = spec_crc32(input);
                if ei != ai {
                    Some(Err(BPSError::InputCRC(ei, ai)))
                } else {
                    match le_u32_at(patch, cur + 4) {
                        None => None,
                        Some(eo) => {
                            let ao = spec_crc32(out);
                            if eo != ao {
                                Some(Err(BPSError::OutputCRC(eo, ao)))
                            } else {
                                match le_u32_at(patch, cur + 8) {
                                    None => None,
                                    Some(ep) => {
                                        let ap = spec_crc32(patch.subrange(0, patch.len() - 4));
                                        if ep != ap {
                                            Some(Err(BPSError::PatchCRC(ep, ap)))
                                        } else {
                                            Some(Ok(out))
                                        }
                                    },
                                }
                            }
                        },
                    }
                }
            },
        }
    }
}

/// Reading the header and applying every segment: the declared output size, the offset
/// where the segments end and the output. `None` where applying the patch panics, `Err`
/// where it reports a size mismatch of the input.
pub open spec fn bps_body(input: Seq<u8>, patch: Seq<u8>) -> Option<
    Result<(u64, int, Seq<u8>), BPSError>,
> {
    match le_u32_at(patch, 0) {
        None => None,
        Some(m) => if m != BPS_MAGIC {
            None
        } else {
            match spec_decode_number(patch, 4) {
                None => None,
                Some((isz, il)) => {
                    let c1 = 4 + il;
                    if isz != input.len() as u64 {
                        Some(Err(BPSError::InputSize(isz as usize, input.len() as usize)))
                    } else {
                        match spec_decode_number(patch, c1) {
                            None => None,
                            Some((osz, ol)) => {
                                let c2 = c1 + ol;
                                if (osz as usize) > isize::MAX {
                                    None
                                } else {
                                    match spec_decode_number(patch, c2) {
                                        None => None,
                                        Some((msz, ml)) => {
                                            let skip = ml + (msz as usize);
                                            let c3 = c2 + skip;
                                            if skip > usize::MAX || c3 > usize::MAX || patch.len()
                                                < 12 {
                                                None
                                            } else {
                                                match bps_segments(
                                                    input,
                                                    patch,
                                                    patch.len() - 12,
                                                    c3,
                                                    Seq::empty(),
                                                    0,
                                                    0,
                                                ) {
                                                    None => None,
                                                    Some((cur, out)) => Some(Ok((osz, cur, out))),
                                                }
                                            }
                                        },
                                    }
                                }
                            },
                        }
                    }
                },
            }
        },
    }
}

/// What applying `patch` to `input` gives: `None` where the patch is malformed so that
/// applying it panics, else the
/// patched bytes or the error it reports.
pub open spec fn spec_bps_patch(input: Seq<u8>, patch: Seq<u8>, check_crc: bool) -> Option<
    Result<Seq<u8>, BPSError>,
> {
    match bps_body(input, patch) {
        None => None,
        Some(Err(e)) => Some(Err(e)),
        Some(Ok((osz, cur, out))) => bps_finish(input, patch, osz, check_crc, cur, out),
    }
}

/// Whether a result of the library agrees with what the specification gives.
pub open spec fn bps_result_matches(
    res: Result<Vec<u8>, BPSError>,
    spec: Option<Result<Seq<u8>, BPSError>>,
) -> bool {
    match res {
        Ok(v) => spec == Some(Ok::<Seq<u8>, BPSError>(v@)),
        Err(e) => spec == Some(Err::<Seq<u8>, BPSError>(e)),
    }
}

fn read_le_u32(s: &[u8], at: usize) -> (r: u32)
    requires
        at + 4 <= s@.len(),
    ensures
        le_u32_at(s@, at as int) == Some(r),
{
    let b0 = s[at] as u32;
    let b1 = s[at + 1] as u32;
    let b2 = s[at + 2] as u32;
    let b3 = s[at + 3] as u32;
    b0 + 256 * b1 + 65536 * b2 + 16777216 * b3
}

fn append_range(out: &mut Vec<u8>, src: &[u8], start: usize, end: usize)
    requires
        start <= end <= src@.len(),
    ensures
        final(out)@ == old(out)@ + src@.subrange(start as int, end as int),
{
    let ghost base = out@;
    let mut i = start;
    while i < end
        invariant
            start <= i <= end <= src@.len(),
            out@ == base + src@.subrange(start as int, i as int),
        decreases end - i,
    {
        out.push(src[i]);
        assert(src@.subrange(start as int, i + 1) =~= src@.subrange(start as int, i as int).push(
            src@[i as int],
        ));
        i = i + 1;
    }
}

fn signed_value(off: u64) -> (r: i64)
    ensures
        r as int == signed_offset(off),
{
    assert(off >> 1 <= 0x7fff_ffff_ffff_ffffu64) by (bit_vector);
    let mag = (off >> 1) as i64;
    if off & 1 != 0 {
        -mag
    } else {
        mag
    }
}

/// Applies one segment; the exec counterpart of `bps_segment`.
fn apply_segment(
    input: &[u8],
    patch: &[u8],
    cur: usize,
    out: &mut Vec<u8>,
    ia: i64,
    oa: i64,
) -> (r: (usize, i64, i64))
    requires
        bps_segment(input@, patch@, cur as int, old(out)@, ia, oa) is Some,
    ensures
        bps_segment(input@, patch@, cur as int, old(out)@, ia, oa) == Some(
            (r.0 as int, final(out)@, r.1, r.2),
        ),
{
    let plen = patch.len();
    let ilen = input.len();
    proof {
        lemma_decode_bounds(patch@, cur as int);
    }
    let (head, hlen) = decode_number(patch, cur);
    assert(cur + hlen <= patch@.len());
    let cur1 = cur + hlen;
    let kind = head & 3;
    assert(head >> 2 <= 0x3fff_ffff_ffff_ffffu64) by (bit_vector);
    let seg_len: u64 = (head >> 2) + 1;
    let n = seg_len as usize;
    if kind == 0 {
        let start = out.len();
        append_range(out, input, start, start + n);
        (cur1, ia, oa)
    } else if kind == 1 {
        append_range(out, patch, cur1, cur1 + n);
        (cur1 + n, ia, oa)
    } else {
        proof {
            lemma_decode_bounds(patch@, cur1 as int);
        }
        let (off, olen) = decode_number(patch, cur1);
        let cur2 = cur1 + olen;
        let delta = signed_value(off);
        assert(seg_len <= 0x4000_0000_0000_0000u64) by (bit_vector)
            requires
                seg_len == (head >> 2) + 1,
        ;
        if kind == 2 {
            let acc = ia + delta;
            let start = acc as usize;
            append_range(out, input, start, start + n);
            (cur2, acc + seg_len as i64, oa)
        } else {
            let acc = oa + delta;
            let start = acc as usize;
            let ghost base = out@;
            let mut i: usize = 0;
            while i < n
                invariant
                    i <= n,
                    n == (segment_len(head) as usize),
                    n > 0 ==> start < base.len(),
                    base.len() + n <= isize::MAX,
                    out@ == target_copy(base, start as int, i as nat),
                decreases n - i,
            {
                proof {
                    lemma_target_copy_len(base, start as int, i as nat);
                }
                let b = out[start + i];
                out.push(b);
                i = i + 1;
            }
            (cur2, ia, acc + seg_len as i64)
        }
    }
}

/// Applies the BPS `patch` to `input`, checking the three checksums only where
/// `check_crc` is set.
pub fn bps_patch_internal(input: &[u8], patch: &[u8], check_crc: bool) -> (res: Result<
    Vec<u8>,
    BPSError,
>)
    requires
        spec_bps_patch(input@, patch@, check_crc) is Some,
    ensures
        bps_result_matches(res, spec_bps_patch(input@, patch@, check_crc)),
{
    let plen = patch.len();
    let magic = read_le_u32(patch, 0);
    let _ = magic;
    proof {
        lemma_decode_bounds(patch@, 4);
    }
    let mut current_offset: usize = 4;
    let (input_expected_size, input_size_len) = decode_number(patch, current_offset);
    current_offset = current_offset + input_size_len;
    if input_expected_size != input.len() as u64 {
        return Err(BPSError::InputSize(input_expected_size as usize, input.len()));
    }
    proof {
        lemma_decode_bounds(patch@, current_offset as int);
    }
    let (output_expected_size, output_size_len) = decode_number(patch, current_offset);
    current_offset = current_offset + output_size_len;
    let mut output_buf: Vec<u8> = Vec::new();
    proof {
        lemma_decode_bounds(patch@, current_offset as int);
    }
    let (metadata_size, metadata_size_len) = decode_number(patch, current_offset);
    current_offset = current_offset + (metadata_size_len + metadata_size as usize);
    let mut input_offset_accumulator: i64 = 0;
    let mut output_offset_accumulator: i64 = 0;
    let limit = patch.len() - 12;
    let ghost start_offset = current_offset;
    while current_offset < limit
        invariant
            limit == patch@.len() - 12,
            bps_segments(input@, patch@, limit as int, start_offset as int, Seq::empty(), 0, 0)
                == bps_segments(
                input@,
                patch@,
                limit as int,
                current_offset as int,
                output_buf@,
                input_offset_accumulator,
                output_offset_accumulator,
            ),
            bps_segments(
                input@,
                patch@,
                limit as int,
                current_offset as int,
                output_buf@,
                input_offset_accumulator,
                output_offset_accumulator,
            ) is Some,
        decreases patch@.len() - current_offset,
    {
        proof {
            lemma_segment_advances(
                input@,
                patch@,
                current_offset as int,
                output_buf@,
                input_offset_accumulator,
                output_offset_accumulator,
            );
        }
        let (c2, ia2, oa2) = apply_segment(
            input,
            patch,
            current_offset,
            &mut output_buf,
            input_offset_accumulator,
            output_offset_accumulator,
        );
        current_offset = c2;
        input_offset_accumulator = ia2;
        output_offset_accumulator = oa2;
    }
    if output_buf.len() != output_expected_size as usize {
        return Err(BPSError::OutputSize(output_expected_size as usize, output_buf.len()));
    }
    if check_crc {
        let expected_input_crc = read_le_u32(patch, current_offset);
        let actual_input_crc = crc32(input);
        if expected_input_crc != actual_input_crc {
            return Err(BPSError::InputCRC(expected_input_crc, actual_input_crc));
        }
        current_offset = current_offset + 4;
        let expected_output_crc = read_le_u32(patch, current_offset);
        let actual_output_crc = crc32(output_buf.as_slice());
        if expected_output_crc != actual_output_crc {
            return Err(BPSError::OutputCRC(expected_output_crc, actual_output_crc));
        }
        current_offset = current_offset + 4;
        let expected_patch_crc = read_le_u32(patch, current_offset);
        let body = slice_prefix(patch, patch.len() - 4);
        let actual_patch_crc = crc32(&body);
        if expected_patch_crc != actual_patch_crc {
            return Err(BPSError::PatchCRC(expected_patch_crc, actual_patch_crc));
        }
    }
    Ok(output_buf)
}

/// The first `n` bytes of `s`, copied.
fn slice_prefix(s: &[u8], n: usize) -> (r: Vec<u8>)
    requires
        n <= s@.len(),
    ensures
        r@ == s@.subrange(0, n as int),
{
    let mut r: Vec<u8> = Vec::new();
    append_range(&mut r, s, 0, n);
    r
}

/// Decodes the BPS variable-length number at `offset`, or gives `None` where the decoder
/// would run past the end or overflow.
pub fn try_decode_number(buf: &[u8], offset: usize) -> (r: Option<(u64, usize)>)
    ensures
        match r {
            Some((v, n)) => spec_decode_number(buf@, offset as int) == Some((v, n as int)),
            None => spec_decode_number(buf@, offset as int) is None,
        },
{
    let blen = buf.len();
    if offset >= blen {
        return None;
    }
    let mut result: u64 = 0;
    let mut bit_offset: u64 = 0;
    let mut sz: usize = 0;
    loop
        invariant
            spec_decode_number(buf@, offset as int) == decode_from(
                buf@,
                offset + sz,
                bit_offset,
                result,
                sz as int,
            ),
            offset + sz <= blen,
            blen == buf@.len(),
        decreases buf@.len() - offset - sz,
    {
        if sz >= blen - offset || bit_offset >= 64 {
            return None;
        }
        let b = buf[offset + sz];
        sz = sz + 1;
        let part: u64 = ((b & 0x7f) as u64) << bit_offset;
        result = match result.checked_add(part) {
            Some(v) => v,
            None => return None,
        };
        if b & 0x80 != 0 {
            return Some((result, sz));
        }
        if bit_offset + 7 >= 64 {
            return None;
        }
        bit_offset = bit_offset + 7;
        result = match result.checked_add(1u64 << bit_offset) {
            Some(v) => v,
            None => return None,
        };
    }
}

/// Applies one segment where applying it cannot panic; the total counterpart of
/// `apply_segment`.
fn try_apply_segment(
    input: &[u8],
    patch: &[u8],
    cur: usize,
    out: &mut Vec<u8>,
    ia: i64,
    oa: i64,
) -> (r: Option<(usize, i64, i64)>)
    ensures
        match r {
            Some((c, ia2, oa2)) => bps_segment(input@, patch@, cur as int, old(out)@, ia, oa)
                == Some((c as int, final(out)@, ia2, oa2)),
            None => bps_segment(input@, patch@, cur as int, old(out)@, ia, oa) is None,
        },
{
    let plen = patch.len();
    let ilen = input.len();
    let (head, hlen) = match try_decode_number(patch, cur) {
        Some(v) => v,
        None => return None,
    };
    proof {
        lemma_decode_bounds(patch@, cur as int);
    }
    let cur1 = cur + hlen;
    let kind = head & 3;
    assert(head >> 2 <= 0x3fff_ffff_ffff_ffffu64) by (bit_vector);
    let seg_len: u64 = (head >> 2) + 1;
    let n = seg_len as usize;
    let limit = isize::MAX as usize;
    if n > limit || out.len() > limit - n {
        return None;
    }
    if kind == 0 {
        let start = out.len();
        if n > ilen || start > ilen - n {
            return None;
        }
        append_range(out, input, start, start + n);
        Some((cur1, ia, oa))
    } else if kind == 1 {
        if n > plen || cur1 > plen - n {
            return None;
        }
        append_range(out, patch, cur1, cur1 + n);
        Some((cur1 + n, ia, oa))
    } else {
        let (off, olen) = match try_decode_number(patch, cur1) {
            Some(v) => v,
            None => return None,
        };
        proof {
            lemma_decode_bounds(patch@, cur1 as int);
        }
        let cur2 = cur1 + olen;
        let delta = signed_value(off);
        assert(seg_len <= 0x4000_0000_0000_0000u64) by (bit_vector)
            requires
                seg_len == (head >> 2) + 1,
        ;
        let base_acc = if kind == 2 {
            ia
        } else {
            oa
        };
        let acc = match base_acc.checked_add(delta) {
            Some(v) => v,
            None => return None,
        };
        let start = acc as usize;
        let acc2 = match acc.checked_add(seg_len as i64) {
            Some(v) => v,
            None => return None,
        };
        if kind == 2 {
            if n > ilen || start > ilen - n {
                return None;
            }
            append_range(out, input, start, start + n);
            Some((cur2, acc2, oa))
        } else {
            if n > 0 && start >= out.len() {
                return None;
            }
            let ghost base = out@;
            let mut i: usize = 0;
            while i < n
                invariant
                    i <= n,
                    n == (segment_len(head) as usize),
                    n > 0 ==> start < base.len(),
                    base.len() + n <= isize::MAX,
                    out@ == target_copy(base, start as int, i as nat),
                decreases n - i,
            {
                proof {
                    lemma_target_copy_len(base, start as int, i as nat);
                }
                let b = out[start + i];
                out.push(b);
                i = i + 1;
            }
            Some((cur2, ia, acc2))
        }
    }
}

/// The little-endian `u32` at `at`, where four bytes are there.
fn try_read_le_u32(s: &[u8], at: usize) -> (r: Option<u32>)
    ensures
        r == le_u32_at(s@, at as int),
{
    if at > s.len() || s.len() - at < 4 {
        None
    } else {
        Some(read_le_u32(s, at))
    }
}

/// Applies the BPS `patch` to `input` as `bps_patch_internal` does, but gives `None` on
/// the inputs where that panics, instead of requiring that they do not occur.
pub fn bps_patch_try(input: &[u8], patch: &[u8], check_crc: bool) -> (res: Option<
    Result<Vec<u8>, BPSError>,
>)
    ensures
        match res {
            None => spec_bps_patch(input@, patch@, check_crc) is None,
            Some(r) => bps_result_matches(r, spec_bps_patch(input@, patch@, check_crc)),
        },
{
    let plen = patch.len();
    let magic = match try_read_le_u32(patch, 0) {
        Some(m) => m,
        None => return None,
    };
    if magic != BPS_MAGIC {
        return None;
    }
    let mut current_offset: usize = 4;
    let (input_expected_size, input_size_len) = match try_decode_number(patch, current_offset) {
        Some(v) => v,
        None => return None,
    };
    proof {
        lemma_decode_bounds(patch@, 4);
    }
    current_offset = current_offset + input_size_len;
    if input_expected_size != input.len() as u64 {
        return Some(Err(BPSError::InputSize(input_expected_size as usize, input.len())));
    }
    let (output_expected_size, output_size_len) = match try_decode_number(patch, current_offset) {
        Some(v) => v,
        None => return None,
    };
    proof {
        lemma_decode_bounds(patch@, current_offset as int);
    }
    current_offset = current_offset + output_size_len;
    if output_expected_size as usize > isize::MAX as usize {
        return None;
    }
    let (metadata_size, metadata_size_len) = match try_decode_number(patch, current_offset) {
        Some(v) => v,
        None => return None,
    };
    let skip = match metadata_size_len.checked_add(metadata_size as usize) {
        Some(v) => v,
        None => return None,
    };
    current_offset = match current_offset.checked_add(skip) {
        Some(v) => v,
        None => return None,
    };
    if plen < 12 {
        return None;
    }
    let mut output_buf: Vec<u8> = Vec::new();
    let mut input_offset_accumulator: i64 = 0;
    let mut output_offset_accumulator: i64 = 0;
    let limit = plen - 12;
    let ghost start_offset = current_offset;
    while current_offset < limit
        invariant
            limit == patch@.len() - 12,
            plen == patch@.len(),
            spec_bps_patch(input@, patch@, check_crc) == match bps_segments(
                input@,
                patch@,
                limit as int,
                start_offset as int,
                Seq::empty(),
                0,
                0,
            ) {
                None => None,
                Some((c, o)) => bps_finish(input@, patch@, output_expected_size, check_crc, c, o),
            },
            bps_segments(input@, patch@, limit as int, start_offset as int, Seq::empty(), 0, 0)
                == bps_segments(
                input@,
                patch@,
                limit as int,
                current_offset as int,
                output_buf@,
                input_offset_accumulator,
                output_offset_accumulator,
            ),
        decreases patch@.len() - current_offset,
    {
        let ghost out0 = output_buf@;
        let r = try_apply_segment(
            input,
            patch,
            current_offset,
            &mut output_buf,
            input_offset_accumulator,
            output_offset_accumulator,
        );
        match r {
            None => {
                assert(bps_segments(
                    input@,
                    patch@,
                    limit as int,
                    current_offset as int,
                    out0,
                    input_offset_accumulator,
                    output_offset_accumulator,
                ) is None);
                return None;
            },
            Some((c2, ia2, oa2)) => {
                proof {
                    lemma_segment_advances(
                        input@,
                        patch@,
                        current_offset as int,
                        out0,
                        input_offset_accumulator,
                        output_offset_accumulator,
                    );
                }
                current_offset = c2;
                input_offset_accumulator = ia2;
                output_offset_accumulator = oa2;
            },
        }
    }
    if output_buf.len() != output_expected_size as usize {
        return Some(Err(BPSError::OutputSize(output_expected_size as usize, output_buf.len())));
    }
    if check_crc {
        let expected_input_crc = match try_read_le_u32(patch, current_offset) {
            Some(v) => v,
            None => return None,
        };
        let actual_input_crc = crc32(input);
        if expected_input_crc != actual_input_crc {
            return Some(Err(BPSError::InputCRC(expected_input_crc, actual_input_crc)));
        }
        let at_output = match current_offset.checked_add(4) {
            Some(v) => v,
            None => return None,
        };
        let expected_output_crc = match try_read_le_u32(patch, at_output) {
            Some(v) => v,
            None => return None,
        };
        let actual_output_crc = crc32(output_buf.as_slice());
        if expected_output_crc != actual_output_crc {
            return Some(Err(BPSError::OutputCRC(expected_output_crc, actual_output_crc)));
        }
        let at_patch = match at_output.checked_add(4) {
            Some(v) => v,
            None => return None,
        };
        let expected_patch_crc = match try_read_le_u32(patch, at_patch) {
            Some(v) => v,
            None => return None,
        };
        let body = slice_prefix(patch, plen - 4);
        let actual_patch_crc = crc32(&body);
        if expected_patch_crc != actual_patch_crc {
            return Some(Err(BPSError::PatchCRC(expected_patch_crc, actual_patch_crc)));
        }
    }
    Some(Ok(output_buf))
}

/// Applies the BPS `patch` to `input` without checking the checksums.
pub fn bps_patch_unchecked(input: &[u8], patch: &[u8]) -> (res: Result<Vec<u8>, BPSError>)
    requires
        spec_bps_patch(input@, patch@, false) is Some,
    ensures
        bps_result_matches(res, spec_bps_patch(input@, patch@, false)),
{
    bps_patch_internal(input, patch, false)
}

/// Applies the BPS `patch` to `input` and checks the input, output and patch checksums.
pub fn bps_patch_checked(input: &[u8], patch: &[u8]) -> (res: Result<Vec<u8>, BPSError>)
    requires
        spec_bps_patch(input@, patch@, true) is Some,
    ensures
        bps_result_matches(res, spec_bps_patch(input@, patch@, true)),
{
    bps_patch_internal(input, patch, true)
}

/// Checking the checksums never changes a successful result: wherever the checked
/// application does not panic, the unchecked one does not either; a checked success is
/// the same success unchecked, and an unchecked failure is the same failure checked.
pub proof fn lemma_checked_agrees_with_unchecked(input: Seq<u8>, patch: Seq<u8>)
    requires
        spec_bps_patch(input, patch, true) is Some,
    ensures
        spec_bps_patch(input, patch, false) is Some,
        spec_bps_patch(input, patch, true)->0 is Ok ==> spec_bps_patch(input, patch, false)
            == spec_bps_patch(input, patch, true),
        spec_bps_patch(input, patch, false)->0 is Err ==> spec_bps_patch(input, patch, true)
            == spec_bps_patch(input, patch, false),
{
}

/// A successful application yields exactly as many bytes as the patch header declares.
pub proof fn lemma_output_has_declared_size(input: Seq<u8>, patch: Seq<u8>, check_crc: bool)
    requires
        spec_bps_patch(input, patch, check_crc) matches Some(Ok(_)),
    ensures
        bps_body(input, patch) matches Some(Ok((osz, _, out))) && spec_bps_patch(
            input,
            patch,
            check_crc,
        ) == Some(Ok::<Seq<u8>, BPSError>(out)) && out.len() == (osz as usize),
{
}

/// A successful checked application means that the three checksums stored after the
/// segments are those of the input, of the output and of the patch without its last
/// four bytes.
pub proof fn lemma_checked_success_matches_checksums(input: Seq<u8>, patch: Seq<u8>)
    requires
        spec_bps_patch(input, patch, true) matches Some(Ok(_)),
    ensures
        bps_body(input, patch) matches Some(Ok((_, cur, out))) && {
            &&& le_u32_at(patch, cur) == Some(spec_crc32(input))
            &&& le_u32_at(patch, cur + 4) == Some(spec_crc32(out))
            &&& le_u32_at(patch, cur + 8) == Some(spec_crc32(patch.subrange(0, patch.len() - 4)))
        },
{
}

/// The two byte sequences hold the same bytes from `lo` up to `hi`.
pub open spec fn same_bytes(a: Seq<u8>, b: Seq<u8>, lo: int, hi: int) -> bool {
    forall|i: int| lo <= i < hi ==> #[trigger] a[i] == b[i]
}

proof fn lemma_decode_from_local(
    buf: Seq<u8>,
    b2: Seq<u8>,
    pos: int,
    shift: u64,
    acc: u64,
    count: int,
)
    requires
        buf.len() == b2.len(),
        decode_from(buf, pos, shift, acc, count) is Some,
        same_bytes(buf, b2, pos, pos + (decode_from(buf, pos, shift, acc, count)->0).1 - count),
    ensures
        decode_from(b2, pos, shift, acc, count) == decode_from(buf, pos, shift, acc, count),
    decreases buf.len() - pos,
{
    lemma_decode_from_bounds(buf, pos, shift, acc, count);
    assert(buf[pos] == b2[pos]);
    let b = buf[pos];
    let part = ((b & 0x7f) as u64) << shift;
    let v = (acc + part) as u64;
    if b & 0x80 == 0 {
        let s2 = (shift + 7) as u64;
        let one = 1u64 << s2;
        lemma_decode_from_bounds(buf, pos + 1, s2, (v + one) as u64, count + 1);
        lemma_decode_from_local(buf, b2, pos + 1, s2, (v + one) as u64, count + 1);
    }
}

/// A number decodes alike from two patches that hold the same bytes where it is stored.
proof fn lemma_decode_local(buf: Seq<u8>, b2: Seq<u8>, offset: int)
    requires
        buf.len() == b2.len(),
        spec_decode_number(buf, offset) is Some,
        same_bytes(buf, b2, offset, offset + (spec_decode_number(buf, offset)->0).1),
    ensures
        spec_decode_number(b2, offset) == spec_decode_number(buf, offset),
{
    lemma_decode_from_local(buf, b2, offset, 0, 0, 0);
}

proof fn lemma_segment_local(
    input: Seq<u8>,
    patch: Seq<u8>,
    p2: Seq<u8>,
    cur: int,
    out: Seq<u8>,
    ia: i64,
    oa: i64,
)
    requires
        patch.len() == p2.len(),
        bps_segment(input, patch, cur, out, ia, oa) is Some,
        same_bytes(patch, p2, cur, (bps_segment(input, patch, cur, out, ia, oa)->0).0),
    ensures
        bps_segment(input, p2, cur, out, ia, oa) == bps_segment(input, patch, cur, out, ia, oa),
{
    lemma_decode_bounds(patch, cur);
    let (head, hlen) = spec_decode_number(patch, cur)->0;
    let cur1 = cur + hlen;
    let n = (segment_len(head) as usize) as int;
    let c2 = (bps_segment(input, patch, cur, out, ia, oa)->0).0;
    if head & 3 >= 2 {
        lemma_decode_bounds(patch, cur1);
    }
    assert(cur1 <= c2);
    assert(same_bytes(patch, p2, cur, cur1));
    lemma_decode_local(patch, p2, cur);
    if head & 3 == 1 {
        assert(p2.subrange(cur1, cur1 + n) =~= patch.subrange(cur1, cur1 + n));
    } else if head & 3 >= 2 {
        lemma_decode_bounds(patch, cur1);
        lemma_decode_local(patch, p2, cur1);
    }
}

proof fn lemma_segments_local(
    input: Seq<u8>,
    patch: Seq<u8>,
    p2: Seq<u8>,
    limit: int,
    cur: int,
    out: Seq<u8>,
    ia: i64,
    oa: i64,
)
    requires
        patch.len() == p2.len(),
        bps_segments(input, patch, limit, cur, out, ia, oa) is Some,
        same_bytes(patch, p2, cur, (bps_segments(input, patch, limit, cur, out, ia, oa)->0).0),
    ensures
        bps_segments(input, p2, limit, cur, out, ia, oa) == bps_segments(
            input,
            patch,
            limit,
            cur,
            out,
            ia,
            oa,
        ),
        (bps_segments(input, patch, limit, cur, out, ia, oa)->0).0 >= cur,
    decreases patch.len() - cur,
{
    if cur < limit {
        let (c2, o2, ia2, oa2) = bps_segment(input, patch, cur, out, ia, oa)->0;
        lemma_segment_advances(input, patch, cur, out, ia, oa);
        lemma_segments_local(input, patch, p2, limit, c2, o2, ia2, oa2);
        lemma_segment_local(input, patch, p2, cur, out, ia, oa);
    }
}

/// The patch is well formed for `input`: applying it does not panic, and its segments
/// end exactly where the twelve checksum bytes start (or, where the input has the wrong
/// size, the header that says so lies before them).
pub open spec fn bps_well_formed(input: Seq<u8>, patch: Seq<u8>) -> bool {
    match bps_body(input, patch) {
        Some(Ok((_, cur, _))) => cur == patch.len() - 12,
        Some(Err(_)) => spec_decode_number(patch, 4) matches Some((_, il)) && 4 + il <= patch.len()
            - 12,
        None => false,
    }
}

/// Applying a patch without checking checksums never reports a checksum error, and does
/// not read the twelve checksum bytes at the end of a well-formed patch: a patch that
/// differs from it only there gives the same output, or the same error.
pub proof fn lemma_unchecked_ignores_footer(input: Seq<u8>, patch: Seq<u8>, p2: Seq<u8>)
    requires
        bps_well_formed(input, patch),
        p2.len() == patch.len(),
        p2.subrange(0, p2.len() - 12) == patch.subrange(0, patch.len() - 12),
    ensures
        spec_bps_patch(input, p2, false) == spec_bps_patch(input, patch, false),
        !(spec_bps_patch(input, patch, false) matches Some(Err(e)) && (e is InputCRC
            || e is OutputCRC || e is PatchCRC)),
{
    let lim = patch.len() - 12;
    assert forall|i: int| 0 <= i < lim implies #[trigger] patch[i] == p2[i] by {
        assert(patch[i] == patch.subrange(0, lim)[i]);
        assert(p2[i] == p2.subrange(0, lim)[i]);
    }
    assert(same_bytes(patch, p2, 0, lim));
    lemma_decode_bounds(patch, 4);
    let (isz, il) = spec_decode_number(patch, 4)->0;
    assert(4 + il <= lim) by {
        match bps_body(input, patch) {
            Some(Ok((_, cur, _))) => {
                let c1 = 4 + il;
                lemma_decode_bounds(patch, c1);
                let (osz, ol) = spec_decode_number(patch, c1)->0;
                let c2 = c1 + ol;
                lemma_decode_bounds(patch, c2);
                let (msz, ml) = spec_decode_number(patch, c2)->0;
                let c3 = c2 + ml + (msz as usize);
                lemma_segments_bound(input, patch, lim, c3, Seq::empty(), 0, 0);
            },
            _ => {},
        }
    }
    lemma_decode_local(patch, p2, 4);
    assert(le_u32_at(p2, 0) == le_u32_at(patch, 0));
    if bps_body(input, patch) matches Some(Ok((_, cur, _))) {
        let c1 = 4 + il;
        lemma_decode_bounds(patch, c1);
        let (osz, ol) = spec_decode_number(patch, c1)->0;
        let c2 = c1 + ol;
        lemma_decode_bounds(patch, c2);
        let (msz, ml) = spec_decode_number(patch, c2)->0;
        let c3 = c2 + ml + (msz as usize);
        lemma_segments_bound(input, patch, lim, c3, Seq::empty(), 0, 0);
        lemma_decode_local(patch, p2, c1);
        lemma_decode_local(patch, p2, c2);
        lemma_segments_local(input, patch, p2, lim, c3, Seq::empty(), 0, 0);
        assert(bps_body(input, p2) == bps_body(input, patch));
    }
}

proof fn lemma_segments_bound(
    input: Seq<u8>,
    patch: Seq<u8>,
    limit: int,
    cur: int,
    out: Seq<u8>,
    ia: i64,
    oa: i64,
)
    requires
        bps_segments(input, patch, limit, cur, out, ia, oa) is Some,
    ensures
        (bps_segments(input, patch, limit, cur, out, ia, oa)->0).0 >= cur,
    decreases patch.len() - cur,
{
    if cur < limit {
        let (c2, o2, ia2, oa2) = bps_segment(input, patch, cur, out, ia, oa)->0;
        lemma_segment_advances(input, patch, cur, out, ia, oa);
        lemma_segments_bound(input, patch, limit, c2, o2, ia2, oa2);
    }
}

/// Where the metadata of a patch lies: after the magic number and the input, output and
/// metadata sizes, as many bytes as the metadata size gives.
pub open spec fn bps_metadata_range(patch: Seq<u8>) -> Option<(int, int)> {
    match spec_decode_number(patch, 4) {
        None => None,
        Some((_, il)) => match spec_decode_number(patch, 4 + il) {
            None => None,
            Some((_, ol)) => match spec_decode_number(patch, 4 + il + ol) {
                None => None,
                Some((msz, ml)) => {
                    let lo = 4 + il + ol + ml;
                    Some((lo, lo + (msz as usize) as int))
                },
            },
        },
    }
}

proof fn lemma_segments_same_tail(
    input: Seq<u8>,
    patch: Seq<u8>,
    p2: Seq<u8>,
    limit: int,
    cur: int,
    out: Seq<u8>,
    ia: i64,
    oa: i64,
)
    requires
        patch.len() == p2.len(),
        same_bytes(patch, p2, cur, patch.len() as int),
    ensures
        bps_segments(input, p2, limit, cur, out, ia, oa) == bps_segments(
            input,
            patch,
            limit,
            cur,
            out,
            ia,
            oa,
        ),
    decreases patch.len() - cur,
{
    if cur < limit {
        match bps_segment(input, patch, cur, out, ia, oa) {
            Some((c2, o2, ia2, oa2)) => {
                lemma_segment_advances(input, patch, cur, out, ia, oa);
                lemma_segment_local(input, patch, p2, cur, out, ia, oa);
                lemma_segments_same_tail(input, patch, p2, limit, c2, o2, ia2, oa2);
            },
            None => {
                if bps_segment(input, p2, cur, out, ia, oa) is Some {
                    lemma_segment_advances(input, p2, cur, out, ia, oa);
                    let c2 = (bps_segment(input, p2, cur, out, ia, oa)->0).0;
                    assert(same_bytes(p2, patch, cur, c2));
                    lemma_segment_local(input, p2, patch, cur, out, ia, oa);
                }
            },
        }
    }
}

/// The metadata of a patch is skipped: two patches that differ only in their metadata
/// bytes apply alike where checksums are not checked, whatever those bytes hold.
pub proof fn lemma_metadata_ignored(input: Seq<u8>, patch: Seq<u8>, p2: Seq<u8>)
    requires
        p2.len() == patch.len(),
        bps_metadata_range(patch) matches Some((lo, hi)) && same_bytes(patch, p2, 0, lo)
            && same_bytes(patch, p2, hi, patch.len() as int),
    ensures
        spec_bps_patch(input, p2, false) == spec_bps_patch(input, patch, false),
{
    lemma_decode_bounds(patch, 4);
    let (isz, il) = spec_decode_number(patch, 4)->0;
    let c1 = 4 + il;
    lemma_decode_bounds(patch, c1);
    let (osz, ol) = spec_decode_number(patch, c1)->0;
    let c2 = c1 + ol;
    lemma_decode_bounds(patch, c2);
    let (msz, ml) = spec_decode_number(patch, c2)->0;
    let lo = c2 + ml;
    let c3 = c2 + ml + (msz as usize);
    assert(same_bytes(patch, p2, 4, c1));
    lemma_decode_local(patch, p2, 4);
    assert(same_bytes(patch, p2, c1, c2));
    lemma_decode_local(patch, p2, c1);
    assert(same_bytes(patch, p2, c2, lo));
    lemma_decode_local(patch, p2, c2);
    assert(patch[0] == p2[0] && patch[1] == p2[1] && patch[2] == p2[2] && patch[3] == p2[3]);
    assert(le_u32_at(p2, 0) == le_u32_at(patch, 0));
    assert(same_bytes(patch, p2, c3, patch.len() as int));
    lemma_segments_same_tail(input, patch, p2, patch.len() - 12, c3, Seq::empty(), 0, 0);
    assert(bps_body(input, p2) == bps_body(input, patch));
}

} // verus!
