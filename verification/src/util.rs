//! Primitive byte-reading helpers shared by all format parsers.
//!
//! Every reader takes the full byte buffer and an absolute offset and either
//! returns the requested value or fails with [`ImageError::IoError`] when the
//! buffer is too short; nothing is ever read past the end of the buffer.

use vstd::prelude::*;

use crate::{ImageError, ImageResult};

verus! {

use vstd::arithmetic::div_mod::lemma_div_denominator;
use vstd::arithmetic::power2::{
    lemma2_to64, lemma2_to64_rest, lemma_pow2_adds, lemma_pow2_pos, lemma_pow2_strictly_increases,
    pow2,
};

/// Endianness selector for multi-byte integer reads (TIFF may use either).
pub enum Endian {
    Little,
    Big,
}

/// Value of the two bytes at `pos` read as a little-endian integer.
pub open spec fn le16(d: Seq<u8>, pos: int) -> int {
    d[pos] + 0x100 * d[pos + 1]
}

/// Value of the two bytes at `pos` read as a big-endian integer.
pub open spec fn be16(d: Seq<u8>, pos: int) -> int {
    0x100 * d[pos] + d[pos + 1]
}

/// Value of the three bytes at `pos` read as a little-endian integer.
pub open spec fn le24(d: Seq<u8>, pos: int) -> int {
    d[pos] + 0x100 * d[pos + 1] + 0x1_0000 * d[pos + 2]
}

/// Value of the three bytes at `pos` read as a big-endian integer.
pub open spec fn be24(d: Seq<u8>, pos: int) -> int {
    0x1_0000 * d[pos] + 0x100 * d[pos + 1] + d[pos + 2]
}

/// Value of the four bytes at `pos` read as a little-endian integer.
pub open spec fn le32(d: Seq<u8>, pos: int) -> int {
    d[pos] + 0x100 * d[pos + 1] + 0x1_0000 * d[pos + 2] + 0x100_0000 * d[pos + 3]
}

/// Value of the four bytes at `pos` read as a big-endian integer.
pub open spec fn be32(d: Seq<u8>, pos: int) -> int {
    0x100_0000 * d[pos] + 0x1_0000 * d[pos + 1] + 0x100 * d[pos + 2] + d[pos + 3]
}

/// Value of the eight bytes at `pos` read as a little-endian integer.
pub open spec fn le64(d: Seq<u8>, pos: int) -> int {
    le32(d, pos) + 0x1_0000_0000 * le32(d, pos + 4)
}

/// Value of the eight bytes at `pos` read as a big-endian integer.
pub open spec fn be64(d: Seq<u8>, pos: int) -> int {
    0x1_0000_0000 * be32(d, pos) + be32(d, pos + 4)
}

pub open spec fn u16_at(d: Seq<u8>, pos: int, e: Endian) -> int {
    match e {
        Endian::Little => le16(d, pos),
        Endian::Big => be16(d, pos),
    }
}

pub open spec fn u24_at(d: Seq<u8>, pos: int, e: Endian) -> int {
    match e {
        Endian::Little => le24(d, pos),
        Endian::Big => be24(d, pos),
    }
}

pub open spec fn u32_at(d: Seq<u8>, pos: int, e: Endian) -> int {
    match e {
        Endian::Little => le32(d, pos),
        Endian::Big => be32(d, pos),
    }
}

pub open spec fn u64_at(d: Seq<u8>, pos: int, e: Endian) -> int {
    match e {
        Endian::Little => le64(d, pos),
        Endian::Big => be64(d, pos),
    }
}

/// True when the four bytes at `p` are exactly `b0 b1 b2 b3`.
pub open spec fn bytes4_at(d: Seq<u8>, p: int, b0: u8, b1: u8, b2: u8, b3: u8) -> bool {
    d[p] == b0 && d[p + 1] == b1 && d[p + 2] == b2 && d[p + 3] == b3
}

/// Reinterprets an unsigned 32-bit value as a two's-complement signed value.
pub open spec fn i32_of(u: int) -> int {
    if u < 0x8000_0000 {
        u
    } else {
        u - 0x1_0000_0000
    }
}

/// Read the single byte at `pos`.
pub fn read_u8(data: &[u8], pos: usize) -> (r: ImageResult<u8>)
    ensures
        pos < data@.len() ==> r == Ok::<u8, ImageError>(data@[pos as int]),
        pos >= data@.len() ==> r == Err::<u8, ImageError>(ImageError::IoError),
{
    if pos < data.len() {
        Ok(data[pos])
    } else {
        Err(ImageError::IoError)
    }
}

/// Read the two bytes at `pos` as an integer with the given endianness.
pub fn read_u16(data: &[u8], pos: usize, endianness: &Endian) -> (r: ImageResult<u16>)
    ensures
        pos + 2 <= data@.len() ==> r == Ok::<u16, ImageError>(
            u16_at(data@, pos as int, *endianness) as u16,
        ),
        pos + 2 > data@.len() ==> r == Err::<u16, ImageError>(ImageError::IoError),
{
    if data.len() >= 2 && pos <= data.len() - 2 {
        let b0 = data[pos] as u16;
        let b1 = data[pos + 1] as u16;
        match endianness {
            Endian::Little => Ok(b0 + 0x100 * b1),
            Endian::Big => Ok(0x100 * b0 + b1),
        }
    } else {
        Err(ImageError::IoError)
    }
}

/// Read the three bytes at `pos` as an integer with the given endianness.
pub fn read_u24(data: &[u8], pos: usize, endianness: &Endian) -> (r: ImageResult<u32>)
    ensures
        pos + 3 <= data@.len() ==> r == Ok::<u32, ImageError>(
            u24_at(data@, pos as int, *endianness) as u32,
        ),
        pos + 3 > data@.len() ==> r == Err::<u32, ImageError>(ImageError::IoError),
{
    if data.len() >= 3 && pos <= data.len() - 3 {
        let b0 = data[pos] as u32;
        let b1 = data[pos + 1] as u32;
        let b2 = data[pos + 2] as u32;
        match endianness {
            Endian::Little => Ok(b0 + 0x100 * b1 + 0x1_0000 * b2),
            Endian::Big => Ok(0x1_0000 * b0 + 0x100 * b1 + b2),
        }
    } else {
        Err(ImageError::IoError)
    }
}

/// Read the four bytes at `pos` as an integer with the given endianness.
pub fn read_u32(data: &[u8], pos: usize, endianness: &Endian) -> (r: ImageResult<u32>)
    ensures
        pos + 4 <= data@.len() ==> r == Ok::<u32, ImageError>(
            u32_at(data@, pos as int, *endianness) as u32,
        ),
        pos + 4 > data@.len() ==> r == Err::<u32, ImageError>(ImageError::IoError),
{
    if data.len() >= 4 && pos <= data.len() - 4 {
        let b0 = data[pos] as u32;
        let b1 = data[pos + 1] as u32;
        let b2 = data[pos + 2] as u32;
        let b3 = data[pos + 3] as u32;
        match endianness {
            Endian::Little => Ok(b0 + 0x100 * b1 + 0x1_0000 * b2 + 0x100_0000 * b3),
            Endian::Big => Ok(0x100_0000 * b0 + 0x1_0000 * b1 + 0x100 * b2 + b3),
        }
    } else {
        Err(ImageError::IoError)
    }
}

/// Read the eight bytes at `pos` as an integer with the given endianness.
pub fn read_u64(data: &[u8], pos: usize, endianness: &Endian) -> (r: ImageResult<u64>)
    ensures
        pos + 8 <= data@.len() ==> r == Ok::<u64, ImageError>(
            u64_at(data@, pos as int, *endianness) as u64,
        ),
        pos + 8 > data@.len() ==> r == Err::<u64, ImageError>(ImageError::IoError),
{
    if data.len() >= 8 && pos <= data.len() - 8 {
        let lo4 = match read_u32(data, pos, endianness) {
            Ok(v) => v,
            Err(e) => return Err(e),
        };
        let hi4 = match read_u32(data, pos + 4, endianness) {
            Ok(v) => v,
            Err(e) => return Err(e),
        };
        match endianness {
            Endian::Little => Ok(lo4 as u64 + 0x1_0000_0000 * (hi4 as u64)),
            Endian::Big => Ok(0x1_0000_0000 * (lo4 as u64) + hi4 as u64),
        }
    } else {
        Err(ImageError::IoError)
    }
}

/// Read the four bytes at `pos` as a signed integer with the given endianness.
pub fn read_i32(data: &[u8], pos: usize, endianness: &Endian) -> (r: ImageResult<i32>)
    ensures
        pos + 4 <= data@.len() ==> r == Ok::<i32, ImageError>(
            i32_of(u32_at(data@, pos as int, *endianness)) as i32,
        ),
        pos + 4 > data@.len() ==> r == Err::<i32, ImageError>(ImageError::IoError),
{
    let u = match read_u32(data, pos, endianness) {
        Ok(v) => v,
        Err(e) => return Err(e),
    };
    if u >= 0x8000_0000 {
        Ok((u as i64 - 0x1_0000_0000i64) as i32)
    } else {
        Ok(u as i32)
    }
}

/// What `read_bits` returns: the `num_bits`-wide field at `bit_offset` of a
/// 128-bit accumulator holding `size` valid bits.  The read fails exactly
/// when the field would pass the valid bits; the only other limits are the
/// machine's — the accumulator holds at most 128 bits and the result must
/// fit a machine word — and it fails rather than panics on those too.
pub open spec fn read_bits_spec(source: u128, num_bits: int, offset: int, size: int) -> ImageResult<
    usize,
> {
    if offset + num_bits <= size && size <= 128 && num_bits <= usize::BITS {
        Ok(((source as int / pow2(offset as nat) as int) % pow2(num_bits as nat) as int) as usize)
    } else {
        Err(ImageError::CorruptedImage)
    }
}

/// Extract the `num_bits`-wide field at `offset` from a bit accumulator with
/// `size` valid bits.
pub fn read_bits(source: u128, num_bits: usize, offset: usize, size: usize) -> (r: ImageResult<
    usize,
>)
    ensures
        r == read_bits_spec(source, num_bits as int, offset as int, size as int),
{
    if size > 128 || (num_bits as u32) > usize::BITS || offset > size || num_bits > size - offset {
        return Err(ImageError::CorruptedImage);
    }
    proof {
        lemma2_to64();
    }
    let mut s: u128 = source;
    let mut i: usize = 0;
    while i < offset
        invariant
            i <= offset <= 128,
            s as int == source as int / pow2(i as nat) as int,
        decreases offset - i,
    {
        proof {
            lemma_pow2_pos(i as nat);
            lemma_pow2_adds(i as nat, 1);
            lemma2_to64();
            lemma_div_denominator(source as int, pow2(i as nat) as int, 2);
        }
        s = s / 2;
        i = i + 1;
    }
    let mut modulus: u128 = 1;
    let mut j: usize = 0;
    while j < num_bits
        invariant
            j <= num_bits <= 64,
            modulus == pow2(j as nat),
        decreases num_bits - j,
    {
        proof {
            if (j as nat) < 64 {
                lemma_pow2_strictly_increases(j as nat, 64);
            }
            lemma2_to64();
            lemma2_to64_rest();
            lemma_pow2_adds(j as nat, 1);
        }
        modulus = modulus * 2;
        j = j + 1;
    }
    proof {
        lemma_pow2_pos(num_bits as nat);
        if (num_bits as nat) < usize::BITS as nat {
            lemma_pow2_strictly_increases(num_bits as nat, usize::BITS as nat);
        }
        vstd::layout::unsigned_int_max_values();
    }
    let value = s % modulus;
    Ok(value as usize)
}

/// What `read_tag` returns at `pos`: a 4-byte big-endian length followed by a
/// 4-byte tag, as used by box- and chunk-structured formats.
pub open spec fn tag_at(d: Seq<u8>, pos: int) -> Seq<u8> {
    d.subrange(pos + 4, pos + 8)
}

/// Read a 4-byte big-endian length followed by a 4-byte tag.
pub fn read_tag(data: &[u8], pos: usize) -> (r: ImageResult<([u8; 4], u32)>)
    ensures
        pos + 8 <= data@.len() ==> {
            &&& r is Ok
            &&& r->Ok_0.0@ == tag_at(data@, pos as int)
            &&& r->Ok_0.1 == be32(data@, pos as int) as u32
        },
        pos + 8 > data@.len() ==> r == Err::<([u8; 4], u32), ImageError>(ImageError::IoError),
{
    let size = match read_u32(data, pos, &Endian::Big) {
        Ok(v) => v,
        Err(e) => return Err(e),
    };
    if data.len() >= 8 && pos <= data.len() - 8 {
        let tag = [data[pos + 4], data[pos + 5], data[pos + 6], data[pos + 7]];
        proof {
            assert(tag@ =~= tag_at(data@, pos as int));
        }
        Ok((tag, size))
    } else {
        Err(ImageError::IoError)
    }
}

/// Index of the first occurrence of `b` at or after `pos`, or the length of
/// the buffer when `b` does not occur.
pub open spec fn find_byte(d: Seq<u8>, pos: int, b: u8) -> int
    decreases d.len() - pos,
{
    if pos < 0 || pos >= d.len() {
        d.len() as int
    } else if d[pos] == b {
        pos
    } else {
        find_byte(d, pos + 1, b)
    }
}

pub proof fn lemma_find_byte(d: Seq<u8>, pos: int, b: u8)
    requires
        0 <= pos <= d.len(),
    ensures
        pos <= find_byte(d, pos, b) <= d.len(),
        find_byte(d, pos, b) < d.len() ==> d[find_byte(d, pos, b)] == b,
        forall|i: int| pos <= i < find_byte(d, pos, b) ==> d[i] != b,
    decreases d.len() - pos,
{
    if pos < d.len() && d[pos] != b {
        lemma_find_byte(d, pos + 1, b);
    }
}

/// The bytes `read_null_terminated_string` hands back: everything before the
/// first zero byte; when no zero byte follows, everything but the last byte.
pub open spec fn nts_bytes(d: Seq<u8>, pos: int) -> Seq<u8> {
    let z = find_byte(d, pos, 0);
    if z < d.len() {
        d.subrange(pos, z)
    } else if pos < d.len() {
        d.subrange(pos, d.len() - 1)
    } else {
        Seq::empty()
    }
}

/// Position of the next unread byte after `read_null_terminated_string`.
pub open spec fn nts_end(d: Seq<u8>, pos: int) -> int {
    let z = find_byte(d, pos, 0);
    if z < d.len() {
        z + 1
    } else {
        d.len() as int
    }
}

/// Read bytes up to (and consuming) the next zero byte.  When the buffer
/// ends first, all but the last byte are returned, mirroring a delimited
/// read that strips its final byte.
pub fn read_null_terminated_string(data: &[u8], pos: usize) -> (r: (Vec<u8>, usize))
    requires
        pos <= data@.len(),
    ensures
        r.0@ == nts_bytes(data@, pos as int),
        r.1 == nts_end(data@, pos as int),
        pos <= r.1 <= data@.len(),
{
    let mut i: usize = pos;
    while i < data.len() && data[i] != 0
        invariant
            pos <= i <= data@.len(),
            find_byte(data@, pos as int, 0) == find_byte(data@, i as int, 0),
            forall|k: int| pos <= k < i ==> data@[k] != 0,
        decreases data@.len() - i,
    {
        i = i + 1;
    }
    proof {
        lemma_find_byte(data@, i as int, 0);
    }
    if i < data.len() {
        let bytes = vstd::slice::slice_to_vec(vstd::slice::slice_subrange(data, pos, i));
        (bytes, i + 1)
    } else if pos < data.len() {
        let bytes = vstd::slice::slice_to_vec(vstd::slice::slice_subrange(data, pos, data.len() - 1));
        (bytes, data.len())
    } else {
        let bytes: Vec<u8> = Vec::new();
        proof {
            assert(nts_bytes(data@, pos as int) =~= Seq::<u8>::empty());
        }
        (bytes, pos)
    }
}

/// Result of `read_line_capped`: the bytes before the next newline together
/// with the position just past it.  The read fails when the buffer ends
/// before a newline, or when `cap` or more bytes precede the newline — the
/// cap is what keeps a file with no line terminator from forcing unbounded
/// reads.
pub open spec fn line_capped_spec(d: Seq<u8>, pos: int, cap: int) -> ImageResult<(Seq<u8>, int)> {
    let nl = find_byte(d, pos, 0x0a);
    if nl < d.len() && nl - pos < cap {
        Ok((d.subrange(pos, nl), nl + 1))
    } else {
        Err(ImageError::IoError)
    }
}

/// Read one newline-terminated line of fewer than `cap` bytes.
pub fn read_line_capped(data: &[u8], pos: usize, cap: usize) -> (r: ImageResult<(Vec<u8>, usize)>)
    requires
        pos <= data@.len(),
    ensures
        (match line_capped_spec(data@, pos as int, cap as int) {
            Ok((bytes, end)) => {
                &&& r is Ok
                &&& r->Ok_0.0@ == bytes
                &&& r->Ok_0.1 == end
                &&& pos < r->Ok_0.1 <= data@.len()
            },
            Err(e) => r == Err::<(Vec<u8>, usize), ImageError>(e),
        }),
{
    let mut i: usize = pos;
    while i < data.len() && data[i] != 0x0a && i - pos < cap
        invariant
            pos <= i <= data@.len(),
            i - pos <= cap,
            find_byte(data@, pos as int, 0x0a) == find_byte(data@, i as int, 0x0a),
            forall|k: int| pos <= k < i ==> data@[k] != 0x0a,
        decreases data@.len() - i,
    {
        i = i + 1;
    }
    proof {
        lemma_find_byte(data@, i as int, 0x0a);
    }
    if i < data.len() && data[i] == 0x0a && i - pos < cap {
        let bytes = vstd::slice::slice_to_vec(vstd::slice::slice_subrange(data, pos, i));
        Ok((bytes, i + 1))
    } else {
        Err(ImageError::IoError)
    }
}

/// ASCII whitespace, as the textual header formats (HDR, PNM) use it.
pub open spec fn is_ws(b: u8) -> bool {
    b == 0x20 || b == 0x09 || b == 0x0a || b == 0x0b || b == 0x0c || b == 0x0d
}

/// Index of the first whitespace byte at or after `pos`, or the length of
/// the buffer when none follows.
pub open spec fn find_ws(s: Seq<u8>, pos: int) -> int
    decreases s.len() - pos,
{
    if pos < 0 || pos >= s.len() {
        s.len() as int
    } else if is_ws(s[pos]) {
        pos
    } else {
        find_ws(s, pos + 1)
    }
}

pub proof fn lemma_find_ws(s: Seq<u8>, pos: int)
    requires
        0 <= pos <= s.len(),
    ensures
        pos <= find_ws(s, pos) <= s.len(),
        find_ws(s, pos) < s.len() ==> is_ws(s[find_ws(s, pos)]),
        forall|i: int| pos <= i < find_ws(s, pos) ==> !is_ws(s[i]),
    decreases s.len() - pos,
{
    if pos < s.len() && !is_ws(s[pos]) {
        lemma_find_ws(s, pos + 1);
    }
}

/// The maximal runs of non-whitespace bytes at or after `pos`, in order:
/// what splitting on whitespace yields.
pub open spec fn tokens_from(s: Seq<u8>, pos: int) -> Seq<Seq<u8>>
    decreases s.len() - pos,
    when 0 <= pos
    via tokens_from_dec
{
    if pos >= s.len() {
        Seq::empty()
    } else if is_ws(s[pos]) {
        tokens_from(s, pos + 1)
    } else {
        seq![s.subrange(pos, find_ws(s, pos))].add(tokens_from(s, find_ws(s, pos)))
    }
}

#[via_fn]
proof fn tokens_from_dec(s: Seq<u8>, pos: int) {
    if 0 <= pos < s.len() && !is_ws(s[pos]) {
        lemma_find_ws(s, pos);
    }
}

pub proof fn lemma_tokens_nonempty(s: Seq<u8>, pos: int)
    requires
        0 <= pos,
    ensures
        forall|k: int|
            0 <= k < tokens_from(s, pos).len() ==> #[trigger] tokens_from(s, pos)[k].len() > 0,
    decreases s.len() - pos,
{
    if pos >= s.len() {
        assert(tokens_from(s, pos).len() == 0);
    } else {
        if is_ws(s[pos]) {
            lemma_tokens_nonempty(s, pos + 1);
            assert(tokens_from(s, pos) == tokens_from(s, pos + 1));
            assert forall|k: int| 0 <= k < tokens_from(s, pos).len() implies #[trigger] tokens_from(
                s,
                pos,
            )[k].len() > 0 by {
                assert(tokens_from(s, pos)[k] == tokens_from(s, pos + 1)[k]);
            }
        } else {
            lemma_find_ws(s, pos);
            let fw = find_ws(s, pos);
            lemma_tokens_nonempty(s, fw);
            assert forall|k: int| 0 <= k < tokens_from(s, pos).len() implies #[trigger] tokens_from(
                s,
                pos,
            )[k].len() > 0 by {
                if k == 0 {
                    assert(tokens_from(s, pos)[0] == s.subrange(pos, fw));
                } else {
                    assert(tokens_from(s, pos)[k] == tokens_from(s, fw)[k - 1]);
                }
            }
        }
    }
}

/// Runtime test for ASCII whitespace.
fn is_ws_byte(b: u8) -> (r: bool)
    ensures
        r == is_ws(b),
{
    b == 0x20 || b == 0x09 || b == 0x0a || b == 0x0b || b == 0x0c || b == 0x0d
}

/// The whitespace-separated tokens of `line`, one vector per token, in the
/// order given by `tokens_from`.
pub fn split_ws(line: &[u8]) -> (r: Vec<Vec<u8>>)
    ensures
        r@.len() == tokens_from(line@, 0).len(),
        forall|k: int| 0 <= k < r@.len() ==> r@[k]@ == tokens_from(line@, 0)[k],
{
    let mut out: Vec<Vec<u8>> = Vec::new();
    let ghost mut done: Seq<Seq<u8>> = Seq::empty();
    let mut i: usize = 0;
    proof {
        assert(done.add(tokens_from(line@, 0)) =~= tokens_from(line@, 0));
    }
    while i < line.len()
        invariant
            i <= line@.len(),
            done.add(tokens_from(line@, i as int)) == tokens_from(line@, 0),
            out@.len() == done.len(),
            forall|k: int| 0 <= k < done.len() ==> out@[k]@ == done[k],
        decreases line@.len() - i,
    {
        let b = line[i];
        if is_ws_byte(b) {
            proof {
                assert(tokens_from(line@, i as int) == tokens_from(line@, i + 1));
            }
            i = i + 1;
        } else {
            let start = i;
            i = i + 1;
            while i < line.len() && !is_ws_byte(line[i])
                invariant
                    start < i <= line@.len(),
                    forall|k: int| start <= k < i ==> !is_ws(line@[k]),
                decreases line@.len() - i,
            {
                i = i + 1;
            }
            proof {
                assert(find_ws(line@, start as int) == i) by {
                    lemma_find_ws(line@, start as int);
                    if find_ws(line@, start as int) < i {
                        assert(!is_ws(line@[find_ws(line@, start as int)]));
                    }
                    if find_ws(line@, start as int) > i {
                        assert(!is_ws(line@[i as int]));
                    }
                }
            }
            let tok = vstd::slice::slice_to_vec(vstd::slice::slice_subrange(line, start, i));
            out.push(tok);
            proof {
                assert(tokens_from(line@, start as int) == seq![
                    line@.subrange(start as int, i as int),
                ].add(tokens_from(line@, i as int)));
                let done2 = done.push(line@.subrange(start as int, i as int));
                assert(done2.add(tokens_from(line@, i as int)) =~= done.add(tokens_from(
                    line@,
                    start as int,
                )));
                done = done2;
            }
        }
    }
    proof {
        assert(tokens_from(line@, line@.len() as int) =~= Seq::<Seq<u8>>::empty());
        assert(done.add(tokens_from(line@, i as int)) =~= done);
    }
    out
}

/// Every byte is an ASCII decimal digit.
pub open spec fn all_digits(s: Seq<u8>) -> bool {
    forall|i: int| 0 <= i < s.len() ==> 0x30 <= #[trigger] s[i] <= 0x39
}

/// Value of an ASCII decimal digit string.
pub open spec fn dec_value(s: Seq<u8>) -> int
    decreases s.len(),
{
    if s.len() == 0 {
        0
    } else {
        10 * dec_value(s.drop_last()) + (s.last() - 0x30)
    }
}

pub proof fn lemma_dec_value_nonneg(s: Seq<u8>)
    requires
        all_digits(s),
    ensures
        dec_value(s) >= 0,
    decreases s.len(),
{
    if s.len() > 0 {
        assert(all_digits(s.drop_last()));
        lemma_dec_value_nonneg(s.drop_last());
    }
}

pub proof fn lemma_dec_value_prefix(s: Seq<u8>, j: int)
    requires
        all_digits(s),
        0 <= j <= s.len(),
    ensures
        dec_value(s) >= dec_value(s.take(j)),
    decreases s.len() - j,
{
    if j == s.len() {
        assert(s.take(j) =~= s);
    } else {
        assert(all_digits(s.take(j)));
        lemma_dec_value_nonneg(s.take(j));
        assert(s.take(j + 1).drop_last() =~= s.take(j));
        assert(s.take(j + 1).last() == s[j]);
        assert(dec_value(s.take(j + 1)) == 10 * dec_value(s.take(j)) + (s[j] - 0x30));
        lemma_dec_value_prefix(s, j + 1);
    }
}

/// What parsing a decimal `usize` accepts: an optional leading plus sign,
/// then one or more digits whose value fits the machine word.
pub open spec fn parse_usize_spec(s: Seq<u8>) -> Option<usize> {
    let t = if s.len() > 0 && s[0] == 0x2b {
        s.skip(1)
    } else {
        s
    };
    if t.len() > 0 && all_digits(t) && dec_value(t) <= usize::MAX {
        Some(dec_value(t) as usize)
    } else {
        None
    }
}

/// Parse an ASCII decimal integer, rejecting overflow and stray characters.
pub fn parse_usize(tok: &[u8]) -> (r: Option<usize>)
    ensures
        r == parse_usize_spec(tok@),
{
    let start: usize = if tok.len() > 0 && tok[0] == 0x2b {
        1
    } else {
        0
    };
    let ghost t = if tok@.len() > 0 && tok@[0] == 0x2b {
        tok@.skip(1)
    } else {
        tok@
    };
    if tok.len() == start {
        return None;
    }
    let mut acc: usize = 0;
    let mut i: usize = start;
    while i < tok.len()
        invariant
            start <= i <= tok@.len(),
            start == (if tok@.len() > 0 && tok@[0] == 0x2b {
                1int
            } else {
                0int
            }),
            t == tok@.skip(start as int),
            t.len() == tok@.len() - start,
            all_digits(t.take(i - start)),
            acc == dec_value(t.take(i - start)),
        decreases tok@.len() - i,
    {
        let b = tok[i];
        if b < 0x30 || b > 0x39 {
            proof {
                assert(t[i - start] == tok@[i as int]);
                assert(!all_digits(t));
                assert(parse_usize_spec(tok@) is None);
            }
            return None;
        }
        let d = (b - 0x30) as usize;
        proof {
            assert(t.take(i - start + 1).drop_last() =~= t.take(i - start));
            assert(t.take(i - start + 1).last() == tok@[i as int]);
        }
        if acc > (usize::MAX - d) / 10 {
            proof {
                assert(10 * acc + d > usize::MAX) by (nonlinear_arith)
                    requires
                        acc > (usize::MAX - d) / 10,
                        d <= 9,
                        acc >= 0,
                ;
                assert(dec_value(t.take(i - start + 1)) == 10 * dec_value(t.take(i - start)) + (
                t.take(i - start + 1).last() - 0x30));
                assert(dec_value(t.take(i - start + 1)) > usize::MAX);
                if all_digits(t) {
                    lemma_dec_value_prefix(t, i - start + 1);
                    assert(dec_value(t) > usize::MAX);
                }
                assert(tok@.skip(0) =~= tok@);
                assert(parse_usize_spec(tok@) is None);
            }
            return None;
        }
        proof {
            assert(acc * 10 + d <= usize::MAX) by (nonlinear_arith)
                requires
                    acc <= (usize::MAX - d) / 10,
                    d <= 9,
                    acc >= 0,
            ;
        }
        acc = acc * 10 + d;
        i = i + 1;
    }
    proof {
        assert(t.take(i - start) =~= t);
    }
    Some(acc)
}

} // verus!
