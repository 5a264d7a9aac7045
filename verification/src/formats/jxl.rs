//! JPEG XL: two physical forms.  A raw codestream opens with the two-byte
//! signature and packs the size header into a little-endian bit stream; the
//! box-container form carries the same codestream inside `jxlc` (whole) or
//! `jxlp` (fragmented) boxes.  At most 16 header bytes are ever assembled —
//! the maximum possible size-header length — and every bit field is read
//! through a bounds-checked accumulator so a truncated header fails instead
//! of reading padding as data.

use vstd::prelude::*;

use crate::util::{be32, be64, bytes4_at, read_bits, read_u32, read_u64, Endian};
use crate::{ImageError, ImageResult, ImageSize};

verus! {

use vstd::arithmetic::power2::{
    lemma2_to64, lemma2_to64_rest, lemma_pow2_adds, lemma_pow2_pos, lemma_pow2_strictly_increases,
    pow2,
};

/// Value of a whole byte string read as one little-endian integer.
pub open spec fn le_val(s: Seq<u8>) -> int
    decreases s.len(),
{
    if s.len() == 0 {
        0
    } else {
        s[0] + 0x100 * le_val(s.skip(1))
    }
}

pub proof fn lemma_le_val_bound(s: Seq<u8>)
    ensures
        0 <= le_val(s) < pow2((8 * s.len()) as nat),
    decreases s.len(),
{
    lemma_pow2_pos((8 * s.len()) as nat);
    if s.len() > 0 {
        lemma_le_val_bound(s.skip(1));
        lemma_pow2_adds(8, (8 * (s.len() - 1)) as nat);
        lemma2_to64();
    }
}

/// The `num_bits`-wide field at `off` of the accumulator.
pub open spec fn bit_field(bits: u128, off: int, n: int) -> int {
    (bits as int / pow2(off as nat) as int) % pow2(n as nat) as int
}

/// A variable-width dimension field: a 2-bit selector picks the field
/// width, and the stored value is the dimension minus one.
pub open spec fn sel_width(sel: int) -> int {
    if sel == 0 {
        9
    } else if sel == 1 {
        13
    } else if sel == 2 {
        18
    } else {
        30
    }
}

pub open spec fn read_dim_spec(bits: u128, nbits: int, off: int) -> ImageResult<(int, int)> {
    if off + 2 > nbits {
        Err(ImageError::CorruptedImage)
    } else {
        let n = sel_width(bit_field(bits, off, 2));
        if off + 2 + n > nbits {
            Err(ImageError::CorruptedImage)
        } else {
            Ok((bit_field(bits, off + 2, n) + 1, off + 2 + n))
        }
    }
}

/// The compact form: a 5-bit field stores the dimension divided by 8,
/// minus one.
pub open spec fn read_small_dim_spec(bits: u128, nbits: int, off: int) -> ImageResult<(int, int)> {
    if off + 5 > nbits {
        Err(ImageError::CorruptedImage)
    } else {
        Ok(((bit_field(bits, off, 5) + 1) * 8, off + 5))
    }
}

/// Widths derived from the height by one of seven fixed aspect ratios.
pub open spec fn ratio_width(h: int, ratio: int) -> int {
    if ratio == 1 {
        h
    } else if ratio == 2 {
        h * 12 / 10
    } else if ratio == 3 {
        h * 4 / 3
    } else if ratio == 4 {
        h * 3 / 2
    } else if ratio == 5 {
        h * 16 / 9
    } else if ratio == 6 {
        h * 5 / 4
    } else {
        h * 2
    }
}

/// The bit-packed size header: a 1-bit small flag selects the compact
/// height form; a 3-bit ratio selector follows the height, with ratio 0
/// meaning an explicit width field; then a 1-bit all-default flag, which
/// when clear gates an extra-fields flag, which when set gates a 3-bit
/// orientation whose codes 4 and above transpose the frame.
pub open spec fn decode_bits_spec(bits: u128, nbits: int) -> ImageResult<ImageSize> {
    if 1 > nbits {
        Err(ImageError::CorruptedImage)
    } else {
        let small = bit_field(bits, 0, 1);
        let hres = if small == 1 {
            read_small_dim_spec(bits, nbits, 1)
        } else {
            read_dim_spec(bits, nbits, 1)
        };
        match hres {
            Err(e) => Err(e),
            Ok((height, off1)) => {
                if off1 + 3 > nbits {
                    Err(ImageError::CorruptedImage)
                } else {
                    let ratio = bit_field(bits, off1, 3);
                    let wres = if ratio == 0 {
                        if small == 1 {
                            read_small_dim_spec(bits, nbits, off1 + 3)
                        } else {
                            read_dim_spec(bits, nbits, off1 + 3)
                        }
                    } else {
                        Ok((ratio_width(height, ratio), off1 + 3))
                    };
                    match wres {
                        Err(e) => Err(e),
                        Ok((width, off2)) => {
                            if off2 + 1 > nbits {
                                Err(ImageError::CorruptedImage)
                            } else {
                                let all_default = bit_field(bits, off2, 1);
                                let ores: ImageResult<int> = if all_default == 1 {
                                    Ok(0)
                                } else if off2 + 2 > nbits {
                                    Err(ImageError::CorruptedImage)
                                } else if bit_field(bits, off2 + 1, 1) == 0 {
                                    Ok(0)
                                } else if off2 + 5 > nbits {
                                    Err(ImageError::CorruptedImage)
                                } else {
                                    Ok(bit_field(bits, off2 + 2, 3))
                                };
                                match ores {
                                    Err(e) => Err(e),
                                    Ok(orientation) => {
                                        if orientation >= 4 {
                                            Ok(
                                                ImageSize {
                                                    width: height as usize,
                                                    height: width as usize,
                                                },
                                            )
                                        } else {
                                            Ok(
                                                ImageSize {
                                                    width: width as usize,
                                                    height: height as usize,
                                                },
                                            )
                                        }
                                    },
                                }
                            }
                        },
                    }
                }
            },
        }
    }
}

/// An assembled codestream prefix: the two-byte signature, then the bit
/// window formed from the remaining bytes (at most 14) little-endian.
pub open spec fn decode_cs_spec(cs: Seq<u8>) -> ImageResult<ImageSize> {
    if cs.len() < 2 || cs[0] != 0xff || cs[1] != 0x0a {
        Err(ImageError::CorruptedImage)
    } else {
        decode_bits_spec(le_val(cs.skip(2)) as u128, 8 * (cs.len() - 2))
    }
}

/// Exec mirror of `read_dim_spec`.
fn read_dim(bits: u128, nbits: usize, off: usize) -> (r: ImageResult<(u32, usize)>)
    requires
        off <= nbits <= 112,
    ensures
        (match read_dim_spec(bits, nbits as int, off as int) {
            Ok((v, o2)) => r is Ok && r->Ok_0.0 == v && r->Ok_0.1 == o2 && off < o2 <= nbits && v
                <= 0x4000_0000,
            Err(e) => r == Err::<(u32, usize), ImageError>(e),
        }),
{
    proof {
        lemma2_to64();
    }
    let sel = match read_bits(bits, 2, off, nbits) {
        Ok(v) => v,
        Err(e) => {
            return Err(e);
        },
    };
    let n: usize = if sel == 0 {
        9
    } else if sel == 1 {
        13
    } else if sel == 2 {
        18
    } else {
        30
    };
    let field = match read_bits(bits, n, off + 2, nbits) {
        Ok(v) => v,
        Err(e) => {
            return Err(e);
        },
    };
    proof {
        lemma_pow2_pos(n as nat);
        if (n as nat) < 31 {
            lemma_pow2_strictly_increases(n as nat, 31);
        }
        lemma2_to64();
    }
    Ok(((field + 1) as u32, off + 2 + n))
}

/// Exec mirror of `read_small_dim_spec`.
fn read_small_dim(bits: u128, nbits: usize, off: usize) -> (r: ImageResult<(u32, usize)>)
    requires
        off <= nbits <= 112,
    ensures
        (match read_small_dim_spec(bits, nbits as int, off as int) {
            Ok((v, o2)) => r is Ok && r->Ok_0.0 == v && r->Ok_0.1 == o2 && off < o2 <= nbits && v
                <= 0x4000_0000,
            Err(e) => r == Err::<(u32, usize), ImageError>(e),
        }),
{
    proof {
        lemma2_to64();
    }
    let field = match read_bits(bits, 5, off, nbits) {
        Ok(v) => v,
        Err(e) => {
            return Err(e);
        },
    };
    Ok((((field + 1) * 8) as u32, off + 5))
}

/// Decode the bit-packed size header from an assembled accumulator.
#[verifier::rlimit(100)]
fn decode_bits(bits: u128, nbits: usize) -> (r: ImageResult<ImageSize>)
    requires
        nbits <= 112,
    ensures
        r == decode_bits_spec(bits, nbits as int),
{
    proof {
        lemma2_to64();
    }
    let small = match read_bits(bits, 1, 0, nbits) {
        Ok(v) => v,
        Err(e) => {
            return Err(e);
        },
    };
    let (height, off1) = if small == 1 {
        match read_small_dim(bits, nbits, 1) {
            Ok(v) => v,
            Err(e) => {
                return Err(e);
            },
        }
    } else {
        match read_dim(bits, nbits, 1) {
            Ok(v) => v,
            Err(e) => {
                return Err(e);
            },
        }
    };
    let ratio = match read_bits(bits, 3, off1, nbits) {
        Ok(v) => v,
        Err(e) => {
            return Err(e);
        },
    };
    let (width, off2) = if ratio == 0 {
        if small == 1 {
            match read_small_dim(bits, nbits, off1 + 3) {
                Ok(v) => v,
                Err(e) => {
                    return Err(e);
                },
            }
        } else {
            match read_dim(bits, nbits, off1 + 3) {
                Ok(v) => v,
                Err(e) => {
                    return Err(e);
                },
            }
        }
    } else {
        let h64 = height as u64;
        let w64: u64 = if ratio == 1 {
            h64
        } else if ratio == 2 {
            h64 * 12 / 10
        } else if ratio == 3 {
            h64 * 4 / 3
        } else if ratio == 4 {
            h64 * 3 / 2
        } else if ratio == 5 {
            h64 * 16 / 9
        } else if ratio == 6 {
            h64 * 5 / 4
        } else {
            h64 * 2
        };
        proof {
            assert(w64 <= 0xffff_ffff) by (nonlinear_arith)
                requires
                    w64 == ratio_width(h64 as int, ratio as int) || w64 == h64 * 12 / 10 || w64
                        == h64 * 4 / 3 || w64 == h64 * 3 / 2 || w64 == h64 * 16 / 9 || w64 == h64
                        * 5 / 4 || w64 == h64 * 2 || w64 == h64,
                    h64 <= 0x4000_0000,
            ;
        }
        (w64 as u32, off1 + 3)
    };
    let all_default = match read_bits(bits, 1, off2, nbits) {
        Ok(v) => v,
        Err(e) => {
            return Err(e);
        },
    };
    let orientation: usize = if all_default == 1 {
        0
    } else {
        let extra = match read_bits(bits, 1, off2 + 1, nbits) {
            Ok(v) => v,
            Err(e) => {
                return Err(e);
            },
        };
        if extra == 0 {
            0
        } else {
            match read_bits(bits, 3, off2 + 2, nbits) {
                Ok(v) => v,
                Err(e) => {
                    return Err(e);
                },
            }
        }
    };
    if orientation >= 4 {
        Ok(ImageSize { width: height as usize, height: width as usize })
    } else {
        Ok(ImageSize { width: width as usize, height: height as usize })
    }
}

/// Build the little-endian bit accumulator from `cs[start..end]`.
fn le_u128(cs: &[u8], start: usize, end: usize) -> (r: u128)
    requires
        start <= end <= cs@.len(),
        end - start <= 14,
    ensures
        r == le_val(cs@.subrange(start as int, end as int)),
{
    let mut acc: u128 = 0;
    let mut i: usize = end;
    proof {
        assert(cs@.subrange(end as int, end as int) =~= Seq::<u8>::empty());
    }
    while i > start
        invariant
            start <= i <= end <= cs@.len(),
            end - start <= 14,
            acc == le_val(cs@.subrange(i as int, end as int)),
            0 <= acc,
        decreases i,
    {
        proof {
            lemma_le_val_bound(cs@.subrange(i as int, end as int));
            if 8 * (end - i) < 112 {
                lemma_pow2_strictly_increases((8 * (end - i)) as nat, 112);
            }
            lemma2_to64_rest();
            lemma_pow2_adds(64, 48);
            assert(pow2(112) == 0x1_0000_0000_0000_0000_0000_0000_0000);
            assert(cs@.subrange(i - 1, end as int).skip(1) =~= cs@.subrange(i as int, end as int));
        }
        acc = 0x100 * acc + cs[i - 1] as u128;
        i = i - 1;
    }
    acc
}

/// Decode an assembled codestream prefix: validate the signature, then
/// decode the bit window that the remaining bytes form.
fn decode_cs(cs: &[u8]) -> (r: ImageResult<ImageSize>)
    requires
        cs@.len() <= 16,
    ensures
        r == decode_cs_spec(cs@),
{
    if cs.len() < 2 || cs[0] != 0xff || cs[1] != 0x0a {
        return Err(ImageError::CorruptedImage);
    }
    let bits = le_u128(cs, 2, cs.len());
    proof {
        assert(cs@.subrange(2, cs@.len() as int) =~= cs@.skip(2));
        lemma_le_val_bound(cs@.skip(2));
    }
    decode_bits(bits, 8 * (cs.len() - 2))
}

/// Append `count` bytes of `data` starting at `from` to the accumulator.
fn append_bytes(acc: &mut Vec<u8>, data: &[u8], from: usize, count: usize)
    requires
        from + count <= data@.len(),
        old(acc)@.len() + count <= 16,
    ensures
        final(acc)@ == old(acc)@ + data@.subrange(from as int, (from + count) as int),
{
    let n = data.len();
    let mut i: usize = 0;
    while i < count
        invariant
            i <= count,
            n == data@.len(),
            from + count <= n,
            acc@ == old(acc)@ + data@.subrange(from as int, (from + i) as int),
        decreases count - i,
    {
        acc.push(data[from + i]);
        proof {
            assert(acc@ =~= old(acc)@ + data@.subrange(from as int, (from + i + 1) as int));
        }
        i = i + 1;
    }
    proof {
        assert(acc@ =~= old(acc)@ + data@.subrange(from as int, (from + count) as int));
    }
}

/// One box step of the container scan.  A declared size of 1 defers to an
/// 8-byte extended size; 0 extends the box to the end of the stream; a box
/// smaller than its own header is a structural contradiction.  A `jxlc`
/// payload, or each `jxlp` payload after its 4-byte sequence word (whose
/// top bit marks the final fragment), feeds the accumulated codestream,
/// which is decoded once final or 16 bytes long.
pub open spec fn box_scan_spec(d: Seq<u8>, pos: int, acc: Seq<u8>) -> ImageResult<ImageSize>
    decreases d.len() - pos,
    when 0 <= pos && acc.len() <= 16
{
    if pos + 8 > d.len() {
        Err(ImageError::IoError)
    } else {
        let size32 = be32(d, pos);
        let hs: int = if size32 == 1 {
            16
        } else {
            8
        };
        if size32 == 1 && pos + 16 > d.len() {
            Err(ImageError::IoError)
        } else {
            let box_len: int = if size32 == 1 {
                be64(d, pos + 8)
            } else if size32 == 0 {
                d.len() - pos
            } else {
                size32
            };
            if box_len < hs {
                Err(ImageError::CorruptedImage)
            } else if bytes4_at(d, pos + 4, 0x6a, 0x78, 0x6c, 0x63) {  // jxlc
                let want = if 16 - acc.len() <= box_len - hs {
                    16 - acc.len()
                } else {
                    box_len - hs
                };
                if pos + hs + want > d.len() {
                    Err(ImageError::IoError)
                } else {
                    decode_cs_spec(acc + d.subrange(pos + hs, pos + hs + want))
                }
            } else if bytes4_at(d, pos + 4, 0x6a, 0x78, 0x6c, 0x70) {  // jxlp
                if box_len < hs + 4 {
                    Err(ImageError::CorruptedImage)
                } else if pos + hs + 4 > d.len() {
                    Err(ImageError::IoError)
                } else {
                    let idx = be32(d, pos + hs);
                    let want = if 16 - acc.len() <= box_len - hs - 4 {
                        16 - acc.len()
                    } else {
                        box_len - hs - 4
                    };
                    if pos + hs + 4 + want > d.len() {
                        Err(ImageError::IoError)
                    } else {
                        let acc2 = acc + d.subrange(pos + hs + 4, pos + hs + 4 + want);
                        if idx >= 0x8000_0000 || acc2.len() >= 16 {
                            decode_cs_spec(acc2)
                        } else if pos + box_len > d.len() {
                            Err(ImageError::IoError)
                        } else {
                            box_scan_spec(d, pos + box_len, acc2)
                        }
                    }
                }
            } else if pos + box_len > d.len() {
                Err(ImageError::IoError)
            } else {
                box_scan_spec(d, pos + box_len, acc)
            }
        }
    }
}

/// A raw codestream is decoded from its first 16 bytes; the container form
/// is scanned box by box from offset 12.
pub open spec fn size_spec(d: Seq<u8>) -> ImageResult<ImageSize> {
    if d.len() < 2 {
        Err(ImageError::IoError)
    } else if d[0] == 0xff && d[1] == 0x0a {
        decode_cs_spec(d.take(if d.len() < 16 {
            d.len() as int
        } else {
            16
        }))
    } else {
        box_scan_spec(d, 12, Seq::empty())
    }
}

#[verifier::rlimit(100)]
pub fn size(data: &[u8]) -> (r: ImageResult<ImageSize>)
    ensures
        r == size_spec(data@),
{
    if data.len() < 2 {
        return Err(ImageError::IoError);
    }
    if data[0] == 0xff && data[1] == 0x0a {
        let take: usize = if data.len() < 16 {
            data.len()
        } else {
            16
        };
        let cs = vstd::slice::slice_subrange(data, 0, take);
        proof {
            assert(cs@ =~= data@.take(take as int));
        }
        return decode_cs(cs);
    }
    let ghost target = box_scan_spec(data@, 12, Seq::empty());
    let mut pos: usize = 12;
    let mut acc: Vec<u8> = Vec::new();
    let mut result: ImageResult<ImageSize> = Err(ImageError::IoError);
    proof {
        assert(acc@ =~= Seq::<u8>::empty());
    }
    loop
        invariant_except_break
            12 <= pos,
            acc@.len() <= 16,
            box_scan_spec(data@, pos as int, acc@) == target,
        ensures
            result == target,
        decreases data@.len() - pos,
    {
        if data.len() < 8 || pos > data.len() - 8 {
            result = Err(ImageError::IoError);
            break;
        }
        let size32 = match read_u32(data, pos, &Endian::Big) {
            Ok(v) => v,
            Err(e) => {
                result = Err(e);
                break;
            },
        };
        let hs: usize = if size32 == 1 {
            16
        } else {
            8
        };
        if size32 == 1 && data.len() - pos < 16 {
            result = Err(ImageError::IoError);
            break;
        }
        let box_len: u64 = if size32 == 1 {
            match read_u64(data, pos + 8, &Endian::Big) {
                Ok(v) => v,
                Err(e) => {
                    result = Err(e);
                    break;
                },
            }
        } else if size32 == 0 {
            (data.len() - pos) as u64
        } else {
            size32 as u64
        };
        if box_len < hs as u64 {
            result = Err(ImageError::CorruptedImage);
            break;
        }
        if data[pos + 4] == 0x6a && data[pos + 5] == 0x78 && data[pos + 6] == 0x6c && data[pos + 7]
            == 0x63 {
            let cap: u64 = (16 - acc.len()) as u64;
            let want: usize = if cap <= box_len - hs as u64 {
                cap as usize
            } else {
                (box_len - hs as u64) as usize
            };
            if ((data.len() - pos - hs) as u64) < want as u64 {
                result = Err(ImageError::IoError);
                break;
            }
            append_bytes(&mut acc, data, pos + hs, want);
            result = decode_cs(acc.as_slice());
            break;
        }
        if data[pos + 4] == 0x6a && data[pos + 5] == 0x78 && data[pos + 6] == 0x6c && data[pos + 7]
            == 0x70 {
            if box_len < hs as u64 + 4 {
                result = Err(ImageError::CorruptedImage);
                break;
            }
            if data.len() - pos < hs + 4 {
                result = Err(ImageError::IoError);
                break;
            }
            let idx = match read_u32(data, pos + hs, &Endian::Big) {
                Ok(v) => v,
                Err(e) => {
                    result = Err(e);
                    break;
                },
            };
            let cap: u64 = (16 - acc.len()) as u64;
            let want: usize = if cap <= box_len - hs as u64 - 4 {
                cap as usize
            } else {
                (box_len - hs as u64 - 4) as usize
            };
            if ((data.len() - pos - hs - 4) as u64) < want as u64 {
                result = Err(ImageError::IoError);
                break;
            }
            append_bytes(&mut acc, data, pos + hs + 4, want);
            if idx >= 0x8000_0000 || acc.len() >= 16 {
                result = decode_cs(acc.as_slice());
                break;
            }
            if ((data.len() - pos) as u64) < box_len {
                result = Err(ImageError::IoError);
                break;
            }
            pos = pos + box_len as usize;
            continue ;
        }
        if ((data.len() - pos) as u64) < box_len {
            result = Err(ImageError::IoError);
            break;
        }
        pos = pos + box_len as usize;
    }
    result
}

/// The raw codestream signature, or the 12-byte container signature box.
pub open spec fn matches_spec(h: Seq<u8>) -> bool {
    ||| (h.len() >= 2 && h[0] == 0xff && h[1] == 0x0a)
    ||| (h.len() >= 12 && h[0] == 0x00 && h[1] == 0x00 && h[2] == 0x00 && h[3] == 0x0c && h[4]
        == 0x4a && h[5] == 0x58 && h[6] == 0x4c && h[7] == 0x20 && h[8] == 0x0d && h[9] == 0x0a
        && h[10] == 0x87 && h[11] == 0x0a)
}

pub fn matches(header: &[u8]) -> (r: bool)
    ensures
        r == matches_spec(header@),
{
    (header.len() >= 2 && header[0] == 0xff && header[1] == 0x0a) || (header.len() >= 12
        && header[0] == 0x00 && header[1] == 0x00 && header[2] == 0x00 && header[3] == 0x0c
        && header[4] == 0x4a && header[5] == 0x58 && header[6] == 0x4c && header[7] == 0x20
        && header[8] == 0x0d && header[9] == 0x0a && header[10] == 0x87 && header[11] == 0x0a)
}

} // verus!
