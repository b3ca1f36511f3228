//! What an 8-bit grayscale PNG file holds: the reading of such a file down to
//! its samples (PNG chunks, the zlib stream and its DEFLATE blocks, and the
//! scanline filters), as the PNG, zlib and DEFLATE formats define it.

use vstd::prelude::*;

verus! {

/// An 8-bit grayscale image: `width` by `height` samples, row after row.
pub struct Gray8Image {
    pub width: u32,
    pub height: u32,
    pub samples: Seq<u8>,
}

/// Bit `i` of `b`, counted from the least significant bit.
pub open spec fn bit_of(b: nat, i: nat) -> nat
    decreases i,
{
    if i == 0 {
        b % 2
    } else {
        bit_of(b / 2, (i - 1) as nat)
    }
}

/// Bit `pos` of `data`, bits counted from the least significant bit of each
/// byte.
pub open spec fn bit_at(data: Seq<u8>, pos: nat) -> nat {
    bit_of(data[(pos / 8) as int] as nat, pos % 8)
}

/// The `n` bits from `pos` as a number, the first bit least significant (how
/// DEFLATE stores header fields and extra bits).
pub open spec fn bits_lsb(data: Seq<u8>, pos: nat, n: nat) -> nat
    decreases n,
{
    if n == 0 {
        0
    } else {
        bit_at(data, pos) + 2 * bits_lsb(data, pos + 1, (n - 1) as nat)
    }
}

/// The `n` bits from `pos` as a number, the first bit most significant (how
/// DEFLATE stores Huffman codes).
pub open spec fn bits_msb(data: Seq<u8>, pos: nat, n: nat) -> nat
    decreases n,
{
    if n == 0 {
        0
    } else {
        2 * bits_msb(data, pos, (n - 1) as nat) + bit_at(data, (pos + n - 1) as nat)
    }
}

/// How many symbols have code length `len`.
pub open spec fn count_length(lengths: Seq<nat>, len: nat) -> nat {
    lengths.filter(|l: nat| l == len).len()
}

/// The first canonical Huffman code of length `len`.
pub open spec fn first_code(lengths: Seq<nat>, len: nat) -> nat
    decreases len,
{
    if len <= 1 {
        0
    } else {
        2 * (first_code(lengths, (len - 1) as nat) + count_length(lengths, (len - 1) as nat))
    }
}

/// The canonical Huffman code of symbol `s`: codes of one length are
/// consecutive, in symbol order.
pub open spec fn code_of(lengths: Seq<nat>, s: int) -> nat {
    first_code(lengths, lengths[s]) + lengths.take(s).filter(|l: nat| l == lengths[s]).len()
}

/// Symbol `s` of the code is what the bits at `pos` spell.
pub open spec fn symbol_at(data: Seq<u8>, pos: nat, lengths: Seq<nat>, s: int) -> bool {
    &&& 0 <= s < lengths.len()
    &&& lengths[s] > 0
    &&& pos + lengths[s] <= data.len() * 8
    &&& bits_msb(data, pos, lengths[s]) == code_of(lengths, s)
}

/// The symbol that the bits at `pos` spell, and the bit after its code.
pub open spec fn decode_symbol(data: Seq<u8>, pos: nat, lengths: Seq<nat>) -> Option<(nat, nat)> {
    if exists|s: int| symbol_at(data, pos, lengths, s) {
        let s = choose|s: int| symbol_at(data, pos, lengths, s);
        Some((s as nat, pos + lengths[s]))
    } else {
        None
    }
}

/// The base match length of length symbol `257 + i`.
pub open spec fn length_base(i: nat) -> nat {
    seq![
        3nat, 4, 5, 6, 7, 8, 9, 10, 11, 13, 15, 17, 19, 23, 27, 31, 35, 43, 51, 59, 67, 83, 99,
        115, 131, 163, 195, 227, 258,
    ][i as int]
}

/// The extra bits of length symbol `257 + i`.
pub open spec fn length_extra(i: nat) -> nat {
    seq![
        0nat, 0, 0, 0, 0, 0, 0, 0, 1, 1, 1, 1, 2, 2, 2, 2, 3, 3, 3, 3, 4, 4, 4, 4, 5, 5, 5, 5, 0,
    ][i as int]
}

/// The base distance of distance symbol `i`.
pub open spec fn distance_base(i: nat) -> nat {
    seq![
        1nat, 2, 3, 4, 5, 7, 9, 13, 17, 25, 33, 49, 65, 97, 129, 193, 257, 385, 513, 769, 1025,
        1537, 2049, 3073, 4097, 6145, 8193, 12289, 16385, 24577,
    ][i as int]
}

/// The extra bits of distance symbol `i`.
pub open spec fn distance_extra(i: nat) -> nat {
    seq![
        0nat, 0, 0, 0, 1, 1, 2, 2, 3, 3, 4, 4, 5, 5, 6, 6, 7, 7, 8, 8, 9, 9, 10, 10, 11, 11, 12,
        12, 13, 13,
    ][i as int]
}

/// The code lengths of the fixed literal/length code.
pub open spec fn fixed_literal_lengths() -> Seq<nat> {
    Seq::new(
        288,
        |s: int|
            if s < 144 {
                8nat
            } else if s < 256 {
                9nat
            } else if s < 280 {
                7nat
            } else {
                8nat
            },
    )
}

/// The code lengths of the fixed distance code.
pub open spec fn fixed_distance_lengths() -> Seq<nat> {
    Seq::new(32, |s: int| 5nat)
}

/// `out` followed by `len` bytes copied one by one from `distance` bytes back.
pub open spec fn copy_back(out: Seq<u8>, distance: nat, len: nat) -> Seq<u8>
    decreases len,
{
    if len == 0 {
        out
    } else {
        copy_back(out.push(out[out.len() - distance]), distance, (len - 1) as nat)
    }
}

/// The symbols of a Huffman-coded block from bit `pos` up to its end of
/// block, appended to `out`; with the bit after the end of block.
pub open spec fn decode_block_symbols(
    data: Seq<u8>,
    pos: nat,
    out: Seq<u8>,
    literals: Seq<nat>,
    distances: Seq<nat>,
) -> Option<(Seq<u8>, nat)>
    decreases data.len() * 8 - pos,
{
    let total = data.len() * 8;
    match decode_symbol(data, pos, literals) {
        None => None,
        Some((sym, p1)) => if !(pos < p1 && p1 <= total) {
            None
        } else if sym < 256 {
            decode_block_symbols(data, p1, out.push(sym as u8), literals, distances)
        } else if sym == 256 {
            Some((out, p1))
        } else if sym <= 285 {
            let i = (sym - 257) as nat;
            let p2 = p1 + length_extra(i);
            if p2 > total {
                None
            } else {
                let len = length_base(i) + bits_lsb(data, p1, length_extra(i));
                match decode_symbol(data, p2, distances) {
                    None => None,
                    Some((ds, p3)) => if ds >= 30 || !(p2 <= p3) {
                        None
                    } else {
                        let p4 = p3 + distance_extra(ds);
                        let distance = distance_base(ds) + bits_lsb(data, p3, distance_extra(ds));
                        if p4 > total || distance > out.len() {
                            None
                        } else {
                            decode_block_symbols(
                                data,
                                p4,
                                copy_back(out, distance, len),
                                literals,
                                distances,
                            )
                        }
                    },
                }
            }
        } else {
            None
        },
    }
}

/// The position of code-length symbol `s` in the order in which a dynamic
/// block header lists the code-length code lengths.
pub open spec fn code_length_position(s: int) -> nat {
    seq![3nat, 17, 15, 13, 11, 9, 7, 5, 4, 6, 8, 10, 12, 14, 16, 18, 0, 1, 2][s]
}

/// `acc` followed by the code lengths decoded from bit `pos` until there are
/// `n`; with the bit after them.
pub open spec fn read_code_lengths(
    data: Seq<u8>,
    pos: nat,
    code_lengths: Seq<nat>,
    n: nat,
    acc: Seq<nat>,
) -> Option<(Seq<nat>, nat)>
    decreases data.len() * 8 - pos,
{
    let total = data.len() * 8;
    if acc.len() == n {
        Some((acc, pos))
    } else if acc.len() > n {
        None
    } else {
        match decode_symbol(data, pos, code_lengths) {
            None => None,
            Some((sym, p1)) => if !(pos < p1 && p1 <= total) {
                None
            } else if sym < 16 {
                read_code_lengths(data, p1, code_lengths, n, acc.push(sym))
            } else if sym == 16 {
                if acc.len() == 0 || p1 + 2 > total {
                    None
                } else {
                    let repeat = 3 + bits_lsb(data, p1, 2);
                    read_code_lengths(
                        data,
                        p1 + 2,
                        code_lengths,
                        n,
                        acc + Seq::new(repeat, |i: int| acc.last()),
                    )
                }
            } else if sym == 17 {
                if p1 + 3 > total {
                    None
                } else {
                    let repeat = 3 + bits_lsb(data, p1, 3);
                    read_code_lengths(data, p1 + 3, code_lengths, n, acc + Seq::new(repeat, |i: int| 0nat))
                }
            } else if sym == 18 {
                if p1 + 7 > total {
                    None
                } else {
                    let repeat = 11 + bits_lsb(data, p1, 7);
                    read_code_lengths(data, p1 + 7, code_lengths, n, acc + Seq::new(repeat, |i: int| 0nat))
                }
            } else {
                None
            },
        }
    }
}

/// A block with dynamic Huffman codes whose header starts at bit `pos`.
pub open spec fn decode_dynamic_block(data: Seq<u8>, pos: nat, out: Seq<u8>) -> Option<(Seq<u8>, nat)> {
    let total = data.len() * 8;
    if pos + 14 > total {
        None
    } else {
        let hlit = bits_lsb(data, pos, 5) + 257;
        let hdist = bits_lsb(data, pos + 5, 5) + 1;
        let hclen = bits_lsb(data, pos + 10, 4) + 4;
        let q = pos + 14;
        if q + 3 * hclen > total {
            None
        } else {
            let code_lengths = Seq::new(
                19,
                |s: int|
                    if code_length_position(s) < hclen {
                        bits_lsb(data, q + 3 * code_length_position(s), 3)
                    } else {
                        0nat
                    },
            );
            match read_code_lengths(data, q + 3 * hclen, code_lengths, hlit + hdist, Seq::empty()) {
                None => None,
                Some((lengths, r)) => decode_block_symbols(
                    data,
                    r,
                    out,
                    lengths.take(hlit as int),
                    lengths.skip(hlit as int),
                ),
            }
        }
    }
}

/// A stored block whose data starts at the byte boundary after bit `pos`.
pub open spec fn decode_stored_block(data: Seq<u8>, pos: nat, out: Seq<u8>) -> Option<(Seq<u8>, nat)> {
    let q = ((pos + 7) / 8) as int;
    if q + 4 > data.len() {
        None
    } else {
        let len = data[q] + 256 * data[q + 1];
        let nlen = data[q + 2] + 256 * data[q + 3];
        if len + nlen != 65535 || q + 4 + len > data.len() {
            None
        } else {
            Some((out + data.subrange(q + 4, q + 4 + len), ((q + 4 + len) * 8) as nat))
        }
    }
}

/// The DEFLATE blocks from bit `pos` up to the final one, appended to `out`;
/// with the bit after the final block.
pub open spec fn inflate_blocks(data: Seq<u8>, pos: nat, out: Seq<u8>) -> Option<(Seq<u8>, nat)>
    decreases data.len() * 8 - pos,
{
    let total = data.len() * 8;
    if pos + 3 > total {
        None
    } else {
        let last = bit_at(data, pos) == 1;
        let block_type = bits_lsb(data, pos + 1, 2);
        let p = pos + 3;
        let block = if block_type == 0 {
            decode_stored_block(data, p, out)
        } else if block_type == 1 {
            decode_block_symbols(data, p, out, fixed_literal_lengths(), fixed_distance_lengths())
        } else if block_type == 2 {
            decode_dynamic_block(data, p, out)
        } else {
            None
        };
        match block {
            None => None,
            Some((next_out, next_pos)) => if !(pos < next_pos && next_pos <= total) {
                None
            } else if last {
                Some((next_out, next_pos))
            } else {
                inflate_blocks(data, next_pos, next_out)
            },
        }
    }
}

/// The two sums of the Adler-32 checksum of `s`.
pub open spec fn adler_sums(s: Seq<u8>) -> (nat, nat)
    decreases s.len(),
{
    if s.len() == 0 {
        (1, 0)
    } else {
        let (a, b) = adler_sums(s.drop_last());
        let a2 = (a + s.last()) % 65521;
        (a2 as nat, ((b + a2) % 65521) as nat)
    }
}

/// The Adler-32 checksum of `s`.
pub open spec fn adler32(s: Seq<u8>) -> nat {
    adler_sums(s).1 * 65536 + adler_sums(s).0
}

/// The big-endian 32-bit number at byte `i`.
pub open spec fn be_u32(b: Seq<u8>, i: int) -> nat {
    (b[i] * 16777216 + b[i + 1] * 65536 + b[i + 2] * 256 + b[i + 3]) as nat
}

/// The bytes that a zlib stream decompresses to.
pub open spec fn zlib_decompress(z: Seq<u8>) -> Option<Seq<u8>> {
    if z.len() < 2 {
        None
    } else {
        let cmf = z[0] as nat;
        let flg = z[1] as nat;
        if cmf % 16 != 8 || cmf / 16 > 7 || (cmf * 256 + flg) % 31 != 0 || (flg / 32) % 2 != 0 {
            None
        } else {
            match inflate_blocks(z, 16, Seq::empty()) {
                None => None,
                Some((out, end)) => {
                    let e = (end + 7) / 8;
                    if e + 4 <= z.len() && be_u32(z, e as int) == adler32(out) {
                        Some(out)
                    } else {
                        None
                    }
                },
            }
        }
    }
}

/// The Paeth predictor of a scanline filter.
pub open spec fn paeth(a: u8, b: u8, c: u8) -> u8 {
    let p = a + b - c;
    let pa = if p >= a { p - a } else { a - p };
    let pb = if p >= b { p - b } else { b - p };
    let pc = if p >= c { p - c } else { c - p };
    if pa <= pb && pa <= pc {
        a
    } else if pb <= pc {
        b
    } else {
        c
    }
}

/// A filtered byte `x` restored by filter type `f`, with `a` the restored
/// byte to its left, `b` the one above and `c` the one above-left.
pub open spec fn unfilter_byte(f: u8, x: u8, a: u8, b: u8, c: u8) -> Option<u8> {
    if f == 0 {
        Some(x)
    } else if f == 1 {
        Some(((x + a) % 256) as u8)
    } else if f == 2 {
        Some(((x + b) % 256) as u8)
    } else if f == 3 {
        Some(((x + (a + b) / 2) % 256) as u8)
    } else if f == 4 {
        Some(((x + paeth(a, b, c)) % 256) as u8)
    } else {
        None
    }
}

/// The first `k` bytes of a scanline restored by filter type `f`, under the
/// restored scanline `prev`.
pub open spec fn unfilter_prefix(row: Seq<u8>, f: u8, prev: Seq<u8>, k: nat) -> Option<Seq<u8>>
    decreases k,
{
    if k == 0 {
        Some(Seq::empty())
    } else {
        match unfilter_prefix(row, f, prev, (k - 1) as nat) {
            None => None,
            Some(p) => {
                let i = k - 1;
                let a = if i > 0 { p[i - 1] } else { 0u8 };
                let c = if i > 0 { prev[i - 1] } else { 0u8 };
                match unfilter_byte(f, row[i], a, prev[i], c) {
                    None => None,
                    Some(v) => Some(p.push(v)),
                }
            },
        }
    }
}

/// The samples of scanlines `y..height` of `raw` (a filter byte and `width`
/// bytes each), appended to `acc`, under the restored scanline `prev`.
pub open spec fn unfilter_rows(
    raw: Seq<u8>,
    width: nat,
    height: nat,
    y: nat,
    prev: Seq<u8>,
    acc: Seq<u8>,
) -> Option<Seq<u8>>
    decreases height - y,
{
    if y >= height {
        Some(acc)
    } else {
        let start = (y * (width + 1)) as int;
        let row = raw.subrange(start + 1, start + 1 + width as int);
        match unfilter_prefix(row, raw[start as int], prev, width) {
            None => None,
            Some(r) => unfilter_rows(raw, width, height, y + 1, r, acc + r),
        }
    }
}

/// The bytes of the PNG file signature.
pub open spec fn png_signature() -> Seq<u8> {
    seq![137u8, 80, 78, 71, 13, 10, 26, 10]
}

/// The contents of the image data chunks from the chunk at byte `pos` up to
/// the end chunk, in order; other chunks are passed over.
pub open spec fn image_data_from(bytes: Seq<u8>, pos: nat) -> Option<Seq<u8>>
    decreases bytes.len() - pos,
{
    if pos + 12 > bytes.len() {
        None
    } else {
        let len = be_u32(bytes, pos as int);
        let kind = bytes.subrange(pos + 4 as int, pos + 8 as int);
        let end = pos + 12 + len;
        if end > bytes.len() {
            None
        } else if kind == seq![73u8, 69, 78, 68] {
            Some(Seq::empty())
        } else {
            match image_data_from(bytes, end) {
                None => None,
                Some(rest) => if kind == seq![73u8, 68, 65, 84] {
                    Some(bytes.subrange(pos + 8 as int, pos + 8 + len as int) + rest)
                } else {
                    Some(rest)
                },
            }
        }
    }
}

/// The image in an 8-bit grayscale, non-interlaced PNG file: the signature,
/// a header chunk first, the image data chunks up to the end chunk holding a
/// zlib stream of filtered scanlines. Chunk checksums are not read. `None`
/// for any other file.
#[verifier::opaque]
pub open spec fn png_gray8_decode(bytes: Seq<u8>) -> Option<Gray8Image> {
    if bytes.len() < 33 || bytes.take(8) != png_signature() || be_u32(bytes, 8) != 13
        || bytes.subrange(12, 16) != seq![73u8, 72, 68, 82] {
        None
    } else {
        let width = be_u32(bytes, 16);
        let height = be_u32(bytes, 20);
        if width == 0 || height == 0 || bytes[24] != 8 || bytes[25] != 0 || bytes[26] != 0
            || bytes[27] != 0 || bytes[28] != 0 {
            None
        } else {
            match image_data_from(bytes, 33) {
                None => None,
                Some(z) => match zlib_decompress(z) {
                    None => None,
                    Some(raw) => if raw.len() != height * (width + 1) {
                        None
                    } else {
                        match unfilter_rows(
                            raw,
                            width,
                            height,
                            0,
                            Seq::new(width, |i: int| 0u8),
                            Seq::empty(),
                        ) {
                            None => None,
                            Some(samples) => Some(
                                Gray8Image { width: width as u32, height: height as u32, samples },
                            ),
                        }
                    },
                },
            }
        }
    }
}

} // verus!
