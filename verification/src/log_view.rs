//! The log window of the tray application: how much log text it keeps, and its icon.
use vstd::prelude::*;
use vstd::utf8::{decode_utf8, encode_utf8, is_char_boundary, valid_utf8};

verus! {

/// The most log text the window keeps, in bytes.
pub const MAX_LOG_BYTES: usize = 200_000;

/// The first character boundary of `bytes` at or after `i`.
pub open spec fn boundary_from(bytes: Seq<u8>, i: int) -> int
    decreases bytes.len() - i,
{
    if i >= bytes.len() || is_char_boundary(bytes, i) {
        i
    } else {
        boundary_from(bytes, i + 1)
    }
}

/// Where the kept text starts: nothing is dropped when the log fits, else everything before
/// the first character boundary that leaves at most `MAX_LOG_BYTES` bytes.
pub open spec fn log_cut(bytes: Seq<u8>) -> int {
    if bytes.len() <= MAX_LOG_BYTES {
        0
    } else {
        boundary_from(bytes, bytes.len() - MAX_LOG_BYTES)
    }
}

proof fn lemma_boundary_from(bytes: Seq<u8>, i: int)
    requires
        valid_utf8(bytes),
        0 <= i <= bytes.len(),
    ensures
        i <= boundary_from(bytes, i) <= bytes.len(),
        is_char_boundary(bytes, boundary_from(bytes, i)),
        forall|j: int| i <= j < boundary_from(bytes, i) ==> !is_char_boundary(bytes, j),
    decreases bytes.len() - i,
{
    broadcast use vstd::utf8::is_char_boundary_start_end_of_seq;
    if i < bytes.len() && !is_char_boundary(bytes, i) {
        lemma_boundary_from(bytes, i + 1);
    }
}

/// Drops the oldest log text so that at most `MAX_LOG_BYTES` bytes remain, cutting only at a
/// character boundary; what remains is the end of the old text.
pub fn trim_log(output: &mut String)
    ensures
        encode_utf8(final(output)@) == encode_utf8(old(output)@).subrange(
            log_cut(encode_utf8(old(output)@)),
            encode_utf8(old(output)@).len() as int,
        ),
        old(output)@ == decode_utf8(encode_utf8(old(output)@).subrange(0, log_cut(encode_utf8(old(output)@))))
            + final(output)@,
        encode_utf8(final(output)@).len() <= MAX_LOG_BYTES,
{
    broadcast use vstd::utf8::encode_utf8_valid_utf8, vstd::utf8::encode_utf8_decode_utf8,
        vstd::utf8::decode_utf8_encode_utf8;
    let ghost bytes = encode_utf8(output@);
    let len = output.as_str().as_bytes().len();
    assert(len == bytes.len());
    if len <= MAX_LOG_BYTES {
        assert(bytes.subrange(0, bytes.len() as int) =~= bytes);
        assert(bytes.subrange(0, 0) =~= Seq::<u8>::empty());
        assert(decode_utf8(Seq::<u8>::empty()) =~= Seq::<char>::empty());
        assert(output@ =~= Seq::<char>::empty() + output@);
        return;
    }
    let mut start = len - MAX_LOG_BYTES;
    proof { lemma_boundary_from(bytes, start as int); }
    while !output.as_str().is_char_boundary(start)
        invariant
            output@ == old(output)@,
            bytes == encode_utf8(output@),
            valid_utf8(bytes),
            len == bytes.len(),
            len - MAX_LOG_BYTES <= start <= boundary_from(bytes, len - MAX_LOG_BYTES),
            boundary_from(bytes, len - MAX_LOG_BYTES) <= len,
            forall|j: int| len - MAX_LOG_BYTES <= j < boundary_from(bytes, len - MAX_LOG_BYTES) ==> !is_char_boundary(bytes, j),
            is_char_boundary(bytes, boundary_from(bytes, len - MAX_LOG_BYTES)),
        decreases len - start,
    {
        start = start + 1;
    }
    let ghost cut = start as int;
    let (_, rest) = output.as_str().split_at(start);
    let kept = rest.to_owned();
    proof {
        vstd::utf8::decode_utf8_split(bytes, cut);
        vstd::utf8::valid_utf8_split(bytes, cut);
        assert(encode_utf8(kept@) == bytes.subrange(cut, len as int));
    }
    *output = kept;
}

/// The colour of the icon's pixel at column `x`, row `y`: a white bridge of two bars on a blue
/// disc of radius 14 around (15, 15), transparent outside.
pub open spec fn icon_pixel(x: int, y: int) -> Seq<u8> {
    let dx = x - 15;
    let dy = y - 15;
    if 8 <= x <= 23 && ((9 <= y <= 13) || (18 <= y <= 22)) {
        seq![255u8, 255u8, 255u8, 255u8]
    } else if dx * dx + dy * dy <= 14 * 14 {
        seq![42u8, 112u8, 219u8, 255u8]
    } else {
        seq![0u8, 0u8, 0u8, 0u8]
    }
}

/// The byte at position `i` of the 32×32 RGBA icon, rows top to bottom.
pub open spec fn icon_byte(i: int) -> u8 {
    icon_pixel((i / 4) % 32, (i / 4) / 32)[i % 4]
}

/// The RGBA pixels of the 32×32 window and tray icon.
pub fn icon_rgba() -> (rgba: Vec<u8>)
    ensures
        rgba@.len() == 32 * 32 * 4,
        forall|i: int| 0 <= i < rgba@.len() ==> rgba@[i] == icon_byte(i),
{
    let mut rgba: Vec<u8> = Vec::new();
    let mut y: i32 = 0;
    while y < 32
        invariant
            0 <= y <= 32,
            rgba@.len() == y * 32 * 4,
            forall|i: int| 0 <= i < rgba@.len() ==> rgba@[i] == icon_byte(i),
        decreases 32 - y,
    {
        let mut x: i32 = 0;
        while x < 32
            invariant
                0 <= y < 32,
                0 <= x <= 32,
                rgba@.len() == (y * 32 + x) * 4,
                forall|i: int| 0 <= i < rgba@.len() ==> rgba@[i] == icon_byte(i),
            decreases 32 - x,
        {
            let dx = x - 15;
            let dy = y - 15;
            let bridge = 8 <= x && x <= 23 && ((9 <= y && y <= 13) || (18 <= y && y <= 22));
            assert(-15 <= dx <= 16 && -15 <= dy <= 16);
            assert(0 <= dx * dx <= 256 && 0 <= dy * dy <= 256) by (nonlinear_arith)
                requires -15 <= dx <= 16, -15 <= dy <= 16;
            let pixel: [u8; 4] = if bridge {
                [255, 255, 255, 255]
            } else if dx * dx + dy * dy <= 14 * 14 {
                [42, 112, 219, 255]
            } else {
                [0, 0, 0, 0]
            };
            let ghost base = rgba@.len() as int;
            let ghost p = icon_pixel(x as int, y as int);
            assert(pixel@ =~= p);
            let mut c: usize = 0;
            while c < 4
                invariant
                    0 <= y < 32,
                    0 <= x < 32,
                    base == (y * 32 + x) * 4,
                    c <= 4,
                    rgba@.len() == base + c,
                    p == icon_pixel(x as int, y as int),
                    pixel@ == p,
                    forall|i: int| 0 <= i < rgba@.len() ==> rgba@[i] == icon_byte(i),
                decreases 4 - c,
            {
                let ghost i = base + c;
                assert((i / 4) % 32 == x && (i / 4) / 32 == y && i % 4 == c) by (nonlinear_arith)
                    requires
                        i == (y * 32 + x) * 4 + c,
                        0 <= x < 32,
                        0 <= y < 32,
                        0 <= c < 4;
                rgba.push(pixel[c]);
                c = c + 1;
            }
            x = x + 1;
        }
        y = y + 1;
    }
    rgba
}

} // verus!
