//! The mouse cursor: the cursor bitmap's 24-bit pixels become 32-bit pixels
//! whose fourth byte is an alpha value, so that white pixels are transparent.
use vstd::prelude::*;

verus! {

/// Whether tinybmp parses `bytes` as a bitmap with 24-bit colour.
pub uninterp spec fn bmp_rgb888_accepts(bytes: Seq<u8>) -> bool;

/// The little-endian 32-bit value at `pos` of `s`.
pub open spec fn le_u32(s: Seq<u8>, pos: int) -> int {
    s[pos] + 256 * s[pos + 1] + 65536 * s[pos + 2] + 16777216 * s[pos + 3]
}

/// Where a bitmap file says that its pixel data begins.
pub open spec fn bmp_data_offset(bytes: Seq<u8>) -> int {
    le_u32(bytes, 10)
}

/// Whether tinybmp reads a bitmap file without panicking, as far as its
/// headers decide: for a file that starts with the "BM" signature, the
/// offset of its pixel data lies within the file, its height is not the
/// least 32-bit integer, and the byte length of its colour table fits in a
/// `usize`.
pub open spec fn bmp_read_safe(bytes: Seq<u8>) -> bool {
    bytes.len() >= 14 && bytes[0] == 0x42u8 && bytes[1] == 0x4du8 ==> {
        &&& bmp_data_offset(bytes) <= bytes.len()
        &&& bytes.len() >= 26 ==> le_u32(bytes, 22) != 0x80000000
        &&& bytes.len() >= 50 ==> le_u32(bytes, 46) * 4 <= usize::MAX
    }
}

/// Calls `tinybmp::Bmp::<Rgb888>::from_slice` and, on success, returns
/// `RawBmp::image_data` of the result. The contract claims: the call
/// succeeds exactly when `bmp_rgb888_accepts` holds, a parsed file is at
/// least as long as the 14-byte file header, and the image data is the file
/// from the offset that the header gives. `from_slice` slices the file at
/// that offset, which panics when the offset lies beyond the file; it also
/// panics on a height of `i32::MIN` and on a colour table whose byte length
/// overflows a `usize`. The `requires` leaves out those files (and others
/// with the same header fields that tinybmp would refuse anyway).
#[verifier::external_body]
fn bmp_image_data(bytes: &[u8]) -> (r: Option<Vec<u8>>)
    requires
        bmp_read_safe(bytes@),
    ensures
        r is Some <==> bmp_rgb888_accepts(bytes@),
        r is Some ==> bytes@.len() >= 14 && r->0@ == bytes@.skip(bmp_data_offset(bytes@)),
{
    match tinybmp::Bmp::<embedded_graphics::pixelcolor::Rgb888>::from_slice(bytes) {
        Ok(bmp) => Some(bmp.as_raw().image_data().to_vec()),
        Err(_) => None,
    }
}

/// The alpha value of a cursor pixel: transparent for white, opaque for any
/// other colour and for an incomplete pixel.
pub open spec fn cursor_alpha(px: Seq<u8>) -> u8 {
    if px == seq![255u8, 255u8, 255u8] {
        0
    } else {
        0xff
    }
}

/// `data` cut into pixels of three bytes (the last may be shorter), each
/// pixel followed by its alpha value.
pub open spec fn cursor_rgba(data: Seq<u8>) -> Seq<u8>
    decreases data.len(),
{
    if data.len() == 0 {
        Seq::empty()
    } else {
        let k = if data.len() < 3 {
            data.len() as int
        } else {
            3
        };
        data.take(k).push(cursor_alpha(data.take(k))) + cursor_rgba(data.skip(k))
    }
}

proof fn lemma_cursor_rgba_len(data: Seq<u8>)
    ensures
        cursor_rgba(data).len() == data.len() + (data.len() + 2) / 3,
    decreases data.len(),
{
    if data.len() > 0 {
        let k = if data.len() < 3 {
            data.len() as int
        } else {
            3
        };
        lemma_cursor_rgba_len(data.skip(k));
    }
}

/// Whether the `k`-th pixel of `data` appears in `out` as its three bytes in
/// the `k`-th four-byte slot, followed by alpha 0 when it is white and 255
/// for any other colour.
pub open spec fn pixel_at(out: Seq<u8>, data: Seq<u8>, k: int) -> bool {
    &&& out[4 * k] == data[3 * k]
    &&& out[4 * k + 1] == data[3 * k + 1]
    &&& out[4 * k + 2] == data[3 * k + 2]
    &&& out[4 * k + 3] == (if data[3 * k] == 255 && data[3 * k + 1] == 255 && data[3 * k + 2]
        == 255 {
        0u8
    } else {
        255u8
    })
}

/// Each complete pixel of the cursor data keeps its three bytes, moved to a
/// four-byte slot, and is followed by its alpha: 0 (transparent) exactly for
/// white, 255 (opaque) for every other colour. An incomplete last pixel is
/// followed by 255.
pub proof fn law_cursor_pixel_alpha(data: Seq<u8>, k: int)
    requires
        0 <= k,
        3 * k < data.len(),
    ensures
        3 * k + 3 <= data.len() ==> pixel_at(cursor_rgba(data), data, k),
        3 * k + 3 > data.len() ==> cursor_rgba(data).skip(4 * k) == data.skip(3 * k).push(255u8),
    decreases k,
{
    let n = data.len();
    let kk: int = if n < 3 {
        n as int
    } else {
        3
    };
    let head = data.take(kk).push(cursor_alpha(data.take(kk)));
    let rest = data.skip(kk);
    assert(cursor_rgba(data) == head + cursor_rgba(rest));
    if k == 0 {
        if n >= 3 {
            let px = data.take(3);
            if data[0] == 255 && data[1] == 255 && data[2] == 255 {
                assert(px =~= seq![255u8, 255u8, 255u8]);
            } else {
                assert(px != seq![255u8, 255u8, 255u8]) by {
                    if px == seq![255u8, 255u8, 255u8] {
                        assert(px[0] == data[0] && px[1] == data[1] && px[2] == data[2]);
                    }
                }
            }
            if n == 3 {
                assert(rest.len() == 0);
            }
        } else {
            assert(data.take(kk).len() != 3);
            assert(rest.len() == 0);
            assert(cursor_rgba(rest) =~= Seq::<u8>::empty());
            assert(data.take(kk) =~= data);
            assert(cursor_rgba(data).skip(0) =~= data.skip(0).push(255u8));
        }
    } else {
        law_cursor_pixel_alpha(rest, k - 1);
        lemma_cursor_rgba_len(rest);
        assert(head.len() == 4);
        if 3 * k + 3 > n {
            assert(rest.skip(3 * (k - 1)) =~= data.skip(3 * k));
            assert(cursor_rgba(data).skip(4 * k) =~= cursor_rgba(rest).skip(4 * (k - 1)));
        } else {
            assert(rest[3 * (k - 1)] == data[3 * k]);
            assert(rest[3 * (k - 1) + 1] == data[3 * k + 1]);
            assert(rest[3 * (k - 1) + 2] == data[3 * k + 2]);
        }
    }
}

/// Adds an alpha byte after each pixel of `image_data`.
pub fn cursor_pixels(image_data: &[u8]) -> (out: Vec<u8>)
    ensures
        out@ == cursor_rgba(image_data@),
        out@.len() == image_data@.len() + (image_data@.len() + 2) / 3,
        forall|k: int|
            0 <= k && 3 * k + 3 <= image_data@.len() ==> #[trigger] pixel_at(out@, image_data@, k),
{
    let n = image_data.len();
    let mut out: Vec<u8> = Vec::new();
    let mut i: usize = 0;
    assert(image_data@.skip(0) =~= image_data@);
    while i < n
        invariant
            n == image_data@.len(),
            i <= n,
            cursor_rgba(image_data@) == out@ + cursor_rgba(image_data@.skip(i as int)),
        decreases n - i,
    {
        let end = if n - i < 3 {
            n
        } else {
            i + 3
        };
        let ghost before = out@;
        let mut j = i;
        while j < end
            invariant
                i <= j <= end <= n,
                n == image_data@.len(),
                out@ == before + image_data@.subrange(i as int, j as int),
            decreases end - j,
        {
            out.push(image_data[j]);
            j = j + 1;
            assert(out@ =~= before + image_data@.subrange(i as int, j as int));
        }
        let white = end - i == 3 && image_data[i] == 255 && image_data[i + 1] == 255
            && image_data[i + 2] == 255;
        let alpha: u8 = if white {
            0
        } else {
            0xff
        };
        out.push(alpha);
        proof {
            let rest = image_data@.skip(i as int);
            let k = end - i;
            assert(rest.take(k) =~= image_data@.subrange(i as int, end as int));
            assert(rest.skip(k) =~= image_data@.skip(end as int));
            if white {
                assert(rest.take(k) =~= seq![255u8, 255u8, 255u8]);
            } else if k == 3 {
                assert(rest.take(k) != seq![255u8, 255u8, 255u8]) by {
                    if rest.take(k) == seq![255u8, 255u8, 255u8] {
                        assert(rest.take(k)[0] == image_data@[i as int]);
                        assert(rest.take(k)[1] == image_data@[i + 1]);
                        assert(rest.take(k)[2] == image_data@[i + 2]);
                    }
                }
            } else {
                assert(rest.take(k).len() != 3);
            }
            assert(out@ =~= before + rest.take(k).push(cursor_alpha(rest.take(k))));
        }
        i = end;
    }
    assert(image_data@.skip(n as int) =~= Seq::<u8>::empty());
    proof {
        lemma_cursor_rgba_len(image_data@);
        assert forall|k: int| 0 <= k && 3 * k + 3 <= image_data@.len() implies #[trigger] pixel_at(
            out@,
            image_data@,
            k,
        ) by {
            law_cursor_pixel_alpha(image_data@, k);
        }
    }
    out
}

/// The cursor image for a bitmap file: `None` when tinybmp does not read
/// the file as a 24-bit bitmap, else its pixel data with an alpha byte after
/// each pixel.
pub fn cursor_image(bmp: &[u8]) -> (r: Option<Vec<u8>>)
    requires
        bmp_read_safe(bmp@),
    ensures
        r is Some <==> bmp_rgb888_accepts(bmp@),
        r is Some ==> r->0@ == cursor_rgba(bmp@.skip(bmp_data_offset(bmp@))),
{
    match bmp_image_data(bmp) {
        Some(data) => Some(cursor_pixels(data.as_slice())),
        None => None,
    }
}

} // verus!
