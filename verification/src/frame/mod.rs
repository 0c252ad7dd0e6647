use vstd::prelude::*;
use vstd::arithmetic::div_mod::lemma_fundamental_div_mod_converse;

verus! {

/// A frame in the YUV (NV12) layout: a luminance plane and an interleaved
/// chrominance plane.
#[derive(Debug, Clone)]
pub struct YUVFrame {
    /// Presentation time stamp in nanoseconds.
    pub display_time: u64,
    pub width: i32,
    pub height: i32,
    /// Luminance (Y) plane.
    pub luminance_bytes: Vec<u8>,
    pub luminance_stride: i32,
    /// Chrominance (UV) plane.
    pub chrominance_bytes: Vec<u8>,
    pub chrominance_stride: i32,
}

/// A frame of packed 3-byte RGB pixels.
#[derive(Debug, Clone)]
pub struct RGBFrame {
    pub display_time: u64,
    pub width: i32,
    pub height: i32,
    pub data: Vec<u8>,
}

/// RGB8 frame header: dimensions and time stamp only.
#[derive(Debug, Clone)]
pub struct RGB8Frame {
    pub display_time: u64,
    pub width: i32,
    pub height: i32,
}

/// A frame of 4-byte RGBx pixels (the fourth byte is padding).
#[derive(Debug, Clone)]
pub struct RGBxFrame {
    pub display_time: u64,
    pub width: i32,
    pub height: i32,
    pub data: Vec<u8>,
}

/// A frame of 4-byte xBGR pixels (the first byte is padding).
#[derive(Debug, Clone)]
pub struct XBGRFrame {
    pub display_time: u64,
    pub width: i32,
    pub height: i32,
    pub data: Vec<u8>,
}

/// A frame of 4-byte BGRx pixels (the fourth byte is padding).
#[derive(Debug, Clone)]
pub struct BGRxFrame {
    pub display_time: u64,
    pub width: i32,
    pub height: i32,
    pub data: Vec<u8>,
}

/// A frame of BGR pixels.
#[derive(Debug, Clone)]
pub struct BGRFrame {
    pub display_time: u64,
    pub width: i32,
    pub height: i32,
    pub data: Vec<u8>,
}

/// A frame of 4-byte BGRA pixels (with alpha channel).
#[derive(Debug, Clone)]
pub struct BGRAFrame {
    pub display_time: u64,
    pub width: i32,
    pub height: i32,
    pub data: Vec<u8>,
}

/// The pixel layout a capturer is asked to produce.
#[derive(Debug, Clone, Copy, Default, PartialEq, Eq, Structural)]
pub enum FrameType {
    /// YUV (the fastest; the default).
    #[default]
    YUVFrame,
    BGR0,
    /// RGB (slow: needs a conversion).
    RGB,
    BGRAFrame,
}

/// A captured frame in one of the supported layouts.
#[derive(Debug, Clone)]
pub enum Frame {
    YUVFrame(YUVFrame),
    RGB(RGBFrame),
    RGBx(RGBxFrame),
    XBGR(XBGRFrame),
    BGRx(BGRxFrame),
    BGR0(BGRFrame),
    BGRA(BGRAFrame),
}

/// A borrowed view of a frame's pixel data.
pub enum FrameData<'a> {
    NV12(&'a YUVFrame),
    BGR0(&'a [u8]),
}

/// The bytes of `data` with the fourth byte of each 4-byte pixel dropped;
/// a trailing incomplete pixel is dropped whole.
pub open spec fn spec_remove_alpha(data: Seq<u8>) -> Seq<u8> {
    Seq::new(((data.len() / 4) * 3) as nat, |i: int| data[(i / 3) * 4 + i % 3])
}

/// The BGRA pixels of `data` rewritten as RGB: each 4-byte pixel B,G,R,A
/// becomes R,G,B; a trailing incomplete pixel is dropped.
pub open spec fn spec_bgra_to_rgb(data: Seq<u8>) -> Seq<u8> {
    Seq::new(((data.len() / 4) * 3) as nat, |i: int| data[(i / 3) * 4 + (2 - i % 3)])
}

proof fn lemma_pixel_position(p: int, c: int)
    requires
        0 <= p,
        0 <= c < 3,
    ensures
        (3 * p + c) / 3 == p,
        (3 * p + c) % 3 == c,
{
    lemma_fundamental_div_mod_converse(3 * p + c, 3, p, c);
}

/// Drops the alpha channel of BGRA image data: every 4-byte pixel is
/// reduced to its first three bytes.
pub fn remove_alpha_channel(frame_data: Vec<u8>) -> (data: Vec<u8>)
    ensures
        data@ == spec_remove_alpha(frame_data@),
        data@.len() == (frame_data@.len() / 4) * 3,
        forall|i: int|
            0 <= i < data@.len() ==> #[trigger] data@[i] == frame_data@[4 * (i / 3) + i % 3],
{
    let pixels: usize = frame_data.len() / 4;
    let mut data: Vec<u8> = Vec::new();
    let mut p: usize = 0;
    assert(4 * pixels <= frame_data@.len()) by {
        lemma_fundamental_div_mod_converse(
            frame_data@.len() as int, 4, pixels as int, (frame_data@.len() % 4) as int);
    }
    while p < pixels
        invariant
            pixels == frame_data@.len() / 4,
            4 * pixels <= frame_data.len(),
            frame_data@.len() == frame_data.len(),
            p <= pixels,
            data@.len() == 3 * p,
            forall|i: int| 0 <= i < data@.len() ==> #[trigger] data@[i] == frame_data@[(i / 3) * 4 + i % 3],
        decreases pixels - p,
    {
        let base: usize = 4 * p;
        proof {
            lemma_pixel_position(p as int, 0);
            lemma_pixel_position(p as int, 1);
            lemma_pixel_position(p as int, 2);
        }
        data.push(frame_data[base]);
        data.push(frame_data[base + 1]);
        data.push(frame_data[base + 2]);
        p = p + 1;
    }
    assert(data@ =~= spec_remove_alpha(frame_data@));
    data
}

/// Converts BGRA image data to RGB: every 4-byte pixel B,G,R,A becomes the
/// 3-byte pixel R,G,B.
pub fn convert_bgra_to_rgb(frame_data: Vec<u8>) -> (data: Vec<u8>)
    ensures
        data@ == spec_bgra_to_rgb(frame_data@),
        data@.len() == (frame_data@.len() / 4) * 3,
        forall|i: int|
            0 <= i < data@.len() ==> #[trigger] data@[i] == frame_data@[4 * (i / 3) + (2 - i % 3)],
{
    let pixels: usize = frame_data.len() / 4;
    let mut data: Vec<u8> = Vec::new();
    let mut p: usize = 0;
    assert(4 * pixels <= frame_data@.len()) by {
        lemma_fundamental_div_mod_converse(
            frame_data@.len() as int, 4, pixels as int, (frame_data@.len() % 4) as int);
    }
    while p < pixels
        invariant
            pixels == frame_data@.len() / 4,
            4 * pixels <= frame_data.len(),
            frame_data@.len() == frame_data.len(),
            p <= pixels,
            data@.len() == 3 * p,
            forall|i: int| 0 <= i < data@.len() ==> #[trigger] data@[i] == frame_data@[(i / 3) * 4 + (2 - i % 3)],
        decreases pixels - p,
    {
        let base: usize = 4 * p;
        proof {
            lemma_pixel_position(p as int, 0);
            lemma_pixel_position(p as int, 1);
            lemma_pixel_position(p as int, 2);
        }
        data.push(frame_data[base + 2]);
        data.push(frame_data[base + 1]);
        data.push(frame_data[base]);
        p = p + 1;
    }
    assert(data@ =~= spec_bgra_to_rgb(frame_data@));
    data
}


/// Bytes in one source row of `cur_width` 4-byte pixels (the row length
/// that the index arithmetic wraps at, taken without sign).
pub open spec fn row_stride(cur_width: int) -> int {
    if cur_width >= 0 {
        4 * cur_width
    } else {
        -4 * cur_width
    }
}

/// Bytes kept from each source row: the first `4 * width` bytes, clamped
/// to the row (and to nothing for a width that is not positive).
pub open spec fn row_kept(cur_width: int, width: int) -> int {
    if 4 * width <= 0 {
        0
    } else if 4 * width >= row_stride(cur_width) {
        row_stride(cur_width)
    } else {
        4 * width
    }
}

/// Number of bytes among the first `i` source bytes that lie in the kept
/// part of their row, for rows of `s` bytes of which the first `k` are kept.
pub open spec fn copied_before(i: int, s: int, k: int) -> int {
    (i / s) * k + if i % s < k {
        i % s
    } else {
        k
    }
}

/// The result of cropping `data`, an image `height` rows high of
/// `cur_width` 4-byte pixels per row, to its first `width` pixels per row.
/// Data whose length does not match the dimensions (or does not fit the
/// `i32` arithmetic the dimensions are given in) is returned unchanged.
/// Otherwise the result holds `4 * height * width` bytes: first the kept
/// bytes of every row, row after row, then zeros.
pub open spec fn spec_cropped(data: Seq<u8>, cur_width: int, height: int, width: int) -> Seq<u8> {
    if data.len() > i32::MAX || data.len() != height * cur_width * 4 {
        data
    } else {
        let s = row_stride(cur_width);
        let k = row_kept(cur_width, width);
        let copied = if s == 0 {
            0
        } else {
            (data.len() as int / s) * k
        };
        Seq::new(
            (4 * height * width) as nat,
            |j: int|
                if j < copied {
                    data[(j / k) * s + j % k]
                } else {
                    0u8
                },
        )
    }
}

proof fn lemma_copied_step(i: int, s: int, k: int)
    requires
        0 <= i,
        0 < s,
        0 <= k <= s,
    ensures
        copied_before(i + 1, s, k) == copied_before(i, s, k) + if i % s < k {
            1int
        } else {
            0int
        },
        i % s < k ==> (copied_before(i, s, k) / k) * s + copied_before(i, s, k) % k == i,
        0 <= copied_before(i, s, k),
{
    let q = i / s;
    let r = i % s;
    vstd::arithmetic::div_mod::lemma_fundamental_div_mod(i, s);
    assert(0 <= r < s);
    assert(i == q * s + r) by {
        assert(i == s * q + r);
        vstd::arithmetic::mul::lemma_mul_is_commutative(s, q);
    }
    assert(q >= 0) by {
        if q < 0 {
            assert(q * s <= -s) by (nonlinear_arith)
                requires
                    q < 0,
                    s > 0,
            ;
        }
    }
    if r + 1 < s {
        lemma_fundamental_div_mod_converse(i + 1, s, q, r + 1);
    } else {
        assert(i + 1 == (q + 1) * s + 0) by (nonlinear_arith)
            requires
                i == q * s + r,
                r + 1 == s,
        ;
        lemma_fundamental_div_mod_converse(i + 1, s, q + 1, 0);
        assert((q + 1) * k == q * k + k) by (nonlinear_arith);
    }
    assert(q * k >= 0) by (nonlinear_arith)
        requires
            q >= 0,
            k >= 0,
    ;
    if r < k {
        lemma_fundamental_div_mod_converse(q * k + r, k, q, r);
    }
}

proof fn lemma_copied_total(len: int, cur_width: int, height: int, width: int)
    requires
        len == height * cur_width * 4,
        len > 0,
        0 <= 4 * height * width,
    ensures
        row_stride(cur_width) > 0,
        0 <= row_kept(cur_width, width) <= row_stride(cur_width),
        copied_before(len, row_stride(cur_width), row_kept(cur_width, width))
            == (len / row_stride(cur_width)) * row_kept(cur_width, width),
        (len / row_stride(cur_width)) * row_kept(cur_width, width) <= 4 * height * width,
{
    let s = row_stride(cur_width);
    let k = row_kept(cur_width, width);
    assert(cur_width != 0) by {
        if cur_width == 0 {
            assert(height * cur_width * 4 == 0) by (nonlinear_arith)
                requires
                    cur_width == 0,
            ;
        }
    }
    assert(s > 0);
    let m = if cur_width > 0 {
        height
    } else {
        -height
    };
    assert(len == m * s) by (nonlinear_arith)
        requires
            len == height * cur_width * 4,
            s == (if cur_width >= 0 {
                4 * cur_width
            } else {
                -4 * cur_width
            }),
            m == (if cur_width > 0 {
                height
            } else {
                -height
            }),
            cur_width != 0,
    ;
    lemma_fundamental_div_mod_converse(len, s, m, 0);
    assert(m > 0) by (nonlinear_arith)
        requires
            len == m * s,
            len > 0,
            s > 0,
    ;
    if k > 0 {
        if cur_width > 0 {
            assert(m * k <= 4 * height * width) by (nonlinear_arith)
                requires
                    m == height,
                    m > 0,
                    0 < k <= 4 * width,
            ;
        } else {
            assert(false) by (nonlinear_arith)
                requires
                    m == -height,
                    m > 0,
                    k > 0,
                    k <= 4 * width,
                    0 <= 4 * height * width,
            ;
        }
    }
}

/// Crops image data to its first `width` pixels per row. The data is taken
/// as `height` rows of `cur_width` 4-byte pixels; when its length does not
/// match, it is returned unchanged. Otherwise the result holds
/// `4 * height * width` bytes: the kept bytes of every row, in order, then
/// zeros where the source rows were narrower than `width`.
pub fn get_cropped_data(data: Vec<u8>, cur_width: i32, height: i32, width: i32) -> (cropped: Vec<u8>)
    requires
        data@.len() > i32::MAX ==> data@.len() as i32 != height * cur_width * 4,
        i32::MIN <= height * cur_width <= i32::MAX,
        i32::MIN <= height * cur_width * 4 <= i32::MAX,
        data@.len() == height * cur_width * 4 ==> {
            &&& i32::MIN <= 4 * height <= i32::MAX
            &&& 0 <= 4 * height * width <= i32::MAX
        },
    ensures
        cropped@ == spec_cropped(data@, cur_width as int, height as int, width as int),
{
    let expected: i32 = height * cur_width * 4;
    if data.len() as i32 != expected {
        return data;
    }
    assert(data@.len() <= i32::MAX);
    let four_height: i32 = 4 * height;
    let size: usize = (four_height * width) as usize;
    let len: usize = data.len();
    let ghost s: int = row_stride(cur_width as int);
    let ghost k: int = row_kept(cur_width as int, width as int);
    let ghost copied: int = 0;
    let mut cropped: Vec<u8> = Vec::new();
    if len > 0 {
        proof {
            lemma_copied_total(len as int, cur_width as int, height as int, width as int);
            copied = (len as int / s) * k;
        }
        let stride64: i64 = (cur_width as i64) * 4;
        let stride: u64 = if stride64 < 0 {
            (-stride64) as u64
        } else {
            stride64 as u64
        };
        let limit: i64 = (width as i64) * 4;
        let mut i: usize = 0;
        proof {
            lemma_fundamental_div_mod_converse(0, s, 0, 0);
        }
        while i < len
            invariant
                len == data@.len(),
                i <= len,
                stride == s,
                s == row_stride(cur_width as int),
                s <= 0x2_0000_0000,
                s > 0,
                0 <= k <= s,
                k == row_kept(cur_width as int, width as int),
                limit == 4 * width,
                cropped@.len() == copied_before(i as int, s, k),
                forall|j: int|
                    0 <= j < cropped@.len() ==> #[trigger] cropped@[j] == data@[(j / k) * s + j % k],
            decreases len - i,
        {
            proof {
                lemma_copied_step(i as int, s, k);
            }
            let x: u64 = (i as u64) % stride;
            assert(x as int == (i as int) % s);
            assert(0 <= x < stride);
            assert((x as int) < k <==> (x as i64) < limit);
            if (x as i64) < limit {
                cropped.push(data[i]);
            }
            i = i + 1;
        }
    }
    proof {
        if len == 0 && s != 0 {
            lemma_fundamental_div_mod_converse(0, s, 0, 0);
        }
    }
    assert(cropped@.len() == copied);
    assert(data@.len() == height * cur_width * 4);
    proof {
        if len > 0 {
            assert(copied == (data@.len() as int / s) * k);
        } else {
            assert(copied == 0);
            if s != 0 {
                assert(data@.len() as int / s == 0);
                assert((data@.len() as int / s) * k == 0) by (nonlinear_arith)
                    requires
                        data@.len() as int / s == 0,
                ;
            }
        }
    }
    assert(copied == if s == 0 { 0 } else { (data@.len() as int / s) * k });
    while cropped.len() < size
        invariant
            0 <= copied <= cropped@.len() <= size,
            size == 4 * height * width,
            forall|j: int|
                0 <= j < copied ==> #[trigger] cropped@[j] == data@[(j / k) * s + j % k],
            forall|j: int| copied <= j < cropped@.len() ==> #[trigger] cropped@[j] == 0u8,
        decreases size - cropped@.len(),
    {
        let ghost before = cropped@;
        cropped.push(0u8);
        assert(cropped@ == before.push(0u8));
        assert forall|j: int| copied <= j < cropped@.len() implies #[trigger] cropped@[j] == 0u8 by {
            if j < before.len() {
                assert(before[j] == 0u8);
                assert(cropped@[j] == before[j]);
            } else {
                assert(j == before.len());
                assert(cropped@[j] == 0u8);
            }
        }
    }
    assert(cropped@ =~= spec_cropped(data@, cur_width as int, height as int, width as int));
    cropped
}


/// Cropping keeps the first `width` pixels of every row: for an image of
/// `height` rows of `cur_width` pixels and `0 <= width <= cur_width`, byte
/// `c` of row `r` of the result is byte `c` of row `r` of the source.
pub proof fn lemma_crop_keeps_row_prefix(
    data: Seq<u8>,
    cur_width: int,
    height: int,
    width: int,
    r: int,
    c: int,
)
    requires
        data.len() == height * cur_width * 4,
        data.len() <= i32::MAX,
        0 <= width <= cur_width,
        0 <= r < height,
        0 <= c < 4 * width,
    ensures
        spec_cropped(data, cur_width, height, width).len() == 4 * height * width,
        spec_cropped(data, cur_width, height, width)[r * (4 * width) + c]
            == data[r * (4 * cur_width) + c],
{
    let s = row_stride(cur_width);
    let k = row_kept(cur_width, width);
    assert(s == 4 * cur_width && k == 4 * width);
    assert(data.len() == height * s) by (nonlinear_arith)
        requires
            data.len() == height * cur_width * 4,
            s == 4 * cur_width,
    ;
    assert(height * s >= 0) by (nonlinear_arith)
        requires
            height > 0,
            s > 0,
    ;
    assert(4 * height * width >= 0) by (nonlinear_arith)
        requires
            height > 0,
            width >= 0,
    ;
    lemma_fundamental_div_mod_converse(data.len() as int, s, height, 0);
    let j = r * k + c;
    assert(j < height * k) by (nonlinear_arith)
        requires
            j == r * k + c,
            0 <= r < height,
            0 <= c < k,
    ;
    assert(height * k == 4 * height * width) by (nonlinear_arith)
        requires
            k == 4 * width,
    ;
    assert(0 <= j) by (nonlinear_arith)
        requires
            j == r * k + c,
            0 <= r,
            0 <= c,
            0 < k,
    ;
    lemma_fundamental_div_mod_converse(j, k, r, c);
}

/// Cropping an image to its own width gives the image back.
pub proof fn lemma_crop_full_width_is_identity(data: Seq<u8>, cur_width: int, height: int)
    requires
        data.len() == height * cur_width * 4,
        data.len() <= i32::MAX,
        0 <= cur_width,
        0 <= height,
    ensures
        spec_cropped(data, cur_width, height, cur_width) == data,
{
    let s = row_stride(cur_width);
    let k = row_kept(cur_width, cur_width);
    let res = spec_cropped(data, cur_width, height, cur_width);
    assert(4 * height * cur_width == data.len()) by (nonlinear_arith)
        requires
            data.len() == height * cur_width * 4,
    ;
    if s > 0 {
        assert(k == s);
        assert(data.len() == height * s) by (nonlinear_arith)
            requires
                data.len() == height * cur_width * 4,
                s == 4 * cur_width,
        ;
        lemma_fundamental_div_mod_converse(data.len() as int, s, height, 0);
        assert((data.len() as int / s) * k == data.len());
        assert forall|j: int| 0 <= j < data.len() implies #[trigger] res[j] == data[j] by {
            vstd::arithmetic::div_mod::lemma_fundamental_div_mod(j, s);
            vstd::arithmetic::mul::lemma_mul_is_commutative(s, j / s);
        }
    }
    assert(res =~= data);
}

/// RGB conversion writes each pixel's colour bytes in the reverse order of
/// alpha removal: byte `c` of pixel `p` of the RGB result is byte `2 - c` of
/// pixel `p` with the alpha channel removed.
pub proof fn lemma_rgb_reverses_bgr(data: Seq<u8>, p: int, c: int)
    requires
        0 <= p < data.len() / 4,
        0 <= c < 3,
    ensures
        spec_bgra_to_rgb(data)[3 * p + c] == spec_remove_alpha(data)[3 * p + (2 - c)],
{
    lemma_pixel_position(p, c);
    lemma_pixel_position(p, 2 - c);
}

/// Neither conversion reads the alpha byte of a pixel nor the bytes of a
/// trailing incomplete pixel: inputs that agree on the colour bytes of
/// every whole pixel convert to the same result.
pub proof fn lemma_conversions_ignore_alpha(a: Seq<u8>, b: Seq<u8>)
    requires
        a.len() / 4 == b.len() / 4,
        forall|i: int|
            0 <= i < 4 * (a.len() / 4) && i % 4 != 3 ==> #[trigger] a[i] == b[i],
    ensures
        spec_remove_alpha(a) == spec_remove_alpha(b),
        spec_bgra_to_rgb(a) == spec_bgra_to_rgb(b),
{
    let n = a.len() / 4;
    assert forall|i: int| 0 <= i < 3 * n implies {
        &&& #[trigger] spec_remove_alpha(a)[i] == spec_remove_alpha(b)[i]
        &&& spec_bgra_to_rgb(a)[i] == spec_bgra_to_rgb(b)[i]
    } by {
        let p = i / 3;
        let c = i % 3;
        vstd::arithmetic::div_mod::lemma_fundamental_div_mod(i, 3);
        assert(0 <= p < n);
        lemma_fundamental_div_mod_converse(4 * p + c, 4, p, c);
        lemma_fundamental_div_mod_converse(4 * p + (2 - c), 4, p, 2 - c);
        assert(a[4 * p + c] == b[4 * p + c]);
        assert(a[4 * p + (2 - c)] == b[4 * p + (2 - c)]);
    }
    assert(spec_remove_alpha(a) =~= spec_remove_alpha(b));
    assert(spec_bgra_to_rgb(a) =~= spec_bgra_to_rgb(b));
}

/// The conversions work pixel by pixel: converting two buffers one after
/// the other gives the conversion of their concatenation, when the first
/// holds whole pixels only.
pub proof fn lemma_conversions_concatenate(a: Seq<u8>, b: Seq<u8>)
    requires
        a.len() % 4 == 0,
    ensures
        spec_remove_alpha(a + b) == spec_remove_alpha(a) + spec_remove_alpha(b),
        spec_bgra_to_rgb(a + b) == spec_bgra_to_rgb(a) + spec_bgra_to_rgb(b),
{
    let na = a.len() / 4;
    let nb = b.len() / 4;
    vstd::arithmetic::div_mod::lemma_fundamental_div_mod(a.len() as int, 4);
    vstd::arithmetic::div_mod::lemma_fundamental_div_mod(b.len() as int, 4);
    lemma_fundamental_div_mod_converse(
        (a.len() + b.len()) as int, 4, (na + nb) as int, (b.len() % 4) as int);
    assert((a + b).len() / 4 == na + nb);
    assert forall|i: int| 0 <= i < 3 * (na + nb) implies {
        &&& #[trigger] spec_remove_alpha(a + b)[i] == (spec_remove_alpha(a) + spec_remove_alpha(b))[i]
        &&& spec_bgra_to_rgb(a + b)[i] == (spec_bgra_to_rgb(a) + spec_bgra_to_rgb(b))[i]
    } by {
        let p = i / 3;
        let c = i % 3;
        vstd::arithmetic::div_mod::lemma_fundamental_div_mod(i, 3);
        assert(0 <= p < na + nb);
        if i >= 3 * na {
            let j = i - 3 * na;
            lemma_fundamental_div_mod_converse(j, 3, p - na, c);
            assert((a + b)[4 * p + c] == b[4 * (p - na) + c]);
            assert((a + b)[4 * p + (2 - c)] == b[4 * (p - na) + (2 - c)]);
        } else {
            assert((a + b)[4 * p + c] == a[4 * p + c]);
            assert((a + b)[4 * p + (2 - c)] == a[4 * p + (2 - c)]);
        }
    }
    assert(spec_remove_alpha(a + b) =~= spec_remove_alpha(a) + spec_remove_alpha(b));
    assert(spec_bgra_to_rgb(a + b) =~= spec_bgra_to_rgb(a) + spec_bgra_to_rgb(b));
}

/// Removing the alpha channel keeps the colour bytes of every pixel in
/// place: byte `c` (of the first three) of output pixel `p` is byte `c` of
/// input pixel `p`, whatever the bytes are.
pub proof fn lemma_remove_alpha_keeps_colour_bytes(data: Seq<u8>, p: int, c: int)
    requires
        0 <= p < data.len() / 4,
        0 <= c < 3,
    ensures
        spec_remove_alpha(data).len() == 3 * (data.len() / 4),
        spec_remove_alpha(data)[3 * p + c] == data[4 * p + c],
{
    lemma_pixel_position(p, c);
}

/// Converting BGRA to RGB reverses the colour bytes of every pixel: byte
/// `c` of output pixel `p` is byte `2 - c` of input pixel `p`, whatever the
/// bytes are.
pub proof fn lemma_rgb_reverses_colour_bytes(data: Seq<u8>, p: int, c: int)
    requires
        0 <= p < data.len() / 4,
        0 <= c < 3,
    ensures
        spec_bgra_to_rgb(data).len() == 3 * (data.len() / 4),
        spec_bgra_to_rgb(data)[3 * p + c] == data[4 * p + (2 - c)],
{
    lemma_pixel_position(p, c);
}

} // verus!
