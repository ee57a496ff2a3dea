//! Laying a picture out for the video encoder: one full plane of brightness,
//! then two planes of colour at half the width and half the height.

use vstd::prelude::*;

verus! {

/// One decoded picture: its sides in pixels and its bytes, four a pixel, row
/// by row.
#[derive(Debug, PartialEq, Eq)]
pub struct DecodedFrame {
    pub width: u32,
    pub height: u32,
    pub rgba: Vec<u8>,
}

/// View of a [`DecodedFrame`].
pub struct DecodedFrameView {
    pub width: u32,
    pub height: u32,
    pub rgba: Seq<u8>,
}

impl DeepView for DecodedFrame {
    type V = DecodedFrameView;

    open spec fn deep_view(&self) -> DecodedFrameView {
        DecodedFrameView { width: self.width, height: self.height, rgba: self.rgba@ }
    }
}

impl View for DecodedFrame {
    type V = DecodedFrameView;

    open spec fn view(&self) -> DecodedFrameView {
        self.deep_view()
    }
}

impl Clone for DecodedFrame {
    fn clone(&self) -> (r: Self)
        ensures
            r@ == self@,
    {
        DecodedFrame { width: self.width, height: self.height, rgba: self.rgba.clone() }
    }
}

/// How many bytes one colour plane holds.
pub open spec fn chroma_len(width: int, height: int) -> int {
    (width / 2) * (height / 2)
}

/// How many bytes the planes hold together.
pub open spec fn yuv420_len(width: int, height: int) -> int {
    width * height + 2 * chroma_len(width, height)
}

/// Where the three bytes of a pixel begin in the packed picture.
pub open spec fn rgb_at(width: int, row: int, col: int) -> int {
    (row * width + col) * 3
}

/// Where the brightness of a pixel goes.
pub open spec fn luma_at(width: int, row: int, col: int) -> int {
    row * width + col
}

/// Where the first colour value of the two-by-two block of a pixel goes.
pub open spec fn u_at(width: int, height: int, row: int, col: int) -> int {
    width * height + (row / 2) * (width / 2) + col / 2
}

/// Where the second colour value of the two-by-two block of a pixel goes.
pub open spec fn v_at(width: int, height: int, row: int, col: int) -> int {
    width * height + chroma_len(width, height) + (row / 2) * (width / 2) + col / 2
}

/// Whether a pixel gives the colour of its block: the one at the top left
/// does.
pub open spec fn leads_block(row: int, col: int) -> bool {
    row % 2 == 0 && col % 2 == 0
}

/// Whether `convert` may give these three values for these three bytes.
pub open spec fn converts<F: Fn(u8, u8, u8) -> (u8, u8, u8)>(
    convert: F,
    rgb: (u8, u8, u8),
    yuv: (u8, u8, u8),
) -> bool {
    call_ensures(convert, rgb, yuv)
}

/// What the planes hold for one pixel. Where the packed picture has all three
/// bytes of the pixel, its brightness is what `convert` gives for them, and
/// so are the two colour values of its block if it leads one. Where the
/// picture is too short for the pixel, its places hold zero.
pub open spec fn pixel_laid_out<F: Fn(u8, u8, u8) -> (u8, u8, u8)>(
    convert: F,
    rgb: Seq<u8>,
    yuv: Seq<u8>,
    width: int,
    height: int,
    row: int,
    col: int,
) -> bool {
    let at = rgb_at(width, row, col);
    let luma = yuv[luma_at(width, row, col)];
    let u = yuv[u_at(width, height, row, col)];
    let v = yuv[v_at(width, height, row, col)];
    if at + 2 < rgb.len() {
        if leads_block(row, col) {
            converts(convert, (rgb[at], rgb[at + 1], rgb[at + 2]), (luma, u, v))
        } else {
            exists|u: u8, v: u8|
                #[trigger] converts(convert, (rgb[at], rgb[at + 1], rgb[at + 2]), (luma, u, v))
        }
    } else {
        luma == 0 && (leads_block(row, col) ==> u == 0 && v == 0)
    }
}

/// What the planes hold for a pixel that has not been reached: zero.
spec fn pixel_blank(yuv: Seq<u8>, width: int, height: int, row: int, col: int) -> bool {
    &&& yuv[luma_at(width, row, col)] == 0
    &&& leads_block(row, col) ==> yuv[u_at(width, height, row, col)] == 0 && yuv[v_at(
        width,
        height,
        row,
        col,
    )] == 0
}

/// Whether the pixel comes before the place `(at_row, at_col)` in reading
/// order.
spec fn reached(row: int, col: int, at_row: int, at_col: int) -> bool {
    row < at_row || (row == at_row && col < at_col)
}

proof fn lemma_places(width: int, height: int, row: int, col: int)
    requires
        0 <= row < height,
        0 <= col < width,
        width % 2 == 0,
        height % 2 == 0,
    ensures
        0 <= luma_at(width, row, col) < width * height,
        width * height <= u_at(width, height, row, col) < width * height + chroma_len(
            width,
            height,
        ),
        width * height + chroma_len(width, height) <= v_at(width, height, row, col) < yuv420_len(
            width,
            height,
        ),
        0 <= rgb_at(width, row, col),
        rgb_at(width, row, col) + 2 < width * height * 3,
        0 <= chroma_len(width, height),
{
    assert(row * width + col < width * height && row * width >= 0) by (nonlinear_arith)
        requires
            0 <= row < height,
            0 <= col < width,
    ;
    let hw = width / 2;
    let hh = height / 2;
    let r = row / 2;
    let c = col / 2;
    assert(0 <= r < hh && 0 <= c < hw);
    assert(0 <= r * hw + c < hw * hh && hw * hh >= 0) by (nonlinear_arith)
        requires
            0 <= r < hh,
            0 <= c < hw,
    ;
}

proof fn lemma_places_differ(width: int, height: int, r1: int, c1: int, r2: int, c2: int)
    requires
        0 <= r1 < height,
        0 <= c1 < width,
        0 <= r2 < height,
        0 <= c2 < width,
        width % 2 == 0,
        height % 2 == 0,
        r1 != r2 || c1 != c2,
    ensures
        luma_at(width, r1, c1) != luma_at(width, r2, c2),
        leads_block(r1, c1) && leads_block(r2, c2) ==> u_at(width, height, r1, c1) != u_at(
            width,
            height,
            r2,
            c2,
        ) && v_at(width, height, r1, c1) != v_at(width, height, r2, c2),
{
    assert(r1 * width + c1 != r2 * width + c2) by (nonlinear_arith)
        requires
            0 <= c1 < width,
            0 <= c2 < width,
            r1 != r2 || c1 != c2,
    ;
    if leads_block(r1, c1) && leads_block(r2, c2) {
        let hw = width / 2;
        let a1 = r1 / 2;
        let b1 = c1 / 2;
        let a2 = r2 / 2;
        let b2 = c2 / 2;
        assert(a1 != a2 || b1 != b2);
        assert(a1 * hw + b1 != a2 * hw + b2) by (nonlinear_arith)
            requires
                0 <= b1 < hw,
                0 <= b2 < hw,
                a1 != a2 || b1 != b2,
        ;
    }
}

/// Lays a packed picture of three bytes a pixel out in planes. `convert`
/// gives, for the three bytes of a pixel, its brightness and its two colour
/// values; the colour of a two-by-two block is that of its top left pixel.
/// Pixels that a short picture does not hold stay zero.
pub fn rgb_to_yuv420<F: Fn(u8, u8, u8) -> (u8, u8, u8)>(
    rgb: &[u8],
    width: usize,
    height: usize,
    convert: F,
) -> (yuv: Vec<u8>)
    requires
        width % 2 == 0,
        height % 2 == 0,
        width * height * 3 <= usize::MAX,
        forall|r: u8, g: u8, b: u8| call_requires(convert, (r, g, b)),
    ensures
        yuv.len() == yuv420_len(width as int, height as int),
        forall|row: int, col: int|
            0 <= row < height && 0 <= col < width ==> #[trigger] pixel_laid_out(
                convert,
                rgb@,
                yuv@,
                width as int,
                height as int,
                row,
                col,
            ),
{
    let ghost w = width as int;
    let ghost h = height as int;
    proof {
        assert(0 <= w * h <= w * h * 3 && (w / 2) * (h / 2) >= 0 && 2 * ((w / 2) * (h / 2)) <= w
            * h) by (nonlinear_arith)
            requires
                0 <= w,
                0 <= h,
                w % 2 == 0,
                h % 2 == 0,
        ;
    }
    let y_size = width * height;
    let uv_size = (width / 2) * (height / 2);
    let mut yuv = vec![0u8; y_size + uv_size * 2];
    let mut row: usize = 0;
    proof {
        assert forall|r: int, c: int| 0 <= r < h && 0 <= c < w implies #[trigger] pixel_blank(
            yuv@,
            w,
            h,
            r,
            c,
        ) by {
            lemma_places(w, h, r, c);
        }
    }
    while row < height
        invariant
            row <= height,
            w == width as int,
            h == height as int,
            w % 2 == 0,
            h % 2 == 0,
            w * h * 3 <= usize::MAX,
            y_size == w * h,
            uv_size == chroma_len(w, h),
            yuv.len() == yuv420_len(w, h),
            forall|r: u8, g: u8, b: u8| call_requires(convert, (r, g, b)),
            forall|r: int, c: int|
                0 <= r < h && 0 <= c < w && reached(r, c, row as int, 0) ==> #[trigger] pixel_laid_out(
                    convert,
                    rgb@,
                    yuv@,
                    w,
                    h,
                    r,
                    c,
                ),
            forall|r: int, c: int|
                0 <= r < h && 0 <= c < w && !reached(r, c, row as int, 0) ==> #[trigger] pixel_blank(
                    yuv@,
                    w,
                    h,
                    r,
                    c,
                ),
        decreases height - row,
    {
        let mut col: usize = 0;
        while col < width
            invariant
                row < height,
                col <= width,
                w == width as int,
                h == height as int,
                w % 2 == 0,
                h % 2 == 0,
                w * h * 3 <= usize::MAX,
                y_size == w * h,
                uv_size == chroma_len(w, h),
                yuv.len() == yuv420_len(w, h),
                forall|r: u8, g: u8, b: u8| call_requires(convert, (r, g, b)),
                forall|r: int, c: int|
                    0 <= r < h && 0 <= c < w && reached(r, c, row as int, col as int)
                        ==> #[trigger] pixel_laid_out(convert, rgb@, yuv@, w, h, r, c),
                forall|r: int, c: int|
                    0 <= r < h && 0 <= c < w && !reached(r, c, row as int, col as int)
                        ==> #[trigger] pixel_blank(yuv@, w, h, r, c),
            decreases width - col,
        {
            proof {
                lemma_places(w, h, row as int, col as int);
                assert(row * width >= 0 && row * width <= row * width + col) by (nonlinear_arith)
                    requires
                        0 <= row,
                        0 <= width,
                        0 <= col,
                ;
            }
            let ghost before = yuv@;
            let luma = row * width + col;
            let idx = luma * 3;
            assert(pixel_blank(before, w, h, row as int, col as int));
            if idx + 2 < rgb.len() {
                let (y, u, v) = convert(rgb[idx], rgb[idx + 1], rgb[idx + 2]);
                assert(converts(
                    convert,
                    (rgb@[idx as int], rgb@[idx + 1], rgb@[idx + 2]),
                    (y, u, v),
                ));
                yuv[luma] = y;
                if row % 2 == 0 && col % 2 == 0 {
                    let uv_idx = (row / 2) * (width / 2) + col / 2;
                    yuv[y_size + uv_idx] = u;
                    yuv[y_size + uv_size + uv_idx] = v;
                }
            }
            proof {
                let now = yuv@;
                assert forall|r: int, c: int|
                    0 <= r < h && 0 <= c < w && (r != row || c != col) implies {
                    &&& now[luma_at(w, r, c)] == before[luma_at(w, r, c)]
                    &&& leads_block(r, c) ==> now[u_at(w, h, r, c)] == before[u_at(w, h, r, c)]
                        && now[v_at(w, h, r, c)] == before[v_at(w, h, r, c)]
                } by {
                    lemma_places(w, h, r, c);
                    lemma_places_differ(w, h, r, c, row as int, col as int);
                }
                assert forall|r: int, c: int|
                    0 <= r < h && 0 <= c < w && reached(
                        r,
                        c,
                        row as int,
                        col + 1,
                    ) implies #[trigger] pixel_laid_out(convert, rgb@, now, w, h, r, c) by {
                    if r != row || c != col {
                        assert(pixel_laid_out(convert, rgb@, before, w, h, r, c));
                        lemma_places(w, h, r, c);
                        if !leads_block(r, c) {
                            // the colour places of a pixel that leads no block are not read
                        }
                    }
                }
                assert forall|r: int, c: int|
                    0 <= r < h && 0 <= c < w && !reached(
                        r,
                        c,
                        row as int,
                        col + 1,
                    ) implies #[trigger] pixel_blank(now, w, h, r, c) by {
                    assert(pixel_blank(before, w, h, r, c));
                }
            }
            col += 1;
        }
        proof {
            assert forall|r: int, c: int|
                0 <= r < h && 0 <= c < w && reached(
                    r,
                    c,
                    row + 1,
                    0,
                ) implies #[trigger] pixel_laid_out(convert, rgb@, yuv@, w, h, r, c) by {
                assert(reached(r, c, row as int, width as int));
            }
            assert forall|r: int, c: int|
                0 <= r < h && 0 <= c < w && !reached(r, c, row + 1, 0) implies #[trigger] pixel_blank(
                yuv@,
                w,
                h,
                r,
                c,
            ) by {
                assert(!reached(r, c, row as int, width as int));
            }
        }
        row += 1;
    }
    proof {
        assert forall|r: int, c: int| 0 <= r < h && 0 <= c < w implies #[trigger] pixel_laid_out(
            convert,
            rgb@,
            yuv@,
            w,
            h,
            r,
            c,
        ) by {
            assert(reached(r, c, height as int, 0));
        }
    }
    yuv
}

} // verus!
