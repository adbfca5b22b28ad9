use vstd::prelude::*;
use crate::image_buf::RgbBuffer;

verus! {

/// Whether the width ratio is the binding one when fitting a `sw` by `sh`
/// source onto a `tw` by `th` canvas: `tw/sw <= th/sh`, compared exactly by
/// cross multiplication.
pub open spec fn spec_fit_wide(sw: int, sh: int, tw: int, th: int) -> bool {
    tw * sh <= th * sw
}

/// Width of the source after scaling by `min(tw/sw, th/sh)`, rounded down.
pub open spec fn spec_scaled_w(sw: int, sh: int, tw: int, th: int) -> int {
    if spec_fit_wide(sw, sh, tw, th) {
        tw
    } else {
        sw * th / sh
    }
}

/// Height of the source after scaling by `min(tw/sw, th/sh)`, rounded down.
pub open spec fn spec_scaled_h(sw: int, sh: int, tw: int, th: int) -> int {
    if spec_fit_wide(sw, sh, tw, th) {
        sh * tw / sw
    } else {
        th
    }
}

/// Left margin when the scaled image is centered.
pub open spec fn spec_offset_x(sw: int, sh: int, tw: int, th: int) -> int {
    (tw - spec_scaled_w(sw, sh, tw, th)) / 2
}

/// Top margin when the scaled image is centered.
pub open spec fn spec_offset_y(sw: int, sh: int, tw: int, th: int) -> int {
    (th - spec_scaled_h(sw, sh, tw, th)) / 2
}

/// The geometry of one fit: the scaled dimensions, the four black margins,
/// and the scale factor as an exact ratio.
pub struct FitGeometry {
    /// Width of the scaled source image.
    pub scaled_w: u32,
    /// Height of the scaled source image.
    pub scaled_h: u32,
    /// Left black margin.
    pub offset_x: u32,
    /// Top black margin.
    pub offset_y: u32,
    /// Right black margin.
    pub margin_right: u32,
    /// Bottom black margin.
    pub margin_bottom: u32,
    /// Numerator of the exact scale factor.
    pub scale_num: u32,
    /// Denominator of the exact scale factor.
    pub scale_den: u32,
}

/// Dividing keeps a product of bounded factors bounded.
proof fn lemma_div_le(a: int, b: int, c: int)
    by (nonlinear_arith)
    requires
        b > 0,
        0 <= a,
        a <= c * b,
    ensures
        a / b <= c,
        0 <= a / b,
{
}

/// Computes how a `sw` by `sh` source fits onto a `tw` by `th` canvas:
/// the source is scaled by `min(tw/sw, th/sh)` (preserving aspect ratio,
/// rounding down) and centered; the four margins fill the rest with black.
/// The scaled image never exceeds the canvas, and each margin pair plus the
/// scaled size adds up exactly to the canvas size.
pub fn fit_geometry(sw: u32, sh: u32, tw: u32, th: u32) -> (g: FitGeometry)
    requires
        1 <= sw,
        1 <= sh,
        1 <= tw,
        1 <= th,
    ensures
        g.scaled_w == spec_scaled_w(sw as int, sh as int, tw as int, th as int),
        g.scaled_h == spec_scaled_h(sw as int, sh as int, tw as int, th as int),
        g.offset_x == spec_offset_x(sw as int, sh as int, tw as int, th as int),
        g.offset_y == spec_offset_y(sw as int, sh as int, tw as int, th as int),
        g.scaled_w <= tw,
        g.scaled_h <= th,
        g.offset_x + g.scaled_w + g.margin_right == tw,
        g.offset_y + g.scaled_h + g.margin_bottom == th,
        g.offset_x <= tw,
        g.offset_y <= th,
        spec_fit_wide(sw as int, sh as int, tw as int, th as int) ==> g.scale_num == tw
            && g.scale_den == sw,
        !spec_fit_wide(sw as int, sh as int, tw as int, th as int) ==> g.scale_num == th
            && g.scale_den == sh,
{
    proof {
        vstd::arithmetic::mul::lemma_mul_upper_bound(
            tw as int,
            u32::MAX as int,
            sh as int,
            u32::MAX as int,
        );
        vstd::arithmetic::mul::lemma_mul_upper_bound(
            th as int,
            u32::MAX as int,
            sw as int,
            u32::MAX as int,
        );
        vstd::arithmetic::mul::lemma_mul_upper_bound(
            sw as int,
            u32::MAX as int,
            th as int,
            u32::MAX as int,
        );
        vstd::arithmetic::mul::lemma_mul_upper_bound(
            sh as int,
            u32::MAX as int,
            tw as int,
            u32::MAX as int,
        );
        vstd::arithmetic::mul::lemma_mul_nonnegative(sw as int, th as int);
        vstd::arithmetic::mul::lemma_mul_nonnegative(sh as int, tw as int);
    }
    let wide = (tw as u64) * (sh as u64) <= (th as u64) * (sw as u64);
    let scaled_w: u32;
    let scaled_h: u32;
    let scale_num: u32;
    let scale_den: u32;
    if wide {
        scaled_w = tw;
        proof {
            lemma_div_le(sh as int * tw as int, sw as int, th as int);
        }
        scaled_h = (((sh as u64) * (tw as u64)) / (sw as u64)) as u32;
        scale_num = tw;
        scale_den = sw;
    } else {
        proof {
            lemma_div_le(sw as int * th as int, sh as int, tw as int);
            assert(sw as int * th as int <= tw as int * sh as int - 1);
            lemma_div_le(sw as int * th as int, sh as int, tw as int);
        }
        scaled_w = (((sw as u64) * (th as u64)) / (sh as u64)) as u32;
        scaled_h = th;
        scale_num = th;
        scale_den = sh;
    }
    let offset_x = (tw - scaled_w) / 2;
    let offset_y = (th - scaled_h) / 2;
    FitGeometry {
        scaled_w,
        scaled_h,
        offset_x,
        offset_y,
        margin_right: tw - offset_x - scaled_w,
        margin_bottom: th - offset_y - scaled_h,
        scale_num,
        scale_den,
    }
}

/// What `image`'s aspect-preserving Lanczos3 resize returns for an RGB byte
/// buffer resized into the given bounds: the resampled bytes and their
/// width and height. A pure function of its arguments.
pub uninterp spec fn resampled(data: Seq<u8>, w: int, h: int, nw: int, nh: int) -> (Seq<u8>, int, int);

/// Relies on image::DynamicImage::resize with FilterType::Lanczos3: it
/// scales to the largest size that fits within the requested bounds (at
/// least 1 by 1) while preserving aspect ratio, returns three bytes per
/// pixel, and depends on nothing but its arguments.
#[verifier::external_body]
fn resize_rgb(data: &Vec<u8>, w: u32, h: u32, nw: u32, nh: u32) -> (r: (Vec<u8>, u32, u32))
    requires
        1 <= w,
        1 <= h,
        data@.len() == 3 * w * h,
    ensures
        (r.0@, r.1 as int, r.2 as int) == resampled(
            data@,
            w as int,
            h as int,
            nw as int,
            nh as int,
        ),
        r.0@.len() == 3 * r.1 * r.2,
        1 <= r.1,
        1 <= r.2,
        nw >= 1 ==> r.1 <= nw,
        nw == 0 ==> r.1 <= 1,
        nh >= 1 ==> r.2 <= nh,
        nh == 0 ==> r.2 <= 1,
{
    let img = image::RgbImage::from_raw(w, h, data.clone()).unwrap();
    let resized = image::DynamicImage::ImageRgb8(img).resize(
        nw,
        nh,
        image::imageops::FilterType::Lanczos3,
    );
    let rgb = resized.to_rgb8();
    let (rw, rh) = rgb.dimensions();
    (rgb.into_raw(), rw, rh)
}

/// The channel at `(x, y)` of the fitted canvas: the source scaled by
/// `min(tw/sw, th/sh)` and centered, black everywhere else. When the scaled
/// size equals the source size the source pixels are pasted as they are
/// (resizing to the same size returns the image unchanged); otherwise the
/// resampled pixels are pasted, clipped to the scaled size.
pub open spec fn spec_fitted_channel(
    src: RgbBuffer,
    tw: int,
    th: int,
    x: int,
    y: int,
    c: int,
) -> u8 {
    let sw = src.spec_width();
    let sh = src.spec_height();
    let scw = spec_scaled_w(sw, sh, tw, th);
    let sch = spec_scaled_h(sw, sh, tw, th);
    let ox = spec_offset_x(sw, sh, tw, th);
    let oy = spec_offset_y(sw, sh, tw, th);
    if scw == sw && sch == sh {
        if ox <= x < ox + sw && oy <= y < oy + sh {
            src.spec_channel(x - ox, y - oy, c)
        } else {
            0u8
        }
    } else {
        let r = resampled(src.spec_data(), sw, sh, scw, sch);
        let rw = r.1;
        let rh = r.2;
        let pw = if rw <= scw {
            rw
        } else {
            scw
        };
        let ph = if rh <= sch {
            rh
        } else {
            sch
        };
        if ox <= x < ox + pw && oy <= y < oy + ph {
            r.0[3 * ((y - oy) * rw + (x - ox)) + c]
        } else {
            0u8
        }
    }
}

/// Copies the top-left `pw` by `ph` pixels of `inner` onto `canvas` at
/// offset `(ox, oy)`, leaving every other canvas pixel unchanged.
fn paste(canvas: &mut RgbBuffer, inner: &RgbBuffer, ox: u32, oy: u32, pw: u32, ph: u32)
    requires
        old(canvas).wf(),
        inner.wf(),
        pw <= inner.spec_width(),
        ph <= inner.spec_height(),
        ox + pw <= old(canvas).spec_width(),
        oy + ph <= old(canvas).spec_height(),
        old(canvas).spec_width() <= u32::MAX,
        old(canvas).spec_height() <= u32::MAX,
    ensures
        final(canvas).wf(),
        final(canvas).spec_width() == old(canvas).spec_width(),
        final(canvas).spec_height() == old(canvas).spec_height(),
        forall|x: int, y: int, c: int|
            0 <= x < old(canvas).spec_width() && 0 <= y < old(canvas).spec_height() && 0 <= c < 3
                ==> final(canvas).spec_channel(x, y, c) == (if ox <= x < ox + pw && oy <= y < oy
                + ph {
                inner.spec_channel(x - ox, y - oy, c)
            } else {
                old(canvas).spec_channel(x, y, c)
            }),
{
    let ghost w = old(canvas).spec_width();
    let ghost h = old(canvas).spec_height();
    for y in 0..ph
        invariant
            canvas.wf(),
            inner.wf(),
            canvas.spec_width() == w,
            canvas.spec_height() == h,
            pw <= inner.spec_width(),
            ph <= inner.spec_height(),
            ox + pw <= w,
            oy + ph <= h,
            w <= u32::MAX,
            h <= u32::MAX,
            forall|px: int, py: int, cc: int|
                0 <= px < w && 0 <= py < h && 0 <= cc < 3 ==> canvas.spec_channel(px, py, cc) == (
                if ox <= px < ox + pw && oy <= py < oy + y {
                    inner.spec_channel(px - ox, py - oy, cc)
                } else {
                    old(canvas).spec_channel(px, py, cc)
                }),
    {
        for x in 0..pw
            invariant
                canvas.wf(),
                inner.wf(),
                canvas.spec_width() == w,
                canvas.spec_height() == h,
                pw <= inner.spec_width(),
                ph <= inner.spec_height(),
                ox + pw <= w,
                oy + ph <= h,
                w <= u32::MAX,
                h <= u32::MAX,
                y < ph,
                forall|px: int, py: int, cc: int|
                    0 <= px < w && 0 <= py < h && 0 <= cc < 3 ==> canvas.spec_channel(px, py, cc)
                        == (if (ox <= px < ox + pw && oy <= py < oy + y) || (py == oy + y && ox
                        <= px < ox + x) {
                        inner.spec_channel(px - ox, py - oy, cc)
                    } else {
                        old(canvas).spec_channel(px, py, cc)
                    }),
        {
            let p = inner.get_pixel(x, y);
            canvas.put_pixel(ox + x, oy + y, p);
        }
    }
}

/// Fits `src` onto a `tw` by `th` canvas: scales it by `min(tw/sw, th/sh)`
/// preserving aspect ratio, centers it on a black canvas, and reports the
/// fit geometry.
pub fn fit_image(src: &RgbBuffer, tw: u32, th: u32) -> (r: (RgbBuffer, FitGeometry))
    requires
        src.wf(),
        1 <= src.spec_width(),
        1 <= src.spec_height(),
        1 <= tw,
        1 <= th,
        3 * tw * th <= usize::MAX,
    ensures
        r.0.wf(),
        r.0.spec_width() == tw,
        r.0.spec_height() == th,
        forall|x: int, y: int, c: int|
            0 <= x < tw && 0 <= y < th && 0 <= c < 3 ==> r.0.spec_channel(x, y, c)
                == spec_fitted_channel(*src, tw as int, th as int, x, y, c),
        r.1.scaled_w == spec_scaled_w(src.spec_width(), src.spec_height(), tw as int, th as int),
        r.1.scaled_h == spec_scaled_h(src.spec_width(), src.spec_height(), tw as int, th as int),
        r.1.offset_x == spec_offset_x(src.spec_width(), src.spec_height(), tw as int, th as int),
        r.1.offset_y == spec_offset_y(src.spec_width(), src.spec_height(), tw as int, th as int),
        r.1.scaled_w <= tw,
        r.1.scaled_h <= th,
        r.1.offset_x + r.1.scaled_w + r.1.margin_right == tw,
        r.1.offset_y + r.1.scaled_h + r.1.margin_bottom == th,
        spec_fit_wide(src.spec_width(), src.spec_height(), tw as int, th as int)
            ==> r.1.scale_num == tw && r.1.scale_den == src.spec_width(),
        !spec_fit_wide(src.spec_width(), src.spec_height(), tw as int, th as int)
            ==> r.1.scale_num == th && r.1.scale_den == src.spec_height(),
{
    let sw = src.width();
    let sh = src.height();
    let g = fit_geometry(sw, sh, tw, th);
    let mut canvas = RgbBuffer::new_black(tw, th);
    if g.scaled_w == sw && g.scaled_h == sh {
        paste(&mut canvas, src, g.offset_x, g.offset_y, sw, sh);
    } else {
        let resized = resize_rgb(src.as_raw(), sw, sh, g.scaled_w, g.scaled_h);
        let rw = resized.1;
        let rh = resized.2;
        let inner = RgbBuffer::from_raw_exact(rw, rh, resized.0);
        let pw = if rw <= g.scaled_w {
            rw
        } else {
            g.scaled_w
        };
        let ph = if rh <= g.scaled_h {
            rh
        } else {
            g.scaled_h
        };
        paste(&mut canvas, &inner, g.offset_x, g.offset_y, pw, ph);
    }
    (canvas, g)
}

} // verus!
