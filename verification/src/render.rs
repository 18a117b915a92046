//! Rendering: per-pixel color bytes and the plain-text image format. The
//! header is `P3`, the image dimensions and the maximum channel value 255;
//! each pixel is one line of three channel values. A channel in `[0, 1]`
//! maps to `floor(channel * 255.999)`; channels are clamped to `[0, 1]`
//! first, so every emitted value lies in `0 ..= 255`.

use vstd::prelude::*;

use crate::camera::{image_height, spec_image_height, spec_origin, spec_pixel_dir, Camera};
use crate::frac::{Frac, FVec};
use crate::rat::Rat;
use crate::shade::{default_scene, ray_color, spec_ray_color};
use crate::sphere::Sphere;
use crate::vec3::Vec3;

verus! {

/// The emitted value of one color channel: 0 at or below zero, 255 at or
/// above one, otherwise `floor(channel * 255999 / 1000)`.
pub open spec fn byte_of(f: Frac) -> int {
    if f.n <= 0 {
        0
    } else if f.n >= f.d {
        255
    } else {
        (f.n * 255999) / (f.d * 1000)
    }
}

/// Channel values always lie in `0 ..= 255`.
pub proof fn lemma_byte_of_range(f: Frac)
    requires
        f.d > 0,
    ensures
        0 <= byte_of(f) <= 255,
{
    if 0 < f.n < f.d {
        let num = f.n * 255999;
        let den = f.d * 1000;
        vstd::arithmetic::div_mod::lemma_div_pos_is_pos(num, den);
        vstd::arithmetic::div_mod::lemma_fundamental_div_mod(num, den);
        vstd::arithmetic::div_mod::lemma_mod_bound(num, den);
        let q = num / den;
        assert(q < 256) by (nonlinear_arith)
            requires
                num == den * q + (num % den),
                0 <= num % den < den,
                num < 256 * den,
                den > 0,
        ;
    }
}

/// The decimal digit byte of `n % 10`.
pub open spec fn digit(n: nat) -> u8 {
    (48 + (n % 10)) as u8
}

/// The decimal representation of `n`, most significant digit first.
pub open spec fn dec_seq(n: nat) -> Seq<u8>
    decreases n,
{
    if n < 10 {
        seq![digit(n)]
    } else {
        dec_seq(n / 10) + seq![digit(n)]
    }
}

/// Append the decimal representation of `n`.
pub fn push_dec(out: &mut Vec<u8>, n: u32)
    requires
        n < 100000,
    ensures
        final(out)@ == old(out)@ + dec_seq(n as nat),
    decreases n,
{
    if n >= 10 {
        push_dec(out, n / 10);
    }
    let d: u8 = 48 + (n % 10) as u8;
    out.push(d);
    proof {
        assert(d == digit(n as nat));
        assert(out@ =~= old(out)@ + dec_seq(n as nat));
    }
}

/// The header: `P3`, the dimensions, and the maximum channel value.
pub open spec fn header_spec(w: nat, h: nat) -> Seq<u8> {
    seq![80u8, 51u8, 10u8] + dec_seq(w) + seq![32u8] + dec_seq(h) + seq![
        10u8,
        50u8,
        53u8,
        53u8,
        10u8,
    ]
}

/// The `P3` header lines for a `w` by `h` image.
pub fn ppm_header(w: u32, h: u32) -> (r: Vec<u8>)
    requires
        w < 100000,
        h < 100000,
    ensures
        r@ == header_spec(w as nat, h as nat),
{
    let mut out: Vec<u8> = Vec::new();
    out.push(80);
    out.push(51);
    out.push(10);
    push_dec(&mut out, w);
    out.push(32);
    push_dec(&mut out, h);
    out.push(10);
    out.push(50);
    out.push(53);
    out.push(53);
    out.push(10);
    proof {
        assert(out@ =~= header_spec(w as nat, h as nat));
    }
    out
}

/// One pixel's output line: three channel values and a newline.
pub open spec fn line_of(c: FVec) -> Seq<u8> {
    dec_seq(byte_of(c.fx()) as nat) + seq![32u8] + dec_seq(byte_of(c.fy()) as nat) + seq![32u8]
        + dec_seq(byte_of(c.fz()) as nat) + seq![10u8]
}

/// One color channel as an emitted byte, clamped to `0 ..= 255`.
pub fn channel_byte(n: i128, d: i128) -> (b: u8)
    requires
        d > 0,
        -0x1000_0000_0000 <= n <= 0x1000_0000_0000,
        d <= 0x1000_0000_0000,
    ensures
        b as int == byte_of(Frac { n: n as int, d: d as int }),
{
    if n <= 0 {
        0
    } else if n >= d {
        255
    } else {
        let num: i128 = n * 255999;
        let den: i128 = d * 1000;
        proof {
            lemma_byte_of_range(Frac { n: n as int, d: d as int });
        }
        let q: u128 = (num as u128) / (den as u128);
        q as u8
    }
}

/// Append one pixel's line for the given color.
pub fn write_color(out: &mut Vec<u8>, c: &Vec3)
    requires
        c.wf(),
        -0x1000_0000_0000 <= c@.x <= 0x1000_0000_0000,
        -0x1000_0000_0000 <= c@.y <= 0x1000_0000_0000,
        -0x1000_0000_0000 <= c@.z <= 0x1000_0000_0000,
        c@.d <= 0x1000_0000_0000,
    ensures
        final(out)@ == old(out)@ + line_of(c@),
{
    proof {
        lemma_byte_of_range(c@.fx());
        lemma_byte_of_range(c@.fy());
        lemma_byte_of_range(c@.fz());
    }
    let bx = channel_byte(c.x, c.d);
    let by = channel_byte(c.y, c.d);
    let bz = channel_byte(c.z, c.d);
    push_dec(out, bx as u32);
    out.push(32);
    push_dec(out, by as u32);
    out.push(32);
    push_dec(out, bz as u32);
    out.push(10);
    proof {
        assert(out@ =~= old(out)@ + line_of(c@));
    }
}

/// The fixed scene, as a sequence.
pub open spec fn scene_seq() -> Seq<Sphere> {
    seq![
        Sphere { center: Vec3 { x: 0, y: 0, z: -1i128, d: 1 }, radius: Rat { n: 1, d: 2 } },
    ]
}

/// The color of pixel `(i, j)` of a `w` by `h` image.
pub open spec fn pixel_color(i: int, j: int, w: int, h: int) -> FVec {
    spec_ray_color(scene_seq(), spec_origin(), spec_pixel_dir(i, j, w, h))
}

/// The output line of pixel `(i, j)`.
pub open spec fn pixel_line(i: int, j: int, w: int, h: int) -> Seq<u8> {
    line_of(pixel_color(i, j, w, h))
}

/// The first `k` pixel lines of row `j`, left to right.
pub open spec fn row_prefix(j: int, w: int, h: int, k: int) -> Seq<u8>
    decreases k,
{
    if k <= 0 {
        Seq::empty()
    } else {
        row_prefix(j, w, h, k - 1) + pixel_line(k - 1, j, w, h)
    }
}

/// The whole pixel row `j`.
pub open spec fn row_spec(j: int, w: int, h: int) -> Seq<u8> {
    row_prefix(j, w, h, w)
}

/// The first `k` rows of the image, top to bottom: row `h-1` down.
pub open spec fn rows_prefix(w: int, h: int, k: int) -> Seq<u8>
    decreases k,
{
    if k <= 0 {
        Seq::empty()
    } else {
        rows_prefix(w, h, k - 1) + row_spec(h - k, w, h)
    }
}

/// The whole image: header, then rows from the top down.
pub open spec fn image_spec(w: int) -> Seq<u8> {
    let h = spec_image_height(w);
    header_spec(w as nat, h as nat) + rows_prefix(w, h, h)
}

/// Render pixel row `j` of a `w` by `h` image, left to right.
pub fn render_row(j: u32, w: u32, h: u32) -> (out: Vec<u8>)
    requires
        2 <= w <= 4096,
        1 <= h <= 2304,
        j < h,
    ensures
        out@ == row_spec(j as int, w as int, h as int),
{
    let cam = Camera::new();
    let scene = default_scene();
    proof {
        assert(scene@ =~= scene_seq());
    }
    let mut out: Vec<u8> = Vec::new();
    let mut i: u32 = 0;
    while i < w
        invariant
            0 <= i <= w,
            2 <= w <= 4096,
            1 <= h <= 2304,
            j < h,
            cam.wf(),
            scene@ == scene_seq(),
            scene@.len() == 1,
            scene@[0].wf(),
            out@ == row_prefix(j as int, w as int, h as int, i as int),
        decreases w - i,
    {
        let ray = cam.pixel_ray(i, j, w, h);
        let c = ray_color(&ray, &scene);
        write_color(&mut out, &c);
        proof {
            assert(out@ =~= row_prefix(j as int, w as int, h as int, i as int + 1));
        }
        i = i + 1;
    }
    out
}

/// Render the whole image for the given width; the height follows from
/// the fixed 16:9 aspect ratio.
pub fn render(w: u32) -> (out: Vec<u8>)
    requires
        2 <= w <= 4096,
    ensures
        out@ == image_spec(w as int),
{
    let h = image_height(w);
    let mut out = ppm_header(w, h);
    let mut k: u32 = 0;
    while k < h
        invariant
            2 <= w <= 4096,
            1 <= h <= 2304,
            h == spec_image_height(w as int),
            0 <= k <= h,
            out@ == header_spec(w as nat, h as nat) + rows_prefix(w as int, h as int, k as int),
        decreases h - k,
    {
        let j: u32 = h - 1 - k;
        let mut row = render_row(j, w, h);
        out.append(&mut row);
        proof {
            assert(out@ =~= header_spec(w as nat, h as nat) + rows_prefix(
                w as int,
                h as int,
                k as int + 1,
            ));
        }
        k = k + 1;
    }
    out
}

/// Rendering is deterministic: any two outputs for the same width are
/// byte-identical.
pub proof fn lemma_render_deterministic(a: Seq<u8>, b: Seq<u8>, w: int)
    requires
        a == image_spec(w),
        b == image_spec(w),
    ensures
        a == b,
{
}

} // verus!
