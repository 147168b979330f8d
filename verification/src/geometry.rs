//! The geometry compiler: turns a percentage-space crop or a set of
//! physical border insets plus a requested physical output size into
//! exact pixel instructions, independent of the raster engine that
//! executes them. Output canvases are always expressed at the fixed
//! production resolution of 300 pixels per inch.

use vstd::prelude::*;
use vstd::arithmetic::div_mod::lemma_div_basics;
use vstd::arithmetic::div_mod::lemma_div_is_ordered_by_denominator;
use crate::dpi::Dpi;
use crate::numeric::round_div;
use crate::numeric::spec_cm_to_px;
use crate::numeric::spec_cm_to_px_signed;
use crate::numeric::spec_pct_to_px;
use crate::numeric::spec_target_px;
use crate::numeric::cm_to_px;
use crate::numeric::cm_to_px_signed;
use crate::numeric::pct_to_px;
use crate::numeric::target_px;
use crate::numeric::lemma_round_div_at_least;
use crate::numeric::lemma_round_div_at_most;
use crate::numeric::lemma_round_div_bounds;
use crate::numeric::CM_CENTI_MAX;
use crate::numeric::PCT_CENTI_FULL;
use crate::numeric::PX_MAX;

verus! {

/// The five layout transform modes.
#[derive(Clone, Copy, PartialEq, Eq, Structural, Debug)]
pub enum TransformMode {
    Crop,
    Resize,
    Pad,
    Border,
    Mirror,
}

/// A crop rectangle in percentage space, in hundredths of a percent
/// of the source dimensions.
#[derive(Clone, Copy, PartialEq, Eq, Structural, Debug)]
pub struct CropRect {
    pub x: u32,
    pub y: u32,
    pub w: u32,
    pub h: u32,
}

/// Signed physical border insets in hundredths of a centimeter.
/// A positive inset expands the canvas on that edge; a negative one
/// crops inward.
#[derive(Clone, Copy, PartialEq, Eq, Structural, Debug)]
pub struct BorderInsets {
    pub top: i32,
    pub right: i32,
    pub bottom: i32,
    pub left: i32,
}

/// Everything one compilation needs besides the source pixel size.
#[derive(Clone, Copy, PartialEq, Eq, Structural, Debug)]
pub struct TransformSpec {
    pub mode: TransformMode,
    /// Target physical width, hundredths of a centimeter.
    pub target_w: u32,
    /// Target physical height, hundredths of a centimeter.
    pub target_h: u32,
    pub crop: CropRect,
    pub insets: BorderInsets,
    /// Physical resolution of the source.
    pub dpi: Dpi,
}

impl TransformSpec {
    pub open spec fn wf(self) -> bool {
        &&& self.target_w <= CM_CENTI_MAX
        &&& self.target_h <= CM_CENTI_MAX
        &&& self.crop.x <= PCT_CENTI_FULL
        &&& self.crop.y <= PCT_CENTI_FULL
        &&& self.crop.w <= PCT_CENTI_FULL
        &&& self.crop.h <= PCT_CENTI_FULL
        &&& -(CM_CENTI_MAX as int) <= self.insets.top <= CM_CENTI_MAX
        &&& -(CM_CENTI_MAX as int) <= self.insets.right <= CM_CENTI_MAX
        &&& -(CM_CENTI_MAX as int) <= self.insets.bottom <= CM_CENTI_MAX
        &&& -(CM_CENTI_MAX as int) <= self.insets.left <= CM_CENTI_MAX
        &&& self.dpi.wf()
    }
}

/// The mode a caller-supplied mode word selects: any unrecognized
/// word falls back to pad, the default layout.
pub open spec fn spec_mode_of(s: Seq<char>) -> TransformMode {
    if s == "crop"@ {
        TransformMode::Crop
    } else if s == "resize"@ {
        TransformMode::Resize
    } else if s == "border"@ {
        TransformMode::Border
    } else if s == "mirror"@ {
        TransformMode::Mirror
    } else {
        TransformMode::Pad
    }
}

/// Parse a mode word.
pub fn mode_from_name(s: &str) -> (m: TransformMode)
    ensures
        m == spec_mode_of(s@),
{
    if crate::text::str_eq(s, "crop") {
        TransformMode::Crop
    } else if crate::text::str_eq(s, "resize") {
        TransformMode::Resize
    } else if crate::text::str_eq(s, "border") {
        TransformMode::Border
    } else if crate::text::str_eq(s, "mirror") {
        TransformMode::Mirror
    } else {
        TransformMode::Pad
    }
}

/// The compiled pixel geometry for one transform. Every field is an
/// exact pixel count; the variant fixes the edge-handling policy the
/// raster engine must apply (trim, solid fill, or mirrored pixels).
#[derive(Clone, Copy, PartialEq, Eq, Structural, Debug)]
pub enum PixelGeometry {
    /// Cut the source rectangle, fill-scale it so its shorter side
    /// exactly covers the canvas, center, and trim the overflow.
    Crop {
        src_x: u64,
        src_y: u64,
        src_w: u64,
        src_h: u64,
        scaled_w: u64,
        scaled_h: u64,
        trim_x: u64,
        trim_y: u64,
        canvas_w: u64,
        canvas_h: u64,
    },
    /// Non-uniform scale straight to the canvas size.
    Resize { canvas_w: u64, canvas_h: u64 },
    /// Fit-scale the whole source, center it, solid-fill the margin.
    Pad {
        scaled_w: u64,
        scaled_h: u64,
        offset_x: u64,
        offset_y: u64,
        canvas_w: u64,
        canvas_h: u64,
    },
    /// Expand edges by solid fill and/or crop inward per edge.
    Border {
        add_top: u64,
        add_right: u64,
        add_bottom: u64,
        add_left: u64,
        crop_top: u64,
        crop_right: u64,
        crop_bottom: u64,
        crop_left: u64,
        expanded_w: u64,
        expanded_h: u64,
        canvas_w: u64,
        canvas_h: u64,
    },
    /// Expand edges like Border, but fill with edge-mirrored pixels.
    Mirror { add_top: u64, add_right: u64, add_bottom: u64, add_left: u64, canvas_w: u64, canvas_h: u64 },
}

/// Clamp to at least one pixel.
pub open spec fn at_least_one(v: int) -> int {
    if v < 1 {
        1
    } else {
        v
    }
}

/// The positive part of a signed pixel count.
pub open spec fn pos_part(v: int) -> int {
    if v > 0 {
        v
    } else {
        0
    }
}

pub open spec fn spec_min(a: int, b: int) -> int {
    if a < b {
        a
    } else {
        b
    }
}

/// The crop rectangle of `c` in absolute source pixels: offsets
/// round, extents round but never drop below one pixel.
pub open spec fn spec_src_rect(w: int, h: int, c: CropRect) -> (int, int, int, int) {
    (
        spec_pct_to_px(c.x as int, w),
        spec_pct_to_px(c.y as int, h),
        at_least_one(spec_pct_to_px(c.w as int, w)),
        at_least_one(spec_pct_to_px(c.h as int, h)),
    )
}

/// What a compiled crop-mode geometry must be: the source rectangle
/// scaled so its relatively shorter side exactly fills the target
/// canvas, centered, overflow trimmed; the canvas is never larger
/// than the scaled image, so no background shows.
pub open spec fn crop_geometry_ok(w: int, h: int, t: TransformSpec, g: PixelGeometry) -> bool {
    let (sx, sy, sw, sh) = spec_src_rect(w, h, t.crop);
    let tw = spec_target_px(t.target_w as int);
    let th = spec_target_px(t.target_h as int);
    match g {
        PixelGeometry::Crop {
            src_x,
            src_y,
            src_w,
            src_h,
            scaled_w,
            scaled_h,
            trim_x,
            trim_y,
            canvas_w,
            canvas_h,
        } => {
            &&& src_x == sx
            &&& src_y == sy
            &&& src_w == sw
            &&& src_h == sh
            &&& canvas_w == tw
            &&& canvas_h == th
            &&& if tw * sh >= th * sw {
                scaled_w == tw && scaled_h == round_div(sh * tw, sw)
            } else {
                scaled_h == th && scaled_w == round_div(sw * th, sh)
            }
            &&& scaled_w >= tw
            &&& scaled_h >= th
            &&& trim_x == (scaled_w - tw) / 2
            &&& trim_y == (scaled_h - th) / 2
        },
        _ => false,
    }
}

/// What a compiled resize-mode geometry must be: exactly the target
/// canvas, aspect ratio not preserved.
pub open spec fn resize_geometry_ok(t: TransformSpec, g: PixelGeometry) -> bool {
    match g {
        PixelGeometry::Resize { canvas_w, canvas_h } => {
            &&& canvas_w == spec_target_px(t.target_w as int)
            &&& canvas_h == spec_target_px(t.target_h as int)
        },
        _ => false,
    }
}

/// What a compiled pad-mode geometry must be: the whole source
/// fit-scaled into the canvas without cropping, centered; the margin
/// is solid fill.
pub open spec fn pad_geometry_ok(w: int, h: int, t: TransformSpec, g: PixelGeometry) -> bool {
    let tw = spec_target_px(t.target_w as int);
    let th = spec_target_px(t.target_h as int);
    match g {
        PixelGeometry::Pad { scaled_w, scaled_h, offset_x, offset_y, canvas_w, canvas_h } => {
            &&& canvas_w == tw
            &&& canvas_h == th
            &&& if tw * h <= th * w {
                scaled_w == tw && scaled_h == round_div(h * tw, w)
            } else {
                scaled_h == th && scaled_w == round_div(w * th, h)
            }
            &&& scaled_w <= tw
            &&& scaled_h <= th
            &&& offset_x == (tw - scaled_w) / 2
            &&& offset_y == (th - scaled_h) / 2
        },
        _ => false,
    }
}

/// What a compiled border-mode geometry must be. Insets convert to
/// pixels at the source resolution; positive parts expand the canvas
/// per edge, negative parts crop inward, clamped (left before right,
/// top before bottom) so that no dimension ever drops below one
/// pixel.
pub open spec fn border_geometry_ok(w: int, h: int, t: TransformSpec, g: PixelGeometry) -> bool {
    let tpx = spec_cm_to_px_signed(t.insets.top as int, t.dpi);
    let rpx = spec_cm_to_px_signed(t.insets.right as int, t.dpi);
    let bpx = spec_cm_to_px_signed(t.insets.bottom as int, t.dpi);
    let lpx = spec_cm_to_px_signed(t.insets.left as int, t.dpi);
    let ew = w + pos_part(lpx) + pos_part(rpx);
    let eh = h + pos_part(tpx) + pos_part(bpx);
    let cl = spec_min(pos_part(-lpx), ew - 1);
    let cr = spec_min(pos_part(-rpx), ew - cl - 1);
    let ct = spec_min(pos_part(-tpx), eh - 1);
    let cb = spec_min(pos_part(-bpx), eh - ct - 1);
    match g {
        PixelGeometry::Border {
            add_top,
            add_right,
            add_bottom,
            add_left,
            crop_top,
            crop_right,
            crop_bottom,
            crop_left,
            expanded_w,
            expanded_h,
            canvas_w,
            canvas_h,
        } => {
            &&& add_top == pos_part(tpx)
            &&& add_right == pos_part(rpx)
            &&& add_bottom == pos_part(bpx)
            &&& add_left == pos_part(lpx)
            &&& crop_top == ct
            &&& crop_right == cr
            &&& crop_bottom == cb
            &&& crop_left == cl
            &&& expanded_w == ew
            &&& expanded_h == eh
            &&& canvas_w == ew - cl - cr
            &&& canvas_h == eh - ct - cb
            &&& canvas_w >= 1
            &&& canvas_h >= 1
        },
        _ => false,
    }
}

/// What a compiled mirror-mode geometry must be: border-style
/// expansion with negative insets ignored, content extended by
/// edge-mirrored pixels instead of solid fill.
pub open spec fn mirror_geometry_ok(w: int, h: int, t: TransformSpec, g: PixelGeometry) -> bool {
    let mt = spec_cm_to_px(pos_part(t.insets.top as int), t.dpi);
    let mr = spec_cm_to_px(pos_part(t.insets.right as int), t.dpi);
    let mb = spec_cm_to_px(pos_part(t.insets.bottom as int), t.dpi);
    let ml = spec_cm_to_px(pos_part(t.insets.left as int), t.dpi);
    match g {
        PixelGeometry::Mirror { add_top, add_right, add_bottom, add_left, canvas_w, canvas_h } => {
            &&& add_top == mt
            &&& add_right == mr
            &&& add_bottom == mb
            &&& add_left == ml
            &&& canvas_w == w + ml + mr
            &&& canvas_h == h + mt + mb
        },
        _ => false,
    }
}

/// The compiled geometry for source size `w` x `h` under `t`,
/// whichever mode `t` selects.
pub open spec fn geometry_ok(w: int, h: int, t: TransformSpec, g: PixelGeometry) -> bool {
    match t.mode {
        TransformMode::Crop => crop_geometry_ok(w, h, t, g),
        TransformMode::Resize => resize_geometry_ok(t, g),
        TransformMode::Pad => pad_geometry_ok(w, h, t, g),
        TransformMode::Border => border_geometry_ok(w, h, t, g),
        TransformMode::Mirror => mirror_geometry_ok(w, h, t, g),
    }
}

/// Products of a target extent and a source extent stay far below
/// the 128-bit range, and cross products commute.
proof fn lemma_px_products(tw: int, th: int, sw: int, sh: int)
    requires
        0 <= tw <= 1_200_000,
        0 <= th <= 1_200_000,
        0 <= sw <= PX_MAX,
        0 <= sh <= PX_MAX,
    ensures
        tw * sh <= 1_200_000 * 1_000_000_000_000,
        th * sw <= 1_200_000 * 1_000_000_000_000,
        tw * sh == sh * tw,
        th * sw == sw * th,
{
    assert(tw * sh <= 1_200_000 * 1_000_000_000_000 && th * sw <= 1_200_000
        * 1_000_000_000_000 && tw * sh == sh * tw && th * sw == sw * th) by (nonlinear_arith)
        requires
            0 <= tw <= 1_200_000,
            0 <= th <= 1_200_000,
            0 <= sw <= 1_000_000_000_000,
            0 <= sh <= 1_000_000_000_000,
    ;
}

/// Scale `num_side * exact / den_side` with rounding, for the
/// non-binding axis of a fill or fit scale.
fn scale_side(num_side: u64, exact: u64, den_side: u64) -> (r: u64)
    requires
        1 <= den_side,
        num_side <= PX_MAX,
        exact <= 1_200_000,
    ensures
        r == round_div(num_side * exact, den_side as int),
{
    proof {
        assert(num_side * exact <= 1_000_000_000_000 * 1_200_000) by (nonlinear_arith)
            requires
                0 <= num_side <= 1_000_000_000_000,
                0 <= exact <= 1_200_000,
        ;
    }
    let a: u128 = (num_side as u128) * (exact as u128);
    let b: u128 = den_side as u128;
    let r: u128 = (2 * a + b) / (2 * b);
    proof {
        lemma_round_div_bounds(a as int, b as int);
        lemma_div_is_ordered_by_denominator(a as int, 1, b as int);
        lemma_div_basics(a as int);
    }
    r as u64
}

/// Compile crop mode: cut, fill-scale, center, trim.
pub fn compile_crop(w: u64, h: u64, t: &TransformSpec) -> (g: PixelGeometry)
    requires
        1 <= w <= PX_MAX,
        1 <= h <= PX_MAX,
        t.wf(),
    ensures
        crop_geometry_ok(w as int, h as int, *t, g),
{
    let sx = pct_to_px(t.crop.x, w);
    let sy = pct_to_px(t.crop.y, h);
    let sw0 = pct_to_px(t.crop.w, w);
    let sh0 = pct_to_px(t.crop.h, h);
    let sw = if sw0 < 1 { 1 } else { sw0 };
    let sh = if sh0 < 1 { 1 } else { sh0 };
    let tw = target_px(t.target_w);
    let th = target_px(t.target_h);
    proof {
        lemma_px_products(tw as int, th as int, sw as int, sh as int);
    }
    let fill_by_width = (tw as u128) * (sh as u128) >= (th as u128) * (sw as u128);
    let (scaled_w, scaled_h): (u64, u64) = if fill_by_width {
        let sch = scale_side(sh, tw, sw);
        proof {
            lemma_round_div_at_least(sh as int * tw as int, sw as int, th as int);
        }
        (tw, sch)
    } else {
        let scw = scale_side(sw, th, sh);
        proof {
            lemma_round_div_at_least(sw as int * th as int, sh as int, tw as int);
        }
        (scw, th)
    };
    PixelGeometry::Crop {
        src_x: sx,
        src_y: sy,
        src_w: sw,
        src_h: sh,
        scaled_w,
        scaled_h,
        trim_x: (scaled_w - tw) / 2,
        trim_y: (scaled_h - th) / 2,
        canvas_w: tw,
        canvas_h: th,
    }
}

/// Compile resize mode: straight to the target size.
pub fn compile_resize(t: &TransformSpec) -> (g: PixelGeometry)
    requires
        t.wf(),
    ensures
        resize_geometry_ok(*t, g),
{
    PixelGeometry::Resize { canvas_w: target_px(t.target_w), canvas_h: target_px(t.target_h) }
}

/// Compile pad mode: fit-scale, center, solid-fill the margin.
pub fn compile_pad(w: u64, h: u64, t: &TransformSpec) -> (g: PixelGeometry)
    requires
        1 <= w <= PX_MAX,
        1 <= h <= PX_MAX,
        t.wf(),
    ensures
        pad_geometry_ok(w as int, h as int, *t, g),
{
    let tw = target_px(t.target_w);
    let th = target_px(t.target_h);
    proof {
        lemma_px_products(tw as int, th as int, w as int, h as int);
    }
    let fit_by_width = (tw as u128) * (h as u128) <= (th as u128) * (w as u128);
    let (scaled_w, scaled_h): (u64, u64) = if fit_by_width {
        let sch = scale_side(h, tw, w);
        proof {
            lemma_round_div_at_most(h as int * tw as int, w as int, th as int);
        }
        (tw, sch)
    } else {
        let scw = scale_side(w, th, h);
        proof {
            lemma_round_div_at_most(w as int * th as int, h as int, tw as int);
        }
        (scw, th)
    };
    PixelGeometry::Pad {
        scaled_w,
        scaled_h,
        offset_x: (tw - scaled_w) / 2,
        offset_y: (th - scaled_h) / 2,
        canvas_w: tw,
        canvas_h: th,
    }
}

/// Compile border mode: per-edge expansion and inward cropping with
/// the documented clamping, so the result never loses its last
/// pixel.
#[verifier::rlimit(60)]
pub fn compile_border(w: u64, h: u64, t: &TransformSpec) -> (g: PixelGeometry)
    requires
        1 <= w <= PX_MAX,
        1 <= h <= PX_MAX,
        t.wf(),
    ensures
        border_geometry_ok(w as int, h as int, *t, g),
{
    let tpx = cm_to_px_signed(t.insets.top, t.dpi);
    let rpx = cm_to_px_signed(t.insets.right, t.dpi);
    let bpx = cm_to_px_signed(t.insets.bottom, t.dpi);
    let lpx = cm_to_px_signed(t.insets.left, t.dpi);

    let add_top: u64 = if tpx > 0 { tpx as u64 } else { 0 };
    let add_right: u64 = if rpx > 0 { rpx as u64 } else { 0 };
    let add_bottom: u64 = if bpx > 0 { bpx as u64 } else { 0 };
    let add_left: u64 = if lpx > 0 { lpx as u64 } else { 0 };

    let cut_top: u64 = if tpx < 0 { (-tpx) as u64 } else { 0 };
    let cut_right: u64 = if rpx < 0 { (-rpx) as u64 } else { 0 };
    let cut_bottom: u64 = if bpx < 0 { (-bpx) as u64 } else { 0 };
    let cut_left: u64 = if lpx < 0 { (-lpx) as u64 } else { 0 };

    let expanded_w = w + add_left + add_right;
    let expanded_h = h + add_top + add_bottom;

    let crop_left = if cut_left < expanded_w - 1 { cut_left } else { expanded_w - 1 };
    let remaining_w = expanded_w - crop_left;
    let crop_right = if cut_right < remaining_w - 1 { cut_right } else { remaining_w - 1 };

    let crop_top = if cut_top < expanded_h - 1 { cut_top } else { expanded_h - 1 };
    let remaining_h = expanded_h - crop_top;
    let crop_bottom = if cut_bottom < remaining_h - 1 { cut_bottom } else { remaining_h - 1 };

    PixelGeometry::Border {
        add_top,
        add_right,
        add_bottom,
        add_left,
        crop_top,
        crop_right,
        crop_bottom,
        crop_left,
        expanded_w,
        expanded_h,
        canvas_w: remaining_w - crop_right,
        canvas_h: remaining_h - crop_bottom,
    }
}

/// Compile mirror mode: border-style expansion, mirrored fill,
/// negative insets ignored.
pub fn compile_mirror(w: u64, h: u64, t: &TransformSpec) -> (g: PixelGeometry)
    requires
        1 <= w <= PX_MAX,
        1 <= h <= PX_MAX,
        t.wf(),
    ensures
        mirror_geometry_ok(w as int, h as int, *t, g),
{
    let ct: u32 = if t.insets.top > 0 { t.insets.top as u32 } else { 0 };
    let cr: u32 = if t.insets.right > 0 { t.insets.right as u32 } else { 0 };
    let cb: u32 = if t.insets.bottom > 0 { t.insets.bottom as u32 } else { 0 };
    let cl: u32 = if t.insets.left > 0 { t.insets.left as u32 } else { 0 };
    let add_top = cm_to_px(ct, t.dpi);
    let add_right = cm_to_px(cr, t.dpi);
    let add_bottom = cm_to_px(cb, t.dpi);
    let add_left = cm_to_px(cl, t.dpi);
    PixelGeometry::Mirror {
        add_top,
        add_right,
        add_bottom,
        add_left,
        canvas_w: w + add_left + add_right,
        canvas_h: h + add_top + add_bottom,
    }
}

/// Compile a transform specification against the source pixel size.
/// Pure: reads nothing but its arguments.
pub fn compile(w: u64, h: u64, t: &TransformSpec) -> (g: PixelGeometry)
    requires
        1 <= w <= PX_MAX,
        1 <= h <= PX_MAX,
        t.wf(),
    ensures
        geometry_ok(w as int, h as int, *t, g),
{
    match t.mode {
        TransformMode::Crop => compile_crop(w, h, t),
        TransformMode::Resize => compile_resize(t),
        TransformMode::Pad => compile_pad(w, h, t),
        TransformMode::Border => compile_border(w, h, t),
        TransformMode::Mirror => compile_mirror(w, h, t),
    }
}

} // verus!
