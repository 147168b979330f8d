//! Exact textual forms of compiled pixel geometry, as the raster
//! engine's command line expects them: `WxH` sizes, `WxH+X+Y`
//! rectangles and `WxH-L-T` viewports.

use vstd::prelude::*;
use vstd::string::StringExecFns;
use crate::geometry::PixelGeometry;
use crate::text::spec_dec_rep;
use crate::text::push_dec_u64;

verus! {

/// `WxH`.
pub open spec fn spec_dims_arg(w: int, h: int) -> Seq<char> {
    spec_dec_rep(w) + seq!['x'] + spec_dec_rep(h)
}

/// `WxH+X+Y`.
pub open spec fn spec_rect_arg(w: int, h: int, x: int, y: int) -> Seq<char> {
    spec_dims_arg(w, h) + seq!['+'] + spec_dec_rep(x) + seq!['+'] + spec_dec_rep(y)
}

/// `WxH-L-T`.
pub open spec fn spec_viewport_arg(w: int, h: int, l: int, t: int) -> Seq<char> {
    spec_dims_arg(w, h) + seq!['-'] + spec_dec_rep(l) + seq!['-'] + spec_dec_rep(t)
}

/// Format a pixel size as `WxH`.
pub fn dims_arg(w: u64, h: u64) -> (r: String)
    ensures
        r@ == spec_dims_arg(w as int, h as int),
{
    let mut s = String::new();
    push_dec_u64(&mut s, w);
    s.append("x");
    push_dec_u64(&mut s, h);
    proof {
        reveal_strlit("x");
        assert(s@ =~= spec_dims_arg(w as int, h as int));
    }
    s
}

/// Format a pixel rectangle as `WxH+X+Y`.
pub fn rect_arg(w: u64, h: u64, x: u64, y: u64) -> (r: String)
    ensures
        r@ == spec_rect_arg(w as int, h as int, x as int, y as int),
{
    let mut s = dims_arg(w, h);
    s.append("+");
    push_dec_u64(&mut s, x);
    s.append("+");
    push_dec_u64(&mut s, y);
    proof {
        reveal_strlit("+");
        assert(s@ =~= spec_rect_arg(w as int, h as int, x as int, y as int));
    }
    s
}

/// Format a distortion viewport as `WxH-L-T`.
pub fn viewport_arg(w: u64, h: u64, l: u64, t: u64) -> (r: String)
    ensures
        r@ == spec_viewport_arg(w as int, h as int, l as int, t as int),
{
    let mut s = dims_arg(w, h);
    s.append("-");
    push_dec_u64(&mut s, l);
    s.append("-");
    push_dec_u64(&mut s, t);
    proof {
        reveal_strlit("-");
        assert(s@ =~= spec_viewport_arg(w as int, h as int, l as int, t as int));
    }
    s
}

/// The character views of a list of argument strings.
pub open spec fn arg_views(v: Seq<String>) -> Seq<Seq<char>> {
    v.map_values(|s: String| s@)
}

/// The trailing stamp every transform carries: the output is tagged
/// 300 pixels per inch whatever the source was.
pub open spec fn spec_density_stamp() -> Seq<Seq<char>> {
    seq!["-density"@, "300"@, "-units"@, "PixelsPerInch"@]
}

/// The engine instruction list a compiled geometry denotes. Every
/// mode flattens onto a white background and ends with the 300 dpi
/// stamp; border mode emits its inward crop only when some edge
/// actually cropped.
pub open spec fn spec_instructions(g: PixelGeometry) -> Seq<Seq<char>> {
    let body = match g {
        PixelGeometry::Crop { src_x, src_y, src_w, src_h, canvas_w, canvas_h, .. } => seq![
            "-crop"@,
            spec_rect_arg(src_w as int, src_h as int, src_x as int, src_y as int),
            "+repage"@,
            "-resize"@,
            spec_dims_arg(canvas_w as int, canvas_h as int) + seq!['^'],
            "-gravity"@,
            "center"@,
            "-background"@,
            "white"@,
            "-extent"@,
            spec_dims_arg(canvas_w as int, canvas_h as int),
            "-flatten"@,
        ],
        PixelGeometry::Resize { canvas_w, canvas_h } => seq![
            "-resize"@,
            spec_dims_arg(canvas_w as int, canvas_h as int) + seq!['!'],
            "-background"@,
            "white"@,
            "-flatten"@,
        ],
        PixelGeometry::Pad { canvas_w, canvas_h, .. } => seq![
            "-resize"@,
            spec_dims_arg(canvas_w as int, canvas_h as int),
            "-background"@,
            "white"@,
            "-gravity"@,
            "center"@,
            "-extent"@,
            spec_dims_arg(canvas_w as int, canvas_h as int),
            "-flatten"@,
        ],
        PixelGeometry::Border {
            add_top,
            add_right,
            add_bottom,
            add_left,
            crop_top,
            crop_right,
            crop_bottom,
            crop_left,
            expanded_w,
            expanded_h,
            canvas_w,
            canvas_h,
        } => {
            let expand = seq![
                "-background"@,
                "white"@,
                "-gravity"@,
                "northwest"@,
                "-splice"@,
                spec_dims_arg(add_left as int, add_top as int),
                "-gravity"@,
                "southeast"@,
                "-splice"@,
                spec_dims_arg(add_right as int, add_bottom as int),
                "-gravity"@,
                "northwest"@,
                "-extent"@,
                spec_dims_arg(expanded_w as int, expanded_h as int),
            ];
            let cut = if crop_left > 0 || crop_right > 0 || crop_top > 0 || crop_bottom > 0 {
                seq![
                    "-gravity"@,
                    "northwest"@,
                    "-crop"@,
                    spec_rect_arg(
                        canvas_w as int,
                        canvas_h as int,
                        crop_left as int,
                        crop_top as int,
                    ),
                    "+repage"@,
                ]
            } else {
                Seq::empty()
            };
            expand + cut + seq!["-flatten"@]
        },
        PixelGeometry::Mirror { add_top, add_left, canvas_w, canvas_h, .. } => seq![
            "-virtual-pixel"@,
            "mirror"@,
            "-set"@,
            "option:distort:viewport"@,
            spec_viewport_arg(canvas_w as int, canvas_h as int, add_left as int, add_top as int),
            "-filter"@,
            "point"@,
            "-distort"@,
            "SRT"@,
            "0"@,
            "+repage"@,
            "-flatten"@,
        ],
    };
    body + spec_density_stamp()
}

fn push_lit(args: &mut Vec<String>, lit: &str)
    ensures
        arg_views(final(args)@) == arg_views(old(args)@).push(lit@),
{
    args.push(String::from_str(lit));
    proof {
        assert(arg_views(args@) =~= arg_views(old(args)@).push(lit@));
    }
}

fn push_string(args: &mut Vec<String>, s: String)
    ensures
        arg_views(final(args)@) == arg_views(old(args)@).push(s@),
{
    let ghost v = s@;
    args.push(s);
    proof {
        assert(arg_views(args@) =~= arg_views(old(args)@).push(v));
    }
}

/// Render a compiled geometry as the exact instruction list the
/// raster engine executes, the 300 dpi output stamp included.
pub fn engine_instructions(g: &PixelGeometry) -> (r: Vec<String>)
    ensures
        arg_views(r@) == spec_instructions(*g),
{
    let mut args: Vec<String> = Vec::new();
    proof {
        assert(arg_views(args@) =~= Seq::<Seq<char>>::empty());
    }
    match *g {
        PixelGeometry::Crop { src_x, src_y, src_w, src_h, canvas_w, canvas_h, .. } => {
            push_lit(&mut args, "-crop");
            push_string(&mut args, rect_arg(src_w, src_h, src_x, src_y));
            push_lit(&mut args, "+repage");
            push_lit(&mut args, "-resize");
            let mut fill = dims_arg(canvas_w, canvas_h);
            fill.append("^");
            proof {
                reveal_strlit("^");
                assert(fill@ =~= spec_dims_arg(canvas_w as int, canvas_h as int) + seq!['^']);
            }
            push_string(&mut args, fill);
            push_lit(&mut args, "-gravity");
            push_lit(&mut args, "center");
            push_lit(&mut args, "-background");
            push_lit(&mut args, "white");
            push_lit(&mut args, "-extent");
            push_string(&mut args, dims_arg(canvas_w, canvas_h));
            push_lit(&mut args, "-flatten");
        },
        PixelGeometry::Resize { canvas_w, canvas_h } => {
            push_lit(&mut args, "-resize");
            let mut exact = dims_arg(canvas_w, canvas_h);
            exact.append("!");
            proof {
                reveal_strlit("!");
                assert(exact@ =~= spec_dims_arg(canvas_w as int, canvas_h as int) + seq!['!']);
            }
            push_string(&mut args, exact);
            push_lit(&mut args, "-background");
            push_lit(&mut args, "white");
            push_lit(&mut args, "-flatten");
        },
        PixelGeometry::Pad { canvas_w, canvas_h, .. } => {
            push_lit(&mut args, "-resize");
            push_string(&mut args, dims_arg(canvas_w, canvas_h));
            push_lit(&mut args, "-background");
            push_lit(&mut args, "white");
            push_lit(&mut args, "-gravity");
            push_lit(&mut args, "center");
            push_lit(&mut args, "-extent");
            push_string(&mut args, dims_arg(canvas_w, canvas_h));
            push_lit(&mut args, "-flatten");
        },
        PixelGeometry::Border {
            add_top,
            add_right,
            add_bottom,
            add_left,
            crop_top,
            crop_right,
            crop_bottom,
            crop_left,
            expanded_w,
            expanded_h,
            canvas_w,
            canvas_h,
        } => {
            push_lit(&mut args, "-background");
            push_lit(&mut args, "white");
            push_lit(&mut args, "-gravity");
            push_lit(&mut args, "northwest");
            push_lit(&mut args, "-splice");
            push_string(&mut args, dims_arg(add_left, add_top));
            push_lit(&mut args, "-gravity");
            push_lit(&mut args, "southeast");
            push_lit(&mut args, "-splice");
            push_string(&mut args, dims_arg(add_right, add_bottom));
            push_lit(&mut args, "-gravity");
            push_lit(&mut args, "northwest");
            push_lit(&mut args, "-extent");
            push_string(&mut args, dims_arg(expanded_w, expanded_h));
            if crop_left > 0 || crop_right > 0 || crop_top > 0 || crop_bottom > 0 {
                push_lit(&mut args, "-gravity");
                push_lit(&mut args, "northwest");
                push_lit(&mut args, "-crop");
                push_string(&mut args, rect_arg(canvas_w, canvas_h, crop_left, crop_top));
                push_lit(&mut args, "+repage");
            }
            push_lit(&mut args, "-flatten");
        },
        PixelGeometry::Mirror { add_top, add_left, canvas_w, canvas_h, .. } => {
            push_lit(&mut args, "-virtual-pixel");
            push_lit(&mut args, "mirror");
            push_lit(&mut args, "-set");
            push_lit(&mut args, "option:distort:viewport");
            push_string(&mut args, viewport_arg(canvas_w, canvas_h, add_left, add_top));
            push_lit(&mut args, "-filter");
            push_lit(&mut args, "point");
            push_lit(&mut args, "-distort");
            push_lit(&mut args, "SRT");
            push_lit(&mut args, "0");
            push_lit(&mut args, "+repage");
            push_lit(&mut args, "-flatten");
        },
    }
    push_lit(&mut args, "-density");
    push_lit(&mut args, "300");
    push_lit(&mut args, "-units");
    push_lit(&mut args, "PixelsPerInch");
    proof {
        assert(arg_views(args@) =~= spec_instructions(*g));
    }
    args
}

} // verus!
