use imagetool::geometry::compile;
use imagetool::geometry::compile_border;
use imagetool::geometry::compile_crop;
use imagetool::geometry::compile_mirror;
use imagetool::geometry::compile_pad;
use imagetool::geometry::compile_resize;
use imagetool::geometry::mode_from_name;
use imagetool::geometry::BorderInsets;
use imagetool::geometry::CropRect;
use imagetool::geometry::PixelGeometry;
use imagetool::geometry::TransformMode;
use imagetool::geometry::TransformSpec;
use imagetool::Dpi;

fn spec(mode: TransformMode) -> TransformSpec {
    TransformSpec {
        mode,
        target_w: 500,
        target_h: 500,
        crop: CropRect { x: 0, y: 0, w: 5000, h: 5000 },
        insets: BorderInsets { top: 0, right: 0, bottom: 0, left: 0 },
        dpi: Dpi { num: 300, den: 1 },
    }
}

#[test]
fn crop_half_of_a_square_to_5cm_fills_exactly() {
    // 50% of 1000 px is 500 px; 5 cm at 300 dpi is 591 px; the
    // square sub-rectangle fill-scales to exactly 591 x 591 with
    // nothing trimmed and no background visible.
    let g = compile_crop(1000, 1000, &spec(TransformMode::Crop));
    match g {
        PixelGeometry::Crop {
            src_x,
            src_y,
            src_w,
            src_h,
            scaled_w,
            scaled_h,
            trim_x,
            trim_y,
            canvas_w,
            canvas_h,
        } => {
            assert_eq!((src_x, src_y, src_w, src_h), (0, 0, 500, 500));
            assert_eq!((scaled_w, scaled_h), (591, 591));
            assert_eq!((trim_x, trim_y), (0, 0));
            assert_eq!((canvas_w, canvas_h), (591, 591));
            assert!(scaled_w >= canvas_w && scaled_h >= canvas_h);
        },
        _ => panic!("expected crop geometry"),
    }
}

#[test]
fn crop_of_a_wide_rectangle_trims_the_long_axis() {
    // Full-frame crop of a 2000 x 1000 source into a 591 x 591
    // canvas: height binds, width scales to 1182 and the overflow is
    // trimmed centered.
    let mut t = spec(TransformMode::Crop);
    t.crop = CropRect { x: 0, y: 0, w: 10000, h: 10000 };
    let g = compile_crop(2000, 1000, &t);
    match g {
        PixelGeometry::Crop { scaled_w, scaled_h, trim_x, trim_y, canvas_w, canvas_h, .. } => {
            assert_eq!((scaled_w, scaled_h), (1182, 591));
            assert_eq!((trim_x, trim_y), (295, 0));
            assert_eq!((canvas_w, canvas_h), (591, 591));
        },
        _ => panic!("expected crop geometry"),
    }
}

#[test]
fn crop_rectangle_never_collapses_below_one_pixel() {
    let mut t = spec(TransformMode::Crop);
    t.crop = CropRect { x: 0, y: 0, w: 0, h: 0 };
    let g = compile_crop(1000, 1000, &t);
    match g {
        PixelGeometry::Crop { src_w, src_h, .. } => {
            assert_eq!((src_w, src_h), (1, 1));
        },
        _ => panic!("expected crop geometry"),
    }
}

#[test]
fn resize_goes_straight_to_the_target() {
    let mut t = spec(TransformMode::Resize);
    t.target_h = 300;
    let g = compile_resize(&t);
    assert_eq!(g, PixelGeometry::Resize { canvas_w: 591, canvas_h: 354 });
}

#[test]
fn pad_fits_and_centers() {
    let g = compile_pad(1000, 500, &spec(TransformMode::Pad));
    match g {
        PixelGeometry::Pad { scaled_w, scaled_h, offset_x, offset_y, canvas_w, canvas_h } => {
            assert_eq!((scaled_w, scaled_h), (591, 296));
            assert_eq!((offset_x, offset_y), (0, 147));
            assert_eq!((canvas_w, canvas_h), (591, 591));
            assert!(scaled_w <= canvas_w && scaled_h <= canvas_h);
        },
        _ => panic!("expected pad geometry"),
    }
}

#[test]
fn border_one_centimeter_on_top_at_300dpi_adds_118px() {
    let mut t = spec(TransformMode::Border);
    t.insets = BorderInsets { top: 100, right: 0, bottom: 0, left: 0 };
    let g = compile_border(900, 900, &t);
    match g {
        PixelGeometry::Border { add_top, canvas_w, canvas_h, .. } => {
            assert_eq!(add_top, 118);
            assert_eq!(canvas_w, 900);
            assert_eq!(canvas_h, 1018);
        },
        _ => panic!("expected border geometry"),
    }
}

#[test]
fn border_negative_inset_beyond_the_image_is_clamped() {
    // Cropping a meter off a 900 px wide image would remove it
    // entirely; the clamp leaves the final pixel standing.
    let mut t = spec(TransformMode::Border);
    t.insets = BorderInsets { top: 0, right: 0, bottom: 0, left: -10000 };
    let g = compile_border(900, 900, &t);
    match g {
        PixelGeometry::Border { crop_left, canvas_w, canvas_h, .. } => {
            assert_eq!(crop_left, 899);
            assert_eq!(canvas_w, 1);
            assert_eq!(canvas_h, 900);
        },
        _ => panic!("expected border geometry"),
    }
}

#[test]
fn border_negative_insets_on_both_sides_still_leave_a_pixel() {
    let mut t = spec(TransformMode::Border);
    t.insets = BorderInsets { top: -10000, right: -10000, bottom: -10000, left: -10000 };
    let g = compile_border(50, 50, &t);
    match g {
        PixelGeometry::Border { canvas_w, canvas_h, .. } => {
            assert_eq!(canvas_w, 1);
            assert_eq!(canvas_h, 1);
        },
        _ => panic!("expected border geometry"),
    }
}

#[test]
fn border_mixed_insets_expand_then_crop() {
    let mut t = spec(TransformMode::Border);
    t.insets = BorderInsets { top: 100, right: -100, bottom: 0, left: 0 };
    let g = compile_border(900, 900, &t);
    match g {
        PixelGeometry::Border { add_top, crop_right, expanded_w, canvas_w, canvas_h, .. } => {
            assert_eq!(add_top, 118);
            assert_eq!(crop_right, 118);
            assert_eq!(expanded_w, 900);
            assert_eq!(canvas_w, 900 - 118);
            assert_eq!(canvas_h, 1018);
        },
        _ => panic!("expected border geometry"),
    }
}

#[test]
fn mirror_expands_with_mirrored_fill_and_ignores_negative_insets() {
    let mut t = spec(TransformMode::Mirror);
    t.insets = BorderInsets { top: 100, right: 100, bottom: -100, left: 100 };
    let g = compile_mirror(900, 900, &t);
    assert_eq!(
        g,
        PixelGeometry::Mirror {
            add_top: 118,
            add_right: 118,
            add_bottom: 0,
            add_left: 118,
            canvas_w: 900 + 118 + 118,
            canvas_h: 900 + 118,
        }
    );
}

#[test]
fn compile_dispatches_on_mode() {
    let g = compile(1000, 1000, &spec(TransformMode::Resize));
    assert_eq!(g, PixelGeometry::Resize { canvas_w: 591, canvas_h: 591 });
}

#[test]
fn mode_words_parse_with_pad_as_default() {
    assert_eq!(mode_from_name("crop"), TransformMode::Crop);
    assert_eq!(mode_from_name("resize"), TransformMode::Resize);
    assert_eq!(mode_from_name("pad"), TransformMode::Pad);
    assert_eq!(mode_from_name("border"), TransformMode::Border);
    assert_eq!(mode_from_name("mirror"), TransformMode::Mirror);
    assert_eq!(mode_from_name("anything else"), TransformMode::Pad);
}
