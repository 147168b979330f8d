use imagetool::argfmt::dims_arg;
use imagetool::argfmt::rect_arg;
use imagetool::argfmt::viewport_arg;
use imagetool::identify::density_usable;
use imagetool::identify::format_size_cm;
use imagetool::identify::parse_identify_line;
use imagetool::identify::ImageMeta;
use imagetool::pathsplit::split_extension;
use imagetool::pathsplit::temp_name;
use imagetool::replicate::replica_names;
use imagetool::thumbnail::asset_url;
use imagetool::thumbnail::asset_url_windows;
use imagetool::thumbnail::thumbnail_data_url;
use imagetool::Dpi;
use imagetool::ResolutionUnit;

#[test]
fn identify_line_with_inch_density() {
    let m = parse_identify_line(b"1000 800 300 PixelsPerInch\n").unwrap();
    assert_eq!(
        m,
        ImageMeta {
            width_px: 1000,
            height_px: 800,
            dpi: Dpi { num: 300, den: 1 },
            unit: ResolutionUnit::PerInch,
        }
    );
}

#[test]
fn identify_line_with_centimeter_density() {
    let m = parse_identify_line(b"800 600 118.11 PixelsPerCentimeter").unwrap();
    assert_eq!(m.width_px, 800);
    assert_eq!(m.height_px, 600);
    // 118.11 per cm = 11811/100 per cm = 11811 * 254 / 10000 per inch.
    assert_eq!(m.dpi, Dpi { num: 11811 * 254, den: 10000 });
    assert_eq!(m.unit, ResolutionUnit::PerCentimeter);
}

#[test]
fn identify_line_without_density_defaults_to_300_per_inch() {
    let m = parse_identify_line(b"640 480").unwrap();
    assert_eq!(m.dpi, Dpi { num: 300, den: 1 });
    assert_eq!(m.unit, ResolutionUnit::PerInch);
}

#[test]
fn identify_line_with_zero_density_defaults_to_300_per_inch() {
    let m = parse_identify_line(b"640 480 0 PixelsPerInch").unwrap();
    assert_eq!(m.dpi, Dpi { num: 300, den: 1 });
    assert_eq!(m.unit, ResolutionUnit::PerInch);
}

#[test]
fn identify_line_with_density_but_no_unit_word_reports_inches() {
    let m = parse_identify_line(b"640 480 72").unwrap();
    assert_eq!(m.dpi, Dpi { num: 72, den: 1 });
    assert_eq!(m.unit, ResolutionUnit::PerInch);
}

#[test]
fn density_reports_are_vetted() {
    assert!(density_usable(b"300"));
    assert!(density_usable(b"  118.11\n"));
    assert!(!density_usable(b"0"));
    assert!(!density_usable(b"0.0"));
    assert!(!density_usable(b""));
    assert!(!density_usable(b"undefined"));
}

#[test]
fn identify_line_without_dimensions_is_rejected() {
    assert!(parse_identify_line(b"").is_none());
    assert!(parse_identify_line(b"abc 100").is_none());
    assert!(parse_identify_line(b"100").is_none());
}

#[test]
fn size_string_rounds_to_one_decimal() {
    // 1000 px at 300 dpi is 84.67 tenths of a centimeter, so 8.5 cm;
    // 800 px is 67.7 tenths, so 6.8 cm.
    let s = format_size_cm(1000, 800, Dpi { num: 300, den: 1 });
    assert_eq!(s, "8.5 x 6.8 cm");
}

#[test]
fn size_string_with_exact_values() {
    // 3000 px at 300 dpi is exactly 10 inches = 25.4 cm.
    let s = format_size_cm(3000, 3000, Dpi::per_inch(300));
    assert_eq!(s, "25.4 x 25.4 cm");
}

#[test]
fn resolution_constructors_normalize_to_inches() {
    assert_eq!(Dpi::per_inch(300), Dpi { num: 300, den: 1 });
    assert_eq!(Dpi::per_centimeter(118), Dpi { num: 118 * 254, den: 100 });
    assert_eq!(Dpi::default_dpi(), Dpi { num: 300, den: 1 });
}

#[test]
fn extensions_split_at_the_last_dot() {
    assert_eq!(split_extension("photo.tiff"), ("photo".to_string(), "tiff".to_string()));
    assert_eq!(split_extension("a.tar.gz"), ("a.tar".to_string(), "gz".to_string()));
    assert_eq!(split_extension("noext"), ("noext".to_string(), "".to_string()));
    assert_eq!(split_extension(".hidden"), (".hidden".to_string(), "".to_string()));
    assert_eq!(split_extension(""), ("".to_string(), "".to_string()));
}

#[test]
fn temp_names_are_siblings_of_the_original() {
    assert_eq!(temp_name("IMG", "psd"), "IMG_temp.psd");
}

#[test]
fn replica_names_number_each_copy() {
    let names = replica_names("IMG", 3, "jpg");
    assert_eq!(names, vec!["IMG-1-3.jpg", "IMG-2-3.jpg", "IMG-3-3.jpg"]);
}

#[test]
fn replication_below_two_copies_produces_nothing() {
    assert_eq!(replica_names("IMG", 1, "jpg").len(), 0);
    assert_eq!(replica_names("IMG", 0, "jpg").len(), 0);
}

#[test]
fn asset_urls() {
    assert_eq!(asset_url("pics/a.png"), "asset://localhost/pics/a.png");
    assert_eq!(
        asset_url_windows("C:\\pics\\a.png"),
        "http://asset.localhost/C%3A/pics/a.png"
    );
}

#[test]
fn windows_asset_url_encodes_only_the_first_colon() {
    assert_eq!(
        asset_url_windows("C:\\a:b.png"),
        "http://asset.localhost/C%3A/a:b.png"
    );
}

#[test]
fn data_url_wraps_base64_of_the_bytes() {
    // Would fail if the encoder handed its input back unchanged.
    assert_eq!(thumbnail_data_url(b"hello"), "data:image/jpeg;base64,aGVsbG8=");
    assert_eq!(thumbnail_data_url(b""), "data:image/jpeg;base64,");
}

#[test]
fn engine_argument_forms() {
    assert_eq!(dims_arg(591, 591), "591x591");
    assert_eq!(rect_arg(500, 500, 0, 0), "500x500+0+0");
    assert_eq!(viewport_arg(1136, 1136, 118, 118), "1136x1136-118-118");
}

#[test]
fn crop_instructions_spell_out_the_whole_pipeline() {
    let g = imagetool::geometry::PixelGeometry::Crop {
        src_x: 0,
        src_y: 0,
        src_w: 500,
        src_h: 500,
        scaled_w: 591,
        scaled_h: 591,
        trim_x: 0,
        trim_y: 0,
        canvas_w: 591,
        canvas_h: 591,
    };
    let args = imagetool::argfmt::engine_instructions(&g);
    assert_eq!(
        args,
        vec![
            "-crop",
            "500x500+0+0",
            "+repage",
            "-resize",
            "591x591^",
            "-gravity",
            "center",
            "-background",
            "white",
            "-extent",
            "591x591",
            "-flatten",
            "-density",
            "300",
            "-units",
            "PixelsPerInch",
        ]
    );
}

#[test]
fn border_instructions_skip_the_crop_when_nothing_is_cropped() {
    let g = imagetool::geometry::PixelGeometry::Border {
        add_top: 118,
        add_right: 0,
        add_bottom: 0,
        add_left: 0,
        crop_top: 0,
        crop_right: 0,
        crop_bottom: 0,
        crop_left: 0,
        expanded_w: 900,
        expanded_h: 1018,
        canvas_w: 900,
        canvas_h: 1018,
    };
    let args = imagetool::argfmt::engine_instructions(&g);
    assert!(!args.contains(&"-crop".to_string()));
    assert!(args.contains(&"0x118".to_string()));
    assert!(args.contains(&"900x1018".to_string()));
    assert_eq!(args[args.len() - 4..], ["-density", "300", "-units", "PixelsPerInch"]);
}
