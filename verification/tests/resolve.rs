use frames_to_video::options::{
    crop_text, input_pattern, resolve_crop_field, resolve_fps, resolve_format, resolve_output,
    yes_default_no, yes_default_yes, CropRegion, OutputFormat,
};
use frames_to_video::text::{i32_to_string, parse_i32, parse_u32, trim, trim_end, u32_to_string};

#[test]
fn fps_empty_defaults() {
    assert_eq!(resolve_fps(""), 24);
    assert_eq!(resolve_fps("   "), 24);
    assert_eq!(resolve_fps("\t\n"), 24);
}

#[test]
fn fps_non_numeric_defaults() {
    assert_eq!(resolve_fps("abc"), 24);
    assert_eq!(resolve_fps("12x"), 24);
    assert_eq!(resolve_fps("4.5"), 24);
    assert_eq!(resolve_fps("-5"), 24);
    assert_eq!(resolve_fps("+"), 24);
}

#[test]
fn fps_numeric_parses() {
    assert_eq!(resolve_fps("30"), 30);
    assert_eq!(resolve_fps(" 12 "), 12);
    assert_eq!(resolve_fps("+7"), 7);
    assert_eq!(resolve_fps("0"), 0);
    assert_eq!(resolve_fps("4294967295"), 4294967295);
}

#[test]
fn fps_overflow_defaults() {
    assert_eq!(resolve_fps("4294967296"), 24);
    assert_eq!(resolve_fps("99999999999999999999"), 24);
}

#[test]
fn format_menu_resolves() {
    assert_eq!(resolve_format(""), Some(OutputFormat::Webm));
    assert_eq!(resolve_format("1"), Some(OutputFormat::Webm));
    assert_eq!(resolve_format(" 1 "), Some(OutputFormat::Webm));
    assert_eq!(resolve_format("2"), Some(OutputFormat::Mp4));
    assert_eq!(resolve_format("3"), Some(OutputFormat::Gif));
}

#[test]
fn format_menu_rejects_everything_else() {
    assert_eq!(resolve_format("4"), None);
    assert_eq!(resolve_format("0"), None);
    assert_eq!(resolve_format("x"), None);
    assert_eq!(resolve_format("12"), None);
    assert_eq!(resolve_format("webm"), None);
}

#[test]
fn yes_with_default_yes() {
    assert!(yes_default_yes(""));
    assert!(yes_default_yes("y"));
    assert!(yes_default_yes("Y"));
    assert!(yes_default_yes("yes"));
    assert!(yes_default_yes("y\n"));
    assert!(!yes_default_yes("n"));
    assert!(!yes_default_yes("no"));
    assert!(!yes_default_yes("q"));
}

#[test]
fn yes_with_default_no() {
    assert!(!yes_default_no(""));
    assert!(!yes_default_no("   "));
    assert!(yes_default_no("y"));
    assert!(yes_default_no("Yes"));
    assert!(!yes_default_no("n"));
}

#[test]
fn crop_non_numeric_defaults() {
    assert_eq!(resolve_crop_field("abc", 640), 640);
    assert_eq!(resolve_crop_field("", 480), 480);
    assert_eq!(resolve_crop_field("12.5", 0), 0);
    assert_eq!(resolve_crop_field("wide", 0), 0);
}

#[test]
fn crop_numeric_parses() {
    assert_eq!(resolve_crop_field("100", 640), 100);
    assert_eq!(resolve_crop_field(" -20 ", 0), -20);
    assert_eq!(resolve_crop_field("+5", 0), 5);
    assert_eq!(resolve_crop_field("2147483647", 0), 2147483647);
    assert_eq!(resolve_crop_field("2147483648", 0), 0);
    assert_eq!(resolve_crop_field("-2147483648", 0), -2147483648);
    assert_eq!(resolve_crop_field("-2147483649", 0), 0);
}

#[test]
fn pattern_embeds_frame_field() {
    assert_eq!(input_pattern("S_Film.", "_5p.png"), "S_Film.%04d_5p.png");
    assert_eq!(input_pattern("", ""), "%04d");
    assert_eq!(input_pattern("f.", ".png"), "f.%04d.png");
}

#[test]
fn output_name_defaults_per_format() {
    assert_eq!(resolve_output("", &OutputFormat::Webm), "output.webm");
    assert_eq!(resolve_output("  ", &OutputFormat::Mp4), "output.mp4");
    assert_eq!(resolve_output("\t", &OutputFormat::Gif), "output.gif");
    assert_eq!(resolve_output("movie.mp4", &OutputFormat::Mp4), "movie.mp4");
    assert_eq!(resolve_output("  clip.gif  ", &OutputFormat::Gif), "clip.gif");
}

#[test]
fn extensions_and_alpha() {
    assert_eq!(OutputFormat::Webm.extension(), "webm");
    assert_eq!(OutputFormat::Mp4.extension(), "mp4");
    assert_eq!(OutputFormat::Gif.extension(), "gif");
    assert!(OutputFormat::Webm.supports_alpha());
    assert!(OutputFormat::Gif.supports_alpha());
    assert!(!OutputFormat::Mp4.supports_alpha());
}

#[test]
fn crop_text_writes_all_fields() {
    let c = CropRegion { width: 640, height: 480, x: 0, y: 0 };
    assert_eq!(crop_text(&c), "640:480:0:0");
    let n = CropRegion { width: -1, height: 2147483647, x: -2147483648, y: 7 };
    assert_eq!(crop_text(&n), "-1:2147483647:-2147483648:7");
}

#[test]
fn integers_write_in_decimal() {
    assert_eq!(u32_to_string(0), "0");
    assert_eq!(u32_to_string(24), "24");
    assert_eq!(u32_to_string(4294967295), "4294967295");
    assert_eq!(i32_to_string(0), "0");
    assert_eq!(i32_to_string(-1), "-1");
    assert_eq!(i32_to_string(-2147483648), "-2147483648");
    assert_eq!(i32_to_string(2147483647), "2147483647");
}

#[test]
fn parse_round_trips() {
    assert_eq!(parse_u32("24"), Some(24));
    assert_eq!(parse_u32(""), None);
    assert_eq!(parse_u32("-1"), None);
    assert_eq!(parse_i32("-480"), Some(-480));
    assert_eq!(parse_i32("+0"), Some(0));
    assert_eq!(parse_i32("five"), None);
}

#[test]
fn trimming() {
    assert_eq!(trim("  a b  "), "a b");
    assert_eq!(trim("\t\n"), "");
    assert_eq!(trim(""), "");
    assert_eq!(trim_end("  a b  "), "  a b");
    assert_eq!(trim_end("y\r\n"), "y");
}

#[test]
fn trimming_covers_unicode_whitespace() {
    assert_eq!(trim("\u{a0}30\u{a0}"), "30");
    assert_eq!(trim("\u{3000}x\u{2028}"), "x");
    assert_eq!(trim_end("y\u{2009}\u{85}"), "y");
    assert_eq!(resolve_fps("30\u{a0}"), 30);
    assert_eq!(resolve_fps("\u{2002}\u{205f}"), 24);
    assert!(yes_default_yes("\u{a0}"));
    assert_eq!(resolve_crop_field("\u{1680}100\u{202f}", 640), 100);
}
