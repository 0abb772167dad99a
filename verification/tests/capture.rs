use screenshotapp::imaging::{
    gray_alpha_to_rgba, gray_to_rgba, needs_resize, rgb_to_rgba, was_resized, OPAQUE,
};
use screenshotapp::naming::{
    decimal_string, is_image_extension, mime_type, path_is_jpeg, renamed_file_name,
    screenshot_base_name, screenshot_path, temp_screenshot_path, uses_counter,
};
use screenshotapp::report::{
    image_dimensions, last_word_bounds, line_contains, parse_number, reported_number,
};
use screenshotapp::settings::{FilenameBlock, FilenameTemplate};
use screenshotapp::text::{str_eq, word_ends_with};

fn block(id: &str, enabled: bool, value: Option<&str>) -> FilenameBlock {
    FilenameBlock { id: id.to_string(), enabled, value: value.map(|v| v.to_string()) }
}

fn template(blocks: Vec<FilenameBlock>, use_counter: bool) -> FilenameTemplate {
    FilenameTemplate { blocks, use_counter }
}

fn chars(s: &str) -> Vec<char> {
    s.chars().collect()
}

#[test]
fn numbers_in_decimal() {
    assert_eq!(decimal_string(0), "0");
    assert_eq!(decimal_string(7), "7");
    assert_eq!(decimal_string(10), "10");
    assert_eq!(decimal_string(1024), "1024");
    assert_eq!(decimal_string(4_294_967_295), "4294967295");
    assert_eq!(decimal_string(u64::MAX), "18446744073709551615");
    for n in [9u64, 99, 100, 101, 12_345_678_901] {
        assert_eq!(decimal_string(n), n.to_string());
    }
}

#[test]
fn the_default_template_gives_the_full_name() {
    let t = FilenameTemplate::default();
    assert_eq!(
        screenshot_base_name(&t, "03-09", "14-05-59", 70, 1024, 768),
        "llm-scr_03-09_14-05-59_70%_1024x768"
    );
    assert!(!uses_counter(&t));
}

#[test]
fn blocks_are_taken_in_their_order() {
    let t = template(
        vec![
            block("dimensions", true, None),
            block("counter", true, None),
            block("date", false, None),
            block("unknown", true, Some("x")),
            block("prefix", true, Some("shot")),
            block("quality", true, None),
        ],
        false,
    );
    assert_eq!(screenshot_base_name(&t, "d", "t", 5, 1, 2), "1x2_shot_5%");
    assert!(uses_counter(&t));
}

#[test]
fn empty_parts_are_left_out() {
    let t = template(
        vec![
            block("prefix", true, Some("")),
            block("date", true, None),
            block("time", true, None),
        ],
        false,
    );
    assert_eq!(screenshot_base_name(&t, "", "12-00-00", 1, 1, 1), "12-00-00");
    assert_eq!(screenshot_base_name(&t, "01-01", "", 1, 1, 1), "01-01");
    assert_eq!(screenshot_base_name(&t, "", "", 1, 1, 1), "screenshot");
}

#[test]
fn a_prefix_without_value_is_the_default_prefix() {
    let t = template(vec![block("prefix", true, None)], false);
    assert_eq!(screenshot_base_name(&t, "d", "t", 1, 1, 1), "llm-scr");
}

#[test]
fn a_template_without_parts_gives_screenshot() {
    assert_eq!(screenshot_base_name(&template(vec![], false), "d", "t", 1, 1, 1), "screenshot");
    let off = template(vec![block("prefix", false, Some("p")), block("counter", true, None)], false);
    assert_eq!(screenshot_base_name(&off, "d", "t", 1, 1, 1), "screenshot");
}

#[test]
fn when_a_counter_is_used() {
    assert!(!uses_counter(&template(vec![], false)));
    assert!(uses_counter(&template(vec![], true)));
    assert!(!uses_counter(&template(vec![block("counter", false, None)], false)));
    assert!(uses_counter(&template(vec![block("counter", false, None)], true)));
    assert!(uses_counter(&template(
        vec![block("date", true, None), block("counter", true, None)],
        false
    )));
    assert!(!uses_counter(&template(vec![block("Counter", true, None)], false)));
}

#[test]
fn paths_on_the_desktop() {
    assert_eq!(screenshot_path("/Users/me", "shot", 1, "jpg"), "/Users/me/Desktop/shot.jpg");
    assert_eq!(screenshot_path("/Users/me", "shot", 2, "jpg"), "/Users/me/Desktop/shot_2.jpg");
    assert_eq!(screenshot_path("/tmp", "a_b", 130, "png"), "/tmp/Desktop/a_b_130.png");
    assert_eq!(screenshot_path("", "", 0, ""), "/Desktop/_0.");
    assert_eq!(
        temp_screenshot_path("/Users/me", 1_700_000_000_123, "png"),
        "/Users/me/Desktop/llm-scr_tmp_1700000000123.png"
    );
}

#[test]
fn names_given_by_hand() {
    assert_eq!(renamed_file_name("my shot", "jpg"), "my shot.jpg");
    assert_eq!(renamed_file_name("  a/b:c  ", "png"), "abc.png");
    assert_eq!(renamed_file_name("/ :x: /", "jpg"), "x.jpg");
    assert_eq!(renamed_file_name(":/", "jpg"), ".jpg");
    assert_eq!(renamed_file_name("", "jpg"), ".jpg");
    assert_eq!(renamed_file_name("\u{a0}é \u{2003}", "jpg"), "é.jpg");
    for name in ["a/ b", " : ", "x\ty/ ", "plain"] {
        let std: String = name.chars().filter(|c| *c != '/' && *c != ':').collect();
        assert_eq!(renamed_file_name(name, "e"), format!("{}.e", std.trim()));
    }
}

#[test]
fn media_types() {
    assert_eq!(mime_type("/a/b.jpg"), "image/jpeg");
    assert_eq!(mime_type("/a/b.JPG"), "image/jpeg");
    assert_eq!(mime_type("/a/b.jpeg"), "image/jpeg");
    assert_eq!(mime_type("/a/b.JpEg"), "image/jpeg");
    assert_eq!(mime_type(".jpg"), "image/jpeg");
    assert_eq!(mime_type("/a/b.png"), "image/png");
    assert_eq!(mime_type("/a/b.jpg.png"), "image/png");
    assert_eq!(mime_type("/a/bjpg"), "image/png");
    assert_eq!(mime_type("jpg"), "image/png");
    assert_eq!(mime_type(""), "image/png");
    assert!(path_is_jpeg("x.jpeg"));
    assert!(!path_is_jpeg("x.jpe"));
}

#[test]
fn image_extensions() {
    for e in ["png", "PNG", "jpg", "Jpg", "jpeg", "JPEG"] {
        assert!(is_image_extension(e));
    }
    for e in ["", "gif", "pngx", "jpe", ".png", "tiff"] {
        assert!(!is_image_extension(e));
    }
}

#[test]
fn strings_compared() {
    assert!(str_eq("", ""));
    assert!(str_eq("counter", "counter"));
    assert!(!str_eq("counter", "Counter"));
    assert!(!str_eq("counter", "counte"));
    assert!(word_ends_with(&chars("a.jpg"), ".jpg"));
    assert!(word_ends_with(&chars("a.jpg"), ""));
    assert!(!word_ends_with(&chars("jpg"), ".jpg"));
    assert!(!word_ends_with(&chars("a.jpg"), ".jpeg"));
}

#[test]
fn resize_rules() {
    assert!(needs_resize(1024, 1025));
    assert!(!needs_resize(1024, 1024));
    assert!(!needs_resize(1024, 10));
    assert!(!needs_resize(0, 5000));
    assert!(was_resized(1024, 1024));
    assert!(!was_resized(1024, 1023));
    assert!(!was_resized(0, 0));
}

#[test]
fn three_bytes_a_pixel_made_four() {
    assert_eq!(OPAQUE, 255);
    assert_eq!(rgb_to_rgba(&[]), Vec::<u8>::new());
    assert_eq!(rgb_to_rgba(&[1, 2, 3]), vec![1, 2, 3, 255]);
    assert_eq!(rgb_to_rgba(&[1, 2, 3, 4, 5, 6]), vec![1, 2, 3, 255, 4, 5, 6, 255]);
    // what is left over at the end gets its alpha too
    assert_eq!(rgb_to_rgba(&[1, 2, 3, 4]), vec![1, 2, 3, 255, 4, 255]);
    assert_eq!(rgb_to_rgba(&[1, 2]), vec![1, 2, 255]);
    let rows: Vec<u8> = (0u8..=200).collect();
    let mut expected = Vec::new();
    for chunk in rows.chunks(3) {
        expected.extend_from_slice(chunk);
        expected.push(255);
    }
    assert_eq!(rgb_to_rgba(&rows), expected);
}

#[test]
fn grey_made_four_bytes_a_pixel() {
    assert_eq!(gray_to_rgba(&[]), Vec::<u8>::new());
    assert_eq!(gray_to_rgba(&[7]), vec![7, 7, 7, 255]);
    assert_eq!(gray_to_rgba(&[0, 200]), vec![0, 0, 0, 255, 200, 200, 200, 255]);
}

#[test]
fn grey_with_alpha_made_four_bytes_a_pixel() {
    assert_eq!(gray_alpha_to_rgba(&[]), Vec::<u8>::new());
    assert_eq!(gray_alpha_to_rgba(&[7, 9]), vec![7, 7, 7, 9]);
    assert_eq!(gray_alpha_to_rgba(&[0, 255, 200, 1]), vec![0, 0, 0, 255, 200, 200, 200, 1]);
}

#[test]
fn the_report_of_the_image_tool() {
    let report = "/Users/me/Desktop/shot.png\n  pixelWidth: 1440\n  pixelHeight: 900\n";
    assert_eq!(reported_number(report, "pixelWidth"), Some(1440));
    assert_eq!(reported_number(report, "pixelHeight"), Some(900));
    assert_eq!(reported_number(report, "dpiWidth"), None);
    assert_eq!(image_dimensions(report), (1440, 900));
}

#[test]
fn a_report_without_numbers_gives_the_defaults() {
    assert_eq!(image_dimensions(""), (800, 600));
    assert_eq!(image_dimensions("pixelWidth: <nil>\npixelHeight:"), (800, 600));
    assert_eq!(image_dimensions("pixelWidth: 12\n"), (12, 600));
    assert_eq!(image_dimensions("pixelHeight: 12"), (800, 12));
}

#[test]
fn the_first_line_with_the_name_decides() {
    assert_eq!(reported_number("pixelWidth: x\npixelWidth: 5", "pixelWidth"), None);
    assert_eq!(reported_number("pixelWidth: 4\npixelWidth: 5", "pixelWidth"), Some(4));
    assert_eq!(reported_number("a\n\nxpixelWidthy 6 \t\n", "pixelWidth"), Some(6));
    assert_eq!(reported_number("pixelWidth: 7\r\n", "pixelWidth"), Some(7));
    assert_eq!(reported_number("pixel\nWidth: 7", "pixelWidth"), None);
    assert_eq!(reported_number("pixelWidth", "pixelWidth"), None);
    assert_eq!(reported_number("12", ""), Some(12));
    assert_eq!(reported_number("", ""), None);
    assert_eq!(reported_number("\n5", ""), None);
}

#[test]
fn reading_agrees_with_the_standard_way() {
    let reports = [
        "pixelWidth: 1440",
        "pixelWidth: +12",
        "pixelWidth: -12",
        "pixelWidth: 4294967295",
        "pixelWidth: 4294967296",
        "pixelWidth: 99999999999999999999999999",
        "pixelWidth: 000000000000000000000000012",
        "pixelWidth: 12a",
        "pixelWidth: +",
        "pixelWidth: ++1",
        "pixelWidth: 1 2\u{a0}3  ",
        "x\r\npixelWidth 8\r",
        "pixelWidth\r\n9",
        "pixelWidth: ١٢",
    ];
    for report in reports {
        let std = report
            .lines()
            .find(|line| line.contains("pixelWidth"))
            .and_then(|line| line.split_whitespace().last())
            .and_then(|w| w.parse::<u32>().ok());
        assert_eq!(reported_number(report, "pixelWidth"), std);
    }
}

#[test]
fn words_and_numbers() {
    assert!(line_contains(&chars("abc"), &chars("bc")));
    assert!(line_contains(&chars("abc"), &chars("")));
    assert!(line_contains(&chars(""), &chars("")));
    assert!(!line_contains(&chars("abc"), &chars("abcd")));
    assert!(!line_contains(&chars("abc"), &chars("ac")));
    assert_eq!(last_word_bounds(&chars("ab cd  ")), Some((3, 5)));
    assert_eq!(last_word_bounds(&chars("abcd")), Some((0, 4)));
    assert_eq!(last_word_bounds(&chars("   ")), None);
    assert_eq!(last_word_bounds(&chars("")), None);
    assert_eq!(parse_number(&chars("x+42y"), 1, 4), Some(42));
    assert_eq!(parse_number(&chars("x+42y"), 1, 5), None);
    assert_eq!(parse_number(&chars("x+42y"), 2, 2), None);
    assert_eq!(parse_number(&chars("0"), 0, 1), Some(0));
}
