use rendering_worker::commands::{dec_i64, dec_u64, pandoc_args, vivliostyle_args};
use rendering_worker::formats::{PandocExportStep, VivliostyleExportStep};
use rendering_worker::ids::uuid_hyphenated;
use rendering_worker::qr::qrcode_img_tag;
use rendering_worker::textutil::{contains_sub, join3, remove_all};

#[test]
fn uuid_format_of_zero() {
    assert_eq!(uuid_hyphenated(0), "00000000-0000-0000-0000-000000000000");
}

#[test]
fn uuid_format_groups_hex_digits() {
    let n: u128 = 0x123456789abcdef0123456789abcdef0;
    assert_eq!(uuid_hyphenated(n), "12345678-9abc-def0-1234-56789abcdef0");
}

#[test]
fn decimal_formatting() {
    assert_eq!(dec_u64(0), "0");
    assert_eq!(dec_u64(90210), "90210");
    assert_eq!(dec_i64(-3), "-3");
    assert_eq!(dec_i64(12), "12");
}

#[test]
fn remove_all_strips_every_occurrence() {
    assert_eq!(remove_all("book.hbs.html", ".hbs.html"), "book");
    assert_eq!(remove_all("a.hbs.htmlb.hbs.html", ".hbs.html"), "ab");
    assert_eq!(remove_all("plain.md", ".hbs.html"), "plain.md");
    assert_eq!(remove_all("anything", ""), "anything");
}

#[test]
fn contains_finds_the_success_line() {
    let out = "info: Built successfully in 3s";
    assert!(contains_sub(out, "Built successfully"));
    assert!(!contains_sub("error: browser crashed", "Built successfully"));
    assert!(contains_sub("x", ""));
}

#[test]
fn join_builds_paths() {
    assert_eq!(join3("temp/a", "/", "book.pdf"), "temp/a/book.pdf");
}

#[test]
fn vivliostyle_argv_exact() {
    let step = VivliostyleExportStep {
        input_file: String::from("book.html"),
        output_file: String::from("book.pdf"),
        press_ready: true,
    };
    let dir = String::from("temp/s1");
    let args = vivliostyle_args(&step, &dir, true, false);
    let expected = vec![
        "bwrap", "--unshare-all", "--tmpfs", "/tmp", "--ro-bind", "/lib", "/lib", "--ro-bind",
        "/lib64", "/lib64", "--ro-bind", "/usr/lib", "/usr/lib", "--proc", "/proc", "--dev",
        "/dev", "--bind", "temp/s1", "/data", "--ro-bind", "rendering-envs/vivliostyle", "/env",
        "/env/node", "/env/node_modules/.bin/vivliostyle", "build", "/data/book.html",
        "--ro-bind", "/usr/share/fonts", "/usr/share/fonts", "-p", "-o", "/data/book.pdf",
        "--executable-browser", "/env/chromium/chrome",
    ];
    assert_eq!(args, expected);
}

#[test]
fn vivliostyle_argv_without_options() {
    let step = VivliostyleExportStep {
        input_file: String::from("in.html"),
        output_file: String::from("out.pdf"),
        press_ready: false,
    };
    let dir = String::from("temp/s2");
    let args = vivliostyle_args(&step, &dir, false, false);
    assert!(!args.contains(&String::from("-p")));
    assert!(!args.contains(&String::from("/usr/share/fonts")));
    assert_eq!(args[args.len() - 4], "-o");
    assert_eq!(args[args.len() - 3], "/data/out.pdf");
}

#[test]
fn pandoc_argv_with_every_flag() {
    let step = PandocExportStep {
        input_file: String::from("book.md"),
        input_format: String::from("markdown"),
        output_file: String::from("book.epub"),
        output_format: String::from("epub3"),
        shift_heading_level_by: Some(-1),
        metadata_file: Some(String::from("meta.yaml")),
        epub_cover_image_path: Some(String::from("cover.png")),
        epub_title_page: Some(false),
        epub_metadata_file: Some(String::from("epub.xml")),
        epub_embed_fonts: Some(vec![String::from("a.ttf"), String::from("b.ttf")]),
    };
    let dir = String::from("temp/s3");
    let args = pandoc_args(&step, &dir);
    let expected = vec![
        "bwrap", "--unshare-all", "--bind", "temp/s3", "/data", "--ro-bind",
        "rendering-envs/pandoc", "/env", "/env/pandoc", "-o", "/data/book.epub", "-t", "epub3",
        "-f", "markdown", "--shift-heading-level-by=-1", "--metadata-file=meta.yaml",
        "--epub-cover-image=cover.png", "--epub-title-page=false", "--epub-metadata=epub.xml",
        "--epub-embed-font=a.ttf", "--epub-embed-font=b.ttf", "data/book.md",
    ];
    assert_eq!(args, expected);
}

#[test]
fn pandoc_argv_without_options() {
    let step = PandocExportStep {
        input_file: String::from("in.md"),
        input_format: String::from("markdown"),
        output_file: String::from("out.pdf"),
        output_format: String::from("pdf"),
        shift_heading_level_by: None,
        metadata_file: None,
        epub_cover_image_path: None,
        epub_title_page: None,
        epub_metadata_file: None,
        epub_embed_fonts: None,
    };
    let dir = String::from("temp/s4");
    let args = pandoc_args(&step, &dir);
    let expected = vec![
        "bwrap", "--unshare-all", "--bind", "temp/s4", "/data", "--ro-bind",
        "rendering-envs/pandoc", "/env", "/env/pandoc", "-o", "/data/out.pdf", "-t", "pdf",
        "-f", "markdown", "data/in.md",
    ];
    assert_eq!(args, expected);
}

#[test]
fn qr_tag_wraps_a_jpeg_data_url() {
    let tag = qrcode_img_tag("https://example.org/q").unwrap();
    let prefix = "<img class=\"qrcode\" src=\"data:image/jpeg;base64,";
    let suffix = "\" alt=\"QR Code\" />";
    assert!(tag.starts_with(prefix));
    assert!(tag.ends_with(suffix));
    let inner = &tag[prefix.len()..tag.len() - suffix.len()];
    // JPEG bytes start with 0xFF 0xD8 0xFF, which is "/9j/" in base64.
    assert!(inner.starts_with("/9j/"));
    assert_eq!(inner.len() % 4, 0);
}

#[test]
fn qr_tag_declines_a_value_no_code_fits() {
    // The largest QR code holds just under three kilobytes of bytes; four
    // thousand characters fit no version, so no tag is produced.
    let long = "x".repeat(4000);
    assert!(qrcode_img_tag(&long).is_none());
}
