use pds_project::{
    cut_default_path, file_name_from, generate_file_name, parse_config, Delays, DisplayInfo,
    ImageFormat, Screen,
};

#[test]
fn cut_default_path_test() {
    let s = "abcdefghijklmnopqr...".to_string();
    let a = cut_default_path("abcdefghijklmnopqrstuw");

    assert!(a == s, "Errore");
}

#[test]
fn short_paths_are_kept_whole() {
    assert_eq!(cut_default_path("abc"), "abc".to_string());
    assert_eq!(cut_default_path(""), "".to_string());
    // Exactly 21 characters: kept.
    assert_eq!(cut_default_path("abcdefghijklmnopqrstu"), "abcdefghijklmnopqrstu".to_string());
}

#[test]
fn config_record_round_trip() {
    let parsed = parse_config("path\nPng").unwrap();
    assert_eq!(parsed.0, "path".to_string());
    assert_eq!(parsed.1, Some(ImageFormat::Png));
}

#[test]
fn config_record_edge_cases() {
    // No second line: the record is rejected.
    assert!(parse_config("").is_none());
    assert!(parse_config("path").is_none());
    assert!(parse_config("path\n").is_none());

    // An unknown format name keeps the path and yields no format.
    let parsed = parse_config("somewhere\nWebp").unwrap();
    assert_eq!(parsed.0, "somewhere".to_string());
    assert_eq!(parsed.1, None);

    // Windows line endings are accepted.
    let parsed = parse_config("C:\\shots\r\nBmp\r\n").unwrap();
    assert_eq!(parsed.0, "C:\\shots".to_string());
    assert_eq!(parsed.1, Some(ImageFormat::Bmp));

    let parsed = parse_config("p\nGif\nextra ignored").unwrap();
    assert_eq!(parsed.1, Some(ImageFormat::Gif));
}

#[test]
fn format_names_and_extensions() {
    assert_eq!(ImageFormat::Png.as_str(), "Png");
    assert_eq!(ImageFormat::Bmp.as_str(), "Bitmap");
    assert_eq!(ImageFormat::Jpeg.as_str(), "Jpeg");
    assert_eq!(ImageFormat::Gif.as_str(), "Gif");
    assert_eq!(ImageFormat::Png.extension(), "png");
    assert_eq!(ImageFormat::Bmp.extension(), "bmp");
    assert_eq!(ImageFormat::Jpeg.extension(), "jpg");
    assert_eq!(ImageFormat::Gif.extension(), "gif");
}

#[test]
fn filter_order_puts_the_chosen_format_first() {
    let order = ImageFormat::with_first(ImageFormat::Jpeg);
    assert_eq!(
        order,
        vec![ImageFormat::Jpeg, ImageFormat::Bmp, ImageFormat::Png, ImageFormat::Gif]
    );
    let order = ImageFormat::with_first(ImageFormat::Png);
    assert_eq!(
        order,
        vec![ImageFormat::Png, ImageFormat::Bmp, ImageFormat::Jpeg, ImageFormat::Gif]
    );
}

#[test]
fn file_names_follow_the_screenshot_pattern() {
    let name = file_name_from("2024-01-02", "03-04-05", ImageFormat::Png);
    assert_eq!(name, "screenshot_2024-01-02_03-04-05.png".to_string());

    let generated = generate_file_name(ImageFormat::Jpeg);
    assert!(generated.starts_with("screenshot_"));
    assert!(generated.ends_with(".jpg"));
}

#[test]
fn delays_and_labels() {
    assert_eq!(Delays::Zero.millis(), 500);
    assert_eq!(Delays::Three.millis(), 3000);
    assert_eq!(Delays::Five.millis(), 5000);
    assert_eq!(Delays::Ten.millis(), 10000);
    assert_eq!(Delays::Zero.label(), "Nessun delay");
    assert_eq!(Delays::all_delays().len(), 4);
}

#[test]
fn screens_are_numbered_from_one() {
    let infos = vec![
        DisplayInfo { id: 7, is_primary: false },
        DisplayInfo { id: 9, is_primary: true },
        DisplayInfo { id: 11, is_primary: false },
    ];
    let screens = Screen::all_from(&infos);
    assert_eq!(screens.len(), 3);
    assert_eq!(screens[0], Screen { id: 7, index: 1, primary: false });
    assert_eq!(screens[1], Screen { id: 9, index: 2, primary: true });

    let primary = Screen::primary_from(&infos).unwrap();
    assert_eq!(primary, Screen { id: 9, index: 2, primary: true });

    let none = Screen::primary_from(&vec![DisplayInfo { id: 1, is_primary: false }]);
    assert!(none.is_none());
}
