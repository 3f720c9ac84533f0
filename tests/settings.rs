use simple_image_converter::format::ImageFormat;
use simple_image_converter::options::ConversionOptions;
use simple_image_converter::settings::{get_value, load_settings, save_settings};

fn pairs(items: &[(&str, &str)]) -> Vec<(String, String)> {
    items.iter().map(|(k, v)| (k.to_string(), v.to_string())).collect()
}

#[test]
fn empty_store_gives_defaults() {
    let o = load_settings(&Vec::new());
    assert_eq!(o.format, ImageFormat::Jpeg);
    assert_eq!(o.quality, 80);
    assert!(o.png_compressed);
    assert!(!o.resize);
    assert_eq!(o.max_batch_size, 50);
    assert_eq!(o.custom_output_path, None);
}

#[test]
fn stored_values_are_read() {
    let s = pairs(&[
        ("format", "WebP"),
        ("quality", "95"),
        ("png_compressed", "false"),
        ("resize", "true"),
        ("target_width", "800"),
        ("prefix", "x_"),
        ("custom_output_path", "/tmp/out"),
        ("max_batch_size", "7"),
        ("is_dark_mode", "true"),
    ]);
    let o = load_settings(&s);
    assert_eq!(o.format, ImageFormat::WebP);
    assert_eq!(o.quality, 95);
    assert!(!o.png_compressed);
    assert!(o.resize);
    assert_eq!(o.target_width, "800");
    assert_eq!(o.target_height, "");
    assert_eq!(o.prefix, "x_");
    assert_eq!(o.custom_output_path, Some("/tmp/out".to_string()));
    assert_eq!(o.max_batch_size, 7);
    assert!(o.is_dark_mode);
}

#[test]
fn unreadable_numbers_fall_back() {
    let o = load_settings(&pairs(&[("quality", "300"), ("max_batch_size", "many"), ("format", "Gif")]));
    assert_eq!(o.quality, 80);
    assert_eq!(o.max_batch_size, 10);
    assert_eq!(o.format, ImageFormat::Jpeg);
    let o = load_settings(&pairs(&[("custom_output_path", ""), ("auto_suffix", "TRUE")]));
    assert_eq!(o.custom_output_path, None);
    assert!(!o.auto_suffix);
}

#[test]
fn first_pair_wins() {
    let s = pairs(&[("prefix", "a"), ("prefix", "b")]);
    assert_eq!(get_value(&s, "prefix"), Some("a".to_string()));
    assert_eq!(get_value(&s, "suffix"), None);
}

#[test]
fn save_then_load_restores_options() {
    let mut o = ConversionOptions::default();
    o.format = ImageFormat::Png;
    o.quality = 42;
    o.resize = true;
    o.target_height = "300".to_string();
    o.auto_suffix = true;
    o.custom_output_path = Some("C:\\out".to_string());
    o.max_batch_size = 12;
    let saved = save_settings(&o);
    assert_eq!(saved.len(), 15);
    assert_eq!(saved[0], ("format".to_string(), "Png".to_string()));
    assert_eq!(saved[1], ("quality".to_string(), "42".to_string()));
    let back = load_settings(&saved);
    assert_eq!(back.format, o.format);
    assert_eq!(back.quality, 42);
    assert!(back.resize);
    assert_eq!(back.target_height, "300");
    assert!(back.auto_suffix);
    assert_eq!(back.custom_output_path, o.custom_output_path);
    assert_eq!(back.max_batch_size, 12);
    assert!(back.png_compressed);
}
