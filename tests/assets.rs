use timeclock_kiosk::assets::{collect_images, image_dir, is_image_file, message_file, message_outcome, FileRead};

fn listing(names: &[&str]) -> Vec<Result<String, String>> {
    names.iter().map(|n| Ok(n.to_string())).collect()
}

#[test]
fn list_images_keeps_exact_lowercase_extensions() {
    let entries = listing(&["a.jpg", "b.PNG", "c.png", "notes.txt"]);
    let r = collect_images(&entries);
    assert_eq!(r, Ok(vec!["/images/a.jpg".to_string(), "/images/c.png".to_string()]));
}

#[test]
fn list_images_accepts_jpeg_and_keeps_listing_order() {
    let entries = listing(&["z.jpeg", "m.png", "a.jpg"]);
    let r = collect_images(&entries);
    assert_eq!(
        r,
        Ok(vec!["/images/z.jpeg".to_string(), "/images/m.png".to_string(), "/images/a.jpg".to_string()])
    );
}

#[test]
fn list_images_uses_the_last_extension_only() {
    let entries = listing(&["photo.tar.jpeg", "archive.png.txt", "a.JPG", "b.jpg.", "noext"]);
    let r = collect_images(&entries);
    assert_eq!(r, Ok(vec!["/images/photo.tar.jpeg".to_string()]));
}

#[test]
fn list_images_skips_hidden_names_without_extension() {
    assert!(!is_image_file(".png"));
    assert!(is_image_file("..png"));
    assert!(is_image_file(".hidden.png"));
    assert!(!is_image_file(".."));
    assert!(!is_image_file(""));
    assert!(is_image_file("é.jpg"));
}

#[test]
fn list_images_of_empty_directory_is_empty() {
    let entries: Vec<Result<String, String>> = Vec::new();
    assert_eq!(collect_images(&entries), Ok(Vec::new()));
}

#[test]
fn list_images_fails_on_first_unreadable_entry() {
    let entries = vec![
        Ok("a.jpg".to_string()),
        Err("permission denied".to_string()),
        Ok("b.png".to_string()),
        Err("second".to_string()),
    ];
    assert_eq!(collect_images(&entries), Err("permission denied".to_string()));
}

#[test]
fn list_images_is_repeatable() {
    let entries = listing(&["a.jpg", "b.PNG", "c.png", "notes.txt"]);
    assert_eq!(collect_images(&entries), collect_images(&entries));
}

#[test]
fn asset_paths_sit_under_public() {
    assert_eq!(image_dir("/opt/kiosk"), "/opt/kiosk/public/images");
    assert_eq!(image_dir("/opt/kiosk/"), "/opt/kiosk/public/images");
    assert_eq!(image_dir(""), "public/images");
    assert_eq!(message_file("/opt/kiosk"), "/opt/kiosk/public/message.txt");
}

#[test]
fn read_message_missing_names_the_path() {
    let path = message_file("/opt/kiosk");
    let r = message_outcome(&path, FileRead::Missing);
    let e = r.unwrap_err();
    assert_eq!(e, "Message file not found at path: /opt/kiosk/public/message.txt");
    assert!(e.contains("/opt/kiosk/public/message.txt"));
}

#[test]
fn read_message_returns_contents_exactly() {
    let r = message_outcome("/opt/kiosk/public/message.txt", FileRead::Contents("Hello".to_string()));
    assert_eq!(r, Ok("Hello".to_string()));
}

#[test]
fn read_message_passes_read_error_on() {
    let r = message_outcome("/m.txt", FileRead::Unreadable("Is a directory (os error 21)".to_string()));
    assert_eq!(r, Err("Is a directory (os error 21)".to_string()));
}

#[test]
fn read_message_is_repeatable() {
    let a = message_outcome("/m.txt", FileRead::Contents("Hello".to_string()));
    let b = message_outcome("/m.txt", FileRead::Contents("Hello".to_string()));
    assert_eq!(a, b);
    let c = message_outcome("/m.txt", FileRead::Missing);
    let d = message_outcome("/m.txt", FileRead::Missing);
    assert_eq!(c, d);
}
