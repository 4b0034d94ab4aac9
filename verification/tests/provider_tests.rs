//! Provider behavior: hex color configuration, exhaustion being
//! terminal, and the folder provider draining its backing list.

use tg_avatar_changer_bot::avatar_provider::folder::{has_image_extension, FolderProvider};
use tg_avatar_changer_bot::avatar_provider::mock::{
    MockAvatarProvider, ScriptedOutcome, ScriptedProvider,
};
use tg_avatar_changer_bot::avatar_provider::solid_color::{parse_hex_color, SolidColorProvider};
use tg_avatar_changer_bot::avatar_provider::{AvatarProvider, FetchError};
use tg_avatar_changer_bot::avatar_image::Rgba;

#[test]
fn hex_color_parses_six_digits() {
    let c = parse_hex_color("#ff00aa").unwrap();
    assert_eq!(c, Rgba { r: 255, g: 0, b: 170, a: 255 });
    let c = parse_hex_color("00FF7f").unwrap();
    assert_eq!(c, Rgba { r: 0, g: 255, b: 127, a: 255 });
    let c = parse_hex_color("##123456").unwrap();
    assert_eq!(c, Rgba { r: 0x12, g: 0x34, b: 0x56, a: 255 });
}

#[test]
fn hex_color_rejects_bad_inputs() {
    assert!(parse_hex_color("").is_err());
    assert!(parse_hex_color("#fff").is_err());
    assert!(parse_hex_color("ff00aa0").is_err());
    assert!(parse_hex_color("ff00ag").is_err());
    assert!(parse_hex_color("+f+e+d").is_err());
}

#[test]
fn solid_color_provider_returns_configured_square() {
    let mut p = SolidColorProvider::new(32, Some(Rgba { r: 1, g: 2, b: 3, a: 255 }));
    let av = p.fetch_avatar().unwrap();
    assert_eq!(av.width(), 32);
    assert_eq!(av.height(), 32);
    assert_eq!(p.how_much_is_left(), None);
}

#[test]
fn solid_color_provider_default_is_512_random() {
    let mut p = SolidColorProvider::default();
    assert_eq!(p.size, 512);
    assert!(p.color.is_none());
    let av = p.fetch_avatar().unwrap();
    assert_eq!(av.width(), 512);
    assert_eq!(av.height(), 512);
}

#[test]
fn mock_provider_returns_square_immediately() {
    let mut p = MockAvatarProvider::new(16);
    let av = p.fetch_avatar().unwrap();
    assert_eq!(av.width(), 16);
    assert_eq!(av.height(), 16);
    let av = p.fetch_avatar().unwrap();
    assert_eq!(av.width(), 16);
    assert_eq!(p.how_much_is_left(), None);
}

#[test]
fn scripted_exhaustion_is_terminal() {
    let mut p = ScriptedProvider::new(vec![
        ScriptedOutcome::Succeed,
        ScriptedOutcome::Exhaust,
        ScriptedOutcome::Succeed,
    ]);
    assert!(p.fetch_avatar().is_ok());
    assert_eq!(p.fetch_avatar().unwrap_err(), FetchError::NoMoreAvatars);
    // no resurrection, even though the script holds a later success
    assert_eq!(p.fetch_avatar().unwrap_err(), FetchError::NoMoreAvatars);
    assert_eq!(p.fetch_avatar().unwrap_err(), FetchError::NoMoreAvatars);
}

#[test]
fn image_extensions_recognized_case_insensitively() {
    assert!(has_image_extension("a.png"));
    assert!(has_image_extension("a.PNG"));
    assert!(has_image_extension("photos/b.JPg"));
    assert!(has_image_extension("c.jpeg"));
    assert!(!has_image_extension("c.txt"));
    assert!(!has_image_extension("noextension"));
    assert!(!has_image_extension(".png"));
    assert!(!has_image_extension("dir.d/file"));
    assert!(!has_image_extension("archive.png/"));
}

#[test]
fn folder_provider_filters_and_drains() {
    let provider = FolderProvider::new(vec![
        "img/a.png".to_string(),
        "img/notes.txt".to_string(),
        "img/b.JPG".to_string(),
        "img/c.jpeg".to_string(),
    ]);
    let mut provider = provider;
    assert_eq!(provider.how_much_is_left(), Some(3));

    // exactly three paths come out before exhaustion, newest first
    assert_eq!(provider.next_image_path().unwrap(), "img/c.jpeg");
    assert_eq!(provider.how_much_is_left(), Some(2));
    assert_eq!(provider.next_image_path().unwrap(), "img/b.JPG");
    assert_eq!(provider.how_much_is_left(), Some(1));
    assert_eq!(provider.next_image_path().unwrap(), "img/a.png");
    assert_eq!(provider.how_much_is_left(), Some(0));

    // exhaustion, and it is terminal
    assert_eq!(
        provider.next_image_path().unwrap_err(),
        FetchError::NoMoreAvatars
    );
    assert_eq!(provider.how_much_is_left(), Some(0));
    assert_eq!(
        provider.next_image_path().unwrap_err(),
        FetchError::NoMoreAvatars
    );
}
