//! The trusted image operations, exercised through public functions:
//! each one visibly transforms its input rather than handing it back.

use tg_avatar_changer_bot::avatar_image::{
    crop_and_resize, crop_avatar, decode_avatar, encode_jpeg, hue_rotate_avatar, random_color,
    random_in_range, scale_avatar, solid_avatar, Rgba,
};
use tg_avatar_changer_bot::avatar_provider::folder::FolderProvider;
use tg_avatar_changer_bot::avatar_provider::unsplash::UnsplashProvider;
use tg_avatar_changer_bot::avatar_provider::FetchError;
use tg_avatar_changer_bot::publish::scratch_bytes;

fn some_color() -> Rgba {
    Rgba { r: 10, g: 200, b: 30, a: 255 }
}

#[test]
fn jpeg_round_trip_keeps_dimensions() {
    let av = solid_avatar(20, &some_color());
    let bytes = encode_jpeg(&av).unwrap();
    assert!(!bytes.is_empty());
    let back = decode_avatar(&bytes).unwrap();
    assert_eq!(back.width(), 20);
    assert_eq!(back.height(), 20);
}

#[test]
fn scratch_bytes_decode_back_through_the_folder_path() {
    let av = solid_avatar(9, &some_color());
    let bytes = scratch_bytes(&av).unwrap();
    let back = FolderProvider::decode_image(&bytes).unwrap();
    assert_eq!((back.width(), back.height()), (9, 9));
    assert_eq!(
        FolderProvider::decode_image(&[9u8, 9, 9]).unwrap_err(),
        FetchError::ImageError
    );
}

#[test]
fn decode_rejects_garbage() {
    let err = decode_avatar(&[0u8, 1, 2, 3, 4, 5]).unwrap_err();
    assert_eq!(err, FetchError::ImageError);
    let err = decode_avatar(&[]).unwrap_err();
    assert_eq!(err, FetchError::ImageError);
}

#[test]
fn crop_clamps_to_image_bounds() {
    let av = solid_avatar(10, &some_color());
    let cut = crop_avatar(&av, 4, 8, 100, 100);
    assert_eq!((cut.width(), cut.height()), (6, 2));
    let cut = crop_avatar(&av, 50, 0, 5, 5);
    assert_eq!((cut.width(), cut.height()), (0, 5));
}

#[test]
fn scale_hits_exact_dimensions() {
    let av = solid_avatar(10, &some_color());
    let up = scale_avatar(&av, 33, 7);
    assert_eq!((up.width(), up.height()), (33, 7));
}

#[test]
fn crop_and_resize_normalizes_any_shape() {
    let tall = crop_avatar(&solid_avatar(50, &some_color()), 0, 0, 20, 50);
    assert_eq!((tall.width(), tall.height()), (20, 50));
    let squared = crop_and_resize(&tall, 16);
    assert_eq!((squared.width(), squared.height()), (16, 16));
}

#[test]
fn hue_rotation_keeps_dimensions_and_changes_pixels() {
    let av = solid_avatar(12, &some_color());
    let rotated = hue_rotate_avatar(&av, 180);
    assert_eq!((rotated.width(), rotated.height()), (12, 12));
    assert_ne!(encode_jpeg(&av).unwrap(), encode_jpeg(&rotated).unwrap());
}

#[test]
fn random_draws_respect_their_contracts() {
    for _ in 0..50 {
        let d = random_in_range(-3, 3);
        assert!((-3..=3).contains(&d));
        let c = random_color();
        assert_eq!(c.a, 255);
    }
    assert_eq!(random_in_range(7, 7), 7);
}

#[test]
fn unsplash_request_is_built_from_configuration() {
    let p = UnsplashProvider::new("key".to_string(), Some("cats".to_string()));
    let params = p.request_params();
    assert_eq!(
        params,
        vec![
            ("client_id".to_string(), "key".to_string()),
            ("orientation".to_string(), "squarish".to_string()),
            ("query".to_string(), "cats".to_string()),
        ]
    );

    let p = UnsplashProvider::new("key".to_string(), None);
    assert_eq!(p.request_params().len(), 2);
    assert_eq!(
        UnsplashProvider::api_endpoint(),
        "https://api.unsplash.com/photos/random"
    );
}
