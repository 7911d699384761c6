//! Icon selection from hints.

use base64::Engine;
use lunaris_notification_daemon::dbus::hints::{category_hint, urgency_hint, HintValue};
use lunaris_notification_daemon::dbus::icon_hints::{
    png_data_uri, resolve_icon, try_decode_image_data,
};
use lunaris_notification_daemon::names::NameMap;

fn build_rgba_hint(
    width: i32,
    height: i32,
    rowstride: i32,
    has_alpha: bool,
    channels: i32,
    data: Vec<u8>,
) -> HintValue {
    // FDO image-data struct: (iiibiiay)
    HintValue::Structure(vec![
        HintValue::I32(width),
        HintValue::I32(height),
        HintValue::I32(rowstride),
        HintValue::Bool(has_alpha),
        HintValue::I32(8),
        HintValue::I32(channels),
        HintValue::Array(data.into_iter().map(HintValue::U8).collect()),
    ])
}

/// Decodes the picture of a data URI into its size and RGBA bytes.
fn decoded(uri: &str) -> (u32, u32, Vec<u8>) {
    let encoded = uri.strip_prefix("data:image/png;base64,").unwrap();
    let png = base64::engine::general_purpose::STANDARD.decode(encoded).unwrap();
    let picture = image::load_from_memory(&png).unwrap().to_rgba8();
    (picture.width(), picture.height(), picture.into_raw())
}

#[test]
fn fallback_to_app_icon_when_no_hints() {
    let hints: NameMap<HintValue> = NameMap::new();
    assert_eq!(resolve_icon(&hints, "firefox"), "firefox");
}

#[test]
fn image_path_beats_app_icon() {
    let mut hints = NameMap::new();
    hints.insert("image-path".into(), HintValue::Str("/usr/share/icons/firefox.png".into()));
    assert_eq!(resolve_icon(&hints, "firefox"), "/usr/share/icons/firefox.png");
}

#[test]
fn legacy_image_path_underscore_still_works() {
    let mut hints = NameMap::new();
    hints.insert("image_path".into(), HintValue::Str("/tmp/icon.png".into()));
    assert_eq!(resolve_icon(&hints, "fallback"), "/tmp/icon.png");
}

#[test]
fn image_data_rgba_produces_png_data_url() {
    // 2x2 RGBA image, packed rowstride (width * 4 = 8 bytes/row).
    let data = vec![
        // Row 0
        255, 0, 0, 255, // red
        0, 255, 0, 255, // green
        // Row 1
        0, 0, 255, 255, // blue
        255, 255, 255, 255, // white
    ];
    let mut hints = NameMap::new();
    hints.insert("image-data".into(), build_rgba_hint(2, 2, 8, true, 4, data.clone()));

    let result = resolve_icon(&hints, "fallback");
    assert!(result.starts_with("data:image/png;base64,"));
    // PNG magic bytes in base64: "iVBORw0KGgo" (decode of the 8-byte
    // PNG header \x89PNG\r\n\x1a\n) — sanity-check the encoder ran.
    assert!(result.contains("iVBORw0KGgo"));
    assert_eq!(decoded(&result), (2, 2, data));
}

#[test]
fn image_data_beats_image_path() {
    let data = vec![10, 20, 30, 255, 40, 50, 60, 255];
    let mut hints = NameMap::new();
    hints.insert("image-data".into(), build_rgba_hint(2, 1, 8, true, 4, data));
    hints.insert("image-path".into(), HintValue::Str("/path/ignored.png".into()));
    let result = resolve_icon(&hints, "fallback");
    assert!(result.starts_with("data:image/png;base64,"));
}

#[test]
fn image_data_rgb_without_alpha() {
    // 1x1 RGB image.
    let data = vec![200, 100, 50];
    let mut hints = NameMap::new();
    hints.insert("image-data".into(), build_rgba_hint(1, 1, 3, false, 3, data));
    let result = resolve_icon(&hints, "fallback");
    assert!(result.starts_with("data:image/png;base64,"));
    assert_eq!(decoded(&result), (1, 1, vec![200, 100, 50, 255]));
}

#[test]
fn image_data_rowstride_padding_is_respected() {
    // 2x2 RGBA with rowstride 12 (4 extra padding bytes per row).
    let data = vec![
        // Row 0: 2 pixels (8 bytes) + 4 padding
        255, 0, 0, 255, 0, 255, 0, 255, 0, 0, 0, 0, //
        // Row 1: 2 pixels + 4 padding
        0, 0, 255, 255, 255, 255, 255, 255, 0, 0, 0, 0,
    ];
    let mut hints = NameMap::new();
    hints.insert("image-data".into(), build_rgba_hint(2, 2, 12, true, 4, data));
    let result = resolve_icon(&hints, "fallback");
    assert!(result.starts_with("data:image/png;base64,"));
    let pixels = vec![255, 0, 0, 255, 0, 255, 0, 255, 0, 0, 255, 255, 255, 255, 255, 255];
    assert_eq!(decoded(&result), (2, 2, pixels));
}

#[test]
fn image_data_falls_back_on_bad_dimensions() {
    // width=0 is invalid -> fall back to app_icon.
    let mut hints = NameMap::new();
    hints.insert("image-data".into(), build_rgba_hint(0, 2, 0, true, 4, vec![]));
    assert_eq!(resolve_icon(&hints, "firefox"), "firefox");
}

#[test]
fn image_data_rejects_oversized_dimensions() {
    // 1024×1024 exceeds MAX_IMAGE_DIMENSION = 512. Expect fallback.
    let mut hints = NameMap::new();
    // rowstride must match; size validation runs before data.
    hints.insert("image-data".into(), build_rgba_hint(1024, 1024, 4096, true, 4, vec![0u8; 1]));
    assert_eq!(resolve_icon(&hints, "firefox"), "firefox");
}

#[test]
fn image_data_channels_alpha_mismatch_rejected() {
    // channels=3 but has_alpha=true → malformed, fall back.
    let mut hints = NameMap::new();
    hints.insert("image-data".into(), build_rgba_hint(1, 1, 3, true, 3, vec![1, 2, 3]));
    assert_eq!(resolve_icon(&hints, "firefox"), "firefox");
}

#[test]
fn empty_image_path_falls_through_to_app_icon() {
    let mut hints = NameMap::new();
    hints.insert("image-path".into(), HintValue::Str("".into()));
    assert_eq!(resolve_icon(&hints, "firefox"), "firefox");
}

#[test]
fn malformed_picture_leaves_the_path() {
    let mut hints = NameMap::new();
    // One byte short of a 1x1 picture.
    hints.insert("image-data".into(), build_rgba_hint(1, 1, 4, true, 4, vec![1, 2, 3]));
    hints.insert("image_data".into(), build_rgba_hint(1, 1, 4, true, 4, vec![1, 2, 3, 4]));
    hints.insert("image-path".into(), HintValue::Str("/p.png".into()));
    // The hyphenated hint hides the older one even where it is malformed.
    assert_eq!(resolve_icon(&hints, "firefox"), "/p.png");
}

#[test]
fn last_row_needs_no_padding() {
    // 1x2 RGBA with rowstride 8: four padding bytes after the first row only.
    let data = vec![1, 2, 3, 4, 0, 0, 0, 0, 5, 6, 7, 8];
    let mut hints = NameMap::new();
    hints.insert("image_data".into(), build_rgba_hint(1, 2, 8, true, 4, data));
    let result = resolve_icon(&hints, "fallback");
    assert_eq!(decoded(&result), (1, 2, vec![1, 2, 3, 4, 5, 6, 7, 8]));
}

#[test]
fn data_uri_holds_the_base64_of_the_file() {
    assert_eq!(
        png_data_uri(Some(vec![0x89, 0x50, 0x4e, 0x47])).unwrap(),
        "data:image/png;base64,iVBORw=="
    );
    assert_eq!(png_data_uri(Some(vec![1, 2, 3])).unwrap(), "data:image/png;base64,AQID");
    assert!(png_data_uri(None).is_none());
}

#[test]
fn urgency_and_category_hints() {
    let mut hints = NameMap::new();
    assert_eq!(urgency_hint(&hints), 1);
    assert_eq!(category_hint(&hints), "");
    hints.insert("urgency".into(), HintValue::I32(2));
    hints.insert("category".into(), HintValue::Bool(true));
    assert_eq!(urgency_hint(&hints), 1);
    assert_eq!(category_hint(&hints), "");
    hints.insert("urgency".into(), HintValue::U8(2));
    hints.insert("category".into(), HintValue::Str("im.received".into()));
    assert_eq!(urgency_hint(&hints), 2);
    assert_eq!(category_hint(&hints), "im.received");
}

#[test]
fn largest_pictures_decode() {
    // Pixels without any pattern, at the largest accepted size.
    let mut seed: u32 = 1;
    let data: Vec<u8> = (0..512 * 512 * 4)
        .map(|_| {
            seed = seed.wrapping_mul(1664525).wrapping_add(1013904223);
            (seed >> 24) as u8
        })
        .collect();
    let mut hints = NameMap::new();
    hints.insert("image-data".into(), build_rgba_hint(512, 512, 2048, true, 4, data.clone()));
    assert_eq!(decoded(&resolve_icon(&hints, "fallback")), (512, 512, data));
    assert!(try_decode_image_data(&build_rgba_hint(513, 1, 2052, true, 4, vec![0; 2052])).is_none());
    assert!(try_decode_image_data(&HintValue::Other).is_none());
}
