use lestallum::error::{ApiError, Service};
use lestallum::skin::{
    combo_url, effective_content_type, full_body_url, image_response, isometric_url, simple_url,
    texture_url, Direction,
};
use lestallum::text::decimal_string;

const NOTCH: u128 = 0x069a79f4_44e9_4726_a5be_fca90e38aaf5;

#[test]
fn simple_urls_carry_the_helm_modifier() {
    assert_eq!(
        simple_url(NOTCH, 100, true),
        "https://mc-heads.net/avatar/069a79f444e94726a5befca90e38aaf5/100"
    );
    assert_eq!(
        simple_url(NOTCH, 100, false),
        "https://mc-heads.net/avatar/069a79f444e94726a5befca90e38aaf5/100/nohelm"
    );
}

#[test]
fn isometric_urls_carry_the_direction() {
    assert_eq!(
        isometric_url(NOTCH, 128, Direction::Left),
        "https://mc-heads.net/body/069a79f444e94726a5befca90e38aaf5/128/left"
    );
    assert_eq!(
        isometric_url(NOTCH, 128, Direction::Right),
        "https://mc-heads.net/body/069a79f444e94726a5befca90e38aaf5/128/right"
    );
}

#[test]
fn full_body_and_combo_and_texture_urls_match_the_documented_routes() {
    assert_eq!(
        full_body_url(NOTCH, 64),
        "https://mc-heads.net/player/069a79f444e94726a5befca90e38aaf5/64"
    );
    assert_eq!(
        combo_url(NOTCH, 64),
        "https://mc-heads.net/combo/069a79f444e94726a5befca90e38aaf5/64"
    );
    assert_eq!(
        texture_url(NOTCH),
        "https://mc-heads.net/skin/069a79f444e94726a5befca90e38aaf5"
    );
}

#[test]
fn sizes_are_clamped_to_what_the_service_accepts() {
    assert!(simple_url(NOTCH, 0, true).ends_with("/8"));
    assert!(simple_url(NOTCH, 9000, true).ends_with("/600"));
    assert!(isometric_url(NOTCH, 1, Direction::Left).contains("/32/"));
    assert!(isometric_url(NOTCH, 9000, Direction::Left).contains("/600/"));
}

#[test]
fn the_boundaries_of_each_size_range_are_kept() {
    assert!(full_body_url(NOTCH, 8).ends_with("/8"));
    assert!(combo_url(NOTCH, 600).ends_with("/600"));
    assert!(combo_url(NOTCH, 601).ends_with("/600"));
    assert!(isometric_url(NOTCH, 32, Direction::Right).ends_with("/32/right"));
    assert!(isometric_url(NOTCH, 31, Direction::Right).ends_with("/32/right"));
    assert_eq!(Direction::Left.as_str(), "left");
    assert_eq!(Direction::Right.as_str(), "right");
}

#[test]
fn uuids_are_written_with_all_their_leading_zeros() {
    assert_eq!(texture_url(0), "https://mc-heads.net/skin/00000000000000000000000000000000");
    assert_eq!(texture_url(u128::MAX), "https://mc-heads.net/skin/ffffffffffffffffffffffffffffffff");
}

#[test]
fn decimals_are_written_without_leading_zeros() {
    for n in [0u64, 7, 10, 99, 100, 4294967295, u64::MAX] {
        assert_eq!(decimal_string(n), n.to_string());
    }
}

#[test]
fn content_type_defaults_to_png() {
    assert_eq!(effective_content_type(None), "image/png");
    assert_eq!(effective_content_type(Some("image/webp")), "image/webp");
}

fn body(bytes: &'static [u8]) -> bytes::Bytes {
    bytes::Bytes::from_static(bytes)
}

#[test]
fn image_responses_are_checked_before_they_are_handed_out() {
    let image = image_response(200, "image/png".to_owned(), body(b"\x89PNG"), NOTCH).unwrap();
    assert_eq!(&image.bytes[..], b"\x89PNG");
    assert_eq!(image.content_type, "image/png");

    match image_response(404, "image/png".to_owned(), body(b""), NOTCH) {
        Err(ApiError::NotFound { service: Service::McHeads, subject }) => {
            assert_eq!(subject, "069a79f444e94726a5befca90e38aaf5")
        }
        other => panic!("unexpected {:?}", other.map(|i| i.content_type)),
    }

    match image_response(500, "text/plain".to_owned(), body(br#"{"message":"down"}"#), NOTCH) {
        Err(ApiError::Upstream { service: Service::McHeads, status: 500, message }) => {
            assert_eq!(message, "down")
        }
        other => panic!("unexpected {:?}", other.map(|i| i.content_type)),
    }

    match image_response(200, "text/html".to_owned(), body(b"<html>"), NOTCH) {
        Err(ApiError::Upstream { status: 200, message, .. }) => {
            assert_eq!(message, "expected an image, got `text/html`")
        }
        other => panic!("unexpected {:?}", other.map(|i| i.content_type)),
    }

    assert!(image_response(200, "image".to_owned(), body(b""), NOTCH).is_err());
}
