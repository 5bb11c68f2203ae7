use tmdbcache::error::AppError;
use tmdbcache::image::{content_type_for, safe_filename, safe_size};

#[test]
fn accepts_ordinary_tmdb_paths() {
    assert_eq!(safe_filename("/abc123.jpg").unwrap(), "abc123.jpg");
    assert_eq!(safe_filename("abc123.jpg").unwrap(), "abc123.jpg");
    assert_eq!(safe_filename("/a-b_c.PNG").unwrap(), "a-b_c.PNG");
}

#[test]
fn rejects_traversal_and_nesting() {
    for path in [
        "../../etc/passwd",
        "/../secret.jpg",
        "nested/dir.jpg",
        "..\\windows.jpg",
        "",
        "   ",
    ] {
        assert!(
            safe_filename(path).is_err(),
            "{path:?} should have been rejected"
        );
    }
}

#[test]
fn rejects_unexpected_extensions() {
    assert!(safe_filename("payload.sh").is_err());
    assert!(safe_filename("noextension").is_err());
}

#[test]
fn size_tokens_are_validated() {
    assert_eq!(safe_size(None).unwrap(), "original");
    assert_eq!(safe_size(Some("")).unwrap(), "original");
    assert_eq!(safe_size(Some("w500")).unwrap(), "w500");
    assert_eq!(safe_size(Some("h632")).unwrap(), "h632");

    assert!(safe_size(Some("../..")).is_err());
    assert!(safe_size(Some("w")).is_err());
    assert!(safe_size(Some("large")).is_err());
    assert!(safe_size(Some("w500/../..")).is_err());
}

fn bad_request_message(r: Result<String, AppError>) -> String {
    match r {
        Err(AppError::BadRequest(m)) => m,
        other => panic!("expected a bad request, got {other:?}"),
    }
}

#[test]
fn blank_image_path_names_the_parameter() {
    assert_eq!(
        bad_request_message(safe_filename("  /  ")),
        "imagePath must not be blank"
    );
}

#[test]
fn nested_image_path_is_quoted_in_the_message() {
    assert_eq!(
        bad_request_message(safe_filename("nested/dir.jpg")),
        "imagePath must be a single filename, got \"nested/dir.jpg\""
    );
}

#[test]
fn unsupported_characters_are_reported() {
    assert_eq!(
        bad_request_message(safe_filename("a b.jpg")),
        "imagePath contains unsupported characters: \"a b.jpg\""
    );
}

#[test]
fn unsupported_extension_is_reported() {
    assert_eq!(
        bad_request_message(safe_filename("payload.sh")),
        "unsupported image extension: \"payload.sh\""
    );
}

#[test]
fn svg_and_jpeg_extensions_are_accepted_in_any_case() {
    assert_eq!(safe_filename("logo.SVG").unwrap(), "logo.SVG");
    assert_eq!(safe_filename("photo.jpeg").unwrap(), "photo.jpeg");
    assert!(safe_filename(".jpg").is_err());
}

#[test]
fn size_tokens_are_trimmed_and_original_is_kept() {
    assert_eq!(safe_size(Some("  w92 ")).unwrap(), "w92");
    assert_eq!(safe_size(Some("original")).unwrap(), "original");
    assert_eq!(
        bad_request_message(safe_size(Some("large"))),
        "backdropSize must be 'original' or like 'w500', got \"large\""
    );
}

#[test]
fn content_type_follows_the_extension() {
    assert_eq!(content_type_for("abc123.png"), "image/png");
    assert_eq!(content_type_for("abc123.jpg"), "image/jpeg");
    assert_eq!(content_type_for("logo.svg"), "image/svg+xml");
    assert_eq!(content_type_for("noextension"), "image/jpeg");
}

#[test]
fn image_endpoint_rejects_path_traversal() {
    // The query parameters of the original requests, URL-decoded.
    for path in ["../../etc/passwd", "/../secret.jpg", "nested/dir.jpg", "payload.sh"] {
        match safe_filename(path) {
            Err(e) => assert_eq!(e.status(), 400, "imagePath={path} should be rejected"),
            Ok(f) => panic!("imagePath={path} was accepted as {f}"),
        }
    }
}

#[test]
fn image_endpoint_rejects_bad_size_tokens() {
    assert!(safe_filename("ok.jpg").is_ok());
    for size in ["large", "w", "../..", "w500/../.."] {
        match safe_size(Some(size)) {
            Err(e) => assert_eq!(e.status(), 400, "backdropSize={size}"),
            Ok(s) => panic!("backdropSize={size} was accepted as {s}"),
        }
    }
}
