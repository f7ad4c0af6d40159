use spending::assets::handle_embedded_file;
use spending::assets::AssetReply;

#[test]
fn found_asset_keeps_bytes_and_guesses_type() {
    let bytes = b"<!DOCTYPE html><html></html>".to_vec();
    match handle_embedded_file("index.html", Some(bytes.clone())) {
        AssetReply::Found { content_type, body } => {
            assert_eq!(content_type, "text/html");
            assert_eq!(body, bytes);
        }
        AssetReply::NotFound { .. } => panic!("asset was present"),
    }
}

#[test]
fn content_type_follows_extension() {
    let bytes = b"body { margin: 0; }".to_vec();
    match handle_embedded_file("dist/style.css", Some(bytes)) {
        AssetReply::Found { content_type, .. } => assert_eq!(content_type, "text/css"),
        AssetReply::NotFound { .. } => panic!("asset was present"),
    }
    match handle_embedded_file("dist/app.js", Some(Vec::new())) {
        AssetReply::Found { content_type, .. } => {
            assert!(content_type == "application/javascript" || content_type == "text/javascript");
        }
        AssetReply::NotFound { .. } => panic!("asset was present"),
    }
}

#[test]
fn unknown_extension_defaults_to_octet_stream() {
    match handle_embedded_file("blob.qqq", Some(vec![1, 2, 3])) {
        AssetReply::Found { content_type, .. } => {
            assert_eq!(content_type, "application/octet-stream")
        }
        AssetReply::NotFound { .. } => panic!("asset was present"),
    }
}

#[test]
fn missing_asset_is_not_found() {
    match handle_embedded_file("nope.html", None) {
        AssetReply::Found { .. } => panic!("asset was absent"),
        AssetReply::NotFound { body } => assert_eq!(body, "404 Not Found"),
    }
}
