use fia_ingest::keys::{image_key, mirror_key, object_url};

#[test]
fn mirror_key_encodes_title_components() {
    assert_eq!(
        mirror_key(2025, "Bahrain GP", "Entry List"),
        "mirror/2025/Bahrain%20GP/Entry%20List.pdf"
    );
}

#[test]
fn mirror_key_encodes_multibyte_text_bytewise() {
    assert_eq!(
        mirror_key(2025, "S\u{e3}o Paulo GP", "Entry List"),
        "mirror/2025/S%C3%A3o%20Paulo%20GP/Entry%20List.pdf"
    );
}

#[test]
fn image_key_writes_numeric_components_plain() {
    assert_eq!(
        image_key(2025, "Bahrain GP", 1234567890, 12),
        "img/2025/Bahrain%20GP/1234567890-12.jpg"
    );
    assert_eq!(image_key(2025, "Bahrain GP", 7, 0), "img/2025/Bahrain%20GP/7-0.jpg");
}

#[test]
fn object_url_points_at_the_storage_host() {
    assert_eq!(object_url("mirror/2025/a/b.pdf"), "https://fia.ort.dev/mirror/2025/a/b.pdf");
}

#[test]
fn unreserved_characters_pass_through_unchanged() {
    assert_eq!(mirror_key(2024, "abc-DEF_1.2~", "x"), "mirror/2024/abc-DEF_1.2~/x.pdf");
}
