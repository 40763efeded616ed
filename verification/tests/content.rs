use http_server::content::MimeKind;
use http_server::content::build_content_type;
use http_server::content::find_mimetype;

#[test]
fn test_find_html_mime_type() {
    let filepath = "example/content.html";

    let result = find_mimetype(filepath);

    assert_eq!(
        build_content_type(&result),
        format!(
            "Content-Type: {}/{}\r\n",
            mime::TEXT_HTML.type_(),
            mime::TEXT_HTML.subtype()
        )
    );
}

#[test]
fn test_find_png_mime_type() {
    let filepath = "example/content.png";

    let result = find_mimetype(filepath);

    assert_eq!(
        build_content_type(&result),
        format!(
            "Content-Type: {}/{}\r\n",
            mime::IMAGE_PNG.type_(),
            mime::IMAGE_PNG.subtype()
        )
    );
}

#[test]
fn test_find_non_existing_type() {
    let filepath = "example/content.pn";

    let result = find_mimetype(filepath);

    assert_eq!(
        build_content_type(&result),
        format!(
            "Content-Type: {}/{}\r\n",
            mime::TEXT_PLAIN.type_(),
            mime::TEXT_PLAIN.subtype()
        )
    );
}

#[test]
fn find_mimetype_matches_each_known_extension() {
    assert!(matches!(find_mimetype("a.html"), MimeKind::Html));
    assert!(matches!(find_mimetype("a.png"), MimeKind::Png));
    assert!(matches!(find_mimetype("a.jpg"), MimeKind::Jpeg));
    assert!(matches!(find_mimetype("a.json"), MimeKind::Json));
    assert!(matches!(find_mimetype("a.txt"), MimeKind::Plain));
}

#[test]
fn find_mimetype_uses_last_extension() {
    assert!(matches!(find_mimetype("archive.json.png"), MimeKind::Png));
}

#[test]
fn find_mimetype_without_dot_is_plain() {
    assert!(matches!(find_mimetype("README"), MimeKind::Plain));
    assert!(matches!(find_mimetype(""), MimeKind::Plain));
}

#[test]
fn build_content_type_exact_line() {
    assert_eq!(build_content_type(&MimeKind::Html), "Content-Type: text/html\r\n");
    assert_eq!(build_content_type(&MimeKind::Jpeg), "Content-Type: image/jpeg\r\n");
    assert_eq!(build_content_type(&MimeKind::Json), "Content-Type: application/json\r\n");
}
