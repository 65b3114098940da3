use static_server::content_type::{content_type_for, ends_with, ContentType};
use static_server::handler::{after_error_page_read, after_target_read, respond, Reply};
use static_server::request::{chars_of, is_space_char, request_path};
use static_server::resolve::{is_error_page, is_root, relative_path, resolve_target, Status};
use static_server::response::{decimal_digits, frame_response};

const HTML: &str = "text/html; charset=utf-8";
const MISSING_PAGE: &str = "<html><head><title>404 Not Found</title></head><body><h1>404 Not Found</h1><p>The requested resource was not found, and the 404.html error page is also missing or unreadable.</p></body></html>";
const UNREADABLE_PAGE: &str = "<html><head><title>404 Not Found</title></head><body><h1>404 Not Found</h1><p>The 404.html error page is missing or unreadable.</p></body></html>";

fn expected(status: &str, content_type: &str, body: &[u8]) -> Vec<u8> {
    let mut v = format!(
        "{}\r\nContent-Length: {}\r\nContent-Type: {}\r\nConnection: close\r\n\r\n",
        status,
        body.len(),
        content_type
    )
    .into_bytes();
    v.extend_from_slice(body);
    v
}

#[test]
fn root_serves_index_page() {
    let r = respond("GET / HTTP/1.1", false, Some(b"<h1>Hi</h1>".to_vec()), None);
    let text = String::from_utf8(r.clone()).unwrap();
    assert!(text.starts_with("HTTP/1.1 200 OK\r\n"));
    assert!(text.contains("\r\nContent-Length: 11\r\n"));
    assert!(text.contains("\r\nContent-Type: text/html; charset=utf-8\r\n"));
    assert!(text.ends_with("\r\n\r\n<h1>Hi</h1>"));
    assert_eq!(r, expected("HTTP/1.1 200 OK", HTML, b"<h1>Hi</h1>"));
}

#[test]
fn root_resolves_to_index_without_existence_check() {
    for exists in [false, true] {
        let t = resolve_target("/", exists);
        assert_eq!(t.status, Status::Success);
        assert_eq!(t.file_path, "index.html");
        assert_eq!(t.content_type, ContentType::Html);
        assert!(!t.is_binary());
    }
}

#[test]
fn missing_file_serves_error_page() {
    let path = request_path("GET /missing.txt HTTP/1.1");
    assert_eq!(path, "/missing.txt");
    let t = resolve_target(path, false);
    assert_eq!(t.status, Status::NotFound);
    assert_eq!(t.file_path, "404.html");
    let r = respond("GET /missing.txt HTTP/1.1", false, Some(b"<p>gone</p>".to_vec()), None);
    assert_eq!(r, expected("HTTP/1.1 404 NOT FOUND", HTML, b"<p>gone</p>"));
}

#[test]
fn existing_png_is_sent_unchanged() {
    let bytes: Vec<u8> = vec![0x89, b'P', b'N', b'G', 0x0d, 0x0a, 0x1a, 0x0a, 0x00, 0xff];
    let t = resolve_target(request_path("GET /logo.png HTTP/1.1"), true);
    assert_eq!(t.status, Status::Success);
    assert_eq!(t.file_path, "logo.png");
    assert_eq!(t.content_type, ContentType::Png);
    assert!(t.is_binary());
    let r = respond("GET /logo.png HTTP/1.1", true, Some(bytes.clone()), None);
    let head = b"HTTP/1.1 200 OK\r\nContent-Length: 10\r\nContent-Type: image/png\r\nConnection: close\r\n\r\n";
    assert_eq!(&r[..head.len()], &head[..]);
    assert_eq!(&r[head.len()..], &bytes[..]);
}

#[test]
fn missing_png_without_error_page_gets_inline_html() {
    let r = respond("GET /missing.png HTTP/1.1", false, None, None);
    assert_eq!(r, expected("HTTP/1.1 404 NOT FOUND", HTML, UNREADABLE_PAGE.as_bytes()));
}

#[test]
fn missing_path_resolves_as_root() {
    assert_eq!(request_path("GET"), "/");
    assert_eq!(request_path(""), "/");
    assert_eq!(request_path("   GET   "), "/");
    let a = respond("GET", false, Some(b"x".to_vec()), None);
    let b = respond("GET / HTTP/1.1", false, Some(b"x".to_vec()), None);
    assert_eq!(a, b);
}

#[test]
fn unknown_suffix_is_octet_stream() {
    let t = content_type_for("drawing.svg");
    assert_eq!(t, ContentType::OctetStream);
    assert_eq!(t.mime(), "application/octet-stream");
    assert!(t.is_binary());
    let r = resolve_target("/drawing.svg", true);
    assert!(r.is_binary());
    assert_eq!(r.content_type, ContentType::OctetStream);
}

#[test]
fn same_request_same_bytes() {
    let a = respond("GET /style.css HTTP/1.1", true, Some(b"p{}".to_vec()), None);
    let b = respond("GET /style.css HTTP/1.1", true, Some(b"p{}".to_vec()), None);
    assert_eq!(a, b);
    assert_eq!(a, expected("HTTP/1.1 200 OK", "text/css; charset=utf-8", b"p{}"));
}

#[test]
fn suffix_table() {
    let cases = [
        ("a.css", ContentType::Css, "text/css; charset=utf-8", false),
        ("a.html", ContentType::Html, HTML, false),
        ("a.js", ContentType::JavaScript, "application/javascript; charset=utf-8", false),
        ("a.jpg", ContentType::Jpeg, "image/jpeg", true),
        ("a.jpeg", ContentType::Jpeg, "image/jpeg", true),
        ("a.png", ContentType::Png, "image/png", true),
        ("a.ico", ContentType::Icon, "image/x-icon", true),
        ("a.heic", ContentType::Heic, "image/heic", true),
        ("a.PNG", ContentType::OctetStream, "application/octet-stream", true),
        ("a.htm", ContentType::OctetStream, "application/octet-stream", true),
        ("css", ContentType::OctetStream, "application/octet-stream", true),
        ("", ContentType::OctetStream, "application/octet-stream", true),
    ];
    for (path, t, mime, binary) in cases {
        let got = content_type_for(path);
        assert_eq!(got, t, "{}", path);
        assert_eq!(got.mime(), mime);
        assert_eq!(got.is_binary(), binary);
    }
    assert_eq!(ContentType::PlainText.mime(), "text/plain");
    assert!(!ContentType::PlainText.is_binary());
}

#[test]
fn suffix_matching() {
    assert!(ends_with("index.html", ".html"));
    assert!(ends_with("x", ""));
    assert!(!ends_with("html", ".html"));
    assert!(ends_with("é.css", ".css"));
    assert!(!ends_with("a.cssx", ".css"));
}

#[test]
fn request_line_words() {
    assert_eq!(request_path("GET /a.css HTTP/1.1"), "/a.css");
    assert_eq!(request_path("  GET \t /a/b.js\r\n"), "/a/b.js");
    assert_eq!(request_path("GET\u{3000}/wide HTTP/1.1"), "/wide");
    assert_eq!(request_path("GET /é.html"), "/é.html");
    assert_eq!(request_path("POST relative x y"), "relative");
    assert!(is_space_char('\u{85}'));
    assert!(is_space_char('\u{2009}'));
    assert!(!is_space_char('\u{200b}'));
    assert!(!is_space_char('a'));
    assert_eq!(chars_of("aé€"), vec!['a', 'é', '€']);
}

#[test]
fn one_leading_slash_is_removed() {
    assert_eq!(relative_path("/a/b.css"), "a/b.css");
    assert_eq!(relative_path("//etc/passwd"), "/etc/passwd");
    assert_eq!(relative_path("plain"), "plain");
    assert_eq!(relative_path(""), "");
    let t = resolve_target("//etc/passwd", true);
    assert_eq!(t.file_path, "/etc/passwd");
    assert!(is_root("/"));
    assert!(!is_root("//"));
    assert!(!is_root(""));
    assert!(is_error_page("404.html"));
    assert!(!is_error_page("/404.html"));
    assert!(!is_error_page("404.htm"));
}

#[test]
fn decimal_lengths() {
    assert_eq!(decimal_digits(0), b"0".to_vec());
    assert_eq!(decimal_digits(9), b"9".to_vec());
    assert_eq!(decimal_digits(10), b"10".to_vec());
    assert_eq!(decimal_digits(12345), b"12345".to_vec());
}

#[test]
fn framing_is_exact() {
    let r = frame_response(Status::NotFound, ContentType::PlainText, b"abc");
    assert_eq!(
        r,
        b"HTTP/1.1 404 NOT FOUND\r\nContent-Length: 3\r\nContent-Type: text/plain\r\nConnection: close\r\n\r\nabc".to_vec()
    );
    let empty = frame_response(Status::Success, ContentType::Html, b"");
    assert_eq!(empty, expected("HTTP/1.1 200 OK", HTML, b""));
    let big = vec![7u8; 1234];
    let r = frame_response(Status::Success, ContentType::Jpeg, &big);
    assert_eq!(r, expected("HTTP/1.1 200 OK", "image/jpeg", &big));
}

#[test]
fn failed_raw_read_gets_plain_text() {
    let t = resolve_target("/gone.png", true);
    match after_target_read(&t, None) {
        Reply::Send(b) => assert_eq!(b, expected("HTTP/1.1 404 NOT FOUND", "text/plain", b"404 Not Found")),
        Reply::ReadErrorPage => panic!("a raw read does not fall back to the error page"),
    }
}

#[test]
fn failed_text_read_turns_to_error_page() {
    let t = resolve_target("/", true);
    assert!(matches!(after_target_read(&t, None), Reply::ReadErrorPage));
    assert_eq!(
        after_error_page_read(Some(b"<p>gone</p>".to_vec())),
        expected("HTTP/1.1 404 NOT FOUND", HTML, b"<p>gone</p>")
    );
    assert_eq!(
        after_error_page_read(None),
        expected("HTTP/1.1 404 NOT FOUND", HTML, MISSING_PAGE.as_bytes())
    );
    let r = respond("GET /app.js HTTP/1.1", true, None, None);
    assert_eq!(r, expected("HTTP/1.1 404 NOT FOUND", HTML, MISSING_PAGE.as_bytes()));
}

#[test]
fn failed_error_page_as_target_keeps_status() {
    let t = resolve_target("/404.html", true);
    assert_eq!(t.status, Status::Success);
    match after_target_read(&t, None) {
        Reply::Send(b) => assert_eq!(b, expected("HTTP/1.1 200 OK", HTML, UNREADABLE_PAGE.as_bytes())),
        Reply::ReadErrorPage => panic!("the error page is not retried"),
    }
}
