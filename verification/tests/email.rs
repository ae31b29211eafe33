use dropblog::blog::image_to_markdown;
use dropblog::conventions::FileConventions;
use dropblog::email::{
    body, build_post, extract_meta, find_attachments, get_first_value, make_image, Header,
    MimeNode,
};
use dropblog::mishaps::Mishap;
use dropblog::timestamp::Timestamp;

fn leaf(mimetype: &str, text: &str) -> MimeNode {
    MimeNode {
        mimetype: mimetype.to_string(),
        headers: Vec::new(),
        body: text.to_string(),
        body_raw: text.as_bytes().to_vec(),
        children: Vec::new(),
    }
}

fn parent(mimetype: &str, children: Vec<MimeNode>) -> MimeNode {
    MimeNode {
        mimetype: mimetype.to_string(),
        headers: Vec::new(),
        body: String::new(),
        body_raw: Vec::new(),
        children,
    }
}

fn header(name: &str, value: &str) -> Header {
    Header { name: name.to_string(), value: value.to_string() }
}

fn now() -> Timestamp {
    Timestamp { year: 2024, month: 1, day: 2, hour: 3, minute: 4 }
}

#[test]
fn test_get_first_value_is_case_insensitive() {
    let mut mail = leaf("text/plain", "hi");
    mail.headers.push(header("SUBJECT", "First"));
    mail.headers.push(header("Subject", "Second"));
    assert_eq!(get_first_value(&mail, "subject"), Some("First".to_string()));
    assert_eq!(get_first_value(&mail, "From"), None);
}

#[test]
fn test_body_takes_first_plain_text_depth_first() {
    let tree = parent(
        "multipart/mixed",
        vec![
            parent(
                "multipart/alternative",
                vec![leaf("text/html", "<b>html</b>"), leaf("text/plain", "the text")],
            ),
            leaf("text/plain", "later text"),
        ],
    );
    assert_eq!(body(&tree), Some("the text".to_string()));
    assert_eq!(body(&leaf("image/png", "")), None);
}

#[test]
fn test_find_attachments_depth_first_order_and_determinism() {
    let tree = parent(
        "multipart/mixed",
        vec![
            leaf("text/plain", "hello"),
            parent(
                "multipart/related",
                vec![leaf("image/png", "png-bytes"), leaf("image/jpeg", "jpeg-bytes")],
            ),
            leaf("image/gif", "gif-bytes"),
        ],
    );
    let first: Vec<String> = find_attachments(&tree)
        .into_iter()
        .map(|m| m.mimetype.clone())
        .collect();
    assert_eq!(first, vec!["image/png", "image/jpeg", "image/gif"]);
    let second: Vec<String> = find_attachments(&tree)
        .into_iter()
        .map(|m| m.mimetype.clone())
        .collect();
    assert_eq!(first, second);
}

#[test]
fn test_find_attachments_needs_image_slash() {
    let tree = parent("multipart/mixed", vec![leaf("imagex/odd", ""), leaf("image/png", "")]);
    let found = find_attachments(&tree);
    assert_eq!(found.len(), 1);
    assert_eq!(found[0].mimetype, "image/png");
}

#[test]
fn test_title_fallbacks() {
    // Subject "Hello" + any body: title "Hello".
    let mut mail = leaf("text/plain", "Hi there");
    mail.headers.push(header("Subject", "Hello"));
    let meta = extract_meta(&mail, now()).unwrap();
    assert_eq!(meta.title, "Hello");

    // Subject empty + body "Hi there": title "Hi there".
    let mut mail = leaf("text/plain", "Hi there");
    mail.headers.push(header("Subject", ""));
    let meta = extract_meta(&mail, now()).unwrap();
    assert_eq!(meta.title, "Hi there");

    // Subject absent + body "Hi there": title "Hi there".
    let mail = leaf("text/plain", "Hi there");
    let meta = extract_meta(&mail, now()).unwrap();
    assert_eq!(meta.title, "Hi there");

    // Both absent: title "Untitled".
    let mail = leaf("application/octet-stream", "");
    let meta = extract_meta(&mail, now()).unwrap();
    assert_eq!(meta.title, "Untitled");
}

#[test]
fn test_empty_body_is_still_a_title_candidate() {
    // An empty text/plain body is present (not absent), so it becomes the
    // title rather than the `Untitled` fallback.
    let mail = leaf("text/plain", "");
    let meta = extract_meta(&mail, now()).unwrap();
    assert_eq!(meta.title, "");
    assert_eq!(meta.content, Some(String::new()));
}

#[test]
fn test_outline_lists_the_tree() {
    let tree = parent(
        "multipart/mixed",
        vec![leaf("text/plain", "hello"), leaf("image/png", "bytes")],
    );
    let lines = dropblog::email::outline(&tree);
    assert_eq!(
        lines,
        vec![
            "+ multipart/mixed (children: 2)".to_string(),
            "--+ text/plain (children: 0)".to_string(),
            "--+ image/png (children: 0)".to_string(),
        ]
    );
}

#[test]
fn test_extract_meta_slug_and_author() {
    let mut mail = leaf("text/plain", "body");
    mail.headers.push(header("Subject", "My Test String!!!1!1"));
    mail.headers.push(header("From", "Jane Doe <jane@example.com>"));
    let meta = extract_meta(&mail, now()).unwrap();
    assert_eq!(meta.slug, "my-test-string-1-1");
    assert_eq!(meta.author, "Jane Doe");
}

#[test]
fn test_extract_meta_author_fallback() {
    let mut mail = leaf("text/plain", "body");
    mail.headers.push(header("From", "jane@example.com"));
    let meta = extract_meta(&mail, now()).unwrap();
    assert_eq!(meta.author, "Someone");

    let mail2 = leaf("text/plain", "body");
    let meta2 = extract_meta(&mail2, now()).unwrap();
    assert_eq!(meta2.author, "Someone");
}

#[test]
fn test_extract_meta_author_is_first_of_an_address_list() {
    let mut mail = leaf("text/plain", "body");
    mail.headers.push(header(
        "From",
        "Jane Doe <jane@example.com>, Bob <bob@example.com>",
    ));
    let meta = extract_meta(&mail, now()).unwrap();
    assert_eq!(meta.author, "Jane Doe");
}

#[test]
fn test_extract_meta_date_header() {
    let mut mail = leaf("text/plain", "body");
    mail.headers.push(header("Date", "Mon, 01 Jun 2020 10:00:00 +0000"));
    let meta = extract_meta(&mail, now()).unwrap();
    assert_eq!(
        meta.date,
        Timestamp { year: 2020, month: 6, day: 1, hour: 10, minute: 0 }
    );
}

#[test]
fn test_extract_meta_date_missing_defaults_to_now() {
    let mail = leaf("text/plain", "body");
    let meta = extract_meta(&mail, now()).unwrap();
    assert_eq!(meta.date, now());
}

#[test]
fn test_extract_meta_bad_date_fails() {
    let mut mail = leaf("text/plain", "body");
    mail.headers.push(header("Date", "Mon, 32 Jun 2020 10:00:00 +0000"));
    let err = extract_meta(&mail, now()).unwrap_err();
    assert!(matches!(err, Mishap::EmailField(_)));
}

#[test]
fn test_extract_meta_bad_from_fails() {
    let mut mail = leaf("text/plain", "body");
    mail.headers.push(header("From", "\"unterminated"));
    let err = extract_meta(&mail, now()).unwrap_err();
    assert!(matches!(err, Mishap::Email(_)));
}

#[test]
fn test_single_part_scenario() {
    let mut mail = leaf("text/plain", "Beautiful evening.\n-- \nSent from phone");
    mail.headers.push(header("Subject", "Sunset"));
    mail.headers.push(header("From", "Jane Doe <jane@example.com>"));
    mail.headers.push(header("Date", "Mon, 01 Jun 2020 10:00:00 +0000"));

    let meta = extract_meta(&mail, now()).unwrap();
    let conv = FileConventions::new("/tmp/out", "media", "_posts", &meta.date, &meta.slug);
    let post = build_post(meta, &conv, Vec::new());

    assert_eq!(post.title, "Sunset");
    assert_eq!(post.author, "Jane Doe");
    assert_eq!(post.content, Some("Beautiful evening.".to_string()));
    assert_eq!(
        post.date,
        Timestamp { year: 2020, month: 6, day: 1, hour: 10, minute: 0 }
    );
    assert_eq!(post.permalink, "/sunset");
    assert!(post.attachments.is_empty());

    let rendered = dropblog::blog::render(&post);
    assert!(rendered.starts_with("---\ntitle: |\n    Sunset\nauthor: Jane Doe\ndate: 2020-06-01 10:00\n"));
}

#[test]
fn test_one_attachment_scenario() {
    let mut mail = parent(
        "multipart/mixed",
        vec![leaf("text/plain", "look"), leaf("image/jpeg", "raw-jpeg-bytes")],
    );
    mail.headers.push(header("Subject", "Sunset"));
    mail.headers.push(header("Date", "Mon, 01 Jun 2020 10:00:00 +0000"));

    let meta = extract_meta(&mail, now()).unwrap();
    let conv = FileConventions::new("/tmp/out", "media", "_posts", &meta.date, &meta.slug);

    let found = find_attachments(&mail);
    assert_eq!(found.len(), 1);
    assert_eq!(found[0].body_raw, b"raw-jpeg-bytes".to_vec());

    // Dimensions as the probe would report them for a 500-wide thumbnail.
    let img = make_image(&conv, 0, found[0].mimetype.clone(), 500, 333);
    assert_eq!(img.file, "/tmp/out/media/2020/2020-06-01-sunset-0.jpg");
    assert_eq!(img.mimetype, "image/jpeg");
    assert_eq!(img.thumbnail.width, 500);

    let post = build_post(meta, &conv, vec![img]);
    assert_eq!(post.attachments.len(), 1);
    let line = image_to_markdown(&post.attachments[0]);
    assert_eq!(
        line,
        r#"<a href="{{ site.url }}/media/2020/2020-06-01-sunset-0.jpg"><img src="{{ site.url }}/media/2020/2020-06-01-sunset-0-thumb.jpg" width="500" height="333"></a>"#
    );
}
