use dropblog::blog::{image_to_markdown, post_meta, render, Image, PostInfo, Thumbnail};
use dropblog::timestamp::Timestamp;

fn sample_date() -> Timestamp {
    Timestamp { year: 2020, month: 6, day: 1, hour: 10, minute: 0 }
}

#[test]
fn test_image_markdown() {
    let img = Image {
        file: String::new(),
        relative_path: "/foo.jpg".to_string(),
        mimetype: "image/jpg".to_string(),
        thumbnail: Thumbnail {
            file: String::new(),
            relative_path: "/foo_thumb.jpg".to_string(),
            width: 640,
            height: 320,
        },
    };

    let markdown = r#"<a href="{{ site.url }}/foo.jpg"><img src="{{ site.url }}/foo_thumb.jpg" width="640" height="320"></a>"#;

    assert_eq!(markdown, image_to_markdown(&img));
}

#[test]
fn test_new_trims_fields() {
    let post = PostInfo::new(
        "  Sunset  ".to_string(),
        "\tJane Doe\n".to_string(),
        Some("  Beautiful evening.\n".to_string()),
        sample_date(),
        "/sunset".to_string(),
        Vec::new(),
        "_posts/2020-06-01-sunset.md".to_string(),
        "/tmp/out/_posts/2020-06-01-sunset.md".to_string(),
    );
    assert_eq!(post.title, "Sunset");
    assert_eq!(post.author, "Jane Doe");
    assert_eq!(post.content, Some("Beautiful evening.".to_string()));
    assert_eq!(post.permalink, "/sunset");
}

#[test]
fn test_post_meta_exact() {
    let post = PostInfo::new(
        "Sunset".to_string(),
        "Jane Doe".to_string(),
        Some("Beautiful evening.".to_string()),
        sample_date(),
        "/sunset".to_string(),
        Vec::new(),
        "_posts/2020-06-01-sunset.md".to_string(),
        "/tmp/out/_posts/2020-06-01-sunset.md".to_string(),
    );
    let expected = "---\ntitle: |\n    Sunset\nauthor: Jane Doe\ndate: 2020-06-01 10:00\npermalink: /sunset\nlayout: post\ncomments: true\n---";
    assert_eq!(expected, post_meta(&post));
}

#[test]
fn test_render_without_body_or_attachments_is_front_matter_only() {
    let post = PostInfo::new(
        "Sunset".to_string(),
        "Jane Doe".to_string(),
        None,
        sample_date(),
        "/sunset".to_string(),
        Vec::new(),
        "_posts/2020-06-01-sunset.md".to_string(),
        "/tmp/out/_posts/2020-06-01-sunset.md".to_string(),
    );
    let rendered = render(&post);
    let meta = post_meta(&post);
    assert_eq!(rendered, format!("{}\n\n", meta));
}

#[test]
fn test_render_with_body_and_attachment() {
    let img = Image {
        file: "/tmp/out/media/2020/2020-06-01-sunset-0.jpg".to_string(),
        relative_path: "/media/2020/2020-06-01-sunset-0.jpg".to_string(),
        mimetype: "image/jpeg".to_string(),
        thumbnail: Thumbnail {
            file: "/tmp/out/media/2020/2020-06-01-sunset-0-thumb.jpg".to_string(),
            relative_path: "/media/2020/2020-06-01-sunset-0-thumb.jpg".to_string(),
            width: 500,
            height: 333,
        },
    };
    let post = PostInfo::new(
        "Sunset".to_string(),
        "Jane Doe".to_string(),
        Some("Beautiful evening.".to_string()),
        sample_date(),
        "/sunset".to_string(),
        vec![img],
        "_posts/2020-06-01-sunset.md".to_string(),
        "/tmp/out/_posts/2020-06-01-sunset.md".to_string(),
    );
    let rendered = render(&post);
    let expected_line = r#"<a href="{{ site.url }}/media/2020/2020-06-01-sunset-0.jpg"><img src="{{ site.url }}/media/2020/2020-06-01-sunset-0-thumb.jpg" width="500" height="333"></a>"#;
    let expected = format!(
        "{}\n\nBeautiful evening.\n\n{}\n\n",
        post_meta(&post),
        expected_line
    );
    assert_eq!(rendered, expected);
    assert!(rendered.starts_with("---\ntitle: |\n    Sunset\nauthor: Jane Doe\ndate: 2020-06-01 10:00\n"));
}
