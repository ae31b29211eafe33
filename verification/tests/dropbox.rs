use dropblog::blog::{Image, PostInfo, Thumbnail};
use dropblog::dropbox::{
    access_token_from_response, refresh_token_from_response, show_auth_url, upload_api_arg,
    UploadSession,
};
use dropblog::mishaps::Mishap;
use dropblog::timestamp::Timestamp;

#[test]
fn test_show_auth_url() {
    assert_eq!(
        show_auth_url("app123"),
        "https://www.dropbox.com/oauth2/authorize?token_access_type=offline&client_id=app123&response_type=code"
    );
}

#[test]
fn test_upload_api_arg_normalizes_slashes() {
    assert_eq!(upload_api_arg("foo.jpg"), "{\"path\":\"/foo.jpg\"}");
    assert_eq!(upload_api_arg("/foo.jpg"), "{\"path\":\"/foo.jpg\"}");
    assert_eq!(
        upload_api_arg("media/2020/foo.jpg"),
        "{\"path\":\"/media/2020/foo.jpg\"}"
    );
}

#[test]
fn test_access_token_from_response() {
    let ok = access_token_from_response("{\"access_token\":\"tok-1\",\"expires_in\":14400}");
    assert_eq!(ok.unwrap(), "tok-1");

    let err = access_token_from_response("not json at all").unwrap_err();
    match err {
        Mishap::JsonContent(body, _reason) => assert_eq!(body, "not json at all"),
        other => panic!("expected JsonContent, got {:?}", other),
    }

    let missing = access_token_from_response("{\"refresh_token\":\"r\"}").unwrap_err();
    assert!(matches!(missing, Mishap::JsonContent(_, _)));
}

#[test]
fn test_refresh_token_from_response() {
    let ok = refresh_token_from_response("{\"refresh_token\":\"r-9\"}");
    assert_eq!(ok.unwrap(), "r-9");
    let err = refresh_token_from_response("{\"access_token\":\"a\"}");
    assert!(matches!(err, Err(Mishap::JsonContent(_, _))));
}

fn sample_post() -> PostInfo {
    PostInfo::new(
        "Sunset".to_string(),
        "Jane Doe".to_string(),
        None,
        Timestamp { year: 2020, month: 6, day: 1, hour: 10, minute: 0 },
        "/sunset".to_string(),
        vec![Image {
            file: "/tmp/out/media/2020/2020-06-01-sunset-0.jpg".to_string(),
            relative_path: "/media/2020/2020-06-01-sunset-0.jpg".to_string(),
            mimetype: "image/jpeg".to_string(),
            thumbnail: Thumbnail {
                file: "/tmp/out/media/2020/2020-06-01-sunset-0-thumb.jpg".to_string(),
                relative_path: "/media/2020/2020-06-01-sunset-0-thumb.jpg".to_string(),
                width: 500,
                height: 333,
            },
        }],
        "_posts/2020-06-01-sunset.md".to_string(),
        "/tmp/out/_posts/2020-06-01-sunset.md".to_string(),
    )
}

#[test]
fn test_upload_session_order_and_success() {
    let post = sample_post();
    let mut session = UploadSession::begin(&post);

    let remotes: [&str; 3] = [
        "_posts/2020-06-01-sunset.md",
        "/media/2020/2020-06-01-sunset-0.jpg",
        "/media/2020/2020-06-01-sunset-0-thumb.jpg",
    ];
    let mut seen: Vec<String> = Vec::new();
    while let Some(item) = session.next_upload() {
        seen.push(item.remote.clone());
        session.record_status(200);
    }
    assert_eq!(seen, remotes.iter().map(|s| s.to_string()).collect::<Vec<_>>());
    match session.outcome() {
        Some(Ok(n)) => assert_eq!(n, 3),
        other => panic!("expected success, got {:?}", other),
    }
}

#[test]
fn test_rejected_upload_stops_the_sequence() {
    let post = sample_post();
    let mut session = UploadSession::begin(&post);

    // The post file goes through; the first attachment is rejected.
    let first = session.next_upload().unwrap();
    assert_eq!(first.remote, "_posts/2020-06-01-sunset.md");
    session.record_status(200);

    let second = session.next_upload().unwrap();
    assert_eq!(second.remote, "/media/2020/2020-06-01-sunset-0.jpg");
    session.record_status(409);

    // No further upload is offered, and the mishap carries the status.
    assert!(session.next_upload().is_none());
    match session.outcome() {
        Some(Err(Mishap::UploadRejected(status))) => assert_eq!(status, 409),
        _ => panic!("expected an upload rejection"),
    }
}
