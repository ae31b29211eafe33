//! The verified half of publishing: the consent URL, the upload API
//! argument with its slash normalization, the token-endpoint response
//! parsing, and the sequential upload session with its fail-fast rule.
//! The HTTP requests themselves run outside the library.

use vstd::prelude::*;
use vstd::string::{StrSliceExecFns, StringExecFns};

use crate::blog::{Image, PostInfo};
use crate::mishaps::Mishap;

verus! {

/// The one-time consent URL for an application key.
pub open spec fn spec_auth_url(app_key: Seq<char>) -> Seq<char> {
    "https://www.dropbox.com/oauth2/authorize?token_access_type=offline&client_id="@ + app_key
        + "&response_type=code"@
}

/// Builds the consent URL a user visits to obtain a one-time code.
pub fn show_auth_url(app_key: &str) -> (r: String)
    ensures
        r@ == spec_auth_url(app_key@),
{
    let mut r = "https://www.dropbox.com/oauth2/authorize?token_access_type=offline&client_id="
        .to_owned();
    r.append(app_key);
    r.append("&response_type=code");
    r
}

/// The upload API's JSON argument: the remote path behind exactly one
/// leading slash.
pub open spec fn spec_api_arg(path: Seq<char>) -> Seq<char> {
    let slash: Seq<char> = if path.len() > 0 && path[0] == '/' {
        Seq::empty()
    } else {
        seq!['/']
    };
    "{\"path\":\""@ + slash + path + "\"}"@
}

/// Builds the upload API argument, as `spec_api_arg` describes.
pub fn upload_api_arg(dropbox_path: &str) -> (r: String)
    ensures
        r@ == spec_api_arg(dropbox_path@),
{
    let mut r = "{\"path\":\"".to_owned();
    let starts_with_slash = dropbox_path.unicode_len() > 0 && dropbox_path.get_char(0) == '/';
    if !starts_with_slash {
        r.append("/");
        proof {
            reveal_strlit("/");
        }
    }
    r.append(dropbox_path);
    r.append("\"}");
    proof {
        assert(r@ =~= spec_api_arg(dropbox_path@));
    }
    r
}

/// A path already rooted with a slash and the same path without it produce
/// the same API argument.
pub proof fn lemma_api_arg_normalizes(path: Seq<char>)
    requires
        path.len() == 0 || path[0] != '/',
    ensures
        spec_api_arg(seq!['/'] + path) == spec_api_arg(path),
{
    assert(spec_api_arg(seq!['/'] + path) =~= spec_api_arg(path));
}

/// The string member under `key` of the JSON object a text denotes, or
/// `None` where the text is not a JSON object with a string member there.
pub uninterp spec fn json_string_field_of(body: Seq<char>, key: Seq<char>) -> Option<Seq<char>>;

/// Relies on `serde_json::from_str::<Value>`, `Value::get` and
/// `Value::as_str`: whether a text parses as a JSON object carrying a
/// string member under `key`, and that member's value, are functions of the
/// text alone. The error carries free-text reasons.
#[verifier::external_body]
fn json_string_field(body: &str, key: &str) -> (r: Result<String, String>)
    ensures
        match r {
            Ok(v) => json_string_field_of(body@, key@) == Some(v@),
            Err(_) => json_string_field_of(body@, key@) is None,
        },
{
    match serde_json::from_str::<serde_json::Value>(body) {
        Err(e) => Err(e.to_string()),
        Ok(v) => match v.get(key) {
            Some(field) => match field.as_str() {
                Some(s) => Ok(s.to_string()),
                None => Err(format!("field {} is not a string", key)),
            },
            None => Err(format!("missing field {}", key)),
        },
    }
}

/// Reads the `access_token` member of a token-endpoint response body;
/// anything else is a `JsonContent` mishap carrying the raw body.
pub fn access_token_from_response(body: &str) -> (r: Result<String, Mishap>)
    ensures
        r is Ok <==> json_string_field_of(body@, "access_token"@) is Some,
        match r {
            Ok(tok) => json_string_field_of(body@, "access_token"@) == Some(tok@),
            Err(e) => e matches Mishap::JsonContent(b, _) && b@ == body@,
        },
{
    match json_string_field(body, "access_token") {
        Ok(tok) => Ok(tok),
        Err(reason) => Err(Mishap::JsonContent(body.to_owned(), reason)),
    }
}

/// Reads the `refresh_token` member of a token-endpoint response body;
/// anything else is a `JsonContent` mishap carrying the raw body.
pub fn refresh_token_from_response(body: &str) -> (r: Result<String, Mishap>)
    ensures
        r is Ok <==> json_string_field_of(body@, "refresh_token"@) is Some,
        match r {
            Ok(tok) => json_string_field_of(body@, "refresh_token"@) == Some(tok@),
            Err(e) => e matches Mishap::JsonContent(b, _) && b@ == body@,
        },
{
    match json_string_field(body, "refresh_token") {
        Ok(tok) => Ok(tok),
        Err(reason) => Err(Mishap::JsonContent(body.to_owned(), reason)),
    }
}

/// One file to upload: a local path and its remote relative path.
pub struct UploadItem {
    pub local: String,
    pub remote: String,
}

/// The uploads a post calls for, in order: the markdown file first, then
/// each attachment's full-size image followed by its thumbnail.
pub open spec fn spec_image_uploads(imgs: Seq<Image>) -> Seq<UploadItem>
    decreases imgs.len(),
{
    if imgs.len() == 0 {
        Seq::empty()
    } else {
        spec_image_uploads(imgs.drop_last()) + seq![
            UploadItem { local: imgs.last().file, remote: imgs.last().relative_path },
            UploadItem {
                local: imgs.last().thumbnail.file,
                remote: imgs.last().thumbnail.relative_path,
            },
        ]
    }
}

pub open spec fn spec_upload_items(post: PostInfo) -> Seq<UploadItem> {
    seq![UploadItem { local: post.filename, remote: post.relative_path }] + spec_image_uploads(
        post.attachments@,
    )
}

/// The linear upload sequence of one post. The caller performs each pending
/// upload and hands the HTTP status back; a non-200 status makes the
/// session final at once.
pub struct UploadSession {
    pub items: Vec<UploadItem>,
    pub pos: usize,
    pub failed_status: Option<u16>,
}

impl UploadSession {
    pub open spec fn wf(&self) -> bool {
        self.pos <= self.items@.len()
    }

    /// An upload is pending: nothing failed and items remain.
    pub open spec fn spec_pending(&self) -> bool {
        self.failed_status is None && self.pos < self.items@.len()
    }

    /// The session after one status is recorded: 200 moves on, anything
    /// else makes the session final.
    pub open spec fn spec_record(self, status: u16) -> UploadSession {
        if status == 200 {
            UploadSession { pos: (self.pos + 1) as usize, ..self }
        } else {
            UploadSession { failed_status: Some(status), ..self }
        }
    }

    /// Starts the session of a post, with the full upload list pending.
    pub fn begin(post: &PostInfo) -> (s: UploadSession)
        ensures
            s.wf(),
            s.items@ == spec_upload_items(*post),
            s.pos == 0,
            s.failed_status is None,
    {
        let mut items: Vec<UploadItem> = Vec::new();
        items.push(
            UploadItem { local: post.filename.clone(), remote: post.relative_path.clone() },
        );
        let ghost head = items@;
        let mut i: usize = 0;
        while i < post.attachments.len()
            invariant
                i <= post.attachments@.len(),
                head.len() == 1,
                head[0] == (UploadItem { local: post.filename, remote: post.relative_path }),
                items@ == head + spec_image_uploads(post.attachments@.take(i as int)),
            decreases post.attachments@.len() - i,
        {
            let img = &post.attachments[i];
            items.push(UploadItem { local: img.file.clone(), remote: img.relative_path.clone() });
            items.push(
                UploadItem {
                    local: img.thumbnail.file.clone(),
                    remote: img.thumbnail.relative_path.clone(),
                },
            );
            proof {
                let s = post.attachments@;
                assert(s.take(i + 1).drop_last() =~= s.take(i as int));
                assert(s.take(i + 1).last() == s[i as int]);
            }
            i += 1;
        }
        proof {
            assert(post.attachments@.take(post.attachments@.len() as int) =~= post.attachments@);
            assert(head + spec_image_uploads(post.attachments@) =~= spec_upload_items(*post));
        }
        UploadSession { items, pos: 0, failed_status: None }
    }

    /// The next file to upload, or `None` when the session is final.
    pub fn next_upload(&self) -> (r: Option<&UploadItem>)
        requires
            self.wf(),
        ensures
            match r {
                Some(item) => self.spec_pending() && *item == self.items@[self.pos as int],
                None => !self.spec_pending(),
            },
    {
        if self.failed_status.is_none() && self.pos < self.items.len() {
            Some(&self.items[self.pos])
        } else {
            None
        }
    }

    /// Records the HTTP status of the pending upload, as `spec_record`
    /// describes.
    pub fn record_status(&mut self, status: u16)
        requires
            old(self).wf(),
            old(self).spec_pending(),
        ensures
            *final(self) == old(self).spec_record(status),
            final(self).wf(),
    {
        if status == 200 {
            let len = self.items.len();
            proof {
                assert(self.pos < len);
            }
            self.pos += 1;
        } else {
            self.failed_status = Some(status);
        }
    }

    /// The session's result: the number of uploads performed, or the
    /// rejected status as an API mishap — `None` while uploads are pending.
    pub fn outcome(&self) -> (r: Option<Result<usize, Mishap>>)
        requires
            self.wf(),
        ensures
            match r {
                Some(out) => !self.spec_pending() && (match out {
                    Result::Ok(n) => self.failed_status is None && n == self.items@.len(),
                    Result::Err(e) => self.failed_status matches Some(code) && e
                        == Mishap::UploadRejected(code),
                }),
                None => self.spec_pending(),
            },
    {
        match self.failed_status {
            Some(code) => Some(Err(Mishap::UploadRejected(code))),
            None => {
                if self.pos >= self.items.len() {
                    Some(Ok(self.pos))
                } else {
                    None
                }
            },
        }
    }
}

/// A rejected upload makes the session final: after a non-200 status no
/// upload is pending any more (and `record_status` demands a pending
/// session), so no later file is ever offered for upload; the position
/// stays put, so the rejected item and everything after it are untouched.
pub proof fn lemma_rejected_upload_halts(s: UploadSession, status: u16)
    requires
        s.wf(),
        s.spec_pending(),
        status != 200,
    ensures
        !s.spec_record(status).spec_pending(),
        s.spec_record(status).pos == s.pos,
        s.spec_record(status).failed_status == Some(status),
{
}

} // verus!
