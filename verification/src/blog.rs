//! The extracted post and its markdown rendering: a front-matter block, the
//! body text, then one anchor-wrapped image tag per attachment.

use vstd::prelude::*;
use vstd::string::StringExecFns;

use crate::text::{dec_rep, fmt_u64};
use crate::timestamp::{datetime_rep, fmt_datetime, Timestamp};

verus! {

#[derive(Debug)]
pub struct Thumbnail {
    pub file: String,
    pub relative_path: String,
    pub width: u16,
    pub height: u16,
}

#[derive(Debug)]
pub struct Image {
    pub file: String,
    pub relative_path: String,
    pub mimetype: String,
    pub thumbnail: Thumbnail,
}

#[derive(Debug)]
pub struct PostInfo {
    pub title: String,
    pub author: String,
    pub content: Option<String>,
    pub date: Timestamp,
    pub permalink: String,
    pub attachments: Vec<Image>,
    pub relative_path: String,
    pub filename: String,
}

/// What `str::trim` leaves of a text: the text without its leading and
/// trailing whitespace.
pub uninterp spec fn trim_of(s: Seq<char>) -> Seq<char>;

/// Relies on `str::trim`: it returns the argument without leading and
/// trailing whitespace (Unicode `White_Space`), a function of the characters
/// alone.
#[verifier::external_body]
fn trim_str(s: &str) -> (r: String)
    ensures
        r@ == trim_of(s@),
{
    s.trim().to_owned()
}

impl PostInfo {
    /// Gathers the extracted parts of a post, trimming the free-text fields.
    pub fn new(
        title: String,
        author: String,
        content: Option<String>,
        date: Timestamp,
        permalink: String,
        attachments: Vec<Image>,
        relative_path: String,
        filename: String,
    ) -> (post: PostInfo)
        ensures
            post.title@ == trim_of(title@),
            post.author@ == trim_of(author@),
            match post.content {
                Some(c) => content matches Some(orig) && c@ == trim_of(orig@),
                None => content is None,
            },
            post.date == date,
            post.permalink == permalink,
            post.attachments == attachments,
            post.relative_path == relative_path,
            post.filename == filename,
    {
        let trimmed_content = match content {
            Some(text) => Some(trim_str(text.as_str())),
            None => None,
        };
        PostInfo {
            title: trim_str(title.as_str()),
            author: trim_str(author.as_str()),
            content: trimmed_content,
            date,
            permalink,
            attachments,
            relative_path,
            filename,
        }
    }
}

/// The anchor-wrapped image tag of one attachment: it links the full-size
/// URL and shows the thumbnail with explicit pixel dimensions, both URLs
/// behind the site's base-URL placeholder.
pub open spec fn spec_image_markdown(img: Image) -> Seq<char> {
    "<a href=\"{{ site.url }}"@ + img.relative_path@ + "\"><img src=\"{{ site.url }}"@
        + img.thumbnail.relative_path@ + "\" width=\""@ + dec_rep(img.thumbnail.width as nat)
        + "\" height=\""@ + dec_rep(img.thumbnail.height as nat) + "\"></a>"@
}

/// Renders one attachment as `spec_image_markdown` describes.
pub fn image_to_markdown(image: &Image) -> (r: String)
    ensures
        r@ == spec_image_markdown(*image),
{
    let mut r = "<a href=\"{{ site.url }}".to_owned();
    r.append(image.relative_path.as_str());
    r.append("\"><img src=\"{{ site.url }}");
    r.append(image.thumbnail.relative_path.as_str());
    r.append("\" width=\"");
    let w = fmt_u64(image.thumbnail.width as u64);
    r.append(w.as_str());
    r.append("\" height=\"");
    let h = fmt_u64(image.thumbnail.height as u64);
    r.append(h.as_str());
    r.append("\"></a>");
    r
}

/// The front-matter block, in its exact field order, delimited by `---`
/// lines.
pub open spec fn spec_post_meta(post: PostInfo) -> Seq<char> {
    "---\ntitle: |\n    "@ + post.title@ + "\nauthor: "@ + post.author@ + "\ndate: "@
        + datetime_rep(post.date) + "\npermalink: "@ + post.permalink@
        + "\nlayout: post\ncomments: true\n---"@
}

/// Renders the front-matter block as `spec_post_meta` describes.
pub fn post_meta(post: &PostInfo) -> (r: String)
    ensures
        r@ == spec_post_meta(*post),
{
    let mut r = "---\ntitle: |\n    ".to_owned();
    r.append(post.title.as_str());
    r.append("\nauthor: ");
    r.append(post.author.as_str());
    r.append("\ndate: ");
    let d = fmt_datetime(&post.date);
    r.append(d.as_str());
    r.append("\npermalink: ");
    r.append(post.permalink.as_str());
    r.append("\nlayout: post\ncomments: true\n---");
    r
}

/// The attachment section: each image's markdown followed by a blank line.
pub open spec fn spec_images_markdown(imgs: Seq<Image>) -> Seq<char>
    decreases imgs.len(),
{
    if imgs.len() == 0 {
        Seq::empty()
    } else {
        spec_images_markdown(imgs.drop_last()) + spec_image_markdown(imgs.last()) + "\n\n"@
    }
}

/// The whole document: front matter, a blank line, the body (if any)
/// followed by a blank line, then the attachment section.
pub open spec fn spec_render(post: PostInfo) -> Seq<char> {
    spec_post_meta(post) + "\n\n"@ + (match post.content {
        Some(c) => c@ + "\n\n"@,
        None => Seq::<char>::empty(),
    }) + spec_images_markdown(post.attachments@)
}

/// Serializes the post as `spec_render` describes. The caller writes the
/// result to `post.filename`.
pub fn render(post: &PostInfo) -> (r: String)
    ensures
        r@ == spec_render(*post),
{
    let mut r = post_meta(post);
    r.append("\n\n");
    match &post.content {
        Some(text) => {
            r.append(text.as_str());
            r.append("\n\n");
        },
        None => {},
    }
    let ghost fixed = r@;
    let mut i: usize = 0;
    while i < post.attachments.len()
        invariant
            i <= post.attachments.len(),
            r@ == fixed + spec_images_markdown(post.attachments@.take(i as int)),
        decreases post.attachments.len() - i,
    {
        let img_md = image_to_markdown(&post.attachments[i]);
        r.append(img_md.as_str());
        r.append("\n\n");
        proof {
            let s = post.attachments@;
            assert(s.take(i + 1).drop_last() =~= s.take(i as int));
            assert(s.take(i + 1).last() == s[i as int]);
        }
        i += 1;
    }
    proof {
        assert(post.attachments@.take(post.attachments@.len() as int) =~= post.attachments@);
        assert(spec_images_markdown(post.attachments@.take(0)) =~= Seq::<char>::empty());
        assert(r@ =~= spec_render(*post));
    }
    r
}

/// A post with no body and no attachments renders as the front-matter block
/// followed by one blank line and nothing else.
pub proof fn lemma_render_bare(post: PostInfo)
    requires
        post.content is None,
        post.attachments@.len() == 0,
    ensures
        spec_render(post) == spec_post_meta(post) + "\n\n"@,
{
    assert(spec_render(post) =~= spec_post_meta(post) + "\n\n"@);
}

} // verus!
