//! The per-post naming convention: every path and URL of a post and of its
//! media is derived from one (date, slug) pair, and attachments are told
//! apart only by their zero-based ordinal plus an optional `-thumb` suffix.

use vstd::prelude::*;
use vstd::string::StringExecFns;

use crate::text::{dec_rep, fmt_usize, lemma_mid_dec_distinct};
use crate::timestamp::{date_rep, fmt_date, fmt_year, year_rep, Timestamp};

verus! {

pub struct FileConventions {
    post_media_dir: String,
    post_media_url: String,
    permalink: String,
    stem: String,
    post_path: String,
    post_filename: String,
}

impl FileConventions {
    /// The yearly media directory, `{output_dir}/{media_path}/{year}`.
    pub closed spec fn spec_media_dir(&self) -> Seq<char> {
        self.post_media_dir@
    }

    /// The matching site-relative URL, `/{media_path}/{year}`.
    pub closed spec fn spec_media_url(&self) -> Seq<char> {
        self.post_media_url@
    }

    /// `/{slug}`.
    pub closed spec fn spec_permalink(&self) -> Seq<char> {
        self.permalink@
    }

    /// The `{date}-{slug}` prefix every filename of the post shares.
    pub closed spec fn spec_stem(&self) -> Seq<char> {
        self.stem@
    }

    /// `{posts_path}/{stem}.md`.
    pub closed spec fn spec_post_path(&self) -> Seq<char> {
        self.post_path@
    }

    /// `{output_dir}/{posts_path}/{stem}.md`.
    pub closed spec fn spec_post_filename(&self) -> Seq<char> {
        self.post_filename@
    }

    pub open spec fn spec_attachment_filename(&self, n: nat) -> Seq<char> {
        self.spec_media_dir() + "/"@ + self.spec_stem() + "-"@ + dec_rep(n) + ".jpg"@
    }

    pub open spec fn spec_attachment_url(&self, n: nat) -> Seq<char> {
        self.spec_media_url() + "/"@ + self.spec_stem() + "-"@ + dec_rep(n) + ".jpg"@
    }

    pub open spec fn spec_attachment_thumb_path(&self, n: nat) -> Seq<char> {
        self.spec_media_dir() + "/"@ + self.spec_stem() + "-"@ + dec_rep(n) + "-thumb.jpg"@
    }

    pub open spec fn spec_attachment_thumb_url(&self, n: nat) -> Seq<char> {
        self.spec_media_url() + "/"@ + self.spec_stem() + "-"@ + dec_rep(n) + "-thumb.jpg"@
    }

    /// Derives every path and URL of the post from the date and the slug.
    /// The yearly media directory is not created here: the caller makes sure
    /// `media_dir` exists before any attachment is saved.
    pub fn new(
        output_dir: &str,
        media_path: &str,
        posts_path: &str,
        date: &Timestamp,
        slug: &str,
    ) -> (c: FileConventions)
        ensures
            c.spec_media_dir() == output_dir@ + "/"@ + media_path@ + "/"@ + year_rep(
                date.year as int,
            ),
            c.spec_media_url() == "/"@ + media_path@ + "/"@ + year_rep(date.year as int),
            c.spec_stem() == date_rep(*date) + "-"@ + slug@,
            c.spec_post_filename() == output_dir@ + "/"@ + posts_path@ + "/"@ + c.spec_stem()
                + ".md"@,
            c.spec_post_path() == posts_path@ + "/"@ + c.spec_stem() + ".md"@,
            c.spec_permalink() == "/"@ + slug@,
    {
        let year = fmt_year(date.year);

        let mut post_media_dir = output_dir.to_owned();
        post_media_dir.append("/");
        post_media_dir.append(media_path);
        post_media_dir.append("/");
        post_media_dir.append(year.as_str());

        let mut post_media_url = "/".to_owned();
        post_media_url.append(media_path);
        post_media_url.append("/");
        post_media_url.append(year.as_str());

        let mut stem = fmt_date(date);
        stem.append("-");
        stem.append(slug);

        let mut post_filename = output_dir.to_owned();
        post_filename.append("/");
        post_filename.append(posts_path);
        post_filename.append("/");
        post_filename.append(stem.as_str());
        post_filename.append(".md");

        let mut post_path = posts_path.to_owned();
        post_path.append("/");
        post_path.append(stem.as_str());
        post_path.append(".md");

        let mut permalink = "/".to_owned();
        permalink.append(slug);

        FileConventions {
            post_media_dir,
            post_media_url,
            permalink,
            stem,
            post_path,
            post_filename,
        }
    }

    /// The yearly media directory that must exist before attachments are
    /// saved.
    pub fn media_dir(&self) -> (r: String)
        ensures
            r@ == self.spec_media_dir(),
    {
        self.post_media_dir.clone()
    }

    pub fn post_filename(&self) -> (r: String)
        ensures
            r@ == self.spec_post_filename(),
    {
        self.post_filename.clone()
    }

    pub fn post_path(&self) -> (r: String)
        ensures
            r@ == self.spec_post_path(),
    {
        self.post_path.clone()
    }

    pub fn permalink(&self) -> (r: String)
        ensures
            r@ == self.spec_permalink(),
    {
        self.permalink.clone()
    }

    /// Where the full-size image with ordinal `count` is saved.
    pub fn attachment_filename(&self, count: usize) -> (r: String)
        ensures
            r@ == self.spec_attachment_filename(count as nat),
    {
        let mut image_file = self.post_media_dir.clone();
        image_file.append("/");
        image_file.append(self.stem.as_str());
        image_file.append("-");
        let n = fmt_usize(count);
        image_file.append(n.as_str());
        image_file.append(".jpg");
        image_file
    }

    /// The site-relative URL of the full-size image with ordinal `count`.
    pub fn attachment_url(&self, count: usize) -> (r: String)
        ensures
            r@ == self.spec_attachment_url(count as nat),
    {
        let mut url = self.post_media_url.clone();
        url.append("/");
        url.append(self.stem.as_str());
        url.append("-");
        let n = fmt_usize(count);
        url.append(n.as_str());
        url.append(".jpg");
        url
    }

    /// Where the thumbnail with ordinal `count` is saved.
    pub fn attachment_thumb_path(&self, count: usize) -> (r: String)
        ensures
            r@ == self.spec_attachment_thumb_path(count as nat),
    {
        let mut image_file = self.post_media_dir.clone();
        image_file.append("/");
        image_file.append(self.stem.as_str());
        image_file.append("-");
        let n = fmt_usize(count);
        image_file.append(n.as_str());
        image_file.append("-thumb.jpg");
        image_file
    }

    /// The site-relative URL of the thumbnail with ordinal `count`.
    pub fn attachment_thumb_url(&self, count: usize) -> (r: String)
        ensures
            r@ == self.spec_attachment_thumb_url(count as nat),
    {
        let mut url = self.post_media_url.clone();
        url.append("/");
        url.append(self.stem.as_str());
        url.append("-");
        let n = fmt_usize(count);
        url.append(n.as_str());
        url.append("-thumb.jpg");
        url
    }
}

/// Within one post, distinct ordinals give distinct attachment paths and
/// URLs: the ordinal is the only varying part, and its decimal rendering
/// determines it.
pub proof fn lemma_attachment_names_distinct(c: &FileConventions, n1: nat, n2: nat)
    requires
        n1 != n2,
    ensures
        c.spec_attachment_filename(n1) != c.spec_attachment_filename(n2),
        c.spec_attachment_url(n1) != c.spec_attachment_url(n2),
        c.spec_attachment_thumb_path(n1) != c.spec_attachment_thumb_path(n2),
        c.spec_attachment_thumb_url(n1) != c.spec_attachment_thumb_url(n2),
{
    let pd = c.spec_media_dir() + "/"@ + c.spec_stem() + "-"@;
    let pu = c.spec_media_url() + "/"@ + c.spec_stem() + "-"@;
    assert forall|n: nat| true implies #[trigger] c.spec_attachment_filename(n) == pd + dec_rep(n)
        + ".jpg"@ by {
        assert(c.spec_attachment_filename(n) =~= pd + dec_rep(n) + ".jpg"@);
    }
    assert forall|n: nat| true implies #[trigger] c.spec_attachment_url(n) == pu + dec_rep(n)
        + ".jpg"@ by {
        assert(c.spec_attachment_url(n) =~= pu + dec_rep(n) + ".jpg"@);
    }
    assert forall|n: nat| true implies #[trigger] c.spec_attachment_thumb_path(n) == pd + dec_rep(
        n,
    ) + "-thumb.jpg"@ by {
        assert(c.spec_attachment_thumb_path(n) =~= pd + dec_rep(n) + "-thumb.jpg"@);
    }
    assert forall|n: nat| true implies #[trigger] c.spec_attachment_thumb_url(n) == pu + dec_rep(
        n,
    ) + "-thumb.jpg"@ by {
        assert(c.spec_attachment_thumb_url(n) =~= pu + dec_rep(n) + "-thumb.jpg"@);
    }
    lemma_mid_dec_distinct(pd, ".jpg"@, n1, n2);
    lemma_mid_dec_distinct(pu, ".jpg"@, n1, n2);
    lemma_mid_dec_distinct(pd, "-thumb.jpg"@, n1, n2);
    lemma_mid_dec_distinct(pu, "-thumb.jpg"@, n1, n2);
}

} // verus!
