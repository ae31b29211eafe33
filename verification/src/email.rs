//! The MIME tree and its extraction rules: the first plain-text body, the
//! ordered image parts, and the header-derived metadata with its documented
//! fallbacks.

use vstd::prelude::*;
use vstd::string::{StrSliceExecFns, StringExecFns};

use crate::blog::{trim_of, Image, PostInfo, Thumbnail};
use crate::conventions::FileConventions;
use crate::mishaps::Mishap;
use crate::signatureblock::{remove, spec_remove};
use crate::timestamp::{civil_of_epoch, timestamp_from_epoch, Timestamp};

verus! {

/// One header of a MIME part, with its decoded value.
pub struct Header {
    pub name: String,
    pub value: String,
}

/// One node of a MIME tree: a content type (lowercased, as the parser hands
/// it out), the part's headers, its decoded text and raw bodies, and its
/// ordered child parts.
pub struct MimeNode {
    pub mimetype: String,
    pub headers: Vec<Header>,
    pub body: String,
    pub body_raw: Vec<u8>,
    pub children: Vec<MimeNode>,
}

/// ASCII-case-insensitive equality of two characters, the comparison header
/// lookup uses.
pub open spec fn chars_eq_nocase(a: char, b: char) -> bool {
    ||| a == b
    ||| (65 <= a as int <= 90 && a as int + 32 == b as int)
    ||| (65 <= b as int <= 90 && b as int + 32 == a as int)
}

/// ASCII-case-insensitive equality of two texts.
pub open spec fn spec_eq_nocase(a: Seq<char>, b: Seq<char>) -> bool {
    a.len() == b.len() && forall|i: int| 0 <= i < a.len() ==> chars_eq_nocase(a[i], b[i])
}

fn eq_nocase(a: &str, b: &str) -> (r: bool)
    ensures
        r == spec_eq_nocase(a@, b@),
{
    let alen = a.unicode_len();
    let blen = b.unicode_len();
    if alen != blen {
        return false;
    }
    let mut i: usize = 0;
    while i < alen
        invariant
            i <= alen,
            alen == a@.len(),
            alen == b@.len(),
            forall|j: int| 0 <= j < i ==> chars_eq_nocase(a@[j], b@[j]),
        decreases alen - i,
    {
        let ca = a.get_char(i) as u32;
        let cb = b.get_char(i) as u32;
        let same = ca == cb || (65 <= ca && ca <= 90 && ca + 32 == cb) || (65 <= cb && cb <= 90
            && cb + 32 == ca);
        if !same {
            return false;
        }
        i += 1;
    }
    true
}

/// The value of the first header whose name matches `name` ASCII-case-
/// insensitively, starting the search at position `k`.
pub open spec fn spec_first_value_from(headers: Seq<Header>, name: Seq<char>, k: int) -> Option<
    Seq<char>,
>
    decreases headers.len() - k,
{
    if k < 0 || k >= headers.len() {
        None
    } else if spec_eq_nocase(headers[k].name@, name) {
        Some(headers[k].value@)
    } else {
        spec_first_value_from(headers, name, k + 1)
    }
}

/// The value of the first header named `name`, matched ASCII-case-
/// insensitively.
pub open spec fn spec_get_first_value(headers: Seq<Header>, name: Seq<char>) -> Option<Seq<char>> {
    spec_first_value_from(headers, name, 0)
}

/// Looks a header up by name, as `spec_get_first_value` describes.
pub fn get_first_value(mail: &MimeNode, name: &str) -> (r: Option<String>)
    ensures
        match r {
            Some(v) => spec_get_first_value(mail.headers@, name@) == Some(v@),
            None => spec_get_first_value(mail.headers@, name@) is None,
        },
{
    let mut i: usize = 0;
    while i < mail.headers.len()
        invariant
            i <= mail.headers@.len(),
            spec_first_value_from(mail.headers@, name@, 0) == spec_first_value_from(
                mail.headers@,
                name@,
                i as int,
            ),
        decreases mail.headers@.len() - i,
    {
        if eq_nocase(mail.headers[i].name.as_str(), name) {
            return Some(mail.headers[i].value.clone());
        }
        i += 1;
    }
    None
}

/// The first plain-text body of the tree, depth-first and left-to-right: a
/// `text/plain` node contributes its own decoded text; any other node
/// defers to its children in order.
pub open spec fn spec_body(m: MimeNode) -> Option<Seq<char>>
    decreases m,
{
    if m.mimetype@ == "text/plain"@ {
        Some(m.body@)
    } else {
        spec_body_list(m.children@)
    }
}

/// The first plain-text body found in a list of sibling parts.
pub open spec fn spec_body_list(ms: Seq<MimeNode>) -> Option<Seq<char>>
    decreases ms,
{
    if ms.len() == 0 {
        None
    } else {
        match spec_body(ms[0]) {
            Some(t) => Some(t),
            None => spec_body_list(ms.drop_first()),
        }
    }
}

/// Extracts the first plain-text body, as `spec_body` describes.
pub fn body(mail: &MimeNode) -> (r: Option<String>)
    ensures
        match r {
            Some(t) => spec_body(*mail) == Some(t@),
            None => spec_body(*mail) is None,
        },
    decreases *mail,
{
    if mail.mimetype == "text/plain".to_owned() {
        return Some(mail.body.clone());
    }
    proof {
        assert(mail.children@.skip(0) =~= mail.children@);
    }
    let mut i: usize = 0;
    while i < mail.children.len()
        invariant
            i <= mail.children@.len(),
            mail.mimetype@ != "text/plain"@,
            spec_body_list(mail.children@.skip(i as int)) == spec_body_list(mail.children@),
        decreases mail.children@.len() - i,
    {
        proof {
            assert(mail.children@.skip(i as int)[0] == mail.children@[i as int]);
        }
        match body(&mail.children[i]) {
            Some(t) => {
                return Some(t);
            },
            None => {},
        }
        proof {
            assert(mail.children@.skip(i as int).drop_first() =~= mail.children@.skip(i + 1));
        }
        i += 1;
    }
    proof {
        assert(mail.children@.skip(mail.children@.len() as int).len() == 0);
    }
    None
}

/// Whether a node's content type begins with `image/`.
pub open spec fn is_image_node(m: MimeNode) -> bool {
    m.mimetype@.len() >= 6 && m.mimetype@.subrange(0, 6) == "image/"@
}

fn is_image(m: &MimeNode) -> (r: bool)
    ensures
        r == is_image_node(*m),
{
    proof {
        reveal_strlit("image/");
    }
    let s = m.mimetype.as_str();
    if s.unicode_len() < 6 {
        return false;
    }
    let r = s.get_char(0) == 'i' && s.get_char(1) == 'm' && s.get_char(2) == 'a' && s.get_char(3)
        == 'g' && s.get_char(4) == 'e' && s.get_char(5) == '/';
    proof {
        if r {
            assert(m.mimetype@.subrange(0, 6) =~= "image/"@);
        } else {
            if m.mimetype@.subrange(0, 6) == "image/"@ {
                assert(m.mimetype@.subrange(0, 6)[0] == 'i');
                assert(m.mimetype@.subrange(0, 6)[1] == 'm');
                assert(m.mimetype@.subrange(0, 6)[2] == 'a');
                assert(m.mimetype@.subrange(0, 6)[3] == 'g');
                assert(m.mimetype@.subrange(0, 6)[4] == 'e');
                assert(m.mimetype@.subrange(0, 6)[5] == '/');
            }
        }
    }
    r
}

/// The image parts of the tree in depth-first, left-to-right order. An
/// image node is terminal: its own children are not searched further.
pub open spec fn spec_find_attachments(m: MimeNode) -> Seq<MimeNode>
    decreases m,
{
    if is_image_node(m) {
        seq![m]
    } else {
        spec_find_attachments_list(m.children@)
    }
}

/// The image parts found in a list of sibling parts, in order.
pub open spec fn spec_find_attachments_list(ms: Seq<MimeNode>) -> Seq<MimeNode>
    decreases ms,
{
    if ms.len() == 0 {
        Seq::empty()
    } else {
        spec_find_attachments_list(ms.drop_last()) + spec_find_attachments(ms.last())
    }
}

/// Collects the image parts, as `spec_find_attachments` describes: the same
/// tree always yields the same nodes in the same (depth-first,
/// left-to-right) order.
pub fn find_attachments<'a>(mail: &'a MimeNode) -> (r: Vec<&'a MimeNode>)
    ensures
        r@.len() == spec_find_attachments(*mail).len(),
        forall|i: int| 0 <= i < r@.len() ==> *r@[i] == spec_find_attachments(*mail)[i],
    decreases *mail,
{
    let mut r: Vec<&'a MimeNode> = Vec::new();
    if is_image(mail) {
        r.push(mail);
        return r;
    }
    let mut i: usize = 0;
    while i < mail.children.len()
        invariant
            i <= mail.children@.len(),
            !is_image_node(*mail),
            r@.len() == spec_find_attachments_list(mail.children@.take(i as int)).len(),
            forall|j: int|
                0 <= j < r@.len() ==> *r@[j] == spec_find_attachments_list(
                    mail.children@.take(i as int),
                )[j],
        decreases mail.children@.len() - i,
    {
        let mut sub = find_attachments(&mail.children[i]);
        r.append(&mut sub);
        proof {
            assert(mail.children@.take(i + 1).drop_last() =~= mail.children@.take(i as int));
            assert(mail.children@.take(i + 1).last() == mail.children@[i as int]);
        }
        i += 1;
    }
    proof {
        assert(mail.children@.take(mail.children@.len() as int) =~= mail.children@);
    }
    r
}

/// Everything `find_attachments` returns is an image part.
pub proof fn lemma_find_attachments_images(m: MimeNode)
    ensures
        forall|i: int|
            0 <= i < spec_find_attachments(m).len() ==> is_image_node(
                #[trigger] spec_find_attachments(m)[i],
            ),
    decreases m,
{
    if is_image_node(m) {
        assert(spec_find_attachments(m)[0] == m);
    } else {
        lemma_find_attachments_list_images(m.children@);
        assert forall|i: int|
            0 <= i < spec_find_attachments(m).len() implies is_image_node(
            #[trigger] spec_find_attachments(m)[i],
        ) by {
            assert(spec_find_attachments(m)[i] == spec_find_attachments_list(m.children@)[i]);
        }
    }
}

/// Attachment discovery is deterministic: any two results over the same
/// tree are the same sequence, since `find_attachments` pins its result to
/// `spec_find_attachments`, a function of the tree alone.
pub proof fn lemma_find_attachments_deterministic(
    m: MimeNode,
    r1: Seq<MimeNode>,
    r2: Seq<MimeNode>,
)
    requires
        r1 == spec_find_attachments(m),
        r2 == spec_find_attachments(m),
    ensures
        r1 == r2,
{
}

/// One outline line: the prefix, the node's content type, and its child
/// count.
pub open spec fn spec_outline_line(prefix: Seq<char>, m: MimeNode) -> Seq<char> {
    prefix + " "@ + m.mimetype@ + " (children: "@ + crate::text::dec_rep(m.children@.len())
        + ")"@
}

/// The outline of a subtree: the node's line, then each child's outline
/// under a prefix two dashes longer.
pub open spec fn spec_outline(prefix: Seq<char>, m: MimeNode) -> Seq<Seq<char>>
    decreases m,
{
    seq![spec_outline_line(prefix, m)] + spec_outline_list("--"@ + prefix, m.children@)
}

pub open spec fn spec_outline_list(prefix: Seq<char>, ms: Seq<MimeNode>) -> Seq<Seq<char>>
    decreases ms,
{
    if ms.len() == 0 {
        Seq::empty()
    } else {
        spec_outline_list(prefix, ms.drop_last()) + spec_outline(prefix, ms.last())
    }
}

fn describe_child(prefix: &str, mail: &MimeNode) -> (r: Vec<String>)
    ensures
        r@.len() == spec_outline(prefix@, *mail).len(),
        forall|i: int| 0 <= i < r@.len() ==> #[trigger] r@[i]@ == spec_outline(prefix@, *mail)[i],
    decreases *mail,
{
    let mut line = prefix.to_owned();
    line.append(" ");
    line.append(mail.mimetype.as_str());
    line.append(" (children: ");
    let n = crate::text::fmt_usize(mail.children.len());
    line.append(n.as_str());
    line.append(")");
    let mut r: Vec<String> = Vec::new();
    r.push(line);

    let mut indent = "--".to_owned();
    indent.append(prefix);
    let ghost ind = indent@;
    proof {
        assert(r@[0]@ == spec_outline_line(prefix@, *mail));
    }
    let mut i: usize = 0;
    while i < mail.children.len()
        invariant
            i <= mail.children@.len(),
            indent@ == ind,
            ind == "--"@ + prefix@,
            r@.len() == 1 + spec_outline_list(ind, mail.children@.take(i as int)).len(),
            r@[0]@ == spec_outline_line(prefix@, *mail),
            forall|j: int|
                1 <= j < r@.len() ==> #[trigger] r@[j]@ == spec_outline_list(
                    ind,
                    mail.children@.take(i as int),
                )[j - 1],
        decreases mail.children@.len() - i,
    {
        let mut sub = describe_child(indent.as_str(), &mail.children[i]);
        r.append(&mut sub);
        proof {
            assert(mail.children@.take(i + 1).drop_last() =~= mail.children@.take(i as int));
            assert(mail.children@.take(i + 1).last() == mail.children@[i as int]);
        }
        i += 1;
    }
    proof {
        assert(mail.children@.take(mail.children@.len() as int) =~= mail.children@);
    }
    r
}

/// The diagnostic outline of the whole tree, one line per node in
/// depth-first order, the root prefixed `+` and each level two dashes
/// deeper. Not part of the data contract; the caller prints it.
pub fn outline(mail: &MimeNode) -> (r: Vec<String>)
    ensures
        r@.len() == spec_outline("+"@, *mail).len(),
        forall|i: int| 0 <= i < r@.len() ==> #[trigger] r@[i]@ == spec_outline("+"@, *mail)[i],
{
    describe_child("+", mail)
}

/// The URL-safe slug of a title, as `slug::slugify` derives it.
pub uninterp spec fn slug_of(s: Seq<char>) -> Seq<char>;

/// Relies on `slug::slugify`: a function of the characters alone. Its
/// documentation promises a result made of `a-z`, `0-9` and `-` that never
/// starts or ends with `-`.
#[verifier::external_body]
fn slugify_str(s: &str) -> (r: String)
    ensures
        r@ == slug_of(s@),
        forall|i: int|
            0 <= i < r@.len() ==> ('a' <= #[trigger] r@[i] <= 'z' || '0' <= r@[i] <= '9' || r@[i]
                == '-'),
        r@.len() > 0 ==> r@[0] != '-' && r@[r@.len() - 1] != '-',
{
    slug::slugify(s)
}

/// The Unix epoch seconds `mailparse::dateparse` derives from a date header
/// text, or `None` where it rejects the text. (The parser is lenient: some
/// malformed texts still yield seconds.)
pub uninterp spec fn rfc2822_secs_of(s: Seq<char>) -> Option<int>;

/// Relies on `mailparse::dateparse`: epoch seconds are a function of the
/// header text alone; on failure the error's description is returned.
#[verifier::external_body]
fn parse_email_date(s: &str) -> (r: Result<i64, String>)
    ensures
        match r {
            Ok(n) => rfc2822_secs_of(s@) == Some(n as int),
            Err(_) => rfc2822_secs_of(s@) is None,
        },
{
    mailparse::dateparse(s).map_err(|e| e.to_string())
}

/// What a `From` header text yields: `None` where it does not parse as an
/// address list, `Some(None)` where the list is empty or its first address
/// carries no display name, `Some(Some(name))` with the first address's
/// display name otherwise.
pub uninterp spec fn from_display_name_of(s: Seq<char>) -> Option<Option<Seq<char>>>;

/// Relies on `mailparse::addrparse`, a function of the header text alone:
/// the result is the display name of the parsed list's first address —
/// `None` where the list is empty, its first entry is a group, or that
/// address has no display name. On a parse failure the error's description
/// is returned.
#[verifier::external_body]
fn parse_from_display_name(s: &str) -> (r: Result<Option<String>, String>)
    ensures
        match r {
            Ok(Some(name)) => from_display_name_of(s@) == Some(Some(name@)),
            Ok(None) => from_display_name_of(s@) == Some(None::<Seq<char>>),
            Err(_) => from_display_name_of(s@) is None,
        },
{
    match mailparse::addrparse(s) {
        Ok(addrs) => Ok(
            match addrs.into_inner().into_iter().next() {
                Some(mailparse::MailAddr::Single(info)) => info.display_name,
                _ => None,
            },
        ),
        Err(e) => Err(e.to_string()),
    }
}

proof fn lemma_find_attachments_list_images(ms: Seq<MimeNode>)
    ensures
        forall|i: int|
            0 <= i < spec_find_attachments_list(ms).len() ==> is_image_node(
                #[trigger] spec_find_attachments_list(ms)[i],
            ),
    decreases ms,
{
    if ms.len() > 0 {
        lemma_find_attachments_list_images(ms.drop_last());
        lemma_find_attachments_images(ms.last());
        let a = spec_find_attachments_list(ms.drop_last());
        let b = spec_find_attachments(ms.last());
        assert forall|i: int|
            0 <= i < spec_find_attachments_list(ms).len() implies is_image_node(
            #[trigger] spec_find_attachments_list(ms)[i],
        ) by {
            if i < a.len() {
                assert((a + b)[i] == a[i]);
            } else {
                assert((a + b)[i] == b[i - a.len()]);
            }
        }
    }
}

/// The header-derived metadata of a post, before attachments are saved.
#[derive(Debug)]
pub struct PostMeta {
    pub title: String,
    pub author: String,
    pub content: Option<String>,
    pub date: Timestamp,
    pub slug: String,
}

/// The body text with its signature block removed.
pub open spec fn spec_content(m: MimeNode) -> Option<Seq<char>> {
    match spec_body(m) {
        Some(t) => Some(spec_remove(t)),
        None => None,
    }
}

/// The title: a non-empty `Subject` header, else the body text, else
/// `Untitled`.
pub open spec fn spec_title(m: MimeNode) -> Seq<char> {
    let subj = spec_get_first_value(m.headers@, "Subject"@);
    if subj is Some && subj->0.len() > 0 {
        subj->0
    } else {
        match spec_content(m) {
            Some(c) => c,
            None => "Untitled"@,
        }
    }
}

/// The title fallback rules: a non-empty subject is the title; with the
/// subject empty or absent, the body text is; with both absent, the title
/// is `Untitled`.
pub proof fn lemma_title_fallbacks(m: MimeNode)
    ensures
        (match spec_get_first_value(m.headers@, "Subject"@) {
            Some(s) => s.len() > 0,
            None => false,
        }) ==> Some(spec_title(m)) == spec_get_first_value(m.headers@, "Subject"@),
        (match spec_get_first_value(m.headers@, "Subject"@) {
            Some(s) => s.len() == 0,
            None => true,
        }) && spec_content(m) is Some ==> Some(spec_title(m)) == spec_content(m),
        (match spec_get_first_value(m.headers@, "Subject"@) {
            Some(s) => s.len() == 0,
            None => true,
        }) && spec_content(m) is None ==> spec_title(m) == "Untitled"@,
{
}

/// The `From` header is absent or parses as an address list.
pub open spec fn spec_from_ok(m: MimeNode) -> bool {
    match spec_get_first_value(m.headers@, "From"@) {
        None => true,
        Some(h) => from_display_name_of(h) is Some,
    }
}

/// The author: the display name of the sender, else `Someone`.
pub open spec fn spec_author(m: MimeNode) -> Seq<char> {
    match spec_get_first_value(m.headers@, "From"@) {
        None => "Someone"@,
        Some(h) => match from_display_name_of(h) {
            Some(Some(name)) => name,
            _ => "Someone"@,
        },
    }
}

/// The `Date` header is absent, or parses and lies in the representable
/// range.
pub open spec fn spec_date_ok(m: MimeNode) -> bool {
    match spec_get_first_value(m.headers@, "Date"@) {
        None => true,
        Some(h) => match rfc2822_secs_of(h) {
            Some(secs) => civil_of_epoch(secs) is Some,
            None => false,
        },
    }
}

/// `d` is the publication instant the mail calls for: the parsed `Date`
/// header, or `now` when the header is absent.
pub open spec fn date_matches(m: MimeNode, now: Timestamp, d: Timestamp) -> bool {
    match spec_get_first_value(m.headers@, "Date"@) {
        None => d == now,
        Some(h) => match rfc2822_secs_of(h) {
            Some(secs) => civil_of_epoch(secs) == Some(
                (d.year as int, d.month as int, d.day as int, d.hour as int, d.minute as int),
            ),
            None => false,
        },
    }
}

fn fallback_title(content: &Option<String>) -> (r: String)
    ensures
        match content {
            Some(c) => r@ == c@,
            None => r@ == "Untitled"@,
        },
{
    match content {
        Some(c) => c.clone(),
        None => "Untitled".to_owned(),
    }
}

/// Derives the post metadata from the mail: sender, title, body text and
/// publication date, with the documented fallbacks. Fails exactly where a
/// `From` header does not parse (`Email`) or a `Date` header is present but
/// does not parse or is out of range (`EmailField`); a missing `Date`
/// defaults to `now`.
pub fn extract_meta(mail: &MimeNode, now: Timestamp) -> (r: Result<PostMeta, Mishap>)
    requires
        now.wf(),
    ensures
        r is Ok <==> spec_from_ok(*mail) && spec_date_ok(*mail),
        match r {
            Ok(meta) => {
                &&& meta.title@ == spec_title(*mail)
                &&& meta.author@ == spec_author(*mail)
                &&& match meta.content {
                    Some(c) => spec_content(*mail) == Some(c@),
                    None => spec_content(*mail) is None,
                }
                &&& date_matches(*mail, now, meta.date)
                &&& meta.date.wf()
                &&& meta.slug@ == slug_of(spec_title(*mail))
            },
            Err(e) => {
                ||| !spec_from_ok(*mail) && e is Email
                ||| spec_from_ok(*mail) && !spec_date_ok(*mail) && e is EmailField
            },
        },
{
    let author: String = match get_first_value(mail, "From") {
        None => "Someone".to_owned(),
        Some(h) => match parse_from_display_name(h.as_str()) {
            Err(e) => {
                return Err(Mishap::Email(e));
            },
            Ok(None) => "Someone".to_owned(),
            Ok(Some(name)) => name,
        },
    };

    let content: Option<String> = match body(mail) {
        Some(t) => Some(remove(t)),
        None => None,
    };

    let date: Timestamp = match get_first_value(mail, "Date") {
        None => now,
        Some(h) => match parse_email_date(h.as_str()) {
            Err(e) => {
                return Err(Mishap::EmailField(e));
            },
            Ok(secs) => match timestamp_from_epoch(secs) {
                None => {
                    return Err(Mishap::EmailField("date out of range".to_owned()));
                },
                Some(t) => t,
            },
        },
    };

    let title: String = match get_first_value(mail, "Subject") {
        Some(s) => {
            if !s.as_str().is_empty() {
                s
            } else {
                fallback_title(&content)
            }
        },
        None => fallback_title(&content),
    };

    let slug = slugify_str(title.as_str());

    Ok(PostMeta { title, author, content, date, slug })
}

/// Assembles the record of one saved attachment: every path and URL comes
/// from the conventions at the attachment's ordinal, and the thumbnail
/// carries the measured pixel dimensions.
pub fn make_image(
    conv: &FileConventions,
    count: usize,
    mimetype: String,
    width: u16,
    height: u16,
) -> (img: Image)
    ensures
        img.file@ == conv.spec_attachment_filename(count as nat),
        img.relative_path@ == conv.spec_attachment_url(count as nat),
        img.mimetype == mimetype,
        img.thumbnail.file@ == conv.spec_attachment_thumb_path(count as nat),
        img.thumbnail.relative_path@ == conv.spec_attachment_thumb_url(count as nat),
        img.thumbnail.width == width,
        img.thumbnail.height == height,
{
    let thumbnail = Thumbnail {
        file: conv.attachment_thumb_path(count),
        relative_path: conv.attachment_thumb_url(count),
        width,
        height,
    };
    Image {
        file: conv.attachment_filename(count),
        relative_path: conv.attachment_url(count),
        mimetype,
        thumbnail,
    }
}

/// Joins the extracted metadata, the naming conventions and the saved
/// attachments into the final post record.
pub fn build_post(meta: PostMeta, conv: &FileConventions, attachments: Vec<Image>) -> (post:
    PostInfo)
    ensures
        post.title@ == trim_of(meta.title@),
        post.author@ == trim_of(meta.author@),
        match post.content {
            Some(c) => meta.content matches Some(orig) && c@ == trim_of(orig@),
            None => meta.content is None,
        },
        post.date == meta.date,
        post.permalink@ == conv.spec_permalink(),
        post.attachments == attachments,
        post.relative_path@ == conv.spec_post_path(),
        post.filename@ == conv.spec_post_filename(),
{
    PostInfo::new(
        meta.title,
        meta.author,
        meta.content,
        meta.date,
        conv.permalink(),
        attachments,
        conv.post_path(),
        conv.post_filename(),
    )
}

} // verus!
