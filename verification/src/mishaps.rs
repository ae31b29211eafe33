//! The one failure type of the pipeline: a closed set of variants, one per
//! collaborator failure class, each carrying its diagnostic payload.

use vstd::prelude::*;

verus! {

#[derive(Debug)]
pub enum Mishap {
    /// IMAP session or TLS failure, reported by the mail fetching edge.
    Imap(String),
    /// Malformed MIME or an unparseable structured header.
    Email(String),
    /// A header that is present but semantically invalid (e.g. a bad date).
    EmailField(String),
    /// Directory, file or external-tool failure.
    File(String),
    /// HTTP transport failure while talking to the storage API.
    DropboxConnection(String),
    /// The storage API answered an upload with a non-200 status.
    UploadRejected(u16),
    /// A token-endpoint response body that is not the expected JSON; carries
    /// the raw body and the reason.
    JsonContent(String, String),
}

} // verus!
