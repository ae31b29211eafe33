//! The run's configuration: one immutable value constructed at process
//! start and passed explicitly into each component call.

use vstd::prelude::*;

verus! {

pub struct Settings {
    /// IMAP hostname to connect to.
    pub hostname: String,
    /// IMAP port number.
    pub port: u16,
    /// Email address (or user account) to check on the IMAP server.
    pub user: String,
    /// Password for authentication.
    pub password: String,
    /// The mailbox to read from.
    pub mailbox: String,
    /// Dropbox refresh token.
    pub dropbox_refresh_token: Option<String>,
    /// Dropbox code (supplied by the user, used once to fetch a refresh
    /// token).
    pub dropbox_code: Option<String>,
    /// Dropbox app key (also called client ID).
    pub dropbox_app_key: String,
    /// Dropbox app secret (also called client secret).
    pub dropbox_app_secret: String,
    /// Path into media, relative to the output directory.
    pub media_path: String,
    /// Path into posts, relative to the output directory.
    pub posts_path: String,
    /// Thumbnail width.
    pub width: u16,
    /// Archive the email after processing.
    pub expunge: bool,
    /// Outline the structure of the email as additional output.
    pub show_outline: bool,
}

} // verus!
