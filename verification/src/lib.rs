pub mod blog;
pub mod conventions;
pub mod dropbox;
pub mod email;
pub mod image;
pub mod mishaps;
pub mod settings;
pub mod signatureblock;
pub mod text;
pub mod timestamp;
