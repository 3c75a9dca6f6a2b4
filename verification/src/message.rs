use vstd::prelude::*;

verus! {

/// What a message claims about its own protection.
pub enum Protection {
    /// The body is encrypted.
    Encrypted,
    /// The message carries a signature.
    Signed,
    /// Neither.
    Unprotected,
}

/// An attachment of a message, as the window reads it.
pub struct Attachment {
    /// The file name the message gives the attachment.
    pub filename: String,
    /// The MIME type the message gives the attachment, if any.
    pub mime_type: Option<String>,
    /// The size of the attachment's body in bytes.
    pub size: u64,
}

/// A parsed message, as the window shows it.
pub struct Message {
    pub from: String,
    pub to: String,
    pub date: String,
    pub subject: String,
    /// The plain text body, if the message has one.
    pub body_text: Option<String>,
    /// The html body, if the message has one.
    pub body_html: Option<String>,
    pub attachments: Vec<Attachment>,
    pub protection: Protection,
}

} // verus!
