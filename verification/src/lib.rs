//! The decisions of a mail viewer window, verified: which links in a message
//! may leave the viewer, how a message is shown, printed and searched, what
//! the controls show, and how loads and print jobs come and go.

pub mod text;
pub mod html;
pub mod message;
pub mod navigation;
pub mod attachments;
pub mod files;
pub mod window;
