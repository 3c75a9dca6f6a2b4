use vstd::prelude::*;
use crate::text::{chars_of, push_chars};

verus! {

/// Where the "open file" action takes a message from.
pub enum OpenFileTarget {
    /// A local path (the name starts with `/`).
    Path(String),
    /// A URI (any other name).
    Uri(String),
    /// No name was given: the file dialog is shown; `close_on_cancel` says
    /// whether the window closes if it is cancelled.
    Dialog { close_on_cancel: bool },
}

/// Where the "open file" action with the parameter `filename` opens from.
pub fn open_file_target(filename: Option<String>) -> (t: OpenFileTarget)
    ensures
        match filename {
            None => t matches OpenFileTarget::Dialog { close_on_cancel } && close_on_cancel,
            Some(f) => if f@.len() > 0 && f@[0] == '/' {
                t matches OpenFileTarget::Path(p) && p == f
            } else {
                t matches OpenFileTarget::Uri(u) && u == f
            },
        },
{
    match filename {
        None => OpenFileTarget::Dialog { close_on_cancel: true },
        Some(f) => {
            let v = chars_of(f.as_str());
            if v.len() > 0 && v[0] == '/' {
                OpenFileTarget::Path(f)
            } else {
                OpenFileTarget::Uri(f)
            }
        },
    }
}

/// Whether the "open file dialog" action closes the window when the dialog is
/// cancelled: as its boolean parameter says, and not when it has none or one
/// of another type.
pub fn close_on_cancel(parameter: Option<Option<bool>>) -> (close: bool)
    ensures
        close == (parameter matches Some(Some(b)) && b),
{
    match parameter {
        Some(Some(b)) => b,
        _ => false,
    }
}

/// How a file dialog ended.
pub enum DialogOutcome {
    /// A file was chosen.
    Chosen,
    /// The dialog was dismissed.
    Dismissed,
    /// The dialog was cancelled.
    Cancelled,
    /// The dialog failed.
    Failed,
}

/// What follows the dialog that opens a message.
pub enum OpenDialogAction {
    /// The chosen file is opened.
    Open,
    /// The window closes.
    Close,
    /// Nothing happens.
    Nothing,
    /// The failure is reported in the log.
    Report,
}

/// What follows the open dialog's `outcome`: a chosen file is opened; a
/// dismissed or cancelled dialog closes the window when `close_on_cancel`
/// says so; a failed one is reported.
pub fn open_file_dialog(outcome: DialogOutcome, close_on_cancel: bool) -> (a: OpenDialogAction)
    ensures
        match outcome {
            DialogOutcome::Chosen => a is Open,
            DialogOutcome::Dismissed | DialogOutcome::Cancelled => if close_on_cancel {
                a is Close
            } else {
                a is Nothing
            },
            DialogOutcome::Failed => a is Report,
        },
{
    match outcome {
        DialogOutcome::Chosen => OpenDialogAction::Open,
        DialogOutcome::Dismissed | DialogOutcome::Cancelled => if close_on_cancel {
            OpenDialogAction::Close
        } else {
            OpenDialogAction::Nothing
        },
        DialogOutcome::Failed => OpenDialogAction::Report,
    }
}

impl OpenDialogAction {
    /// Whether a file is opened: what the dialog reports to its caller.
    pub fn opened(&self) -> (b: bool)
        ensures
            b == self is Open,
    {
        match self {
            OpenDialogAction::Open => true,
            _ => false,
        }
    }
}

/// What follows the dialog that saves an attachment.
pub enum SaveDialogAction {
    /// The attachment is written to the chosen file; a failure to write is
    /// shown in an alert.
    Write,
    /// Nothing happens.
    Nothing,
    /// The failure is reported in the log.
    Report,
}

/// What follows the save dialog's `outcome`.
pub fn save_dialog_action(outcome: DialogOutcome) -> (a: SaveDialogAction)
    ensures
        match outcome {
            DialogOutcome::Chosen => a is Write,
            DialogOutcome::Dismissed | DialogOutcome::Cancelled => a is Nothing,
            DialogOutcome::Failed => a is Report,
        },
{
    match outcome {
        DialogOutcome::Chosen => SaveDialogAction::Write,
        DialogOutcome::Dismissed | DialogOutcome::Cancelled => SaveDialogAction::Nothing,
        DialogOutcome::Failed => SaveDialogAction::Report,
    }
}

/// The text of the alert for a file that failed to open: the `prefix`, a
/// colon, a line break and the `error`.
pub fn failure_text(prefix: &str, error: &str) -> (s: String)
    ensures
        s@ == prefix@ + seq![':', '\n'] + error@,
{
    let mut s = String::new();
    push_chars(&mut s, &chars_of(prefix));
    let sep: Vec<char> = vec![':', '\n'];
    push_chars(&mut s, &sep);
    push_chars(&mut s, &chars_of(error));
    proof {
        assert(s@ =~= prefix@ + seq![':', '\n'] + error@);
    }
    s
}

/// An alert reporting a failure, by the catalog messages of its texts.
pub struct AlertTexts {
    /// The title.
    pub title: &'static str,
    /// What the error is introduced with, if anything.
    pub prefix: Option<&'static str>,
    /// Whether answering the alert closes the window.
    pub close_window: bool,
}

/// The alert for a file that failed to open: "File Error", the error
/// introduced by "Failed to open file"; answering it closes the window.
pub fn open_failure_alert() -> (a: AlertTexts)
    ensures
        a.title@ == "File Error"@,
        a.prefix matches Some(p) && p@ == "Failed to open file"@,
        a.close_window,
{
    AlertTexts { title: "File Error", prefix: Some("Failed to open file"), close_window: true }
}

/// The alert for an attachment that failed to be written: "File Error" and
/// the error alone; the window stays open.
pub fn write_failure_alert() -> (a: AlertTexts)
    ensures
        a.title@ == "File Error"@,
        a.prefix is None,
        !a.close_window,
{
    AlertTexts { title: "File Error", prefix: None, close_window: false }
}

/// An alert whose texts are all catalog messages.
pub struct NoticeTexts {
    /// The title.
    pub title: &'static str,
    /// The message.
    pub message: &'static str,
    /// Whether answering the alert closes the window.
    pub close_window: bool,
}

/// The alert shown when the preferences are asked for but the settings are
/// not available: "Settings", "Failed to get settings"; the window stays open.
pub fn settings_failure_alert() -> (a: NoticeTexts)
    ensures
        a.title@ == "Settings"@,
        a.message@ == "Failed to get settings"@,
        !a.close_window,
{
    NoticeTexts { title: "Settings", message: "Failed to get settings", close_window: false }
}

/// The message of an alert: the error, after the translated `prefix`, a
/// colon and a line break when there is a prefix.
pub fn alert_message(prefix: Option<&str>, error: &str) -> (s: String)
    ensures
        match prefix {
            Some(p) => s@ == p@ + seq![':', '\n'] + error@,
            None => s@ == error@,
        },
{
    match prefix {
        Some(p) => failure_text(p, error),
        None => {
            let mut s = String::new();
            push_chars(&mut s, &chars_of(error));
            s
        },
    }
}

} // verus!
