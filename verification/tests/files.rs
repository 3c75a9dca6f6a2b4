use mailviewer::files::{
    alert_message, close_on_cancel, settings_failure_alert, failure_text, open_failure_alert, open_file_dialog,
    open_file_target, save_dialog_action, write_failure_alert, DialogOutcome, OpenDialogAction,
    OpenFileTarget, SaveDialogAction,
};

#[test]
fn absolute_paths_are_paths() {
    match open_file_target(Some("/home/me/mail.eml".to_string())) {
        OpenFileTarget::Path(p) => assert_eq!(p, "/home/me/mail.eml"),
        _ => panic!("expected a path"),
    }
}

#[test]
fn other_names_are_uris() {
    match open_file_target(Some("file:///home/me/mail.eml".to_string())) {
        OpenFileTarget::Uri(u) => assert_eq!(u, "file:///home/me/mail.eml"),
        _ => panic!("expected a uri"),
    }
    assert!(matches!(open_file_target(Some(String::new())), OpenFileTarget::Uri(_)));
    assert!(matches!(open_file_target(Some("mail.eml".to_string())), OpenFileTarget::Uri(_)));
}

#[test]
fn no_name_opens_dialog() {
    assert!(matches!(open_file_target(None), OpenFileTarget::Dialog { close_on_cancel: true }));
}

#[test]
fn close_flag() {
    assert!(close_on_cancel(Some(Some(true))));
    assert!(!close_on_cancel(Some(Some(false))));
    assert!(!close_on_cancel(Some(None)));
    assert!(!close_on_cancel(None));
}

#[test]
fn open_dialog_outcomes() {
    let a = open_file_dialog(DialogOutcome::Chosen, true);
    assert!(matches!(a, OpenDialogAction::Open));
    assert!(a.opened());
    assert!(matches!(open_file_dialog(DialogOutcome::Dismissed, true), OpenDialogAction::Close));
    assert!(matches!(open_file_dialog(DialogOutcome::Cancelled, true), OpenDialogAction::Close));
    assert!(matches!(open_file_dialog(DialogOutcome::Cancelled, false), OpenDialogAction::Nothing));
    let f = open_file_dialog(DialogOutcome::Failed, true);
    assert!(matches!(f, OpenDialogAction::Report));
    assert!(!f.opened());
}

#[test]
fn save_dialog_outcomes() {
    assert!(matches!(save_dialog_action(DialogOutcome::Chosen), SaveDialogAction::Write));
    assert!(matches!(save_dialog_action(DialogOutcome::Dismissed), SaveDialogAction::Nothing));
    assert!(matches!(save_dialog_action(DialogOutcome::Cancelled), SaveDialogAction::Nothing));
    assert!(matches!(save_dialog_action(DialogOutcome::Failed), SaveDialogAction::Report));
}

#[test]
fn failure_texts() {
    assert_eq!(failure_text("Failed to open file", "not found"), "Failed to open file:\nnot found");
    assert_eq!(alert_message(Some("Failed to open file"), "boom"), "Failed to open file:\nboom");
    assert_eq!(alert_message(None, "disk full"), "disk full");
}

#[test]
fn failure_alerts() {
    let open = open_failure_alert();
    assert_eq!(open.title, "File Error");
    assert_eq!(open.prefix, Some("Failed to open file"));
    assert!(open.close_window);
    let write = write_failure_alert();
    assert_eq!(write.title, "File Error");
    assert_eq!(write.prefix, None);
    assert!(!write.close_window);
}

#[test]
fn settings_alert() {
    let a = settings_failure_alert();
    assert_eq!(a.title, "Settings");
    assert_eq!(a.message, "Failed to get settings");
    assert!(!a.close_window);
}
