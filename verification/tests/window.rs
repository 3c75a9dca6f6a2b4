use mailviewer::message::{Attachment, Message, Protection};
use mailviewer::attachments::HeadingTexts;
use mailviewer::window::{BannerTitle, MailViewerWindow, OpenResult, Page, SearchCommand};

fn message(text: Option<&str>, html: Option<&str>, attachments: usize, protection: Protection) -> Message {
    Message {
        from: "alice@example.org".to_string(),
        to: "bob@example.org".to_string(),
        date: "Mon, 1 Jan 2024".to_string(),
        subject: "Hello".to_string(),
        body_text: text.map(|t| t.to_string()),
        body_html: html.map(|h| h.to_string()),
        attachments: (0..attachments)
            .map(|i| Attachment { filename: format!("f{}", i), mime_type: None, size: 1 })
            .collect(),
        protection,
    }
}

fn agrees(w: &MailViewerWindow) -> bool {
    w.show_text_active == matches!(w.page, Page::Text)
}

#[test]
fn new_window() {
    let w = MailViewerWindow::new(true);
    assert!(w.force_css_active);
    assert!(!w.show_images_active && !w.search_mode && w.content_sensitive);
    assert!(w.message.is_none() && w.load_generation == 0);
    assert!(agrees(&w));
}

#[test]
fn settings_default_to_false() {
    assert!(MailViewerWindow::get_settings_bool(Some(true)));
    assert!(!MailViewerWindow::get_settings_bool(Some(false)));
    assert!(!MailViewerWindow::get_settings_bool(None));
}

#[test]
fn webview_is_locked_down() {
    let mut w = MailViewerWindow::new(false);
    let s = w.webview_settings();
    assert!(!s.enable_javascript && !s.allow_file_access_from_file_urls);
    assert!(!s.allow_universal_access_from_file_urls && !s.enable_webgl && !s.enable_webaudio);
    assert!(!s.enable_developer_extras && !s.enable_dns_prefetching && !s.allow_modal_dialogs);
    assert!(!s.enable_back_forward_navigation_gestures && !s.editable && !s.receives_default);
    assert!(s.block_context_menu);
    assert!(!s.auto_load_images);
    w.on_show_images_clicked(true);
    assert!(w.webview_settings().auto_load_images);
}

#[test]
fn html_message_is_rendered_and_shown() {
    let mut w = MailViewerWindow::new(false);
    let u = w.display_message(message(Some("text"), Some("<p>hi</p>"), 2, Protection::Unprotected));
    assert!(matches!(u.heading, HeadingTexts::Plural { n: 2, .. }));
    let r = u.render.expect("html is rendered");
    assert_eq!(r.html, "<p>hi</p>");
    assert!(!r.force_css && !r.allow_remote);
    assert!(matches!(w.page, Page::Html) && !w.show_text_active);
    assert!(w.show_text_visible);
    assert_eq!(w.text_buffer, "text");
    assert!(w.bottom_bar_visible);
    assert!(!w.banner_revealed);
    assert!(agrees(&w));
}

#[test]
fn text_only_message_shows_text() {
    let mut w = MailViewerWindow::new(true);
    let u = w.display_message(message(Some("only text"), None, 0, Protection::Signed));
    assert!(u.render.is_none());
    assert!(matches!(u.heading, HeadingTexts::Single { msgid: "No attachments" }));
    assert!(matches!(w.page, Page::Text) && w.show_text_active);
    assert!(!w.show_text_visible);
    assert!(!w.bottom_bar_visible);
    assert!(w.banner_revealed);
    assert!(matches!(w.banner_title, Some(BannerTitle::Signed)));
}

#[test]
fn text_buffer_kept_when_message_has_no_text() {
    let mut w = MailViewerWindow::new(false);
    w.display_message(message(Some("first"), None, 0, Protection::Unprotected));
    w.display_message(message(None, Some("<b>second</b>"), 0, Protection::Unprotected));
    assert_eq!(w.text_buffer, "first");
    assert!(!w.show_text_visible);
}

#[test]
fn protection_banner() {
    let mut w = MailViewerWindow::new(false);
    w.show_protection(&Protection::Encrypted);
    assert!(w.banner_revealed);
    assert!(matches!(w.banner_title, Some(BannerTitle::Encrypted)));
    w.show_protection(&Protection::Unprotected);
    assert!(!w.banner_revealed);
    assert!(matches!(w.banner_title, Some(BannerTitle::Encrypted)));
}

#[test]
fn toggles_rerender_with_their_state() {
    let mut w = MailViewerWindow::new(false);
    w.display_message(message(None, Some("<i>x</i>"), 0, Protection::Unprotected));
    let r = w.on_force_css_clicked(true);
    assert!(r.force_css && w.force_css_active);
    assert_eq!(r.html, "<i>x</i>");
    let r = w.on_show_images_clicked(true);
    assert!(r.allow_remote && r.force_css);
    let r = w.set_force_css(false);
    assert!(!r.force_css && r.allow_remote && !w.force_css_active);
}

#[test]
fn load_html_without_message_is_empty() {
    let w = MailViewerWindow::new(false);
    let r = w.load_html(true);
    assert_eq!(r.html, "");
    assert!(r.force_css);
}

#[test]
fn dark_change_rerenders_only_forced_css() {
    let mut w = MailViewerWindow::new(false);
    assert!(w.on_dark_changed().is_none());
    w.set_force_css(true);
    let r = w.on_dark_changed().expect("rendered again");
    assert!(r.force_css);
}

#[test]
fn show_text_toggle_switches_page() {
    let mut w = MailViewerWindow::new(false);
    w.on_show_text_clicked(true);
    assert!(matches!(w.page, Page::Text) && agrees(&w));
    w.on_show_text_clicked(false);
    assert!(matches!(w.page, Page::Html) && agrees(&w));
}

#[test]
fn search_only_on_html_page() {
    let mut w = MailViewerWindow::new(false);
    w.on_show_text(true);
    assert!(!w.start_search());
    assert!(!w.search_mode);
    w.on_show_text(false);
    assert!(w.start_search());
    assert!(w.search_mode);
    assert!(w.on_search_stopped(true));
    assert!(!w.search_mode);
    assert!(!w.on_search_stopped(false));
}

#[test]
fn search_commands() {
    let w = MailViewerWindow::new(false);
    assert!(matches!(w.on_search_changed("abc", false), SearchCommand::Nothing));
    assert!(matches!(w.on_search_changed("", true), SearchCommand::Finish));
    match w.on_search_changed("needle", true) {
        SearchCommand::Search { text, case_insensitive, wrap_around, max_match_count } => {
            assert_eq!(text, "needle");
            assert!(case_insensitive && wrap_around);
            assert_eq!(max_match_count, u32::MAX);
        }
        _ => panic!("expected a search"),
    }
}

#[test]
fn opening_resets_the_view() {
    let mut w = MailViewerWindow::new(false);
    w.start_search();
    w.sheet_open = true;
    let s = w.open_file(true);
    assert!(s.finish_search);
    assert_eq!(s.token, 1);
    assert_eq!(w.load_generation, 1);
    assert!(matches!(w.page, Page::Text) && w.show_text_active);
    assert!(!w.search_mode && !w.content_sensitive && !w.sheet_open);
}

#[test]
fn successful_load_is_shown() {
    let mut w = MailViewerWindow::new(false);
    let s = w.open_file(false);
    match w.finish_open(s.token, Ok(message(None, Some("<p>x</p>"), 1, Protection::Unprotected))) {
        OpenResult::Displayed(u) => assert_eq!(u.render.expect("rendered").html, "<p>x</p>"),
        _ => panic!("expected the message to be displayed"),
    }
    assert!(w.content_sensitive);
    assert!(matches!(w.page, Page::Html));
    assert_eq!(w.message.as_ref().map(|m| m.subject.as_str()), Some("Hello"));
}

#[test]
fn failed_load_is_reported() {
    let mut w = MailViewerWindow::new(false);
    let s = w.open_file(false);
    match w.finish_open(s.token, Err("not a mail".to_string())) {
        OpenResult::Failed(e) => assert_eq!(e, "not a mail"),
        _ => panic!("expected a failure"),
    }
    assert!(w.content_sensitive);
}

#[test]
fn superseded_failure_is_ignored() {
    let mut w = MailViewerWindow::new(false);
    let first = w.open_file(false);
    let second = w.open_file(false);
    assert_ne!(first.token, second.token);
    assert!(matches!(w.finish_open(first.token, Err("cancelled".to_string())), OpenResult::Superseded));
    assert!(!w.content_sensitive);
    assert_eq!(w.load_generation, second.token);
}

#[test]
fn generation_wraps() {
    let mut w = MailViewerWindow::new(false);
    w.load_generation = u64::MAX;
    let s = w.open_file(false);
    assert_eq!(s.token, 0);
}

#[test]
fn print_html_body() {
    let mut w = MailViewerWindow::new(false);
    w.display_message(message(Some("t"), Some("<p>x</p>"), 0, Protection::Unprotected));
    let p = w.get_print_html();
    assert_eq!(p.content, "<p>x</p>");
    assert_eq!(p.from, "alice@example.org");
    assert_eq!(p.to, "bob@example.org");
    assert_eq!(p.date, "Mon, 1 Jan 2024");
    assert_eq!(p.subject, "Hello");
    assert!(!p.allow_remote);
}

#[test]
fn print_text_body_is_escaped() {
    let mut w = MailViewerWindow::new(false);
    w.display_message(message(Some("a < b & c"), None, 0, Protection::Unprotected));
    assert_eq!(w.get_print_html().content, "<pre>a &lt; b &amp; c</pre>");
}

#[test]
fn print_without_body() {
    let mut w = MailViewerWindow::new(false);
    assert_eq!(w.get_print_html().content, "");
    w.display_message(message(None, None, 0, Protection::Unprotected));
    assert_eq!(w.get_print_html().content, "");
}

#[test]
fn print_lifecycle() {
    let mut w = MailViewerWindow::new(false);
    w.print();
    assert!(w.print_view_held && !w.print_operation_held);
    assert!(!w.print_load_changed(false));
    assert!(!w.print_operation_held);
    assert!(w.print_load_changed(true));
    assert!(w.print_operation_held);
    w.print_dialog_response(true);
    assert!(w.print_view_held && w.print_operation_held);
    w.print_finished();
    assert!(!w.print_view_held && !w.print_operation_held);
}

#[test]
fn print_cancelled_releases() {
    let mut w = MailViewerWindow::new(false);
    w.print();
    w.print_load_changed(true);
    w.print_dialog_response(false);
    assert!(!w.print_view_held && !w.print_operation_held);
}

#[test]
fn banner_texts() {
    assert_eq!(
        BannerTitle::Encrypted.msgid(),
        "This message is encrypted. MailViewer cannot show what is inside."
    );
    assert_eq!(
        BannerTitle::Signed.msgid(),
        "This message is signed. MailViewer does not check the signature."
    );
}
