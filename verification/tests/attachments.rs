use mailviewer::attachments::{
    attachment_row, attachment_rows, attachments_heading_from, attachments_heading_texts, fill_total,
    AttachmentIcon, HeadingTexts,
};
use mailviewer::message::Attachment;

fn attachment(name: &str, mime: Option<&str>, size: u64) -> Attachment {
    Attachment { filename: name.to_string(), mime_type: mime.map(|m| m.to_string()), size }
}

#[test]
fn image_row() {
    let row = attachment_row(&attachment("photo.png", Some("image/png"), 2048), "2.0 kB");
    assert_eq!(row.title, "photo.png");
    assert_eq!(row.subtitle, "image/png  (2.0 kB)");
    assert!(matches!(row.icon, AttachmentIcon::Image));
    assert_eq!(row.icon.icon_name(), "image-x-generic-symbolic");
}

#[test]
fn document_row() {
    let row = attachment_row(&attachment("report.pdf", Some("application/pdf"), 10), "10 bytes");
    assert_eq!(row.subtitle, "application/pdf  (10 bytes)");
    assert!(matches!(row.icon, AttachmentIcon::Document));
    assert_eq!(row.icon.icon_name(), "document-open");
}

#[test]
fn unknown_mime_row() {
    let row = attachment_row(&attachment("<b>x</b>", None, 0), "0 bytes");
    assert_eq!(row.title, "<b>x</b>");
    assert_eq!(row.subtitle, "Unknown  (0 bytes)");
    assert!(matches!(row.icon, AttachmentIcon::Document));
}

#[test]
fn mime_prefix_is_case_sensitive() {
    let row = attachment_row(&attachment("a", Some("IMAGE/PNG"), 1), "1 byte");
    assert!(matches!(row.icon, AttachmentIcon::Document));
}

#[test]
fn totals_are_filled() {
    assert_eq!(fill_total("{total} attachments", 12), "12 attachments");
    assert_eq!(fill_total("Anhänge: {total}", 2), "Anhänge: 2");
    assert_eq!(fill_total("no placeholder", 2), "no placeholder");
}

#[test]
fn heading_with_attachments() {
    let h = attachments_heading_from("{total} attachments", "No attachments", 3);
    assert_eq!(h.title.as_deref(), Some("3 attachments"));
    assert_eq!(h.pull_label, "3 attachments");
}

#[test]
fn heading_without_attachments() {
    let h = attachments_heading_from("{total} attachments", "No attachments", 0);
    assert_eq!(h.title, None);
    assert_eq!(h.pull_label, "No attachments");
}

#[test]
fn heading_texts_for_attachments() {
    match attachments_heading_texts(3) {
        HeadingTexts::Plural { singular, plural, n } => {
            assert_eq!(singular, "{total} attachment");
            assert_eq!(plural, "{total} attachments");
            assert_eq!(n, 3);
        }
        _ => panic!("expected plural forms"),
    }
    match attachments_heading_texts(0) {
        HeadingTexts::Single { msgid } => assert_eq!(msgid, "No attachments"),
        _ => panic!("expected a single form"),
    }
}

#[test]
fn untranslated_headings() {
    assert_eq!(attachments_heading_from("{total} attachment", "No attachments", 1).pull_label, "1 attachment");
    assert_eq!(attachments_heading_from("{total} attachments", "No attachments", 3).pull_label, "3 attachments");
}

#[test]
fn rows_are_plain_and_activatable() {
    let row = attachment_row(&attachment("<b>x</b>&.txt", Some("text/plain"), 5), "5 bytes");
    assert_eq!(row.title, "<b>x</b>&.txt");
    assert_eq!(row.subtitle, "text/plain  (5 bytes)");
    assert!(!row.use_markup && row.activatable && row.save_button);
}

#[test]
fn one_row_per_attachment_in_order() {
    let atts = vec![attachment("a.png", Some("image/png"), 1), attachment("b.txt", None, 2)];
    let sizes = vec!["1 byte".to_string(), "2 bytes".to_string()];
    let rows = attachment_rows(&atts, &sizes);
    assert_eq!(rows.len(), 2);
    assert_eq!(rows[0].title, "a.png");
    assert!(matches!(rows[0].icon, AttachmentIcon::Image));
    assert_eq!(rows[1].title, "b.txt");
    assert_eq!(rows[1].subtitle, "Unknown  (2 bytes)");
    assert!(attachment_rows(&Vec::new(), &Vec::new()).is_empty());
}

#[test]
fn save_button_texts() {
    let row = attachment_row(&attachment("a.txt", Some("text/plain"), 1), "1 byte");
    assert_eq!(row.save_icon_name(), "document-save-as-symbolic");
    assert_eq!(row.save_tooltip(), "Save as...");
}
