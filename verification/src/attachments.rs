use vstd::prelude::*;
use crate::message::Attachment;
use crate::text::{
    chars_of, decimal, decimal_string, has_prefix, lemma_replaced_front, push_chars, replace_all,
    replaced,
};

verus! {

/// The icon shown in front of an attachment.
pub enum AttachmentIcon {
    /// An image.
    Image,
    /// Any other document.
    Document,
}

impl AttachmentIcon {
    /// The name of the icon in the icon theme.
    pub fn icon_name(&self) -> (name: &'static str)
        ensures
            name@ == match self {
                AttachmentIcon::Image => "image-x-generic-symbolic"@,
                AttachmentIcon::Document => "document-open"@,
            },
    {
        match self {
            AttachmentIcon::Image => "image-x-generic-symbolic",
            AttachmentIcon::Document => "document-open",
        }
    }
}

/// What the row of an attachment shows.
pub struct AttachmentRow {
    /// The file name, shown as plain text.
    pub title: String,
    /// The MIME type and the size.
    pub subtitle: String,
    pub icon: AttachmentIcon,
    /// Whether the title and subtitle are read as Pango markup. They come from
    /// the message, so they never are.
    pub use_markup: bool,
    /// Whether the row opens the attachment when activated.
    pub activatable: bool,
    /// Whether the row carries a button that saves the attachment.
    pub save_button: bool,
}

impl AttachmentRow {
    /// The name, in the icon theme, of the icon of the button that saves the
    /// attachment.
    pub fn save_icon_name(&self) -> (name: &'static str)
        ensures
            name@ == "document-save-as-symbolic"@,
    {
        "document-save-as-symbolic"
    }

    /// The catalog message of the tooltip of the button that saves the
    /// attachment.
    pub fn save_tooltip(&self) -> (msgid: &'static str)
        ensures
            msgid@ == "Save as..."@,
    {
        "Save as..."
    }
}

/// The MIME type shown for an attachment: its own, or `Unknown`.
pub open spec fn shown_mime(a: Attachment) -> Seq<char> {
    match a.mime_type {
        Some(m) => m@,
        None => "Unknown"@,
    }
}

/// `image`
pub open spec fn image_prefix() -> Seq<char> {
    seq!['i', 'm', 'a', 'g', 'e']
}

/// The subtitle of an attachment's row: its MIME type, two spaces, and the
/// size in brackets.
pub open spec fn row_subtitle(mime: Seq<char>, size_text: Seq<char>) -> Seq<char> {
    mime + seq![' ', ' ', '('] + size_text + seq![')']
}

/// The row of an attachment: its file name and MIME type are shown as plain
/// text, never as markup; the row opens the attachment and carries a button
/// that saves it. `size_text` is the attachment's size as the
/// desktop writes sizes (`glib::format_size`), which depends on the locale.
/// The icon is the image one for a MIME type that starts with `image`.
pub fn attachment_row(attachment: &Attachment, size_text: &str) -> (row: AttachmentRow)
    ensures
        is_row_of(row, *attachment, size_text@),
        attachment.mime_type matches Some(m) ==> (row.icon is Image <==> seq!['i', 'm', 'a', 'g', 'e'].is_prefix_of(m@)),
        attachment.mime_type is None ==> row.icon is Document,
{
    let mime: Vec<char> = match &attachment.mime_type {
        Some(m) => chars_of(m.as_str()),
        None => chars_of("Unknown"),
    };
    let image: Vec<char> = vec!['i', 'm', 'a', 'g', 'e'];
    proof {
        assert(image@ =~= image_prefix());
        reveal_strlit("Unknown");
        if attachment.mime_type is None {
            assert(mime@[0] == 'U');
        }
    }
    let icon = if has_prefix(&mime, &image) {
        AttachmentIcon::Image
    } else {
        AttachmentIcon::Document
    };
    let mut subtitle = String::new();
    push_chars(&mut subtitle, &mime);
    let open: Vec<char> = vec![' ', ' ', '('];
    push_chars(&mut subtitle, &open);
    push_chars(&mut subtitle, &chars_of(size_text));
    let close: Vec<char> = vec![')'];
    push_chars(&mut subtitle, &close);
    proof {
        assert(subtitle@ =~= row_subtitle(shown_mime(*attachment), size_text@));
    }
    AttachmentRow {
        title: attachment.filename.clone(),
        subtitle,
        icon,
        use_markup: false,
        activatable: true,
        save_button: true,
    }
}

/// `{total}`
pub open spec fn total_placeholder() -> Seq<char> {
    "{total}"@
}

/// The heading of the attachments: what the list is titled, when there are
/// attachments, and the label of the bar that pulls the list up.
pub struct AttachmentsHeading {
    pub title: Option<String>,
    pub pull_label: String,
}

/// Fills a translated "{total} attachments" template with the number of
/// attachments: every `{total}` becomes the decimal number.
pub fn fill_total(template: &str, total: usize) -> (s: String)
    ensures
        s@ == replaced(template@, total_placeholder(), decimal(total as nat)),
{
    let n = decimal_string(total);
    proof {
        reveal_strlit("{total}");
    }
    replace_all(template, "{total}", n.as_str())
}

/// The heading for `total` attachments, from the translated texts: with
/// attachments, the list and the bar both carry the filled `template`;
/// without, the list has no title and the bar says `none_text`.
pub fn attachments_heading_from(template: &str, none_text: &str, total: usize) -> (h: AttachmentsHeading)
    ensures
        total > 0 ==> (h.title matches Some(t) && t@ == replaced(
            template@,
            total_placeholder(),
            decimal(total as nat),
        ) && h.pull_label@ == t@),
        total == 0 ==> h.title is None && h.pull_label@ == none_text@,
{
    if total > 0 {
        let label = fill_total(template, total);
        AttachmentsHeading { title: Some(label.clone()), pull_label: label }
    } else {
        let mut s = String::new();
        push_chars(&mut s, &chars_of(none_text));
        AttachmentsHeading { title: None, pull_label: s }
    }
}

/// The catalog messages that give the attachments heading.
pub enum HeadingTexts {
    /// A message with singular and plural forms, the form chosen for `n`.
    Plural { singular: &'static str, plural: &'static str, n: u32 },
    /// A message with one form.
    Single { msgid: &'static str },
}

/// What the heading for `total` attachments is looked up by in the catalog: with
/// attachments, "{total} attachment" / "{total} attachments" in the form for
/// `total`; without, "No attachments". The translation is then filled by
/// [`attachments_heading_from`].
pub fn attachments_heading_texts(total: usize) -> (t: HeadingTexts)
    requires
        total <= u32::MAX,
    ensures
        total > 0 ==> (t matches HeadingTexts::Plural { singular, plural, n } && singular@
            == "{total} attachment"@ && plural@ == "{total} attachments"@ && n == total),
        total == 0 ==> (t matches HeadingTexts::Single { msgid } && msgid@ == "No attachments"@),
{
    if total > 0 {
        HeadingTexts::Plural {
            singular: "{total} attachment",
            plural: "{total} attachments",
            n: total as u32,
        }
    } else {
        HeadingTexts::Single { msgid: "No attachments" }
    }
}

/// `row` is the row of `attachment` whose size reads `size_text`.
pub open spec fn is_row_of(row: AttachmentRow, attachment: Attachment, size_text: Seq<char>) -> bool {
    &&& row.title@ == attachment.filename@
    &&& row.subtitle@ == row_subtitle(shown_mime(attachment), size_text)
    &&& (row.icon is Image <==> image_prefix().is_prefix_of(shown_mime(attachment)))
    &&& !row.use_markup
    &&& row.activatable
    &&& row.save_button
}

/// The rows of the attachments list, one per attachment and in their order;
/// `size_texts[i]` is the size of `attachments[i]` as the desktop writes it.
pub fn attachment_rows(attachments: &Vec<Attachment>, size_texts: &Vec<String>) -> (rows: Vec<
    AttachmentRow,
>)
    requires
        size_texts@.len() == attachments@.len(),
    ensures
        rows@.len() == attachments@.len(),
        forall|i: int|
            0 <= i < rows@.len() ==> is_row_of(#[trigger] rows@[i], attachments@[i], size_texts@[i]@),
{
    let mut rows: Vec<AttachmentRow> = Vec::new();
    let mut i: usize = 0;
    while i < attachments.len()
        invariant
            size_texts@.len() == attachments@.len(),
            0 <= i <= attachments@.len(),
            rows@.len() == i,
            forall|j: int|
                0 <= j < i ==> is_row_of(#[trigger] rows@[j], attachments@[j], size_texts@[j]@),
        decreases attachments@.len() - i,
    {
        let row = attachment_row(&attachments[i], size_texts[i].as_str());
        rows.push(row);
        i = i + 1;
    }
    rows
}

/// The row of an attachment shows its own file name and, as plain text,
/// its MIME type (or `Unknown`), two spaces and its size in brackets; its icon
/// is the image one exactly when the MIME type starts with `image`.
pub proof fn lemma_row_shows_attachment(row: AttachmentRow, a: Attachment, size_text: Seq<char>)
    requires
        is_row_of(row, a, size_text),
    ensures
        row.title@ == a.filename@,
        !row.use_markup,
        a.mime_type matches Some(m) ==> (row.icon is Image <==> seq!['i', 'm', 'a', 'g', 'e'].is_prefix_of(m@))
            && row.subtitle@ == m@ + seq![' ', ' ', '('] + size_text + seq![')'],
        a.mime_type is None ==> row.icon is Document && row.subtitle@ == seq![
            'U',
            'n',
            'k',
            'n',
            'o',
            'w',
            'n',
            ' ',
            ' ',
            '(',
        ] + size_text + seq![')'],
{
    reveal_strlit("Unknown");
    if a.mime_type is None {
        let u = seq!['U', 'n', 'k', 'n', 'o', 'w', 'n'];
        assert("Unknown"@ =~= u);
        assert(!seq!['i', 'm', 'a', 'g', 'e'].is_prefix_of(u)) by {
            assert(u[0] != 'i');
        }
        assert(u + seq![' ', ' ', '('] + size_text + seq![')'] =~= seq![
            'U',
            'n',
            'k',
            'n',
            'o',
            'w',
            'n',
            ' ',
            ' ',
            '(',
        ] + size_text + seq![')']);
    }
    assert(image_prefix() =~= seq!['i', 'm', 'a', 'g', 'e']);
}

/// Filling a heading that starts with `{total}` puts the number in front:
/// for any text after it, the filled heading is the decimal number followed
/// by that text, filled in turn.
pub proof fn lemma_total_in_front(rest: Seq<char>, total: nat)
    ensures
        replaced(seq!['{', 't', 'o', 't', 'a', 'l', '}'] + rest, total_placeholder(), decimal(total))
            == decimal(total) + replaced(rest, total_placeholder(), decimal(total)),
{
    reveal_strlit("{total}");
    assert(total_placeholder() =~= seq!['{', 't', 'o', 't', 'a', 'l', '}']);
    lemma_replaced_front(rest, total_placeholder(), decimal(total));
}

} // verus!
