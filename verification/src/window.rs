use vstd::prelude::*;
use crate::html::{escaped, push_escaped};
use crate::attachments::{attachments_heading_texts, HeadingTexts};
use crate::message::{Message, Protection};
use crate::text::{chars_of, push_chars};

verus! {

/// The page of the message view that is shown.
pub enum Page {
    /// The plain text body.
    Text,
    /// The html body.
    Html,
}

/// What the protection banner says when it is revealed.
pub enum BannerTitle {
    /// The message is encrypted and cannot be shown.
    Encrypted,
    /// The message is signed and the signature is not checked.
    Signed,
}

impl BannerTitle {
    /// The catalog message the banner shows for this title.
    pub fn msgid(&self) -> (msgid: &'static str)
        ensures
            msgid@ == match self {
                BannerTitle::Encrypted => "This message is encrypted. MailViewer cannot show what is inside."@,
                BannerTitle::Signed => "This message is signed. MailViewer does not check the signature."@,
            },
    {
        match self {
            BannerTitle::Encrypted => "This message is encrypted. MailViewer cannot show what is inside.",
            BannerTitle::Signed => "This message is signed. MailViewer does not check the signature.",
        }
    }
}

/// A request to render the html body of the message in the web view.
pub struct RenderRequest {
    /// The html to sanitize and render.
    pub html: String,
    /// Whether the sanitizer forces its own colours and styles on the html.
    pub force_css: bool,
    /// Whether remote content (images) may be loaded.
    pub allow_remote: bool,
}

/// How the web view that renders a message is set up.
pub struct WebViewSettings {
    pub allow_file_access_from_file_urls: bool,
    pub enable_back_forward_navigation_gestures: bool,
    pub enable_developer_extras: bool,
    pub enable_dns_prefetching: bool,
    pub allow_modal_dialogs: bool,
    pub allow_universal_access_from_file_urls: bool,
    pub enable_javascript: bool,
    pub enable_webgl: bool,
    pub enable_webaudio: bool,
    pub auto_load_images: bool,
    pub editable: bool,
    pub receives_default: bool,
    /// The context menu is suppressed.
    pub block_context_menu: bool,
}

/// What the find controller of the web view is asked to do.
pub enum SearchCommand {
    /// Nothing: there is no find controller.
    Nothing,
    /// End the current search.
    Finish,
    /// Search for `text`.
    Search { text: String, case_insensitive: bool, wrap_around: bool, max_match_count: u32 },
}

/// What opening a file starts with.
pub struct OpenStart {
    /// Identifies this load; a later open supersedes it.
    pub token: u64,
    /// Whether the find controller is to end its search.
    pub finish_search: bool,
}

/// What showing a message asks of the widgets beyond the window's state.
pub struct DisplayUpdate {
    /// The html body to render, if the message has one.
    pub render: Option<RenderRequest>,
    /// The catalog messages that give the attachments heading.
    pub heading: HeadingTexts,
}

/// How a load ended, as far as the window is concerned.
pub enum OpenResult {
    /// The message is shown.
    Displayed(DisplayUpdate),
    /// The load failed: the error is shown in the alert that
    /// `files::open_failure_alert` describes.
    Failed(String),
    /// The load failed after a newer one had started: nothing happens.
    Superseded,
}

/// What is handed to the printer.
pub struct PrintRequest {
    /// The body to print, html.
    pub content: String,
    /// Whether remote content may be loaded.
    pub allow_remote: bool,
    pub from: String,
    pub to: String,
    pub date: String,
    pub subject: String,
}

/// The state of the mail viewer window: what its controls show, which
/// message it holds, and the loads and print jobs in flight.
pub struct MailViewerWindow {
    /// The "show text" toggle is pressed.
    pub show_text_active: bool,
    /// The "show text" toggle is shown at all.
    pub show_text_visible: bool,
    /// The page shown.
    pub page: Page,
    /// The "force css" toggle is pressed.
    pub force_css_active: bool,
    /// The "show images" toggle is pressed.
    pub show_images_active: bool,
    /// The search bar is open.
    pub search_mode: bool,
    /// The message content accepts input.
    pub content_sensitive: bool,
    /// The attachments sheet is open.
    pub sheet_open: bool,
    /// The protection banner is shown.
    pub banner_revealed: bool,
    /// What the protection banner says.
    pub banner_title: Option<BannerTitle>,
    /// The message shown, once one has been loaded.
    pub message: Option<Message>,
    /// The text of the plain text page.
    pub text_buffer: String,
    /// The bar of the attachments sheet is shown.
    pub bottom_bar_visible: bool,
    /// The identifier of the latest load.
    pub load_generation: u64,
    /// A web view for printing is held.
    pub print_view_held: bool,
    /// A print operation is held.
    pub print_operation_held: bool,
}

/// The identifier that follows `g`.
pub open spec fn next_generation(g: u64) -> u64 {
    if g == u64::MAX {
        0
    } else {
        (g + 1) as u64
    }
}

/// The banner after a message with protection `p` is shown.
pub open spec fn banner_revealed_for(p: Protection) -> bool {
    !(p is Unprotected)
}

pub open spec fn banner_title_for(p: Protection, old_title: Option<BannerTitle>) -> Option<
    BannerTitle,
> {
    match p {
        Protection::Encrypted => Some(BannerTitle::Encrypted),
        Protection::Signed => Some(BannerTitle::Signed),
        Protection::Unprotected => old_title,
    }
}

/// The html body of a message, empty when it has none.
pub open spec fn html_of(m: Message) -> Seq<char> {
    match m.body_html {
        Some(h) => h@,
        None => Seq::empty(),
    }
}

/// `<pre>`
pub open spec fn pre_open() -> Seq<char> {
    "<pre>"@
}

/// `</pre>`
pub open spec fn pre_close() -> Seq<char> {
    "</pre>"@
}

/// The body printed for a message: its html; else its text, escaped and kept
/// preformatted; else nothing.
pub open spec fn print_content_of(m: Message) -> Seq<char> {
    match m.body_html {
        Some(h) => h@,
        None => match m.body_text {
            Some(t) => pre_open() + escaped(t@) + pre_close(),
            None => Seq::empty(),
        },
    }
}

impl MailViewerWindow {
    /// The window's invariant: the "show text" toggle is pressed exactly when
    /// the text page is shown.
    pub open spec fn wf(&self) -> bool {
        self.show_text_active <==> self.page is Text
    }

    /// The html of the message shown, empty when there is none.
    pub open spec fn body_html(&self) -> Seq<char> {
        match self.message {
            Some(m) => html_of(m),
            None => Seq::empty(),
        }
    }

    /// `r` renders the message held with the given `force_css`, and lets remote
    /// content through exactly when the "show images" toggle is pressed.
    pub open spec fn renders(&self, r: RenderRequest, force_css: bool) -> bool {
        &&& r.html@ == self.body_html()
        &&& r.force_css == force_css
        &&& r.allow_remote == self.show_images_active
    }

    /// The window once the text page is shown or hidden.
    pub open spec fn with_text_shown(self, show: bool) -> MailViewerWindow {
        MailViewerWindow {
            show_text_active: show,
            page: if show {
                Page::Text
            } else {
                Page::Html
            },
            ..self
        }
    }

    /// The window once `m` is shown.
    pub open spec fn after_display(self, m: Message) -> MailViewerWindow {
        MailViewerWindow {
            message: Some(m),
            banner_revealed: if m.protection is Unprotected {
                false
            } else {
                true
            },
            banner_title: banner_title_for(m.protection, self.banner_title),
            text_buffer: match m.body_text {
                Some(t) => t,
                None => self.text_buffer,
            },
            show_text_visible: m.body_text is Some && m.body_html is Some,
            bottom_bar_visible: m.attachments.len() > 0,
            ..self
        }.with_text_shown(m.body_html is None)
    }

    /// `p` prints the message held: its body (its html; else its text,
    /// escaped and preformatted; else nothing) and its headers, loading remote
    /// content as the "show images" toggle says. Without a message all is empty.
    pub open spec fn prints(&self, p: PrintRequest) -> bool {
        &&& p.allow_remote == self.show_images_active
        &&& match self.message {
            Some(m) => {
                &&& p.content@ == print_content_of(m)
                &&& p.from@ == m.from@
                &&& p.to@ == m.to@
                &&& p.date@ == m.date@
                &&& p.subject@ == m.subject@
            },
            None => {
                &&& p.content@.len() == 0
                &&& p.from@.len() == 0
                &&& p.to@.len() == 0
                &&& p.date@.len() == 0
                &&& p.subject@.len() == 0
            },
        }
    }

    /// The window with the search bar open or closed.
    pub open spec fn with_search_mode(self, open: bool) -> MailViewerWindow {
        MailViewerWindow { search_mode: open, ..self }
    }

    /// The window once a print view is created and held.
    pub open spec fn with_print_view(self) -> MailViewerWindow {
        MailViewerWindow { print_view_held: true, ..self }
    }

    /// The window once a print operation is created and held.
    pub open spec fn with_print_operation(self) -> MailViewerWindow {
        MailViewerWindow { print_operation_held: true, ..self }
    }

    /// The window once the print view and operation are let go.
    pub open spec fn with_print_released(self) -> MailViewerWindow {
        MailViewerWindow { print_view_held: false, print_operation_held: false, ..self }
    }

    /// `u` is what showing `m` asks of the widgets: its html body, when it
    /// has one, rendered as the "force css" toggle says; and the heading of
    /// its attachments, "{total} attachment(s)" in the form for their number,
    /// or "No attachments".
    pub open spec fn displays(&self, u: DisplayUpdate, m: Message) -> bool {
        &&& (u.render is Some <==> m.body_html is Some)
        &&& (u.render matches Some(req) ==> self.renders(req, self.force_css_active))
        &&& (m.attachments.len() > 0 ==> (u.heading matches HeadingTexts::Plural {
            singular,
            plural,
            n,
        } && singular@ == "{total} attachment"@ && plural@ == "{total} attachments"@ && n
            == m.attachments.len()))
        &&& (m.attachments.len() == 0 ==> (u.heading matches HeadingTexts::Single { msgid }
            && msgid@ == "No attachments"@))
    }

    /// The window once a load has started.
    pub open spec fn after_open(self) -> MailViewerWindow {
        MailViewerWindow {
            search_mode: false,
            content_sensitive: false,
            sheet_open: false,
            load_generation: next_generation(self.load_generation),
            ..self
        }.with_text_shown(true)
    }

    /// A window before any message is loaded, with the "force css" toggle as
    /// the settings have it.
    pub fn new(force_css: bool) -> (w: Self)
        ensures
            w.wf(),
            w.force_css_active == force_css,
            !w.show_text_active,
            !w.show_text_visible,
            !w.show_images_active,
            !w.search_mode,
            w.content_sensitive,
            !w.sheet_open,
            !w.banner_revealed,
            w.banner_title is None,
            w.message is None,
            w.text_buffer@.len() == 0,
            !w.bottom_bar_visible,
            w.load_generation == 0,
            !w.print_view_held,
            !w.print_operation_held,
    {
        MailViewerWindow {
            show_text_active: false,
            show_text_visible: false,
            page: Page::Html,
            force_css_active: force_css,
            show_images_active: false,
            search_mode: false,
            content_sensitive: true,
            sheet_open: false,
            banner_revealed: false,
            banner_title: None,
            message: None,
            text_buffer: String::new(),
            bottom_bar_visible: false,
            load_generation: 0,
            print_view_held: false,
            print_operation_held: false,
        }
    }

    /// What a setting reads as: its stored value, or `false` when the
    /// settings are not available.
    pub fn get_settings_bool(stored: Option<bool>) -> (b: bool)
        ensures
            b == match stored {
                Some(v) => v,
                None => false,
            },
    {
        match stored {
            Some(v) => v,
            None => false,
        }
    }

    /// How the web view of a message is set up: no scripts, no file access,
    /// no navigation gestures, no developer tools, no prefetching, no modal
    /// dialogs, no WebGL or WebAudio, not editable and without a context menu;
    /// images are loaded as the "show images" toggle says.
    pub fn webview_settings(&self) -> (s: WebViewSettings)
        ensures
            !s.allow_file_access_from_file_urls,
            !s.enable_back_forward_navigation_gestures,
            !s.enable_developer_extras,
            !s.enable_dns_prefetching,
            !s.allow_modal_dialogs,
            !s.allow_universal_access_from_file_urls,
            !s.enable_javascript,
            !s.enable_webgl,
            !s.enable_webaudio,
            s.auto_load_images == self.show_images_active,
            !s.editable,
            !s.receives_default,
            s.block_context_menu,
    {
        WebViewSettings {
            allow_file_access_from_file_urls: false,
            enable_back_forward_navigation_gestures: false,
            enable_developer_extras: false,
            enable_dns_prefetching: false,
            allow_modal_dialogs: false,
            allow_universal_access_from_file_urls: false,
            enable_javascript: false,
            enable_webgl: false,
            enable_webaudio: false,
            auto_load_images: self.show_images_active,
            editable: false,
            receives_default: false,
            block_context_menu: true,
        }
    }

    /// The html body of the message held, rendered with `force_css`.
    pub fn load_html(&self, force_css: bool) -> (r: RenderRequest)
        ensures
            self.renders(r, force_css),
    {
        let html = match &self.message {
            Some(m) => match &m.body_html {
                Some(h) => h.clone(),
                None => String::new(),
            },
            None => String::new(),
        };
        RenderRequest { html, force_css, allow_remote: self.show_images_active }
    }

    /// Shows the text page or the html page, and sets the toggle to match.
    pub fn on_show_text(&mut self, show: bool)
        requires
            old(self).wf(),
        ensures
            final(self).wf(),
            *final(self) == old(self).with_text_shown(show),
    {
        self.show_text_active = show;
        self.page = if show {
            Page::Text
        } else {
            Page::Html
        };
    }

    /// The "show text" toggle was clicked and is now `active`.
    pub fn on_show_text_clicked(&mut self, active: bool)
        requires
            old(self).wf(),
        ensures
            final(self).wf(),
            *final(self) == old(self).with_text_shown(active),
    {
        self.on_show_text(active);
    }

    /// The "force css" toggle was clicked and is now `active`: the message is
    /// rendered again with it.
    pub fn on_force_css_clicked(&mut self, active: bool) -> (r: RenderRequest)
        requires
            old(self).wf(),
        ensures
            final(self).wf(),
            *final(self) == (MailViewerWindow { force_css_active: active, ..*old(self) }),
            final(self).renders(r, active),
    {
        self.force_css_active = active;
        self.load_html(active)
    }

    /// The "show images" toggle was clicked and is now `active`: the web view
    /// loads images as it says, and the message is rendered again, since the
    /// sanitized html carries the policy on remote content.
    pub fn on_show_images_clicked(&mut self, active: bool) -> (r: RenderRequest)
        requires
            old(self).wf(),
        ensures
            final(self).wf(),
            *final(self) == (MailViewerWindow { show_images_active: active, ..*old(self) }),
            final(self).renders(r, final(self).force_css_active),
            r.allow_remote == active,
    {
        self.show_images_active = active;
        self.load_html(self.force_css_active)
    }

    /// Sets the "force css" toggle and renders the message with it.
    pub fn set_force_css(&mut self, force: bool) -> (r: RenderRequest)
        requires
            old(self).wf(),
        ensures
            final(self).wf(),
            *final(self) == (MailViewerWindow { force_css_active: force, ..*old(self) }),
            final(self).renders(r, force),
    {
        self.force_css_active = force;
        self.load_html(force)
    }

    /// The desktop switched between light and dark. The forced css carries
    /// the colours, so the message is rendered again when, and only when, it
    /// is forced.
    pub fn on_dark_changed(&self) -> (r: Option<RenderRequest>)
        ensures
            r is Some <==> self.force_css_active,
            r matches Some(req) ==> self.renders(req, true),
    {
        if self.force_css_active {
            Some(self.load_html(true))
        } else {
            None
        }
    }

    /// Ctrl+F. The search bar rides on the html view; while the text page is
    /// shown nothing happens. Returns whether the search bar was opened (and
    /// its entry takes the focus).
    pub fn start_search(&mut self) -> (started: bool)
        requires
            old(self).wf(),
        ensures
            final(self).wf(),
            started == !old(self).show_text_active,
            started ==> *final(self) == old(self).with_search_mode(true),
            !started ==> *final(self) == *old(self),
    {
        if self.show_text_active {
            return false;
        }
        self.search_mode = true;
        true
    }

    /// The search text changed to `text`. An empty text ends the search; any
    /// other is searched for, ignoring case, wrapping around, with no limit on
    /// the matches.
    pub fn on_search_changed(&self, text: &str, has_controller: bool) -> (c: SearchCommand)
        ensures
            !has_controller ==> c is Nothing,
            has_controller && text@.len() == 0 ==> c is Finish,
            has_controller && text@.len() > 0 ==> (c matches SearchCommand::Search {
                text: t,
                case_insensitive,
                wrap_around,
                max_match_count,
            } && t@ == text@ && case_insensitive && wrap_around && max_match_count == u32::MAX),
    {
        if !has_controller {
            return SearchCommand::Nothing;
        }
        if text.is_empty() {
            return SearchCommand::Finish;
        }
        let mut t = String::new();
        push_chars(&mut t, &chars_of(text));
        SearchCommand::Search {
            text: t,
            case_insensitive: true,
            wrap_around: true,
            max_match_count: u32::MAX,
        }
    }

    /// The search was stopped: the search bar closes. Returns whether the find
    /// controller is to end its search (when there is one).
    pub fn on_search_stopped(&mut self, has_controller: bool) -> (finish: bool)
        requires
            old(self).wf(),
        ensures
            final(self).wf(),
            finish == has_controller,
            *final(self) == old(self).with_search_mode(false),
    {
        self.search_mode = false;
        has_controller
    }

    /// Shows what a message claims about its protection. Nothing is checked,
    /// so the banner only reports the claim.
    pub fn show_protection(&mut self, protection: &Protection)
        requires
            old(self).wf(),
        ensures
            final(self).wf(),
            *final(self) == (MailViewerWindow {
                banner_revealed: banner_revealed_for(*protection),
                banner_title: banner_title_for(*protection, old(self).banner_title),
                ..*old(self)
            }),
    {
        match protection {
            Protection::Encrypted => {
                self.banner_title = Some(BannerTitle::Encrypted);
                self.banner_revealed = true;
            },
            Protection::Signed => {
                self.banner_title = Some(BannerTitle::Signed);
                self.banner_revealed = true;
            },
            Protection::Unprotected => {
                self.banner_revealed = false;
            },
        }
    }

    /// Shows a loaded message. The text page gets the text body when there is
    /// one; the html body, when there is one, is rendered as the "force css"
    /// toggle says and is the page shown; the "show text" toggle is offered
    /// only when both bodies exist; the attachments bar shows only when there
    /// are attachments.
    #[verifier::rlimit(40)]
    pub fn display_message(&mut self, message: Message) -> (u: DisplayUpdate)
        requires
            old(self).wf(),
            message.attachments.len() <= u32::MAX,
        ensures
            final(self).wf(),
            *final(self) == old(self).after_display(message),
            final(self).displays(u, message),
            message.body_html matches Some(h) ==> (u.render matches Some(req) && req.html@ == h@
                && req.force_css == old(self).force_css_active && req.allow_remote == old(
                self).show_images_active),
            message.body_html is None ==> u.render is None,
    {
        let ghost old_self = *self;
        self.show_protection(&message.protection);
        let heading = attachments_heading_texts(message.attachments.len());
        let has_text = message.body_text.is_some();
        let has_html = message.body_html.is_some();
        match &message.body_text {
            Some(t) => {
                self.text_buffer = t.clone();
            },
            None => {},
        }
        self.show_text_visible = has_text && has_html;
        self.bottom_bar_visible = message.attachments.len() > 0;
        self.message = Some(message);
        let r = if has_html {
            Some(self.load_html(self.force_css_active))
        } else {
            None
        };
        self.on_show_text(!has_html);
        assert(*self == old_self.after_display(message));
        DisplayUpdate { render: r, heading }
    }

    /// A file is being opened: the text page is shown, the search ends, the
    /// content stops taking input, the attachments sheet closes, and any load
    /// still in flight is superseded.
    pub fn open_file(&mut self, has_controller: bool) -> (s: OpenStart)
        requires
            old(self).wf(),
        ensures
            final(self).wf(),
            *final(self) == old(self).after_open(),
            s.token == final(self).load_generation,
            s.finish_search == has_controller,
    {
        self.on_show_text(true);
        let finish_search = self.on_search_stopped(has_controller);
        self.content_sensitive = false;
        self.sheet_open = false;
        self.load_generation = if self.load_generation == u64::MAX {
            0
        } else {
            self.load_generation + 1
        };
        OpenStart { token: self.load_generation, finish_search }
    }

    /// The load `token` ended with `result`. A loaded message is shown; a
    /// failure is reported, unless a newer load has started since, in which
    /// case the window is left as it is.
    pub fn finish_open(&mut self, token: u64, result: Result<Message, String>) -> (r: OpenResult)
        requires
            old(self).wf(),
            result matches Ok(m) ==> m.attachments.len() <= u32::MAX,
        ensures
            final(self).wf(),
            match result {
                Ok(m) => *final(self) == (MailViewerWindow {
                    content_sensitive: true,
                    ..old(self).after_display(m)
                }) && (r matches OpenResult::Displayed(u) && final(self).displays(u, m)),
                Err(e) => if token != old(self).load_generation {
                    *final(self) == *old(self) && r is Superseded
                } else {
                    *final(self) == (MailViewerWindow { content_sensitive: true, ..*old(self) })
                        && (r matches OpenResult::Failed(msg) && msg == e)
                },
            },
    {
        match result {
            Ok(m) => {
                let u = self.display_message(m);
                self.content_sensitive = true;
                OpenResult::Displayed(u)
            },
            Err(e) => {
                if token != self.load_generation {
                    OpenResult::Superseded
                } else {
                    self.content_sensitive = true;
                    OpenResult::Failed(e)
                }
            },
        }
    }

    /// What is printed: the body of the message (its html; else its text,
    /// escaped and preformatted; else nothing) with its headers, loading
    /// remote content as the "show images" toggle says.
    pub fn get_print_html(&self) -> (p: PrintRequest)
        ensures
            self.prints(p),
            self.message matches Some(m) ==> (m.body_html matches Some(h) ==> p.content@ == h@),
            self.message matches Some(m) ==> (m.body_html is None ==> (m.body_text matches Some(t)
                ==> p.content@ == seq!['<', 'p', 'r', 'e', '>'] + escaped(t@) + seq![
                '<',
                '/',
                'p',
                'r',
                'e',
                '>',
            ])),
    {
        match &self.message {
            Some(m) => {
                let content = match &m.body_html {
                    Some(h) => h.clone(),
                    None => match &m.body_text {
                        Some(t) => {
                            proof {
                                reveal_strlit("<pre>");
                                reveal_strlit("</pre>");
                            }
                            let mut c = String::new();
                            push_chars(&mut c, &chars_of("<pre>"));
                            push_escaped(&mut c, t.as_str());
                            push_chars(&mut c, &chars_of("</pre>"));
                            c
                        },
                        None => String::new(),
                    },
                };
                PrintRequest {
                    content,
                    allow_remote: self.show_images_active,
                    from: m.from.clone(),
                    to: m.to.clone(),
                    date: m.date.clone(),
                    subject: m.subject.clone(),
                }
            },
            None => PrintRequest {
                content: String::new(),
                allow_remote: self.show_images_active,
                from: String::new(),
                to: String::new(),
                date: String::new(),
                subject: String::new(),
            },
        }
    }

    /// Printing starts: a web view that renders the print is created and held
    /// until printing is over. Returns what it renders.
    pub fn print(&mut self) -> (p: PrintRequest)
        requires
            old(self).wf(),
        ensures
            final(self).wf(),
            *final(self) == old(self).with_print_view(),
            old(self).prints(p),
    {
        let p = self.get_print_html();
        self.print_view_held = true;
        p
    }

    /// The print view reported a load event. Once it has finished loading, a
    /// print operation is created and held, and its dialog is run; the result
    /// says whether that happens.
    pub fn print_load_changed(&mut self, finished: bool) -> (run_dialog: bool)
        requires
            old(self).wf(),
        ensures
            final(self).wf(),
            run_dialog == finished,
            finished ==> *final(self) == old(self).with_print_operation(),
            !finished ==> *final(self) == *old(self),
    {
        if finished {
            self.print_operation_held = true;
        }
        finished
    }

    /// The print dialog was answered. Unless the answer was to print, the
    /// print view and operation are let go.
    pub fn print_dialog_response(&mut self, print: bool)
        requires
            old(self).wf(),
        ensures
            final(self).wf(),
            print ==> *final(self) == *old(self),
            !print ==> *final(self) == old(self).with_print_released(),
    {
        if !print {
            self.print_operation_held = false;
            self.print_view_held = false;
        }
    }

    /// Printing is over: the print view and operation are let go.
    pub fn print_finished(&mut self)
        requires
            old(self).wf(),
        ensures
            final(self).wf(),
            *final(self) == old(self).with_print_released(),
    {
        self.print_operation_held = false;
        self.print_view_held = false;
    }
}

/// Starting to open a file supersedes the load before it: the two loads have
/// different identifiers, so a failure of the earlier one is ignored.
pub proof fn lemma_next_open_supersedes(w: MailViewerWindow)
    ensures
        w.after_open().load_generation != w.after_open().after_open().load_generation,
{
}

/// A shown message puts the window in a state that fits it: the toggle
/// between the bodies is offered only when both exist, the html body is
/// preferred, and the attachments bar shows only when there are attachments.
pub proof fn lemma_display_fits_message(w: MailViewerWindow, m: Message)
    requires
        w.wf(),
    ensures
        w.after_display(m).wf(),
        w.after_display(m).show_text_visible <==> (m.body_text is Some && m.body_html is Some),
        w.after_display(m).page is Text <==> m.body_html is None,
        w.after_display(m).bottom_bar_visible <==> m.attachments.len() > 0,
        w.after_display(m).search_mode == w.search_mode,
        w.after_display(m).load_generation == w.load_generation,
        w.after_display(m).force_css_active == w.force_css_active,
        w.after_display(m).show_images_active == w.show_images_active,
        w.after_display(m).content_sensitive == w.content_sensitive,
        w.after_display(m).message == Some(m),
        m.body_text matches Some(t) ==> w.after_display(m).text_buffer == t,
        m.body_text is None ==> w.after_display(m).text_buffer == w.text_buffer,
        m.protection is Encrypted ==> w.after_display(m).banner_revealed && w.after_display(
            m,
        ).banner_title == Some(BannerTitle::Encrypted),
        m.protection is Signed ==> w.after_display(m).banner_revealed && w.after_display(
            m,
        ).banner_title == Some(BannerTitle::Signed),
        m.protection is Unprotected ==> !w.after_display(m).banner_revealed && w.after_display(
            m,
        ).banner_title == w.banner_title,
{
}

/// Showing a protection claim: an encrypted or signed message reveals the
/// banner with the matching title; an unprotected one hides it and keeps the
/// title it had.
pub proof fn lemma_protection_banner(p: Protection, old_title: Option<BannerTitle>)
    ensures
        p is Encrypted ==> banner_revealed_for(p) && banner_title_for(p, old_title) == Some(
            BannerTitle::Encrypted,
        ),
        p is Signed ==> banner_revealed_for(p) && banner_title_for(p, old_title) == Some(
            BannerTitle::Signed,
        ),
        p is Unprotected ==> !banner_revealed_for(p) && banner_title_for(p, old_title)
            == old_title,
{
}

/// Showing or hiding the text page sets the toggle and the page together and
/// leaves everything else as it was.
pub proof fn lemma_text_page(w: MailViewerWindow, show: bool)
    ensures
        w.with_text_shown(show).show_text_active == show,
        w.with_text_shown(show).page is Text <==> show,
        w.with_text_shown(show).wf(),
        w.wf() ==> w.with_text_shown(show).with_text_shown(w.show_text_active) == w,
{
}

/// Opening a file shows the text page, closes the search bar and the sheet,
/// stops the content taking input and starts a new load; nothing else
/// changes.
pub proof fn lemma_open_resets_view(w: MailViewerWindow)
    ensures
        w.after_open().page is Text,
        w.after_open().show_text_active,
        !w.after_open().search_mode,
        !w.after_open().content_sensitive,
        !w.after_open().sheet_open,
        w.after_open().load_generation != w.load_generation,
        w.after_open().message == w.message,
        w.after_open().force_css_active == w.force_css_active,
        w.after_open().show_images_active == w.show_images_active,
        w.after_open().print_view_held == w.print_view_held,
        w.after_open().print_operation_held == w.print_operation_held,
{
}

/// A render request for a window is made from the html of the message it
/// holds (nothing when it holds none or the message has no html), with the
/// asked force css and remote content only while "show images" is pressed.
pub proof fn lemma_render_request(w: MailViewerWindow, r: RenderRequest, force_css: bool)
    requires
        w.renders(r, force_css),
    ensures
        r.force_css == force_css,
        r.allow_remote == w.show_images_active,
        w.message matches Some(m) ==> (m.body_html matches Some(h) ==> r.html@ == h@),
        w.message matches Some(m) ==> (m.body_html is None ==> r.html@.len() == 0),
        w.message is None ==> r.html@.len() == 0,
{
}

/// The print state: starting to print holds a view; a finished load holds an
/// operation; letting go drops both; nothing else changes.
pub proof fn lemma_print_steps(w: MailViewerWindow)
    ensures
        w.with_print_view().print_view_held,
        w.with_print_view().print_operation_held == w.print_operation_held,
        w.with_print_operation().print_operation_held,
        w.with_print_operation().print_view_held == w.print_view_held,
        !w.with_print_released().print_view_held,
        !w.with_print_released().print_operation_held,
        w.with_print_released().message == w.message,
        w.with_print_released().page == w.page,
{
}

/// A print job leaves nothing behind: from a window that holds no print
/// view or operation, starting to print, loading the print view and then
/// either answering the dialog without printing or finishing the job gives
/// back the window as it was.
pub proof fn lemma_print_job_leaves_nothing(w: MailViewerWindow)
    requires
        !w.print_view_held,
        !w.print_operation_held,
    ensures
        w.with_print_view().with_print_operation().with_print_released() == w,
        w.with_print_view().with_print_released() == w,
{
}

/// Opening the search bar and stopping the search gives back the window as it
/// was, when the search bar was closed before.
pub proof fn lemma_search_round_trip(w: MailViewerWindow)
    requires
        !w.search_mode,
    ensures
        w.with_search_mode(true).with_search_mode(false) == w,
{
}

/// A shown message with an html body is rendered from exactly that html,
/// with the "force css" and "show images" toggles as they stood: the toggles
/// keep their state across messages.
pub proof fn lemma_display_renders_with_toggles(w: MailViewerWindow, m: Message, u: DisplayUpdate)
    requires
        w.after_display(m).displays(u, m),
    ensures
        m.body_html matches Some(h) ==> (u.render matches Some(req) && req.html@ == h@
            && req.force_css == w.force_css_active && req.allow_remote == w.show_images_active),
        m.body_html is None ==> u.render is None,
        w.after_display(m).force_css_active == w.force_css_active,
        w.after_display(m).show_images_active == w.show_images_active,
{
}

/// What is printed of a message with an html body is that html, whatever its
/// text body; a message with only a text body is printed as that text,
/// escaped, between `<pre>` and `</pre>`; one with neither prints nothing.
pub proof fn lemma_print_content(w: MailViewerWindow, p: PrintRequest)
    requires
        w.prints(p),
        w.message is Some,
    ensures
        w.message->0.body_html matches Some(h) ==> p.content@ == h@,
        w.message->0.body_html is None ==> (w.message->0.body_text matches Some(t) ==> p.content@
            == seq!['<', 'p', 'r', 'e', '>'] + escaped(t@) + seq!['<', '/', 'p', 'r', 'e', '>']),
        w.message->0.body_html is None && w.message->0.body_text is None ==> p.content@.len()
            == 0,
        p.allow_remote == w.show_images_active,
{
    reveal_strlit("<pre>");
    reveal_strlit("</pre>");
    assert(pre_open() =~= seq!['<', 'p', 'r', 'e', '>']);
    assert(pre_close() =~= seq!['<', '/', 'p', 'r', 'e', '>']);
}

} // verus!
