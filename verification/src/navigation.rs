use vstd::prelude::*;
use crate::text::{chars_of, chars_equal, has_prefix, push_char};

verus! {

/// An ASCII letter.
pub open spec fn is_ascii_letter(c: char) -> bool {
    ('a' <= c && c <= 'z') || ('A' <= c && c <= 'Z')
}

/// A character that may follow the first letter of a URI scheme (RFC 3986, 3.1):
/// a letter, a digit, `+`, `-` or `.`.
pub open spec fn is_scheme_char(c: char) -> bool {
    is_ascii_letter(c) || ('0' <= c && c <= '9') || c == '+' || c == '-' || c == '.'
}

/// `s` is a URI scheme: a letter followed by scheme characters.
pub open spec fn is_scheme(s: Seq<char>) -> bool {
    &&& s.len() > 0
    &&& is_ascii_letter(s[0])
    &&& forall|i: int| 1 <= i < s.len() ==> is_scheme_char(#[trigger] s[i])
}

/// The lower-case form of an ASCII letter; any other character is kept.
pub open spec fn ascii_lower(c: char) -> char {
    if 'A' <= c && c <= 'Z' {
        ((c as u32) + 32) as char
    } else {
        c
    }
}

pub open spec fn lower_seq(s: Seq<char>) -> Seq<char> {
    s.map_values(|c: char| ascii_lower(c))
}

/// `uri` starts with a scheme of `n` characters, followed by `:`.
pub open spec fn scheme_ends_at(uri: Seq<char>, n: int) -> bool {
    0 < n < uri.len() && uri[n] == ':' && is_scheme(uri.take(n))
}

/// The scheme of a URI, in lower case (schemes are case-insensitive), or `None`
/// when the URI does not begin with a well-formed scheme and a `:`.
pub open spec fn spec_uri_scheme(uri: Seq<char>) -> Option<Seq<char>> {
    if exists|n: int| scheme_ends_at(uri, n) {
        Some(lower_seq(uri.take(choose|n: int| scheme_ends_at(uri, n))))
    } else {
        None
    }
}

/// At most one prefix of a URI is a scheme followed by `:`, since `:` is no
/// scheme character.
pub proof fn lemma_scheme_end_unique(uri: Seq<char>, n: int, m: int)
    requires
        scheme_ends_at(uri, n),
        scheme_ends_at(uri, m),
    ensures
        n == m,
{
    if n < m {
        assert(uri.take(m)[n] == uri[n]);
        assert(!is_scheme_char(uri.take(m)[n]));
    } else if m < n {
        assert(uri.take(n)[m] == uri[m]);
        assert(!is_scheme_char(uri.take(n)[m]));
    }
}

fn scheme_char(c: char) -> (b: bool)
    ensures
        b == is_scheme_char(c),
{
    ('a' <= c && c <= 'z') || ('A' <= c && c <= 'Z') || ('0' <= c && c <= '9') || c == '+' || c
        == '-' || c == '.'
}

fn lower_char(c: char) -> (r: char)
    ensures
        r == ascii_lower(c),
{
    if 'A' <= c && c <= 'Z' {
        let b: u8 = c as u8;
        (b + 32) as char
    } else {
        c
    }
}

/// The scheme of `uri` in lower case: the characters before the first `:`,
/// when they form a scheme (RFC 3986, 3.1).
///
/// Returning the scheme lower-cased, so that `HTTP:` counts as `http:`, is a
/// choice of this function, taken because RFC 3986 makes schemes
/// case-insensitive; a reader that kept the case as written would refuse
/// such links instead.
pub fn uri_scheme(uri: &str) -> (r: Option<String>)
    ensures
        r matches Some(s) ==> spec_uri_scheme(uri@) == Some(s@),
        r is None ==> spec_uri_scheme(uri@) is None,
{
    let v = chars_of(uri);
    let mut i: usize = 0;
    while i < v.len()
        invariant
            v@ == uri@,
            0 <= i <= v@.len(),
            forall|j: int| 0 <= j < i ==> is_scheme_char(#[trigger] v@[j]),
            i > 0 ==> is_ascii_letter(v@[0]),
        decreases v@.len() - i,
    {
        let c = v[i];
        if c == ':' {
            if i == 0 {
                proof {
                    assert forall|n: int| !scheme_ends_at(uri@, n) by {
                        if scheme_ends_at(uri@, n) {
                            assert(uri@.take(n)[0] == uri@[0]);
                        }
                    }
                }
                return None;
            }
            let mut s = String::new();
            let mut k: usize = 0;
            while k < i
                invariant
                    v@ == uri@,
                    0 <= k <= i < v@.len(),
                    s@ == lower_seq(v@.take(i as int)).take(k as int),
                decreases i - k,
            {
                push_char(&mut s, lower_char(v[k]));
                proof {
                    assert(lower_seq(v@.take(i as int)).take(k + 1) =~= lower_seq(
                        v@.take(i as int),
                    ).take(k as int).push(ascii_lower(v@[k as int])));
                }
                k = k + 1;
            }
            proof {
                assert(lower_seq(v@.take(i as int)).take(i as int) =~= lower_seq(
                    v@.take(i as int),
                ));
                assert(is_scheme(uri@.take(i as int)));
                assert(scheme_ends_at(uri@, i as int));
                let n = choose|n: int| scheme_ends_at(uri@, n);
                lemma_scheme_end_unique(uri@, n, i as int);
            }
            return Some(s);
        }
        if !scheme_char(c) || (i == 0 && !('a' <= c && c <= 'z') && !('A' <= c && c <= 'Z')) {
            proof {
                assert forall|n: int| !scheme_ends_at(uri@, n) by {
                    if scheme_ends_at(uri@, n) {
                        if n <= i {
                            assert(uri@[n] == ':');
                        } else {
                            assert(uri@.take(n)[i as int] == uri@[i as int]);
                            assert(uri@.take(n)[0] == uri@[0]);
                        }
                    }
                }
            }
            return None;
        }
        i = i + 1;
    }
    proof {
        assert forall|n: int| !scheme_ends_at(uri@, n) by {
            if scheme_ends_at(uri@, n) {
                assert(uri@[n] == ':');
            }
        }
    }
    None
}


/// The schemes that a link in a message may be handed to the system for:
/// `http`, `https` and `mailto`.
pub open spec fn is_allowed_scheme(s: Seq<char>) -> bool {
    ||| s == seq!['h', 't', 't', 'p']
    ||| s == seq!['h', 't', 't', 'p', 's']
    ||| s == seq!['m', 'a', 'i', 'l', 't', 'o']
}

/// The URI may be opened by the system handler: it has a scheme, and the
/// scheme is an allowed one.
pub open spec fn spec_uri_allowed(uri: Seq<char>) -> bool {
    spec_uri_scheme(uri) matches Some(s) && is_allowed_scheme(s)
}

/// Whether `scheme` is one of the allowed schemes (compared as given).
pub fn allowed_scheme(scheme: &str) -> (b: bool)
    ensures
        b == is_allowed_scheme(scheme@),
{
    let v = chars_of(scheme);
    let http: Vec<char> = vec!['h', 't', 't', 'p'];
    let https: Vec<char> = vec!['h', 't', 't', 'p', 's'];
    let mailto: Vec<char> = vec!['m', 'a', 'i', 'l', 't', 'o'];
    proof {
        assert(http@ =~= seq!['h', 't', 't', 'p']);
        assert(https@ =~= seq!['h', 't', 't', 'p', 's']);
        assert(mailto@ =~= seq!['m', 'a', 'i', 'l', 't', 'o']);
    }
    chars_equal(&v, &http) || chars_equal(&v, &https) || chars_equal(&v, &mailto)
}

/// Whether a link may be handed to the system: its scheme exists and is allowed.
pub fn uri_allowed(uri: &str) -> (b: bool)
    ensures
        b == spec_uri_allowed(uri@),
{
    match uri_scheme(uri) {
        Some(scheme) => allowed_scheme(scheme.as_str()),
        None => false,
    }
}

/// `about:`
pub open spec fn about_prefix() -> Seq<char> {
    seq!['a', 'b', 'o', 'u', 't', ':']
}

/// What a policy decision of the web view holds, as far as the window reads it.
pub enum PolicyRequest {
    /// Not a navigation decision.
    Other,
    /// A navigation decision without a navigation action or without a request.
    NoRequest,
    /// A navigation request, and the URI it carries if any.
    Request(Option<String>),
}

/// What the window does with a policy decision of the web view.
pub enum NavigationDecision {
    /// Not a navigation decision: an error is reported, nothing is decided.
    Unsupported,
    /// Left to the web view (`about:` pages, navigations without a request).
    Default,
    /// The navigation is ignored and nothing else happens.
    Ignore,
    /// The navigation is ignored; the URI is refused, its scheme is not allowed.
    Refuse(String),
    /// The navigation is ignored; the URI is handed to the system launcher.
    Launch(String),
}

impl NavigationDecision {
    /// The web view is told to ignore the navigation.
    pub open spec fn ignores(&self) -> bool {
        match self {
            NavigationDecision::Ignore => true,
            NavigationDecision::Refuse(_) => true,
            NavigationDecision::Launch(_) => true,
            _ => false,
        }
    }

    /// Whether the web view is to be told to ignore the navigation.
    pub fn ignores_policy(&self) -> (b: bool)
        ensures
            b == self.ignores(),
    {
        match self {
            NavigationDecision::Ignore => true,
            NavigationDecision::Refuse(_) => true,
            NavigationDecision::Launch(_) => true,
            _ => false,
        }
    }
}

/// The decision taken for a request.
pub open spec fn spec_decide_policy(req: PolicyRequest, d: NavigationDecision) -> bool {
    match req {
        PolicyRequest::Other => d is Unsupported,
        PolicyRequest::NoRequest => d is Default,
        PolicyRequest::Request(None) => d is Ignore,
        PolicyRequest::Request(Some(uri)) => if about_prefix().is_prefix_of(uri@) {
            d is Default
        } else if spec_uri_allowed(uri@) {
            d matches NavigationDecision::Launch(u) && u@ == uri@
        } else {
            d matches NavigationDecision::Refuse(u) && u@ == uri@
        },
    }
}

/// Decides what happens to a navigation in the message view. `about:` pages
/// stay with the view; every other URI is kept out of the view, and only one
/// whose scheme is `http`, `https` or `mailto` is handed to the system.
pub fn decide_policy(req: PolicyRequest) -> (d: NavigationDecision)
    ensures
        spec_decide_policy(req, d),
{
    match req {
        PolicyRequest::Other => NavigationDecision::Unsupported,
        PolicyRequest::NoRequest => NavigationDecision::Default,
        PolicyRequest::Request(None) => NavigationDecision::Ignore,
        PolicyRequest::Request(Some(uri)) => {
            let v = chars_of(uri.as_str());
            let about: Vec<char> = vec!['a', 'b', 'o', 'u', 't', ':'];
            proof {
                assert(about@ =~= about_prefix());
            }
            if has_prefix(&v, &about) {
                NavigationDecision::Default
            } else if uri_allowed(uri.as_str()) {
                NavigationDecision::Launch(uri)
            } else {
                NavigationDecision::Refuse(uri)
            }
        },
    }
}

/// What the window answers the web view once the decision has been carried
/// out: `true` when it handled the navigation itself. A launch that failed
/// is answered `false`, as is a request that was not a navigation.
pub fn on_decide_policy(d: &NavigationDecision, launch_failed: bool) -> (handled: bool)
    ensures
        handled == match d {
            NavigationDecision::Unsupported => false,
            NavigationDecision::Default => false,
            NavigationDecision::Ignore => true,
            NavigationDecision::Refuse(_) => true,
            NavigationDecision::Launch(_) => !launch_failed,
        },
{
    match d {
        NavigationDecision::Unsupported => false,
        NavigationDecision::Default => false,
        NavigationDecision::Ignore => true,
        NavigationDecision::Refuse(_) => true,
        NavigationDecision::Launch(_) => !launch_failed,
    }
}

/// Only a URI whose scheme is `http`, `https` or `mailto` is ever handed to
/// the system launcher, and it is the URI of the request.
pub proof fn lemma_launch_only_allowed(req: PolicyRequest, d: NavigationDecision)
    requires
        spec_decide_policy(req, d),
        d is Launch,
    ensures
        req matches PolicyRequest::Request(Some(uri)) && uri@ == d->Launch_0@,
        spec_uri_allowed(d->Launch_0@),
        spec_uri_scheme(d->Launch_0@) matches Some(s) && is_allowed_scheme(s),
{
}

/// A request that carries a URI not starting with `about:` is never loaded in
/// the message view: the view is told to ignore it, whatever its scheme.
pub proof fn lemma_links_never_load_in_view(req: PolicyRequest, d: NavigationDecision)
    requires
        spec_decide_policy(req, d),
        req matches PolicyRequest::Request(Some(uri)) && !about_prefix().is_prefix_of(uri@),
    ensures
        d.ignores(),
{
}

/// The scheme of a URI that begins with a scheme of `n` characters and a `:`
/// is those characters, lower-cased.
pub proof fn lemma_scheme_of(uri: Seq<char>, n: int)
    requires
        scheme_ends_at(uri, n),
    ensures
        spec_uri_scheme(uri) == Some(lower_seq(uri.take(n))),
{
    let m = choose|m: int| scheme_ends_at(uri, m);
    lemma_scheme_end_unique(uri, m, n);
}

proof fn lemma_scheme_prefix_launches(
    uri: String,
    d: NavigationDecision,
    scheme: Seq<char>,
    rest: Seq<char>,
)
    requires
        uri@ == scheme + seq![':'] + rest,
        is_scheme(scheme),
        is_allowed_scheme(lower_seq(scheme)),
        scheme[0] != 'a',
        spec_decide_policy(PolicyRequest::Request(Some(uri)), d),
    ensures
        d matches NavigationDecision::Launch(u) && u@ == uri@,
{
    let n = scheme.len() as int;
    assert(uri@.take(n) =~= scheme);
    assert(uri@[n] == ':');
    assert(scheme_ends_at(uri@, n));
    lemma_scheme_of(uri@, n);
    assert(uri@[0] == scheme[0]);
    assert(!about_prefix().is_prefix_of(uri@));
}

/// Every link whose scheme is `http`, `https` or `mailto`, in lower or in
/// upper case, is handed to the system launcher, whatever follows the `:`.
pub proof fn lemma_allowed_links_launch(uri: String, rest: Seq<char>, d: NavigationDecision)
    requires
        uri@ == seq!['h', 't', 't', 'p', ':'] + rest
            || uri@ == seq!['h', 't', 't', 'p', 's', ':'] + rest
            || uri@ == seq!['m', 'a', 'i', 'l', 't', 'o', ':'] + rest
            || uri@ == seq!['H', 'T', 'T', 'P', ':'] + rest
            || uri@ == seq!['H', 'T', 'T', 'P', 'S', ':'] + rest
            || uri@ == seq!['M', 'A', 'I', 'L', 'T', 'O', ':'] + rest,
        spec_decide_policy(PolicyRequest::Request(Some(uri)), d),
    ensures
        d matches NavigationDecision::Launch(u) && u@ == uri@,
{
    let http = seq!['h', 't', 't', 'p'];
    let https = seq!['h', 't', 't', 'p', 's'];
    let mailto = seq!['m', 'a', 'i', 'l', 't', 'o'];
    let uhttp = seq!['H', 'T', 'T', 'P'];
    let uhttps = seq!['H', 'T', 'T', 'P', 'S'];
    let umailto = seq!['M', 'A', 'I', 'L', 'T', 'O'];
    assert(lower_seq(http) =~= http);
    assert(lower_seq(https) =~= https);
    assert(lower_seq(mailto) =~= mailto);
    assert(lower_seq(uhttp) =~= http);
    assert(lower_seq(uhttps) =~= https);
    assert(lower_seq(umailto) =~= mailto);
    if uri@ == seq!['h', 't', 't', 'p', ':'] + rest {
        assert(seq!['h', 't', 't', 'p', ':'] =~= http + seq![':']);
        lemma_scheme_prefix_launches(uri, d, http, rest);
    } else if uri@ == seq!['h', 't', 't', 'p', 's', ':'] + rest {
        assert(seq!['h', 't', 't', 'p', 's', ':'] =~= https + seq![':']);
        lemma_scheme_prefix_launches(uri, d, https, rest);
    } else if uri@ == seq!['m', 'a', 'i', 'l', 't', 'o', ':'] + rest {
        assert(seq!['m', 'a', 'i', 'l', 't', 'o', ':'] =~= mailto + seq![':']);
        lemma_scheme_prefix_launches(uri, d, mailto, rest);
    } else if uri@ == seq!['H', 'T', 'T', 'P', ':'] + rest {
        assert(seq!['H', 'T', 'T', 'P', ':'] =~= uhttp + seq![':']);
        lemma_scheme_prefix_launches(uri, d, uhttp, rest);
    } else if uri@ == seq!['H', 'T', 'T', 'P', 'S', ':'] + rest {
        assert(seq!['H', 'T', 'T', 'P', 'S', ':'] =~= uhttps + seq![':']);
        lemma_scheme_prefix_launches(uri, d, uhttps, rest);
    } else {
        assert(seq!['M', 'A', 'I', 'L', 'T', 'O', ':'] =~= umailto + seq![':']);
        lemma_scheme_prefix_launches(uri, d, umailto, rest);
    }
}

/// A link is launched exactly when its scheme is allowed and it is no
/// `about:` page; every other link with a URI is refused or left to the view.
pub proof fn lemma_launch_iff_allowed(uri: String, d: NavigationDecision)
    requires
        spec_decide_policy(PolicyRequest::Request(Some(uri)), d),
    ensures
        (d is Launch) <==> (spec_uri_allowed(uri@) && !about_prefix().is_prefix_of(uri@)),
        d is Launch ==> d->Launch_0@ == uri@,
        d is Default <==> about_prefix().is_prefix_of(uri@),
{
}

/// `c` is `p`, or its upper-case letter when `p` is a lower-case letter.
pub open spec fn same_letter(c: char, p: char) -> bool {
    c == p || ('a' <= p && p <= 'z' && (c as u32) + 32 == (p as u32))
}

/// `s` starts with `p`, letters compared without regard to case.
pub open spec fn starts_with_ignoring_case(s: Seq<char>, p: Seq<char>) -> bool {
    p.len() <= s.len() && forall|i: int| 0 <= i < p.len() ==> same_letter(#[trigger] s[i], p[i])
}

proof fn lemma_lower_prefix(uri: Seq<char>, n: int, word: Seq<char>)
    requires
        scheme_ends_at(uri, n),
        lower_seq(uri.take(n)) == word,
    ensures
        starts_with_ignoring_case(uri, word + seq![':']),
{
    assert forall|i: int| 0 <= i < (word + seq![':']).len() implies same_letter(
        #[trigger] uri[i],
        (word + seq![':'])[i],
    ) by {
        if i < n {
            assert(lower_seq(uri.take(n))[i] == ascii_lower(uri[i]));
            assert((word + seq![':'])[i] == word[i]);
        } else {
            assert((word + seq![':'])[i] == ':');
        }
    }
}

/// Whatever is launched starts with `http:`, `https:` or `mailto:`, letters
/// in any case; nothing else ever reaches the system launcher.
pub proof fn lemma_launched_links_are_web_or_mail(req: PolicyRequest, d: NavigationDecision)
    requires
        spec_decide_policy(req, d),
        d is Launch,
    ensures
        starts_with_ignoring_case(d->Launch_0@, seq!['h', 't', 't', 'p', ':'])
            || starts_with_ignoring_case(d->Launch_0@, seq!['h', 't', 't', 'p', 's', ':'])
            || starts_with_ignoring_case(d->Launch_0@, seq!['m', 'a', 'i', 'l', 't', 'o', ':']),
{
    let u = d->Launch_0@;
    let n = choose|n: int| scheme_ends_at(u, n);
    let w = lower_seq(u.take(n));
    lemma_lower_prefix(u, n, w);
    if w == seq!['h', 't', 't', 'p'] {
        assert(w + seq![':'] =~= seq!['h', 't', 't', 'p', ':']);
    } else if w == seq!['h', 't', 't', 'p', 's'] {
        assert(w + seq![':'] =~= seq!['h', 't', 't', 'p', 's', ':']);
    } else {
        assert(w + seq![':'] =~= seq!['m', 'a', 'i', 'l', 't', 'o', ':']);
    }
}

/// The decision for each kind of request: what is no navigation is not
/// decided; a navigation without a request is left to the view; a request
/// without a URI is ignored.
pub proof fn lemma_policy_cases(req: PolicyRequest, d: NavigationDecision)
    requires
        spec_decide_policy(req, d),
    ensures
        req is Other ==> d is Unsupported,
        req is NoRequest ==> d is Default,
        req == PolicyRequest::Request(None) ==> d is Ignore,
{
}

/// The decision for a URI: an `about:` page is left to the view; a URI
/// without a `:`, or one of the `file:` or `javascript:` schemes, is refused.
pub proof fn lemma_uri_cases(uri: String, d: NavigationDecision, rest: Seq<char>)
    requires
        spec_decide_policy(PolicyRequest::Request(Some(uri)), d),
    ensures
        uri@ == seq!['a', 'b', 'o', 'u', 't', ':'] + rest ==> d is Default,
        !uri@.contains(':') ==> (d matches NavigationDecision::Refuse(u) && u@ == uri@),
        uri@ == seq!['f', 'i', 'l', 'e', ':'] + rest ==> (d matches NavigationDecision::Refuse(u)
            && u@ == uri@),
        uri@ == seq!['j', 'a', 'v', 'a', 's', 'c', 'r', 'i', 'p', 't', ':'] + rest ==> (
        d matches NavigationDecision::Refuse(u) && u@ == uri@),
{
    let s = uri@;
    if s == seq!['a', 'b', 'o', 'u', 't', ':'] + rest {
        assert(about_prefix().is_prefix_of(s)) by {
            assert(s.take(6) =~= about_prefix());
        }
    }
    if !s.contains(':') {
        assert(!about_prefix().is_prefix_of(s)) by {
            if about_prefix().is_prefix_of(s) {
                assert(s[5] == about_prefix()[5]);
            }
        }
        assert forall|n: int| !scheme_ends_at(s, n) by {
            if scheme_ends_at(s, n) {
                assert(s[n] == ':');
            }
        }
    }
    if s == seq!['f', 'i', 'l', 'e', ':'] + rest || s == seq![
        'j',
        'a',
        'v',
        'a',
        's',
        'c',
        'r',
        'i',
        'p',
        't',
        ':',
    ] + rest {
        let n: int = if s[0] == 'f' {
            4
        } else {
            10
        };
        assert(s[n] == ':');
        assert forall|i: int| 1 <= i < n implies is_scheme_char(#[trigger] s.take(n)[i]) by {}
        assert(is_scheme(s.take(n)));
        assert(scheme_ends_at(s, n));
        lemma_scheme_of(s, n);
        assert(!about_prefix().is_prefix_of(s)) by {
            assert(s[0] != about_prefix()[0]);
        }
        let w = lower_seq(s.take(n));
        assert(w.len() == n);
        assert(!is_allowed_scheme(w)) by {
            if n == 4 {
                assert(w[0] == 'f');
            } else {
                assert(w[0] == 'j');
            }
        }
    }
}

/// A scheme read from a URI is what the URI starts with before its `:`,
/// letters compared without regard to case, and holds no upper-case letter:
/// it begins with a lower-case letter, followed by lower-case letters,
/// digits, `+`, `-` and `.`.
pub proof fn lemma_scheme_is_lower_prefix(uri: Seq<char>)
    requires
        spec_uri_scheme(uri) is Some,
    ensures
        starts_with_ignoring_case(uri, spec_uri_scheme(uri)->0 + seq![':']),
        spec_uri_scheme(uri)->0.len() > 0,
        'a' <= spec_uri_scheme(uri)->0[0] <= 'z',
        forall|i: int|
            0 <= i < spec_uri_scheme(uri)->0.len() ==> {
                let c = #[trigger] spec_uri_scheme(uri)->0[i];
                ('a' <= c <= 'z') || ('0' <= c <= '9') || c == '+' || c == '-' || c == '.'
            },
{
    let n = choose|n: int| scheme_ends_at(uri, n);
    let w = lower_seq(uri.take(n));
    lemma_lower_prefix(uri, n, w);
    assert(uri.take(n)[0] == uri[0]);
    assert forall|i: int| 0 <= i < w.len() implies {
        let c = #[trigger] w[i];
        ('a' <= c <= 'z') || ('0' <= c <= '9') || c == '+' || c == '-' || c == '.'
    } by {
        assert(w[i] == ascii_lower(uri.take(n)[i]));
        if i > 0 {
            assert(is_scheme_char(uri.take(n)[i]));
        }
    }
}

} // verus!
