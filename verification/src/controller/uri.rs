//! Which requests need no token.

use vstd::prelude::*;

use crate::text::{ascii_lower, ascii_lowered, chars_of};

verus! {

/// The parts of a URI.
#[derive(Debug)]
pub struct Uri {
    pub scheme: Option<String>,
    pub authority: Option<String>,
    pub path: String,
    pub query: Option<String>,
}

/// The parts of a URI, as plain text.
pub struct UriView {
    pub scheme: Option<Seq<char>>,
    pub authority: Option<Seq<char>>,
    pub path: Seq<char>,
    pub query: Option<Seq<char>>,
}

impl View for Uri {
    type V = UriView;

    open spec fn view(&self) -> UriView {
        UriView {
            scheme: crate::error::opt_text(self.scheme),
            authority: crate::error::opt_text(self.authority),
            path: self.path@,
            query: crate::error::opt_text(self.query),
        }
    }
}

/// Whether `text` is a path of slashes and lower case letters only.
pub open spec fn is_plain_path(text: Seq<char>) -> bool {
    &&& 0 < text.len() < 1000
    &&& text[0] == '/'
    &&& forall|i: int| 0 <= i < text.len() ==> #[trigger] text[i] == '/' || 'a' <= text[i] <= 'z'
}

/// A URI that consists of a path.
pub open spec fn path_only(path: Seq<char>) -> UriView {
    UriView { scheme: None, authority: None, path, query: None }
}

/// What the URI parser of the HTTP library makes of a text.
pub uninterp spec fn uri_parsed(text: Seq<char>) -> Option<UriView>;

/// `Uri::from_str` of the HTTP library, with the URI taken apart. The result depends on the
/// text alone; a plain path is a URI without scheme, authority and query.
#[verifier::external_body]
fn parse_uri(text: &str) -> (r: Option<Uri>)
    ensures
        (match r {
            Some(uri) => Some(uri@),
            None => None,
        }) == uri_parsed(text@),
        is_plain_path(text@) ==> r is Some && r->0@ == path_only(text@),
{
    match text.parse::<hyper::Uri>() {
        Ok(uri) => Some(Uri {
            scheme: uri.scheme_str().map(str::to_owned),
            authority: uri.authority().map(|authority| authority.as_str().to_owned()),
            path: uri.path().to_owned(),
            query: uri.query().map(str::to_owned),
        }),
        Err(_) => None,
    }
}

/// Whether two texts are the same but for the case of ASCII letters.
pub open spec fn same_but_for_case(a: Seq<char>, b: Seq<char>) -> bool {
    ascii_lowered(a) == ascii_lowered(b)
}

/// Whether two optional texts are both missing, or the same but for case.
pub open spec fn same_part(a: Option<Seq<char>>, b: Option<Seq<char>>) -> bool {
    match (a, b) {
        (Some(a), Some(b)) => same_but_for_case(a, b),
        (None, None) => true,
        _ => false,
    }
}

/// Whether two URIs are equal: schemes and authorities are compared without regard to case.
pub open spec fn same_uri(a: UriView, b: UriView) -> bool {
    same_part(a.scheme, b.scheme) && same_part(a.authority, b.authority) && a.path == b.path
        && a.query == b.query
}

fn ascii_lower_char(c: char) -> (r: char)
    ensures
        r == ascii_lower(c),
{
    if 'A' <= c && c <= 'Z' {
        (c as u8 + 32) as char
    } else {
        c
    }
}

fn texts_same_but_for_case(a: &str, b: &str) -> (r: bool)
    ensures
        r == same_but_for_case(a@, b@),
{
    let ghost lower = |c: char| ascii_lower(c);
    let x = chars_of(a);
    let y = chars_of(b);
    if x.len() != y.len() {
        assert(a@.map_values(lower).len() != b@.map_values(lower).len());
        return false;
    }
    for i in 0..x.len()
        invariant
            lower == (|c: char| ascii_lower(c)),
            x@ == a@,
            y@ == b@,
            x.len() == y.len(),
            forall|k: int| 0 <= k < i ==> ascii_lower(x[k]) == ascii_lower(y[k]),
    {
        if ascii_lower_char(x[i]) != ascii_lower_char(y[i]) {
            assert(a@.map_values(lower)[i as int] != b@.map_values(lower)[i as int]);
            return false;
        }
    }
    assert(a@.map_values(lower) =~= b@.map_values(lower));
    true
}

fn parts_same(a: &Option<String>, b: &Option<String>) -> (r: bool)
    ensures
        r == same_part(crate::error::opt_text(*a), crate::error::opt_text(*b)),
{
    match (a, b) {
        (Some(a), Some(b)) => texts_same_but_for_case(a.as_str(), b.as_str()),
        (None, None) => true,
        (Some(_), None) => false,
        (None, Some(_)) => false,
    }
}

fn queries_equal(a: &Option<String>, b: &Option<String>) -> (r: bool)
    ensures
        r == (crate::error::opt_text(*a) == crate::error::opt_text(*b)),
{
    match (a, b) {
        (Some(a), Some(b)) => *a.as_str() == *b.as_str(),
        (None, None) => true,
        (Some(_), None) => false,
        (None, Some(_)) => false,
    }
}

impl Uri {
    /// Reads a URI.
    pub fn parse(text: &str) -> (r: Option<Uri>)
        ensures
            (match r {
                Some(uri) => Some(uri@),
                None => None,
            }) == uri_parsed(text@),
            is_plain_path(text@) ==> r is Some && r->0@ == path_only(text@),
    {
        parse_uri(text)
    }

    /// Whether this URI and `other` are equal.
    pub fn same_as(&self, other: &Uri) -> (r: bool)
        ensures
            r == same_uri(self@, other@),
    {
        parts_same(&self.scheme, &other.scheme) && parts_same(&self.authority, &other.authority)
            && *self.path.as_str() == *other.path.as_str() && queries_equal(
            &self.query,
            &other.query,
        )
    }
}

/// State available to HTTP request handlers: how to check tokens, if that is done at all,
/// and which requests need none.
#[derive(Debug)]
pub struct HttpState<A> {
    pub auth: Option<A>,
    pub allowlist_routes: Vec<Uri>,
}

/// The paths that need no token.
pub open spec fn allowlisted_paths() -> Seq<Seq<char>> {
    seq!["/status"@, "/ready"@, "/metrics"@]
}

/// The parts of each URI of a list.
pub open spec fn uris(list: Seq<Uri>) -> Seq<UriView> {
    list.map_values(|uri: Uri| uri@)
}

fn plain_uri(path: &str) -> (r: Uri)
    requires
        is_plain_path(path@),
    ensures
        r@ == path_only(path@),
{
    Uri::parse(path).unwrap()
}

impl<A> HttpState<A> {
    /// The state of a service that checks tokens with `auth`, or not at all.
    pub fn new(auth: Option<A>) -> (r: Self)
        ensures
            r.auth == auth,
            uris(r.allowlist_routes@) == allowlisted_paths().map_values(
                |path: Seq<char>| path_only(path),
            ),
    {
        proof {
            reveal_strlit("/status");
            reveal_strlit("/ready");
            reveal_strlit("/metrics");
        }
        let mut allowlist_routes: Vec<Uri> = Vec::new();
        allowlist_routes.push(plain_uri("/status"));
        allowlist_routes.push(plain_uri("/ready"));
        allowlist_routes.push(plain_uri("/metrics"));
        assert(uris(allowlist_routes@) =~= allowlisted_paths().map_values(
            |path: Seq<char>| path_only(path),
        ));
        HttpState { auth, allowlist_routes }
    }

    /// Whether `uri` is one of those that need no token.
    pub open spec fn is_allowlisted(self, uri: UriView) -> bool {
        exists|i: int|
            0 <= i < self.allowlist_routes@.len() && same_uri(
                (#[trigger] self.allowlist_routes@[i])@,
                uri,
            )
    }

    /// Whether a request to `uri` needs a token.
    pub open spec fn needs_token(self, uri: UriView) -> bool {
        self.auth is Some && !self.is_allowlisted(uri)
    }

    fn allowlist_contains(&self, uri: &Uri) -> (r: bool)
        ensures
            r == self.is_allowlisted(uri@),
    {
        for i in 0..self.allowlist_routes.len()
            invariant
                forall|k: int|
                    0 <= k < i ==> !same_uri((#[trigger] self.allowlist_routes@[k])@, uri@),
        {
            if self.allowlist_routes[i].same_as(uri) {
                assert(same_uri(self.allowlist_routes@[i as int]@, uri@));
                return true;
            }
        }
        false
    }

    /// What a request's token is to be checked with: nothing where authentication is off,
    /// and nothing for the requests that need no token.
    pub fn auth_for(&self, uri: &Uri) -> (r: Option<&A>)
        ensures
            match r {
                Some(auth) => self.auth == Some(*auth) && !self.is_allowlisted(uri@),
                None => self.auth is None || self.is_allowlisted(uri@),
            },
            r is Some <==> self.needs_token(uri@),
    {
        if self.allowlist_contains(uri) {
            None
        } else {
            self.auth.as_ref()
        }
    }
}

/// Exactly three requests need no token: those for the status, for the readiness and for the
/// metrics, by path alone and without a query.
pub proof fn law_allowlist<A>(state: HttpState<A>, uri: UriView)
    requires
        uris(state.allowlist_routes@) == allowlisted_paths().map_values(
            |path: Seq<char>| path_only(path),
        ),
    ensures
        state.is_allowlisted(uri) <==> uri == path_only("/status"@) || uri == path_only("/ready"@)
            || uri == path_only("/metrics"@),
{
    let list = state.allowlist_routes@;
    let expected = allowlisted_paths().map_values(|path: Seq<char>| path_only(path));
    assert(uris(list).len() == 3);
    assert(list.len() == 3);
    assert forall|i: int| 0 <= i < 3 implies #[trigger] list[i]@ == path_only(
        allowlisted_paths()[i],
    ) by {
        assert(uris(list)[i] == expected[i]);
    }
    assert(list[0]@ == path_only("/status"@));
    assert(list[1]@ == path_only("/ready"@));
    assert(list[2]@ == path_only("/metrics"@));
    if state.is_allowlisted(uri) {
        let i = choose|i: int| 0 <= i < list.len() && same_uri((#[trigger] list[i])@, uri);
        assert(list[i]@ == path_only(allowlisted_paths()[i]));
    }
}

/// Two URIs are the same exactly if paths and queries are, and schemes and authorities are both
/// missing or have the same characters, but that an upper case letter counts as the lower case
/// one.
pub proof fn law_same_uri(a: UriView, b: UriView, s: Seq<char>, t: Seq<char>)
    ensures
        same_uri(a, b) ==> a.path == b.path && a.query == b.query && (a.scheme is Some
            <==> b.scheme is Some) && (a.authority is Some <==> b.authority is Some),
        a.path == b.path && a.query == b.query && a.scheme == b.scheme && a.authority
            == b.authority ==> same_uri(a, b),
        same_uri(a, b) <==> same_uri(b, a),
        same_but_for_case(s, t) <==> s.len() == t.len() && forall|i: int|
            0 <= i < s.len() ==> {
                ||| #[trigger] s[i] == t[i]
                ||| 'A' <= s[i] <= 'Z' && t[i] as int == s[i] as int + 32
                ||| 'A' <= t[i] <= 'Z' && s[i] as int == t[i] as int + 32
            },
        a.scheme is Some && b.scheme is Some && same_uri(a, b) ==> same_but_for_case(
            a.scheme->0,
            b.scheme->0,
        ),
        a.authority is Some && b.authority is Some && same_uri(a, b) ==> same_but_for_case(
            a.authority->0,
            b.authority->0,
        ),
{
    let lower = |c: char| ascii_lower(c);
    let x = s.map_values(lower);
    let y = t.map_values(lower);
    if x == y {
        assert(x.len() == y.len());
        assert forall|i: int| 0 <= i < s.len() implies {
            ||| #[trigger] s[i] == t[i]
            ||| 'A' <= s[i] <= 'Z' && t[i] as int == s[i] as int + 32
            ||| 'A' <= t[i] <= 'Z' && s[i] as int == t[i] as int + 32
        } by {
            assert(x[i] == y[i]);
        }
    }
    if s.len() == t.len() && forall|i: int|
        0 <= i < s.len() ==> {
            ||| #[trigger] s[i] == t[i]
            ||| 'A' <= s[i] <= 'Z' && t[i] as int == s[i] as int + 32
            ||| 'A' <= t[i] <= 'Z' && s[i] as int == t[i] as int + 32
        } {
        assert forall|i: int| 0 <= i < s.len() implies x[i] == y[i] by {
            assert(s[i] == s[i]);
        }
        assert(x =~= y);
    }
}

/// The paths that need no token, and what a plain path is: a slash, and then slashes and lower
/// case letters.
pub proof fn law_plain_paths(text: Seq<char>)
    ensures
        allowlisted_paths() == seq!["/status"@, "/ready"@, "/metrics"@],
        path_only(text).path == text,
        path_only(text).scheme is None && path_only(text).authority is None && path_only(
            text,
        ).query is None,
{
}

/// Where tokens are checked at all, every request needs one but those for the status, the
/// readiness and the metrics; with a query, a scheme or an authority even these do.
pub proof fn law_who_needs_a_token<A>(state: HttpState<A>, uri: UriView)
    requires
        uris(state.allowlist_routes@) == allowlisted_paths().map_values(
            |path: Seq<char>| path_only(path),
        ),
    ensures
        state.auth is None ==> !state.needs_token(uri),
        state.auth is Some ==> (state.needs_token(uri) <==> !(uri.scheme is None
            && uri.authority is None && uri.query is None && (uri.path == "/status"@ || uri.path
            == "/ready"@ || uri.path == "/metrics"@))),
{
    law_allowlist(state, uri);
}

} // verus!
