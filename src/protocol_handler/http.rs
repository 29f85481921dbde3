use vstd::prelude::*;
use crate::address::{opt_view, Address, AddressView};
use crate::error::HandlerError;
use crate::text::{copy_opt_string, str_equal};

verus! {

/// The HTTP methods a host configuration can select.
#[derive(Debug, Clone, Copy, PartialEq, Eq, Structural)]
pub enum HttpMethod {
    Delete,
    Get,
    Head,
    Patch,
    Post,
    Put,
}

/// Which of the two HTTP-backed operations a request serves.
#[derive(Debug, Clone, Copy, PartialEq, Eq, Structural)]
pub enum RequestKind {
    Fetch,
    Push,
}

pub open spec fn pairs_view(v: Seq<(String, String)>) -> Seq<(Seq<char>, Seq<char>)> {
    v.map_values(|p: (String, String)| (p.0@, p.1@))
}

pub open spec fn headers_view(h: Option<Vec<(String, String)>>) -> Option<
    Seq<(Seq<char>, Seq<char>)>,
> {
    match h {
        Some(v) => Some(pairs_view(v@)),
        None => None,
    }
}

/// Per-host overrides of an HTTP request. Where both a user and a bearer token are set, the
/// request carries both kinds of authentication and the HTTP client decides what goes out.
#[derive(Debug, Clone, PartialEq, Eq)]
pub struct HostConfig {
    pub headers: Option<Vec<(String, String)>>,
    pub push_method: Option<HttpMethod>,
    pub fetch_method: Option<HttpMethod>,
    pub bearer: Option<String>,
    pub user: Option<String>,
    pub password: Option<String>,
}

pub struct HostConfigView {
    pub headers: Option<Seq<(Seq<char>, Seq<char>)>>,
    pub push_method: Option<HttpMethod>,
    pub fetch_method: Option<HttpMethod>,
    pub bearer: Option<Seq<char>>,
    pub user: Option<Seq<char>>,
    pub password: Option<Seq<char>>,
}

impl View for HostConfig {
    type V = HostConfigView;

    open spec fn view(&self) -> HostConfigView {
        HostConfigView {
            headers: headers_view(self.headers),
            push_method: self.push_method,
            fetch_method: self.fetch_method,
            bearer: opt_view(self.bearer),
            user: opt_view(self.user),
            password: opt_view(self.password),
        }
    }
}

pub open spec fn hosts_view(v: Seq<(String, HostConfig)>) -> Seq<(Seq<char>, HostConfigView)> {
    v.map_values(|p: (String, HostConfig)| (p.0@, p.1@))
}

/// The HTTP backend's configuration: a host name and its overrides per entry.
#[derive(Debug, Clone, PartialEq, Eq)]
pub struct HttpProtocolHandlerConfig {
    pub hosts: Option<Vec<(String, HostConfig)>>,
}

/// A request for the code that performs HTTP to send, as plain values.
#[derive(Debug, Clone, PartialEq, Eq)]
pub struct HttpRequest {
    pub method: HttpMethod,
    pub url: String,
    pub basic_auth: Option<(String, Option<String>)>,
    pub bearer: Option<String>,
    pub headers: Option<Vec<(String, String)>>,
    pub body: Option<String>,
}

pub struct HttpRequestView {
    pub method: HttpMethod,
    pub url: Seq<char>,
    pub basic_auth: Option<(Seq<char>, Option<Seq<char>>)>,
    pub bearer: Option<Seq<char>>,
    pub headers: Option<Seq<(Seq<char>, Seq<char>)>>,
    pub body: Option<Seq<char>>,
}

impl View for HttpRequest {
    type V = HttpRequestView;

    open spec fn view(&self) -> HttpRequestView {
        HttpRequestView {
            method: self.method,
            url: self.url@,
            basic_auth: match self.basic_auth {
                Some(p) => Some((p.0@, opt_view(p.1))),
                None => None,
            },
            bearer: opt_view(self.bearer),
            headers: headers_view(self.headers),
            body: opt_view(self.body),
        }
    }
}

/// The overrides of the first entry for a host.
pub open spec fn config_for_host(hosts: Seq<(Seq<char>, HostConfigView)>, host: Seq<char>) -> Option<
    HostConfigView,
>
    decreases hosts.len(),
{
    if hosts.len() == 0 {
        None
    } else if hosts[0].0 == host {
        Some(hosts[0].1)
    } else {
        config_for_host(hosts.drop_first(), host)
    }
}

pub open spec fn default_method(kind: RequestKind) -> HttpMethod {
    match kind {
        RequestKind::Fetch => HttpMethod::Get,
        RequestKind::Push => HttpMethod::Put,
    }
}

pub open spec fn method_override(c: HostConfigView, kind: RequestKind) -> Option<HttpMethod> {
    match kind {
        RequestKind::Fetch => c.fetch_method,
        RequestKind::Push => c.push_method,
    }
}

/// Whether a text is a header value: every character is a tab or at least a space, and none
/// is DEL. A character outside ASCII is encoded as bytes that are all valid.
pub open spec fn header_value_valid(v: Seq<char>) -> bool {
    forall|i: int|
        0 <= i < v.len() ==> (#[trigger] v[i] == '\t' || (v[i] as u32 >= 32 && v[i] as u32 != 127))
}

/// Whether the HTTP library accepts a text as a header name.
pub uninterp spec fn valid_header_name(s: Seq<char>) -> bool;

/// Whether every name and value of a header list is valid.
pub open spec fn headers_valid(h: Seq<(Seq<char>, Seq<char>)>) -> bool {
    forall|i: int|
        0 <= i < h.len() ==> valid_header_name((#[trigger] h[i]).0) && header_value_valid(h[i].1)
}

/// Relies on http's `HeaderName::from_bytes` (reached as reqwest::header::HeaderName), which
/// decides from the bytes alone and refuses an empty name.
#[verifier::external_body]
fn is_header_name(s: &str) -> (r: bool)
    ensures
        r == valid_header_name(s@),
        s@.len() == 0 ==> !r,
{
    reqwest::header::HeaderName::from_bytes(s.as_bytes()).is_ok()
}

/// Relies on http's `HeaderValue::from_bytes` (reached as reqwest::header::HeaderValue), which
/// accepts exactly the byte strings whose bytes are a tab, or at least 32 and not 127.
#[verifier::external_body]
fn is_header_value(s: &str) -> (r: bool)
    ensures
        r == header_value_valid(s@),
{
    reqwest::header::HeaderValue::from_bytes(s.as_bytes()).is_ok()
}

/// The request for an address: the default method and nothing else for a host without
/// overrides; otherwise the host's method if it names one, basic auth if it names a user,
/// bearer auth if it names a token, and its headers. An address without a host cannot be
/// resolved, and a host whose headers hold an invalid name or value gives no request.
pub open spec fn request_for(
    hosts: Seq<(Seq<char>, HostConfigView)>,
    url: AddressView,
    kind: RequestKind,
    body: Option<Seq<char>>,
) -> Result<HttpRequestView, HandlerError> {
    match url.host {
        None => Err(HandlerError::AddressResolution),
        Some(host) => match config_for_host(hosts, host) {
            None => Ok(
                HttpRequestView {
                    method: default_method(kind),
                    url: url.text,
                    basic_auth: None,
                    bearer: None,
                    headers: None,
                    body,
                },
            ),
            Some(c) => if c.headers matches Some(h) && !headers_valid(h) {
                Err(HandlerError::InvalidHeader)
            } else {
                Ok(
                    HttpRequestView {
                        method: match method_override(c, kind) {
                            Some(m) => m,
                            None => default_method(kind),
                        },
                        url: url.text,
                        basic_auth: match c.user {
                            Some(u) => Some((u, c.password)),
                            None => None,
                        },
                        bearer: c.bearer,
                        headers: c.headers,
                        body,
                    },
                )
            },
        },
    }
}

/// Whether every name and value of a header list is valid.
fn check_headers(h: &Vec<(String, String)>) -> (r: bool)
    ensures
        r == headers_valid(pairs_view(h@)),
{
    let mut i: usize = 0;
    while i < h.len()
        invariant
            0 <= i <= h@.len(),
            forall|j: int|
                0 <= j < i ==> valid_header_name((#[trigger] h@[j]).0@) && header_value_valid(
                    h@[j].1@,
                ),
        decreases h@.len() - i,
    {
        let pair = &h[i];
        let ok = is_header_name(pair.0.as_str()) && is_header_value(pair.1.as_str());
        if !ok {
            assert(pairs_view(h@).len() == h@.len());
            assert(pairs_view(h@)[i as int] == (h@[i as int].0@, h@[i as int].1@));
            assert(!valid_header_name(pairs_view(h@)[i as int].0) || !header_value_valid(
                pairs_view(h@)[i as int].1,
            ));
            assert(!headers_valid(pairs_view(h@)));
            return false;
        }
        i = i + 1;
    }
    assert forall|j: int| 0 <= j < pairs_view(h@).len() implies valid_header_name(
        (#[trigger] pairs_view(h@)[j]).0,
    ) && header_value_valid(pairs_view(h@)[j].1) by {
        assert(pairs_view(h@)[j] == (h@[j].0@, h@[j].1@));
        assert(valid_header_name(h@[j].0@));
    }
    true
}

fn copy_pairs(v: &Vec<(String, String)>) -> (r: Vec<(String, String)>)
    ensures
        pairs_view(r@) == pairs_view(v@),
{
    let mut r: Vec<(String, String)> = Vec::new();
    let mut i: usize = 0;
    while i < v.len()
        invariant
            0 <= i <= v@.len(),
            r@.len() == i,
            forall|j: int| 0 <= j < i ==> r@[j].0@ == v@[j].0@ && r@[j].1@ == v@[j].1@,
        decreases v@.len() - i,
    {
        let (k, x) = &v[i];
        r.push((k.clone(), x.clone()));
        i = i + 1;
    }
    assert(pairs_view(r@) =~= pairs_view(v@));
    r
}

fn copy_headers(h: &Option<Vec<(String, String)>>) -> (r: Option<Vec<(String, String)>>)
    ensures
        headers_view(r) == headers_view(*h),
{
    match h {
        Some(v) => Some(copy_pairs(v)),
        None => None,
    }
}

impl HostConfig {
    /// A copy with the same view.
    pub fn duplicate(&self) -> (r: HostConfig)
        ensures
            r@ == self@,
    {
        HostConfig {
            headers: copy_headers(&self.headers),
            push_method: self.push_method,
            fetch_method: self.fetch_method,
            bearer: copy_opt_string(&self.bearer),
            user: copy_opt_string(&self.user),
            password: copy_opt_string(&self.password),
        }
    }
}

/// The HTTP(S) backend, holding the overrides per host.
#[derive(Debug)]
pub struct HttpProtocolHandler {
    config_per_host: Vec<(String, HostConfig)>,
}

impl View for HttpProtocolHandler {
    type V = Seq<(Seq<char>, HostConfigView)>;

    closed spec fn view(&self) -> Seq<(Seq<char>, HostConfigView)> {
        hosts_view(self.config_per_host@)
    }
}

/// Whether no two entries name the same host.
pub open spec fn hosts_unique(s: Seq<(Seq<char>, HostConfigView)>) -> bool {
    forall|i: int, j: int| 0 <= i < j < s.len() ==> (#[trigger] s[i]).0 != (#[trigger] s[j]).0
}

/// The entries of `s` that are the first for their host, in their order.
pub open spec fn first_per_host(s: Seq<(Seq<char>, HostConfigView)>) -> Seq<
    (Seq<char>, HostConfigView),
>
    decreases s.len(),
{
    if s.len() == 0 {
        Seq::empty()
    } else {
        let r = first_per_host(s.drop_last());
        if config_for_host(r, s.last().0) is Some {
            r
        } else {
            r.push(s.last())
        }
    }
}

proof fn lemma_config_for_host_push(
    s: Seq<(Seq<char>, HostConfigView)>,
    x: (Seq<char>, HostConfigView),
    h: Seq<char>,
)
    ensures
        config_for_host(s.push(x), h) == match config_for_host(s, h) {
            Some(c) => Some(c),
            None => if x.0 == h {
                Some(x.1)
            } else {
                None
            },
        },
    decreases s.len(),
{
    if s.len() == 0 {
        assert(s.push(x).drop_first() =~= Seq::<(Seq<char>, HostConfigView)>::empty());
    } else {
        assert(s.push(x)[0] == s[0]);
        assert(s.push(x).drop_first() =~= s.drop_first().push(x));
        lemma_config_for_host_push(s.drop_first(), x, h);
    }
}

proof fn lemma_config_for_host_none(s: Seq<(Seq<char>, HostConfigView)>, h: Seq<char>, i: int)
    requires
        config_for_host(s, h) is None,
        0 <= i < s.len(),
    ensures
        s[i].0 != h,
    decreases s.len(),
{
    if i > 0 {
        assert(s.drop_first()[i - 1] == s[i]);
        lemma_config_for_host_none(s.drop_first(), h, i - 1);
    }
}

/// Keeping the first entry per host changes no lookup and leaves one entry per host.
proof fn lemma_first_per_host(s: Seq<(Seq<char>, HostConfigView)>, h: Seq<char>)
    ensures
        config_for_host(first_per_host(s), h) == config_for_host(s, h),
        hosts_unique(first_per_host(s)),
    decreases s.len(),
{
    if s.len() > 0 {
        let init = s.drop_last();
        let x = s.last();
        let r = first_per_host(init);
        lemma_first_per_host(init, h);
        lemma_first_per_host(init, x.0);
        assert(init.push(x) =~= s);
        lemma_config_for_host_push(init, x, h);
        if config_for_host(r, x.0) is None {
            lemma_config_for_host_push(r, x, h);
            assert forall|i: int, j: int| 0 <= i < j < r.push(x).len() implies (#[trigger] r.push(
                x,
            )[i]).0 != (#[trigger] r.push(x)[j]).0 by {
                if j == r.len() {
                    lemma_config_for_host_none(r, x.0, i);
                } else {
                    assert(r.push(x)[i] == r[i] && r.push(x)[j] == r[j]);
                }
            }
        }
    }
}

/// The overrides of the first entry for a host.
fn lookup_host<'a>(entries: &'a Vec<(String, HostConfig)>, host: &str) -> (r: Option<&'a HostConfig>)
    ensures
        match r {
            Some(c) => config_for_host(hosts_view(entries@), host@) == Some(c@),
            None => config_for_host(hosts_view(entries@), host@) is None,
        },
{
    let ghost hs = hosts_view(entries@);
    let n = entries.len();
    let mut i: usize = 0;
    assert(hs.subrange(0, n as int) =~= hs);
    while i < n
        invariant
            n == entries@.len(),
            n == hs.len(),
            hs == hosts_view(entries@),
            0 <= i <= n,
            config_for_host(hs, host@) == config_for_host(hs.subrange(i as int, n as int), host@),
        decreases n - i,
    {
        assert(hs.subrange(i as int, n as int).drop_first() =~= hs.subrange(i + 1, n as int));
        let entry = &entries[i];
        if str_equal(entry.0.as_str(), host) {
            return Some(&entry.1);
        }
        i = i + 1;
    }
    assert(hs.subrange(n as int, n as int) =~= Seq::<(Seq<char>, HostConfigView)>::empty());
    None
}

/// Copies the first entry for each host, in order.
fn first_entries(v: &Vec<(String, HostConfig)>) -> (r: Vec<(String, HostConfig)>)
    ensures
        hosts_view(r@) == first_per_host(hosts_view(v@)),
{
    let mut r: Vec<(String, HostConfig)> = Vec::new();
    let mut i: usize = 0;
    assert(hosts_view(r@) =~= first_per_host(hosts_view(v@).subrange(0, 0)));
    while i < v.len()
        invariant
            0 <= i <= v@.len(),
            hosts_view(r@) == first_per_host(hosts_view(v@).subrange(0, i as int)),
        decreases v@.len() - i,
    {
        let (k, c) = &v[i];
        let ghost prefix = hosts_view(v@).subrange(0, i + 1);
        assert(prefix.drop_last() =~= hosts_view(v@).subrange(0, i as int));
        assert(prefix.last() == (k@, c@));
        if lookup_host(&r, k.as_str()).is_none() {
            let ghost before = r@;
            r.push((k.clone(), c.duplicate()));
            assert(hosts_view(r@) =~= hosts_view(before).push((k@, c@)));
        }
        i = i + 1;
    }
    assert(hosts_view(v@).subrange(0, v@.len() as int) =~= hosts_view(v@));
    r
}

impl HttpProtocolHandler {
    #[verifier::type_invariant]
    spec fn inv(&self) -> bool {
        hosts_unique(hosts_view(self.config_per_host@))
    }

    /// Takes the per-host overrides of a configuration, the first entry for each host; none
    /// where it names no hosts. Lookups give what they give on the configuration's entries.
    pub fn new(config: &HttpProtocolHandlerConfig) -> (r: HttpProtocolHandler)
        ensures
            r@ == match config.hosts {
                None => Seq::<(Seq<char>, HostConfigView)>::empty(),
                Some(v) => first_per_host(hosts_view(v@)),
            },
            hosts_unique(r@),
            forall|h: Seq<char>|
                #![trigger config_for_host(r@, h)]
                config_for_host(r@, h) == match config.hosts {
                    None => None,
                    Some(v) => config_for_host(hosts_view(v@), h),
                },
    {
        let config_per_host = match &config.hosts {
            None => Vec::new(),
            Some(v) => first_entries(v),
        };
        proof {
            assert(hosts_view(Seq::<(String, HostConfig)>::empty()) =~= Seq::<
                (Seq<char>, HostConfigView),
            >::empty());
            if config.hosts is Some {
                let v = config.hosts->0;
                lemma_first_per_host(hosts_view(v@), Seq::empty());
                assert forall|h: Seq<char>|
                    config_for_host(hosts_view(config_per_host@), h) == config_for_host(
                        hosts_view(v@),
                        h,
                    ) by {
                    lemma_first_per_host(hosts_view(v@), h);
                }
            }
        }
        HttpProtocolHandler { config_per_host }
    }

    /// The overrides for a host: those of its only entry.
    fn config_for(&self, host: &str) -> (r: Option<&HostConfig>)
        ensures
            match r {
                Some(c) => config_for_host(self@, host@) == Some(c@),
                None => config_for_host(self@, host@) is None,
            },
    {
        lookup_host(&self.config_per_host, host)
    }

    /// Resolves the request for an address from the overrides of its host.
    pub fn build_request_with_config(
        &self,
        url: &Address,
        kind: RequestKind,
        body: Option<String>,
    ) -> (r: Result<HttpRequest, HandlerError>)
        ensures
            match request_for(self@, url@, kind, opt_view(body)) {
                Ok(q) => r is Ok && r->Ok_0@ == q,
                Err(e) => r == Err::<HttpRequest, HandlerError>(e),
            },
    {
        let host = match url.host() {
            Some(h) => h,
            None => {
                return Err(HandlerError::AddressResolution);
            },
        };
        let default = match kind {
            RequestKind::Fetch => HttpMethod::Get,
            RequestKind::Push => HttpMethod::Put,
        };
        let target = String::from_str(url.as_str());
        match self.config_for(host) {
            None => Ok(
                HttpRequest {
                    method: default,
                    url: target,
                    basic_auth: None,
                    bearer: None,
                    headers: None,
                    body,
                },
            ),
            Some(config) => {
                if let Some(headers) = &config.headers {
                    if !check_headers(headers) {
                        return Err(HandlerError::InvalidHeader);
                    }
                }
                let configured = match kind {
                    RequestKind::Fetch => config.fetch_method,
                    RequestKind::Push => config.push_method,
                };
                let method = match configured {
                    Some(m) => m,
                    None => default,
                };
                let basic_auth = match &config.user {
                    Some(user) => Some((user.clone(), copy_opt_string(&config.password))),
                    None => None,
                };
                Ok(
                    HttpRequest {
                        method,
                        url: target,
                        basic_auth,
                        bearer: copy_opt_string(&config.bearer),
                        headers: copy_headers(&config.headers),
                        body,
                    },
                )
            },
        }
    }

    /// Whether a response status means success: only the 2xx range does.
    pub fn check_status(status: u16) -> (r: Result<(), HandlerError>)
        ensures
            200 <= status <= 299 ==> r is Ok,
            !(200 <= status <= 299) ==> r == Err::<(), HandlerError>(
                HandlerError::HttpStatus(status),
            ),
    {
        if 200 <= status && status <= 299 {
            Ok(())
        } else {
            Err(HandlerError::HttpStatus(status))
        }
    }
}

} // verus!
