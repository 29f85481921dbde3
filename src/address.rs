use vstd::prelude::*;
use crate::error::HandlerError;
use crate::text::{copy_opt_string, find_last, last_index_of, lemma_last_index_of_bounds};
use path_absolutize::Absolutize;

verus! {

#[verifier::external_type_specification]
#[verifier::external_body]
pub struct ExParseError(url::ParseError);

/// The mathematical content of an address: its parts as character sequences.
pub struct AddressView {
    pub scheme: Seq<char>,
    pub host: Option<Seq<char>>,
    pub path: Seq<char>,
    pub text: Seq<char>,
    pub local: Option<Seq<char>>,
}

/// A parsed location: scheme, optional host, path component, the full serialized text, and the
/// local filesystem path it denotes where it denotes one. The URL library derives that local path
/// without looking at the scheme (an `http://localhost/...` address has one too); the library
/// reads it only for `file` addresses.
#[derive(Debug, Clone, PartialEq, Eq, Hash)]
pub struct Address {
    scheme: String,
    host: Option<String>,
    path: String,
    text: String,
    local: Option<String>,
}

pub open spec fn opt_view(o: Option<String>) -> Option<Seq<char>> {
    match o {
        Some(s) => Some(s@),
        None => None,
    }
}

impl View for Address {
    type V = AddressView;

    closed spec fn view(&self) -> AddressView {
        AddressView {
            scheme: self.scheme@,
            host: opt_view(self.host),
            path: self.path@,
            text: self.text@,
            local: opt_view(self.local),
        }
    }
}

/// The address that the URL parser makes of a text, if it accepts it.
pub uninterp spec fn parsed_url(s: Seq<char>) -> Option<AddressView>;

/// The `file` address that the URL library makes of a filesystem path, if it accepts it.
pub uninterp spec fn file_url(p: Seq<char>) -> Option<AddressView>;

/// Relies on url::Url::parse, and on the scheme, host_str, path, as_str and to_file_path
/// accessors of the Url it returns: all of them depend on the text alone.
#[verifier::external_body]
fn url_parse(s: &str) -> (r: Result<Address, url::ParseError>)
    ensures
        match r {
            Ok(a) => parsed_url(s@) == Some(a@),
            Err(_) => parsed_url(s@) is None,
        },
{
    url::Url::parse(s).map(|u| Address {
        scheme: u.scheme().to_string(),
        host: u.host_str().map(|h| h.to_string()),
        path: u.path().to_string(),
        text: u.as_str().to_string(),
        local: u.to_file_path().ok().and_then(|p| p.to_str().map(|q| q.to_string())),
    })
}

/// Relies on url::Url::from_file_path, which fails exactly on a path that is not absolute and
/// otherwise gives a `file` URL without a host, and on the same accessors as `url_parse`.
#[verifier::external_body]
fn url_from_file_path(p: &str) -> (r: Result<Address, ()>)
    ensures
        match r {
            Ok(a) => file_url(p@) == Some(a@),
            Err(_) => file_url(p@) is None,
        },
        (p@.len() == 0 || p@[0] != '/') ==> r is Err,
        (p@.len() > 0 && p@[0] == '/') ==> r is Ok,
        r is Ok ==> r->Ok_0@.scheme == "file"@ && r->Ok_0@.host is None,
{
    url::Url::from_file_path(p).map(|u| Address {
        scheme: u.scheme().to_string(),
        host: u.host_str().map(|h| h.to_string()),
        path: u.path().to_string(),
        text: u.as_str().to_string(),
        local: u.to_file_path().ok().and_then(|p| p.to_str().map(|q| q.to_string())),
    })
}

/// Relies on path_absolutize's `Absolutize::absolutize`, which gives an absolute path: it starts
/// at the root. Which path depends on the current directory, so nothing more is stated.
#[verifier::external_body]
fn absolutize(p: &str) -> (r: Option<String>)
    ensures
        r matches Some(a) ==> a@.len() > 0 && a@[0] == '/',
{
    match std::path::Path::new(p).absolutize() {
        Ok(a) => a.to_str().map(|s| s.to_string()),
        Err(_) => None,
    }
}

/// The text of a secure-copy location for a host and an absolute path.
pub open spec fn scp_text(hostname: Seq<char>, absolute: Seq<char>) -> Seq<char> {
    "scp://"@ + hostname + absolute
}

/// The last segment of a path: what follows its last '/'.
pub open spec fn file_name_of(path: Seq<char>) -> Seq<char> {
    path.subrange(last_index_of(path, '/') + 1, path.len() as int)
}

/// The extension of a path: what follows the last '.' of its last segment, where that '.' is
/// not the segment's first character.
pub open spec fn extension_of(path: Seq<char>) -> Option<Seq<char>> {
    let name = file_name_of(path);
    let dot = last_index_of(name, '.');
    if dot <= 0 {
        None
    } else {
        Some(name.subrange(dot + 1, name.len() as int))
    }
}

impl Address {
    /// Parses a location text such as `file:///tmp/a.json`, `scp://host/tmp/a.json` or
    /// `https://host/a.json`.
    pub fn parse(s: &str) -> (r: Result<Address, HandlerError>)
        ensures
            match parsed_url(s@) {
                Some(v) => r is Ok && r->Ok_0@ == v,
                None => r == Err::<Address, HandlerError>(HandlerError::AddressResolution),
            },
    {
        match url_parse(s) {
            Ok(a) => Ok(a),
            Err(_) => Err(HandlerError::AddressResolution),
        }
    }

    pub fn scheme(&self) -> (r: &str)
        ensures
            r@ == self@.scheme,
    {
        self.scheme.as_str()
    }

    pub fn host(&self) -> (r: Option<&str>)
        ensures
            match r {
                Some(h) => self@.host == Some(h@),
                None => self@.host is None,
            },
    {
        match &self.host {
            Some(h) => Some(h.as_str()),
            None => None,
        }
    }

    pub fn path(&self) -> (r: &str)
        ensures
            r@ == self@.path,
    {
        self.path.as_str()
    }

    /// The full serialized text of the address.
    pub fn as_str(&self) -> (r: &str)
        ensures
            r@ == self@.text,
    {
        self.text.as_str()
    }

    /// The local filesystem path the address denotes, if it denotes one.
    pub fn local_path(&self) -> (r: Option<&str>)
        ensures
            match r {
                Some(p) => self@.local == Some(p@),
                None => self@.local is None,
            },
    {
        match &self.local {
            Some(p) => Some(p.as_str()),
            None => None,
        }
    }

    /// A copy of the address with the same view.
    pub fn duplicate(&self) -> (r: Address)
        ensures
            r@ == self@,
    {
        Address {
            scheme: self.scheme.clone(),
            host: copy_opt_string(&self.host),
            path: self.path.clone(),
            text: self.text.clone(),
            local: copy_opt_string(&self.local),
        }
    }

    /// The file extension of the address's path component.
    pub fn extension(&self) -> (r: Option<String>)
        ensures
            match r {
                Some(e) => extension_of(self@.path) == Some(e@),
                None => extension_of(self@.path) is None,
            },
    {
        let path = self.path.as_str();
        let n = path.unicode_len();
        proof {
            lemma_last_index_of_bounds(path@, '/');
        }
        let start: usize = match find_last(path, '/') {
            Some(i) => i + 1,
            None => 0,
        };
        let name = path.substring_char(start, n);
        assert(name@ == file_name_of(self@.path));
        let m = name.unicode_len();
        proof {
            lemma_last_index_of_bounds(name@, '.');
        }
        match find_last(name, '.') {
            Some(d) => {
                if d == 0 {
                    None
                } else {
                    Some(String::from_str(name.substring_char(d + 1, m)))
                }
            },
            None => None,
        }
    }
}

/// Builds the `file` address of an absolute filesystem path.
pub fn file_address(absolute: &str) -> (r: Result<Address, HandlerError>)
    ensures
        match file_url(absolute@) {
            Some(v) => r is Ok && r->Ok_0@ == v,
            None => r == Err::<Address, HandlerError>(HandlerError::AddressResolution),
        },
        (absolute@.len() > 0 && absolute@[0] == '/') ==> r is Ok,
        r is Ok ==> r->Ok_0@.scheme == "file"@ && r->Ok_0@.host is None,
{
    match url_from_file_path(absolute) {
        Ok(a) => Ok(a),
        Err(_) => Err(HandlerError::AddressResolution),
    }
}

/// Builds the `file` address of a filesystem path, made absolute against the current directory.
pub fn try_build_url_from_path_buf(path: &str) -> (r: Result<Address, HandlerError>)
    ensures
        r is Ok ==> r->Ok_0@.scheme == "file"@ && r->Ok_0@.host is None,
        r is Ok ==> exists|q: Seq<char>|
            q.len() > 0 && q[0] == '/' && file_url(q) == Some(r->Ok_0@),
        r is Err ==> r == Err::<Address, HandlerError>(HandlerError::AddressResolution),
{
    match absolutize(path) {
        Some(absolute) => file_address(absolute.as_str()),
        None => Err(HandlerError::AddressResolution),
    }
}

/// Builds the secure-copy address `scp://<hostname><absolute>`.
pub fn scp_address(absolute: &str, hostname: &str) -> (r: Result<Address, HandlerError>)
    ensures
        match parsed_url(scp_text(hostname@, absolute@)) {
            Some(v) => r is Ok && r->Ok_0@ == v,
            None => r == Err::<Address, HandlerError>(HandlerError::AddressResolution),
        },
{
    let mut text = String::from_str("scp://");
    text.append(hostname);
    text.append(absolute);
    assert(text@ == scp_text(hostname@, absolute@));
    Address::parse(text.as_str())
}

/// Builds the secure-copy address of a local path on a remote host, the path made absolute
/// against the current directory.
pub fn try_build_url_from_path_buf_with_hostname(path: &str, hostname: &str) -> (r: Result<
    Address,
    HandlerError,
>)
    ensures
        r is Ok ==> exists|q: Seq<char>|
            q.len() > 0 && q[0] == '/' && parsed_url(scp_text(hostname@, q)) == Some(r->Ok_0@),
        r is Err ==> r == Err::<Address, HandlerError>(HandlerError::AddressResolution),
{
    match absolutize(path) {
        Some(absolute) => scp_address(absolute.as_str(), hostname),
        None => Err(HandlerError::AddressResolution),
    }
}

} // verus!
