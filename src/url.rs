//! Turns relative resource paths into absolute, caller-facing URLs.
use vstd::prelude::*;
use vstd::string::*;
use crate::error::AppError;
use crate::text::{has_prefix, starts_with};

verus! {

/// The scheme prefix `http://`.
pub open spec fn http_scheme() -> Seq<char> {
    seq!['h', 't', 't', 'p', ':', '/', '/']
}

/// The scheme prefix `https://`.
pub open spec fn https_scheme() -> Seq<char> {
    seq!['h', 't', 't', 'p', 's', ':', '/', '/']
}

/// A usable server base address: an `http://` or `https://` scheme followed
/// by at least one character of authority.
pub open spec fn valid_base(b: Seq<char>) -> bool {
    (has_prefix(b, http_scheme()) && b.len() > http_scheme().len())
        || (has_prefix(b, https_scheme()) && b.len() > https_scheme().len())
}

/// The base joined with a relative path by exactly one `/`.
pub open spec fn server_url(b: Seq<char>, path: Seq<char>) -> Seq<char> {
    if b.len() > 0 && b.last() == '/' {
        b + path
    } else {
        b + seq!['/'] + path
    }
}

/// Resolves relative paths against the configured server base address.
#[derive(Clone, Debug)]
pub struct UrlService {
    base: String,
}

impl UrlService {
    /// The configured base address, as given.
    pub closed spec fn base_spec(&self) -> Seq<char> {
        self.base@
    }

    /// A resolver for the given base address. The base is checked when a URL is made.
    pub fn new(base: String) -> (r: UrlService)
        ensures
            r.base_spec() == base@,
    {
        UrlService { base }
    }

    /// The absolute URL of `path` under the base address; `ConfigError` exactly
    /// when the base is missing or malformed.
    pub fn create_server_url(&self, path: &str) -> (r: Result<String, AppError>)
        ensures
            valid_base(self.base_spec()) ==> (r is Ok && r->Ok_0@ == server_url(self.base_spec(), path@)),
            !valid_base(self.base_spec()) ==> (r is Err && r->Err_0 is ConfigError),
    {
        let http = "http://";
        let https = "https://";
        proof {
            reveal_strlit("http://");
            reveal_strlit("https://");
            assert(http@ =~= http_scheme());
            assert(https@ =~= https_scheme());
        }
        let b = self.base.as_str();
        let n = b.unicode_len();
        let ok = (starts_with(b, http) && n > 7) || (starts_with(b, https) && n > 8);
        if !ok {
            return Err(AppError::ConfigError(String::from_str("server base address is missing or malformed")));
        }
        let mut s = self.base.clone();
        if b.get_char(n - 1) != '/' {
            proof {
                reveal_strlit("/");
            }
            s.append("/");
            assert("/"@ =~= seq!['/']);
        }
        s.append(path);
        Ok(s)
    }
}

} // verus!
