//! Remote locators and the scheme-dispatched transport boundary. A
//! locator is a parsed URL reduced to the parts the transport reads: the
//! full serialization, the scheme, the host and the path. The transport
//! itself is an external CLI; this module only plans its argument lists
//! and reads its metadata responses.
use vstd::prelude::*;

use crate::NpcnixError;
use crate::text::{
    chars_vec,
    matches_at,
    parse_json_string_at,
    spec_matches_at,
    spec_parse_jstring,
    str_eq,
    string_from_chars,
};

verus! {

/// Mathematical image of a [`Locator`].
pub struct LocatorV {
    pub text: Seq<char>,
    pub scheme: Seq<char>,
    pub host: Option<Seq<char>>,
    pub path: Seq<char>,
}

/// What `url::Url::parse` makes of a string: `None` when it is not an
/// absolute URL, otherwise the parsed URL's serialization, scheme, host
/// and path. Left uninterpreted: the URL grammar is the url crate's.
pub uninterp spec fn url_parts(s: Seq<char>) -> Option<LocatorV>;

/// A validated remote locator, produced by [`parse_locator`].
#[derive(Debug)]
pub struct Locator {
    text: String,
    scheme: String,
    host: Option<String>,
    path: String,
}

impl View for Locator {
    type V = LocatorV;

    closed spec fn view(&self) -> LocatorV {
        LocatorV {
            text: self.text@,
            scheme: self.scheme@,
            host: match self.host {
                Some(ref h) => Some(h@),
                None => None,
            },
            path: self.path@,
        }
    }
}

/// A locator is well formed when re-parsing its own serialization gives
/// the same parts back; every locator [`parse_locator`] returns is.
pub open spec fn locator_wf(l: LocatorV) -> bool {
    url_parts(l.text) == Some(l)
}

/// Relies on `url::Url::parse` and its accessors `scheme`, `host_str` and
/// `path`: the outcome is a function of the input string alone, and a
/// parsed URL's serialization (`as_str`) re-parses to the same URL, which
/// is what the url crate's own string round-trip support rests on.
#[verifier::external_body]
pub fn parse_locator(s: &str) -> (r: Option<Locator>)
    ensures
        match r {
            Some(l) => url_parts(s@) == Some(l@) && locator_wf(l@),
            None => url_parts(s@) is None,
        },
{
    match url::Url::parse(s) {
        Ok(u) => Some(
            Locator {
                scheme: u.scheme().to_owned(),
                host: u.host_str().map(|h| h.to_owned()),
                path: u.path().to_owned(),
                text: String::from(u),
            },
        ),
        Err(_) => None,
    }
}

impl Locator {
    /// The URL's serialization.
    pub fn as_str(&self) -> (r: &str)
        ensures
            r@ == self@.text,
    {
        self.text.as_str()
    }

    /// The URL's scheme.
    pub fn scheme(&self) -> (r: &str)
        ensures
            r@ == self@.scheme,
    {
        self.scheme.as_str()
    }

    /// The URL's host, when it has one.
    pub fn host_str(&self) -> (r: Option<&str>)
        ensures
            match r {
                Some(h) => self@.host == Some(h@),
                None => self@.host is None,
            },
    {
        match self.host {
            Some(ref h) => Some(h.as_str()),
            None => None,
        }
    }

    /// The URL's path.
    pub fn path(&self) -> (r: &str)
        ensures
            r@ == self@.path,
    {
        self.path.as_str()
    }

    /// A copy with the same parts.
    pub fn duplicate(&self) -> (r: Locator)
        ensures
            r@ == self@,
    {
        Locator {
            text: self.text.clone(),
            scheme: self.scheme.clone(),
            host: match self.host {
                Some(ref h) => Some(h.clone()),
                None => None,
            },
            path: self.path.clone(),
        }
    }

    /// Whether two locators hold the same parts.
    pub fn same_as(&self, other: &Locator) -> (r: bool)
        ensures
            r == (self@ == other@),
    {
        let hosts_eq = match (&self.host, &other.host) {
            (Some(a), Some(b)) => str_eq(a.as_str(), b.as_str()),
            (None, None) => true,
            _ => false,
        };
        hosts_eq && str_eq(self.text.as_str(), other.text.as_str()) && str_eq(
            self.scheme.as_str(),
            other.scheme.as_str(),
        ) && str_eq(self.path.as_str(), other.path.as_str())
    }
}

/// The characters after the first occurrence of `c`, when `c` occurs.
pub open spec fn spec_after_first(s: Seq<char>, c: char) -> Option<Seq<char>>
    decreases s.len(),
{
    if s.len() == 0 {
        None
    } else if s[0] == c {
        Some(s.drop_first())
    } else {
        spec_after_first(s.drop_first(), c)
    }
}

fn after_first_slash(s: &str) -> (r: Option<String>)
    ensures
        match r {
            Some(k) => spec_after_first(s@, '/') == Some(k@),
            None => spec_after_first(s@, '/') is None,
        },
{
    let cs = chars_vec(s);
    let n = cs.len();
    proof {
        assert(cs@.skip(0) =~= cs@);
    }
    let mut i: usize = 0;
    while i < n
        invariant
            i <= n,
            n == cs@.len(),
            cs@ == s@,
            spec_after_first(s@, '/') == spec_after_first(cs@.skip(i as int), '/'),
        decreases n - i,
    {
        proof {
            assert(cs@.skip(i as int)[0] == cs@[i as int]);
            assert(cs@.skip(i as int).drop_first() =~= cs@.skip(i + 1));
        }
        if cs[i] == '/' {
            let mut key: Vec<char> = Vec::new();
            let mut j = i + 1;
            while j < n
                invariant
                    i + 1 <= j <= n,
                    n == cs@.len(),
                    key@ == cs@.subrange(i + 1, j as int),
                decreases n - j,
            {
                key.push(cs[j]);
                proof {
                    assert(cs@.subrange(i + 1, j + 1) =~= cs@.subrange(i + 1, j as int).push(
                        cs@[j as int],
                    ));
                }
                j += 1;
            }
            proof {
                assert(key@ =~= cs@.skip(i as int).drop_first());
            }
            return Some(string_from_chars(&key));
        }
        i += 1;
    }
    None
}

/// The single supported scheme: an S3-style object store.
pub open spec fn spec_scheme_supported(scheme: Seq<char>) -> bool {
    scheme == "s3"@
}

/// The views of an argument vector.
pub open spec fn arg_views(s: Seq<String>) -> Seq<Seq<char>> {
    s.map_values(|x: String| x@)
}

/// Transport CLI arguments for fetching the object behind `l` to stdout.
pub open spec fn spec_pull_args(l: LocatorV) -> Seq<Seq<char>> {
    seq!["s3"@, "cp"@, l.text, "-"@]
}

/// Transport CLI arguments for storing stdin behind `l`.
pub open spec fn spec_push_args(l: LocatorV) -> Seq<Seq<char>> {
    seq!["s3"@, "cp"@, "-"@, l.text]
}

/// Transport CLI arguments for the metadata-only fingerprint call:
/// defined when the locator has a host (the bucket) and a key after the
/// first slash of its path.
pub open spec fn spec_fingerprint_args(l: LocatorV) -> Option<Seq<Seq<char>>> {
    match l.host {
        Some(host) => match spec_after_first(l.path, '/') {
            Some(key) => Some(
                seq![
                    "s3api"@,
                    "get-object-attributes"@,
                    "--bucket"@,
                    host,
                    "--key"@,
                    key,
                    "--object-attributes"@,
                    "ETag"@,
                ],
            ),
            None => None,
        },
        None => None,
    }
}

/// Plans the transport call that fetches the object behind `remote` and
/// streams it to stdout. Schemes without a transport are rejected.
pub fn pull_args(remote: &Locator) -> (r: Result<Vec<String>, NpcnixError>)
    ensures
        match r {
            Ok(args) => spec_scheme_supported(remote@.scheme) && arg_views(args@) == spec_pull_args(
                remote@,
            ),
            Err(e) => !spec_scheme_supported(remote@.scheme) && (e matches
                NpcnixError::ProtocolNotSupported { scheme } && scheme@ == remote@.scheme),
        },
{
    if !str_eq(remote.scheme(), "s3") {
        return Err(
            NpcnixError::ProtocolNotSupported { scheme: String::from_str(remote.scheme()) },
        );
    }
    let mut args: Vec<String> = Vec::new();
    args.push(String::from_str("s3"));
    args.push(String::from_str("cp"));
    args.push(String::from_str(remote.as_str()));
    args.push(String::from_str("-"));
    proof {
        assert(arg_views(args@) =~= spec_pull_args(remote@));
    }
    Ok(args)
}

/// Plans the transport call that stores stdin behind `remote`.
pub fn push_args(remote: &Locator) -> (r: Result<Vec<String>, NpcnixError>)
    ensures
        match r {
            Ok(args) => spec_scheme_supported(remote@.scheme) && arg_views(args@) == spec_push_args(
                remote@,
            ),
            Err(e) => !spec_scheme_supported(remote@.scheme) && (e matches
                NpcnixError::ProtocolNotSupported { scheme } && scheme@ == remote@.scheme),
        },
{
    if !str_eq(remote.scheme(), "s3") {
        return Err(
            NpcnixError::ProtocolNotSupported { scheme: String::from_str(remote.scheme()) },
        );
    }
    let mut args: Vec<String> = Vec::new();
    args.push(String::from_str("s3"));
    args.push(String::from_str("cp"));
    args.push(String::from_str("-"));
    args.push(String::from_str(remote.as_str()));
    proof {
        assert(arg_views(args@) =~= spec_push_args(remote@));
    }
    Ok(args)
}

/// Plans the metadata-only transport call behind the change fingerprint.
/// Unsupported schemes, a hostless locator and a keyless path are each
/// rejected with their own error.
pub fn get_etag_args(remote: &Locator) -> (r: Result<Vec<String>, NpcnixError>)
    ensures
        match r {
            Ok(args) => spec_scheme_supported(remote@.scheme) && spec_fingerprint_args(remote@)
                == Some(arg_views(args@)),
            Err(e) => match e {
                NpcnixError::ProtocolNotSupported { scheme } => !spec_scheme_supported(
                    remote@.scheme,
                ) && scheme@ == remote@.scheme,
                NpcnixError::InvalidRemote => spec_scheme_supported(remote@.scheme)
                    && remote@.host is None,
                NpcnixError::RemoteKeyMissing => spec_scheme_supported(remote@.scheme)
                    && remote@.host is Some && spec_after_first(remote@.path, '/') is None,
                _ => false,
            },
        },
{
    if !str_eq(remote.scheme(), "s3") {
        return Err(
            NpcnixError::ProtocolNotSupported { scheme: String::from_str(remote.scheme()) },
        );
    }
    let host = match remote.host_str() {
        Some(h) => h,
        None => {
            return Err(NpcnixError::InvalidRemote);
        },
    };
    let key = match after_first_slash(remote.path()) {
        Some(k) => k,
        None => {
            return Err(NpcnixError::RemoteKeyMissing);
        },
    };
    let mut args: Vec<String> = Vec::new();
    args.push(String::from_str("s3api"));
    args.push(String::from_str("get-object-attributes"));
    args.push(String::from_str("--bucket"));
    args.push(String::from_str(host));
    args.push(String::from_str("--key"));
    args.push(key);
    args.push(String::from_str("--object-attributes"));
    args.push(String::from_str("ETag"));
    proof {
        assert(spec_fingerprint_args(remote@) == Some(arg_views(args@))) by {
            assert(arg_views(args@) =~= spec_fingerprint_args(remote@).unwrap());
        }
    }
    Ok(args)
}

/// JSON whitespace.
pub open spec fn spec_ws(c: char) -> bool {
    c == ' ' || c == '\n' || c == '\t' || c == '\r'
}

/// `s` with its leading whitespace removed.
pub open spec fn spec_skip_ws(s: Seq<char>) -> Seq<char>
    decreases s.len(),
{
    if s.len() > 0 && spec_ws(s[0]) {
        spec_skip_ws(s.drop_first())
    } else {
        s
    }
}

/// The string value of the first `"ETag"` key in a metadata response:
/// after the first occurrence of the quoted key, optional whitespace, a
/// colon, optional whitespace, then a JSON string literal.
pub open spec fn spec_scan_etag(s: Seq<char>) -> Option<Seq<char>>
    decreases s.len(),
{
    if s.len() == 0 {
        None
    } else if spec_matches_at(s, 0, "\"ETag\""@) {
        let t = spec_skip_ws(s.skip("\"ETag\""@.len() as int));
        if t.len() > 0 && t[0] == ':' {
            match spec_parse_jstring(spec_skip_ws(t.drop_first())) {
                Some((v, _)) => Some(v),
                None => None,
            }
        } else {
            None
        }
    } else {
        spec_scan_etag(s.drop_first())
    }
}

fn is_ws(c: char) -> (r: bool)
    ensures
        r == spec_ws(c),
{
    c == ' ' || c == '\n' || c == '\t' || c == '\r'
}

fn skip_ws_at(v: &Vec<char>, at: usize) -> (p: usize)
    requires
        at <= v@.len(),
    ensures
        at <= p <= v@.len(),
        spec_skip_ws(v@.skip(at as int)) == v@.skip(p as int),
{
    let n = v.len();
    let mut p = at;
    while p < n && is_ws(v[p])
        invariant
            at <= p <= n,
            n == v@.len(),
            p < n ==> v@.skip(p as int)[0] == v@[p as int],
            spec_skip_ws(v@.skip(at as int)) == spec_skip_ws(v@.skip(p as int)),
        decreases n - p,
    {
        proof {
            assert(v@.skip(p as int).drop_first() =~= v@.skip(p + 1));
        }
        p += 1;
        proof {
            if p < n {
                assert(v@.skip(p as int)[0] == v@[p as int]);
            }
        }
    }
    proof {
        if p < n {
            assert(v@.skip(p as int)[0] == v@[p as int]);
        }
    }
    p
}

/// Reads the change fingerprint out of the transport's metadata response:
/// the string value of its `"ETag"` field.
pub fn parse_etag_response(text: &str) -> (r: Result<String, NpcnixError>)
    ensures
        match r {
            Ok(s) => spec_scan_etag(text@) == Some(s@),
            Err(e) => spec_scan_etag(text@) is None && e matches NpcnixError::TransportFailed,
        },
{
    let cs = chars_vec(text);
    let n = cs.len();
    let key_len = "\"ETag\"".unicode_len();
    proof {
        assert(cs@.skip(0) =~= cs@);
    }
    let mut i: usize = 0;
    while i < n
        invariant
            i <= n,
            n == cs@.len(),
            cs@ == text@,
            key_len == "\"ETag\""@.len(),
            spec_scan_etag(text@) == spec_scan_etag(cs@.skip(i as int)),
        decreases n - i,
    {
        proof {
            assert(cs@.skip(i as int).drop_first() =~= cs@.skip(i + 1));
        }
        if matches_at(&cs, i, "\"ETag\"") {
            proof {
                assert(cs@.skip(i as int).subrange(0, key_len as int) =~= cs@.subrange(
                    i as int,
                    i + key_len,
                ));
                assert(spec_matches_at(cs@.skip(i as int), 0, "\"ETag\""@));
                assert(cs@.skip(i as int).skip(key_len as int) =~= cs@.skip(i + key_len));
            }
            let q = skip_ws_at(&cs, i + key_len);
            if q == n || cs[q] != ':' {
                proof {
                    if q < n {
                        assert(cs@.skip(q as int)[0] == cs@[q as int]);
                    }
                }
                return Err(NpcnixError::TransportFailed);
            }
            proof {
                assert(cs@.skip(q as int)[0] == cs@[q as int]);
                assert(cs@.skip(q as int).drop_first() =~= cs@.skip(q + 1));
            }
            let w = skip_ws_at(&cs, q + 1);
            match parse_json_string_at(&cs, w) {
                Some((val, _)) => {
                    return Ok(string_from_chars(&val));
                },
                None => {
                    return Err(NpcnixError::TransportFailed);
                },
            }
        } else {
            proof {
                if i + key_len <= n {
                    assert(cs@.skip(i as int).subrange(0, key_len as int) =~= cs@.subrange(
                        i as int,
                        i + key_len,
                    ));
                    assert(!spec_matches_at(cs@.skip(i as int), 0, "\"ETag\""@));
                }
            }
        }
        i += 1;
    }
    Err(NpcnixError::TransportFailed)
}

} // verus!
