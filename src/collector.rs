//! One downstream collector: its definition, exclusion rule and endpoint
//! construction.

use vstd::prelude::*;
use crate::outside::{
    compile_regex, parse_url_path, regex_compiles, regex_is_match, regex_match, replace_url_path,
    url_parses, url_path, url_with_path,
};
use crate::paths::{join_paths, joined_path};

verus! {

/// The longest URL text, in characters, that endpoint construction accepts.
pub const MAX_URL_CHARS: usize = 50_000_000;

/// What can go wrong while loading collectors or routing a signal.
#[derive(Debug, Clone, Copy, PartialEq, Eq, Structural)]
pub enum CollectorsError {
    /// The setting that names the secrets prefix is unset.
    MissingSecretsPrefix,
    /// The secret store reported errors and returned no secret at all.
    NoSecretsFetched,
    /// No returned secret held a usable collector definition.
    NoValidCollectors,
    /// Routing was asked for before any registry was loaded.
    NotInitialized,
    /// The endpoint of the incoming signal is not a URL (or is too long).
    InvalidOriginalEndpoint,
    /// A collector's base endpoint is not a URL (or the result is too long).
    InvalidCollectorEndpoint,
}

impl CollectorsError {
    /// Whether the error belongs to configuration loading.
    pub open spec fn is_configuration_spec(self) -> bool {
        ||| self == CollectorsError::MissingSecretsPrefix
        ||| self == CollectorsError::NoSecretsFetched
        ||| self == CollectorsError::NoValidCollectors
    }

    /// Whether the error is a configuration error.
    pub fn is_configuration(&self) -> (r: bool)
        ensures
            r == self.is_configuration_spec(),
    {
        match self {
            CollectorsError::MissingSecretsPrefix => true,
            CollectorsError::NoSecretsFetched => true,
            CollectorsError::NoValidCollectors => true,
            _ => false,
        }
    }
}

/// A downstream destination for forwarded telemetry.
#[derive(Debug, Clone)]
pub struct Collector {
    /// Display name; duplicates are allowed.
    pub name: String,
    /// Base URL of the collector.
    pub endpoint: String,
    /// Authentication: absent or empty for none, `sigv4` / `iam` for request
    /// signing, `header-name=header-value` for a static header.
    pub auth: Option<String>,
    /// Regular expression over source identifiers that this collector skips.
    pub exclude: Option<String>,
}

/// The mathematical content of a [`Collector`].
pub struct CollectorView {
    pub name: Seq<char>,
    pub endpoint: Seq<char>,
    pub auth: Option<Seq<char>>,
    pub exclude: Option<Seq<char>>,
}

pub open spec fn opt_chars(o: Option<String>) -> Option<Seq<char>> {
    match o {
        Some(s) => Some(s@),
        None => None,
    }
}

impl View for Collector {
    type V = CollectorView;

    open spec fn view(&self) -> CollectorView {
        CollectorView {
            name: self.name@,
            endpoint: self.endpoint@,
            auth: opt_chars(self.auth),
            exclude: opt_chars(self.exclude),
        }
    }
}

/// The definition built from parsed fields: an exclusion pattern that does
/// not compile is dropped, everything else is kept as given.
pub open spec fn defined_collector(
    name: Seq<char>,
    endpoint: Seq<char>,
    auth: Option<Seq<char>>,
    exclude: Option<Seq<char>>,
) -> CollectorView {
    CollectorView {
        name,
        endpoint,
        auth,
        exclude: match exclude {
            Some(p) => if regex_compiles(p) {
                Some(p)
            } else {
                None
            },
            None => None,
        },
    }
}

/// Whether the collector skips signals from `source`.
pub open spec fn is_excluded(c: CollectorView, source: Seq<char>) -> bool {
    match c.exclude {
        Some(p) => regex_compiles(p) && regex_is_match(p, source),
        None => false,
    }
}

/// The endpoint under which a signal first sent to `original` reaches a
/// collector whose base endpoint is `base`.
pub open spec fn signal_endpoint(base: Seq<char>, original: Seq<char>) -> Result<
    Seq<char>,
    CollectorsError,
> {
    if !url_parses(original) || original.len() > MAX_URL_CHARS {
        Err(CollectorsError::InvalidOriginalEndpoint)
    } else if !url_parses(base) || base.len() > MAX_URL_CHARS {
        Err(CollectorsError::InvalidCollectorEndpoint)
    } else {
        let path = joined_path(url_path(base), url_path(original));
        if path.len() > MAX_URL_CHARS {
            Err(CollectorsError::InvalidCollectorEndpoint)
        } else {
            Ok(url_with_path(base, path))
        }
    }
}

/// The collector specialised for one signal: same name, auth and exclusion,
/// endpoint replaced.
pub open spec fn with_endpoint(c: CollectorView, endpoint: Seq<char>) -> CollectorView {
    CollectorView { endpoint, ..c }
}

fn clone_opt(o: &Option<String>) -> (r: Option<String>)
    ensures
        opt_chars(r) == opt_chars(*o),
{
    match o {
        Some(s) => Some(s.clone()),
        None => None,
    }
}

impl Collector {
    /// Builds a collector from parsed fields. An exclusion pattern that is
    /// not a valid regular expression is treated as absent; the auth value is
    /// kept exactly as given, an empty string included.
    pub fn new(name: String, endpoint: String, auth: Option<String>, exclude: Option<String>) -> (r:
        Collector)
        ensures
            r@ == defined_collector(name@, endpoint@, opt_chars(auth), opt_chars(exclude)),
    {
        let exclude = match exclude {
            Some(p) => match compile_regex(p.as_str()) {
                Ok(_) => Some(p),
                Err(_) => None,
            },
            None => None,
        };
        Collector { name, endpoint, auth, exclude }
    }

    /// Whether signals from `log_group` are excluded from this collector.
    /// A pattern that does not compile excludes nothing.
    pub fn should_exclude(&self, log_group: &str) -> (r: bool)
        ensures
            r == is_excluded(self@, log_group@),
    {
        match &self.exclude {
            Some(p) => match regex_match(p.as_str(), log_group) {
                Ok(b) => b,
                Err(_) => false,
            },
            None => false,
        }
    }

    /// The endpoint for a signal that arrived at `original_endpoint`: the
    /// collector's base URL with its path extended by the signal's path.
    pub fn construct_signal_endpoint(&self, original_endpoint: &str) -> (r: Result<
        String,
        CollectorsError,
    >)
        ensures
            match r {
                Ok(s) => signal_endpoint(self.endpoint@, original_endpoint@) == Ok::<
                    Seq<char>,
                    CollectorsError,
                >(s@),
                Err(e) => signal_endpoint(self.endpoint@, original_endpoint@) == Err::<
                    Seq<char>,
                    CollectorsError,
                >(e),
            },
    {
        if original_endpoint.unicode_len() > MAX_URL_CHARS {
            return Err(CollectorsError::InvalidOriginalEndpoint);
        }
        let signal_path = match parse_url_path(original_endpoint) {
            Ok(p) => p,
            Err(_) => return Err(CollectorsError::InvalidOriginalEndpoint),
        };
        let base = self.endpoint.as_str();
        if base.unicode_len() > MAX_URL_CHARS {
            return Err(CollectorsError::InvalidCollectorEndpoint);
        }
        let base_path = match parse_url_path(base) {
            Ok(p) => p,
            Err(_) => return Err(CollectorsError::InvalidCollectorEndpoint),
        };
        let path = join_paths(base_path.as_str(), signal_path.as_str());
        if path.as_str().unicode_len() > MAX_URL_CHARS {
            return Err(CollectorsError::InvalidCollectorEndpoint);
        }
        match replace_url_path(base, path.as_str()) {
            Ok(s) => Ok(s),
            Err(_) => Err(CollectorsError::InvalidCollectorEndpoint),
        }
    }

    /// This collector specialised for one signal endpoint.
    pub fn with_signal_endpoint(&self, endpoint: String) -> (r: Collector)
        ensures
            r@ == with_endpoint(self@, endpoint@),
    {
        Collector {
            name: self.name.clone(),
            endpoint,
            auth: clone_opt(&self.auth),
            exclude: clone_opt(&self.exclude),
        }
    }
}

/// An invalid exclusion pattern never excludes: a collector built from a
/// pattern that does not compile skips no source.
pub proof fn lemma_invalid_pattern_never_excludes(
    name: Seq<char>,
    endpoint: Seq<char>,
    auth: Option<Seq<char>>,
    pattern: Seq<char>,
    source: Seq<char>,
)
    requires
        !regex_compiles(pattern),
    ensures
        defined_collector(name, endpoint, auth, Some(pattern)).exclude == None::<Seq<char>>,
        !is_excluded(defined_collector(name, endpoint, auth, Some(pattern)), source),
{
}

/// Auth values are carried through unchanged: absent stays absent, and an
/// explicit empty string stays a present empty string.
pub proof fn lemma_auth_kept(
    name: Seq<char>,
    endpoint: Seq<char>,
    auth: Option<Seq<char>>,
    exclude: Option<Seq<char>>,
)
    ensures
        defined_collector(name, endpoint, auth, exclude).auth == auth,
        auth == Some(Seq::<char>::empty()) ==> defined_collector(name, endpoint, auth, exclude).auth
            == Some(Seq::<char>::empty()),
{
}

} // verus!
