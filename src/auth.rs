//! How a collector's `auth` value is read by the dispatcher.

use vstd::prelude::*;
use crate::collector::Collector;

verus! {

/// The authentication a dispatcher applies for one collector.
#[derive(Debug, Clone, PartialEq, Eq)]
pub enum AuthMode {
    /// No authentication: `auth` absent or empty.
    NoAuth,
    /// Sign requests with ambient cloud credentials: `sigv4` or `iam`.
    SigV4,
    /// Attach one static header: `header-name=header-value`, split at the
    /// first `=`.
    Header { name: String, value: String },
    /// Any other value, passed on unchanged.
    Opaque(String),
}

/// The mathematical content of an [`AuthMode`].
pub enum AuthModeView {
    NoAuth,
    SigV4,
    Header(Seq<char>, Seq<char>),
    Opaque(Seq<char>),
}

impl View for AuthMode {
    type V = AuthModeView;

    open spec fn view(&self) -> AuthModeView {
        match self {
            AuthMode::NoAuth => AuthModeView::NoAuth,
            AuthMode::SigV4 => AuthModeView::SigV4,
            AuthMode::Header { name, value } => AuthModeView::Header(name@, value@),
            AuthMode::Opaque(s) => AuthModeView::Opaque(s@),
        }
    }
}

/// The index of the first `=` in `s`, or its length when there is none.
pub open spec fn eq_position(s: Seq<char>) -> int
    decreases s.len(),
{
    if s.len() == 0 || s[0] == '=' {
        0
    } else {
        1 + eq_position(s.drop_first())
    }
}

/// How an `auth` value is interpreted.
pub open spec fn auth_mode_of(auth: Option<Seq<char>>) -> AuthModeView {
    match auth {
        None => AuthModeView::NoAuth,
        Some(a) => if a.len() == 0 {
            AuthModeView::NoAuth
        } else if a == seq!['s', 'i', 'g', 'v', '4'] || a == seq!['i', 'a', 'm'] {
            AuthModeView::SigV4
        } else if eq_position(a) < a.len() {
            AuthModeView::Header(
                a.subrange(0, eq_position(a)),
                a.subrange(eq_position(a) + 1, a.len() as int),
            )
        } else {
            AuthModeView::Opaque(a)
        },
    }
}

proof fn lemma_eq_position_bounds(s: Seq<char>)
    ensures
        0 <= eq_position(s) <= s.len(),
        eq_position(s) < s.len() ==> s[eq_position(s)] == '=',
    decreases s.len(),
{
    if s.len() > 0 && s[0] != '=' {
        lemma_eq_position_bounds(s.drop_first());
    }
}

/// Reads an `auth` value (see [`auth_mode_of`]).
pub fn parse_auth(auth: &Option<String>) -> (r: AuthMode)
    ensures
        r@ == auth_mode_of(
            match auth {
                Some(s) => Some(s@),
                None => None,
            },
        ),
{
    let a = match auth {
        None => return AuthMode::NoAuth,
        Some(a) => a,
    };
    let n = a.as_str().unicode_len();
    if n == 0 {
        return AuthMode::NoAuth;
    }
    let sigv4 = String::from_str("sigv4");
    let iam = String::from_str("iam");
    proof {
        reveal_strlit("sigv4");
        reveal_strlit("iam");
        assert(sigv4@ =~= seq!['s', 'i', 'g', 'v', '4']);
        assert(iam@ =~= seq!['i', 'a', 'm']);
    }
    if *a == sigv4 || *a == iam {
        return AuthMode::SigV4;
    }
    let s = a.as_str();
    let mut i: usize = 0;
    assert(s@.subrange(0, n as int) =~= s@);
    while i < n && s.get_char(i) != '='
        invariant
            n == s@.len(),
            i <= n,
            eq_position(s@) == i + eq_position(s@.subrange(i as int, n as int)),
        decreases n - i,
    {
        assert(s@.subrange(i as int, n as int).drop_first() =~= s@.subrange(i + 1, n as int));
        i = i + 1;
    }
    proof {
        if i < n {
            assert(s@.subrange(i as int, n as int)[0] == s@[i as int]);
        }
        lemma_eq_position_bounds(s@);
    }
    if i < n {
        let name = String::from_str(s.substring_char(0, i));
        let value = String::from_str(s.substring_char(i + 1, n));
        AuthMode::Header { name, value }
    } else {
        AuthMode::Opaque(a.clone())
    }
}

impl Collector {
    /// How the dispatcher authenticates to this collector.
    pub fn auth_mode(&self) -> (r: AuthMode)
        ensures
            r@ == auth_mode_of(self@.auth),
    {
        parse_auth(&self.auth)
    }
}

} // verus!
