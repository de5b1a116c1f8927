//! Joining a collector's base path with the path of an incoming signal.

use vstd::prelude::*;

verus! {

/// The base path with one `/` appended when it is non-empty and does not
/// already end with one.
pub open spec fn with_trailing_slash(p: Seq<char>) -> Seq<char> {
    if p.len() > 0 && p.last() != '/' {
        p.push('/')
    } else {
        p
    }
}

/// The path with every leading `/` removed.
pub open spec fn trim_leading_slashes(p: Seq<char>) -> Seq<char>
    decreases p.len(),
{
    if p.len() > 0 && p[0] == '/' {
        trim_leading_slashes(p.drop_first())
    } else {
        p
    }
}

/// The path under which a signal is sent to a collector: the collector's base
/// path ending in `/`, followed by the signal path without leading `/`.
pub open spec fn joined_path(base: Seq<char>, signal: Seq<char>) -> Seq<char> {
    with_trailing_slash(base) + trim_leading_slashes(signal)
}

/// Appending the trailing `/` beforehand changes nothing: the joined path is
/// the same whether or not the base already ends with `/`.
pub proof fn lemma_joined_path_ignores_trailing_slash(base: Seq<char>, signal: Seq<char>)
    ensures
        joined_path(with_trailing_slash(base), signal) == joined_path(base, signal),
{
}

/// Joins a collector's base path and a signal path (see [`joined_path`]).
pub fn join_paths(base: &str, signal: &str) -> (r: String)
    ensures
        r@ == joined_path(base@, signal@),
{
    let n = base.unicode_len();
    let mut head = String::from_str(base);
    if n > 0 && base.get_char(n - 1) != '/' {
        head.append("/");
        proof {
            reveal_strlit("/");
            assert(head@ =~= base@.push('/'));
        }
    }
    let m = signal.unicode_len();
    let mut i: usize = 0;
    assert(signal@.subrange(0, m as int) =~= signal@);
    while i < m && signal.get_char(i) == '/'
        invariant
            m == signal@.len(),
            i <= m,
            trim_leading_slashes(signal@.subrange(i as int, m as int)) == trim_leading_slashes(
                signal@,
            ),
        decreases m - i,
    {
        assert(signal@.subrange(i as int, m as int).drop_first() =~= signal@.subrange(
            i + 1,
            m as int,
        ));
        i = i + 1;
    }
    proof {
        let rest = signal@.subrange(i as int, m as int);
        if rest.len() > 0 {
            assert(rest[0] == signal@[i as int]);
        }
    }
    let tail = signal.substring_char(i, m);
    head.append(tail);
    head
}

} // verus!
