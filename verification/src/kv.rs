//! Key-value arguments: `key=value` tokens that become fields of a request body.

use core::str::FromStr;
use vstd::prelude::*;
use vstd::std_specs::iter::IteratorSpec;
use vstd::string::StrSliceExecFns;

use crate::error::{ErrorView, HttpieError};

verus! {

/// One `key=value` argument, split at its first `=`.
#[derive(Debug, Clone, PartialEq, Eq)]
pub struct KvPair {
    pub k: String,
    pub v: String,
}

impl View for KvPair {
    type V = (Seq<char>, Seq<char>);

    open spec fn view(&self) -> (Seq<char>, Seq<char>) {
        (self.k@, self.v@)
    }
}

impl DeepView for KvPair {
    type V = (Seq<char>, Seq<char>);

    open spec fn deep_view(&self) -> (Seq<char>, Seq<char>) {
        self@
    }
}

/// `i` is the position of the first `=` in `token`.
pub open spec fn splits_at(token: Seq<char>, i: int) -> bool {
    &&& 0 <= i < token.len()
    &&& token[i] == '='
    &&& forall|j: int| 0 <= j < i ==> token[j] != '='
}

/// The key and the value of a token: what stands before its first `=` and
/// what stands after it. A token without `=` has neither.
pub open spec fn key_value(token: Seq<char>) -> Option<(Seq<char>, Seq<char>)> {
    if exists|i: int| splits_at(token, i) {
        let i = choose|i: int| splits_at(token, i);
        Some((token.subrange(0, i), token.subrange(i + 1, token.len() as int)))
    } else {
        None
    }
}

/// A token has one first `=` at most, so `key_value` is settled by any
/// position that `splits_at` accepts.
pub proof fn lemma_key_value_at(token: Seq<char>, i: int)
    requires
        splits_at(token, i),
    ensures
        key_value(token) == Some((token.subrange(0, i), token.subrange(i + 1, token.len() as int))),
{
    let j = choose|j: int| splits_at(token, j);
    assert(j == i) by {
        if j < i {
            assert(token[j] != '=');
        } else if i < j {
            assert(token[i] != '=');
        }
    }
}

/// A key without `=`, then `=`, then any value (the empty one too) is read
/// back as that key and that value.
pub proof fn lemma_key_value_of_joined(k: Seq<char>, v: Seq<char>)
    requires
        !k.contains('='),
    ensures
        key_value(k + seq!['='] + v) == Some((k, v)),
{
    let token = k + seq!['='] + v;
    let i = k.len() as int;
    assert(splits_at(token, i)) by {
        assert forall|j: int| 0 <= j < i implies token[j] != '=' by {
            assert(token[j] == k[j]);
        }
    }
    lemma_key_value_at(token, i);
    assert(token.subrange(0, i) =~= k);
    assert(token.subrange(i + 1, token.len() as int) =~= v);
}

/// A token has a key and a value exactly when it holds a `=`.
pub proof fn lemma_key_value_none(token: Seq<char>)
    ensures
        key_value(token) is None <==> !token.contains('='),
{
    if token.contains('=') {
        let n = smallest_equals(token, token.len() as int);
        assert(splits_at(token, n));
    } else {
        assert forall|i: int| !splits_at(token, i) by {
            if 0 <= i < token.len() && token[i] == '=' {
                assert(token.contains('='));
            }
        }
    }
}

/// The first `=` among the first `n` characters of a token that holds one there.
proof fn smallest_equals(token: Seq<char>, n: int) -> (i: int)
    requires
        0 <= n <= token.len(),
        exists|j: int| 0 <= j < n && token[j] == '=',
    ensures
        splits_at(token, i),
        i < n,
    decreases n,
{
    if exists|j: int| 0 <= j < n - 1 && token[j] == '=' {
        smallest_equals(token, n - 1)
    } else {
        n - 1
    }
}

impl FromStr for KvPair {
    type Err = HttpieError;

    /// Reads a `key=value` token.
    ///
    /// The token is split at its first `=`: the key is what stands before it,
    /// the value all that follows, further `=` included. Either may be empty.
    /// A token without `=` is refused, and the error carries the token.
    fn from_str(s: &str) -> (r: Result<Self, Self::Err>)
        ensures
            match key_value(s@) {
                Some(kv) => r matches Ok(pair) && pair@ == kv,
                None => r matches Err(e) && e@ == (ErrorView::InvalidKvPair { input: s@ }),
            },
            r is Err <==> !s@.contains('='),
    {
        broadcast use vstd::string::group_string_axioms;

        proof {
            lemma_key_value_none(s@);
        }
        let n = s.unicode_len();
        let mut rest = s.chars();
        let mut i: usize = 0;
        loop
            invariant
                n == s@.len(),
                0 <= i <= n,
                rest.remaining() == s@.skip(i as int),
                forall|j: int| 0 <= j < i ==> s@[j] != '=',
            decreases n - i,
        {
            match rest.next() {
                None => {
                    assert(key_value(s@) is None) by {
                        assert forall|j: int| !splits_at(s@, j) by {}
                    }
                    return Err(HttpieError::InvalidKvPair { input: s.to_owned() });
                },
                Some(c) => {
                    if c == '=' {
                        proof {
                            lemma_key_value_at(s@, i as int);
                        }
                        let k = s.substring_char(0, i).to_owned();
                        let v = s.substring_char(i + 1, n).to_owned();
                        return Ok(KvPair { k, v });
                    }
                    assert(s@.skip(i as int).drop_first() =~= s@.skip(i + 1));
                    i += 1;
                },
            }
        }
    }
}

/// Reads a `key=value` token: the pair of what stands before its first `=`
/// and what stands after it, or an error that carries the token where it
/// holds no `=`.
pub fn parse_kv_pair(s: &str) -> (r: Result<KvPair, HttpieError>)
    ensures
        match key_value(s@) {
            Some(kv) => r matches Ok(pair) && pair@ == kv,
            None => r matches Err(e) && e@ == (ErrorView::InvalidKvPair { input: s@ }),
        },
        r is Err <==> !s@.contains('='),
{
    KvPair::from_str(s)
}

} // verus!
