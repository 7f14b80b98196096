//! Request URL assembly.
//!
//! A request's URL is the bridge base URL, one separating slash, and the
//! endpoint path stripped of its leading and trailing slashes. Only this
//! string assembly is the library's concern; sending the request is the
//! shell's.

use vstd::prelude::*;

verus! {

/// How many slashes the string starts with.
pub open spec fn leading_slashes(s: Seq<char>) -> int
    decreases s.len(),
{
    if s.len() == 0 {
        0
    } else if s.first() == '/' {
        1 + leading_slashes(s.drop_first())
    } else {
        0
    }
}

/// How many slashes the string ends with.
pub open spec fn trailing_slashes(s: Seq<char>) -> int
    decreases s.len(),
{
    if s.len() == 0 {
        0
    } else if s.last() == '/' {
        1 + trailing_slashes(s.drop_last())
    } else {
        0
    }
}

/// The string with every leading and trailing slash removed.
pub open spec fn trim_slashes(s: Seq<char>) -> Seq<char> {
    if leading_slashes(s) == s.len() {
        Seq::empty()
    } else {
        s.subrange(leading_slashes(s), s.len() - trailing_slashes(s))
    }
}

/// A prefix of slashes ending at the first non-slash (or at the end) is
/// exactly what `leading_slashes` counts.
proof fn lemma_leading_slashes(s: Seq<char>, a: int)
    requires
        0 <= a <= s.len(),
        forall|j: int| 0 <= j < a ==> s[j] == '/',
        a == s.len() || s[a] != '/',
    ensures
        leading_slashes(s) == a,
    decreases a,
{
    if a == 0 {
    } else {
        assert(s.first() == '/');
        lemma_leading_slashes(s.drop_first(), a - 1);
    }
}

/// A suffix of slashes starting right after a non-slash is exactly what
/// `trailing_slashes` counts.
proof fn lemma_trailing_slashes(s: Seq<char>, b: int)
    requires
        1 <= b <= s.len(),
        s[b - 1] != '/',
        forall|j: int| b <= j < s.len() ==> s[j] == '/',
    ensures
        trailing_slashes(s) == s.len() - b,
    decreases s.len(),
{
    if b == s.len() {
    } else {
        assert(s.last() == '/');
        lemma_trailing_slashes(s.drop_last(), b);
    }
}

/// Assembles the URL a request is sent to: the base URL, a slash, and
/// the endpoint with its surrounding slashes trimmed.
pub fn request_url(base: &str, endpoint: &str) -> (r: String)
    ensures
        r@ == base@ + "/"@ + trim_slashes(endpoint@),
{
    let n: usize = endpoint.unicode_len();
    let mut a: usize = 0;
    while a < n && endpoint.get_char(a) == '/'
        invariant
            n == endpoint@.len(),
            0 <= a <= n,
            forall|j: int| 0 <= j < a ==> endpoint@[j] == '/',
        decreases n - a,
    {
        a += 1;
    }
    proof {
        lemma_leading_slashes(endpoint@, a as int);
    }
    if a == n {
        let r = String::from_str(base).concat("/");
        proof {
            assert(r@ =~= base@ + "/"@ + trim_slashes(endpoint@));
        }
        return r;
    }
    let mut b: usize = n;
    while b > a + 1 && endpoint.get_char(b - 1) == '/'
        invariant
            n == endpoint@.len(),
            a < n,
            endpoint@[a as int] != '/',
            a + 1 <= b <= n,
            forall|j: int| b <= j < n ==> endpoint@[j] == '/',
        decreases b,
    {
        b -= 1;
    }
    proof {
        if endpoint@[b - 1 as int] == '/' {
            assert(b == a + 1);
            assert(endpoint@[a as int] == '/');
        }
        lemma_trailing_slashes(endpoint@, b as int);
    }
    let segment = endpoint.substring_char(a, b);
    let r = String::from_str(base).concat("/").concat(segment);
    proof {
        assert(r@ =~= base@ + "/"@ + trim_slashes(endpoint@));
    }
    r
}

} // verus!
