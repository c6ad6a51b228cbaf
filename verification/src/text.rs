//! Text helpers: what the standard library computes on strings and the
//! verifier has no account of, and verified equality of string slices.

use vstd::prelude::*;
use vstd::utf8::*;

verus! {

/// The lowercase form of a text, as `str::to_lowercase` computes it.
pub uninterp spec fn lowercase(s: Seq<char>) -> Seq<char>;

/// The quoted and escaped form of a text, as the `Debug` formatting of `str`
/// writes it.
pub uninterp spec fn debug_form(s: Seq<char>) -> Seq<char>;

/// Calls `str::to_lowercase`. The result is the lowercase form of the
/// argument, which depends on the characters of the argument alone.
#[verifier::external_body]
pub(crate) fn to_lowercase(s: &str) -> (lower: String)
    ensures
        lower@ == lowercase(s@),
{
    s.to_lowercase()
}

/// Formats a string slice with `{:?}`. The result is the quoted and escaped
/// form of the argument, which depends on the characters of the argument
/// alone.
#[verifier::external_body]
pub(crate) fn to_debug_form(s: &str) -> (quoted: String)
    ensures
        quoted@ == debug_form(s@),
{
    format!("{:?}", s)
}

/// Two texts with the same UTF-8 bytes are the same text.
pub proof fn lemma_same_bytes_same_text(a: Seq<char>, b: Seq<char>)
    requires
        encode_utf8(a) == encode_utf8(b),
    ensures
        a == b,
{
    encode_utf8_decode_utf8(a);
    encode_utf8_decode_utf8(b);
}

/// Whether two string slices hold the same text.
pub fn str_eq(a: &str, b: &str) -> (same: bool)
    ensures
        same == (a@ == b@),
{
    let x = a.as_bytes();
    let y = b.as_bytes();
    if x.len() != y.len() {
        return false;
    }
    let mut i: usize = 0;
    while i < x.len()
        invariant
            i <= x.len(),
            x.len() == y.len(),
            x@ == encode_utf8(a@),
            y@ == encode_utf8(b@),
            forall|k: int| 0 <= k < i ==> x@[k] == y@[k],
        decreases x.len() - i,
    {
        if x[i] != y[i] {
            return false;
        }
        i = i + 1;
    }
    proof {
        assert(x@ =~= y@);
        lemma_same_bytes_same_text(a@, b@);
    }
    true
}

} // verus!
