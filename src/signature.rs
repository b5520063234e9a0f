//! Where a policy's signatures live, and which fetched manifest counts as one.
//!
//! A signature artifact is stored next to the artifact it signs, under a tag
//! derived from the signed artifact's content digest: every `:` of the digest
//! becomes `-` and `.sig` is appended. That tag replaces whatever follows the
//! last `:` of the artifact's reference.

use vstd::prelude::*;
use vstd::string::*;

verus! {

/// The digest with every `:` turned into `-`.
pub open spec fn dash_colons(digest: Seq<char>) -> Seq<char> {
    digest.map_values(|c: char| if c == ':' { '-' } else { c })
}

pub open spec fn sig_suffix() -> Seq<char> {
    seq!['.', 's', 'i', 'g']
}

/// The tag under which the signatures of the artifact with this digest live.
pub open spec fn signature_tag(digest: Seq<char>) -> Seq<char> {
    dash_colons(digest) + sig_suffix()
}

/// Index of the last `:` in `s`, or -1 where `s` holds none.
pub open spec fn last_colon(s: Seq<char>) -> int
    decreases s.len(),
{
    if s.len() == 0 {
        -1
    } else if s.last() == ':' {
        s.len() - 1
    } else {
        last_colon(s.drop_last())
    }
}

/// The reference of the signature artifact: the part of `uri` up to and
/// including its last `:`, followed by the signature tag. None where `uri`
/// holds no `:`.
pub open spec fn signature_url(uri: Seq<char>, digest: Seq<char>) -> Option<Seq<char>> {
    let i = last_colon(uri);
    if i < 0 {
        None
    } else {
        Some(uri.take(i + 1) + signature_tag(digest))
    }
}

pub open spec fn text_option(r: Option<String>) -> Option<Seq<char>> {
    match r {
        Some(s) => Some(s@),
        None => None,
    }
}

/// `last_colon` is the position of the last `:`, or -1 exactly when there is none.
pub proof fn lemma_last_colon(s: Seq<char>)
    ensures
        -1 <= last_colon(s) < s.len(),
        last_colon(s) >= 0 ==> s[last_colon(s)] == ':',
        forall|j: int| last_colon(s) < j < s.len() ==> s[j] != ':',
    decreases s.len(),
{
    if s.len() > 0 && s.last() != ':' {
        lemma_last_colon(s.drop_last());
        assert forall|j: int| last_colon(s) < j < s.len() implies s[j] != ':' by {
            if j < s.len() - 1 {
                assert(s[j] == s.drop_last()[j]);
            }
        }
    }
}

/// Appending text without a `:` does not move the last `:`.
proof fn lemma_last_colon_append(p: Seq<char>, t: Seq<char>)
    requires
        forall|j: int| 0 <= j < t.len() ==> t[j] != ':',
    ensures
        last_colon(p + t) == last_colon(p),
    decreases t.len(),
{
    if t.len() == 0 {
        assert(p + t =~= p);
    } else {
        assert((p + t).drop_last() =~= p + t.drop_last());
        lemma_last_colon_append(p, t.drop_last());
    }
}

/// A reference without any `:` has no place for a signature tag.
pub proof fn law_unqualified_reference_has_no_signature(uri: Seq<char>, digest: Seq<char>)
    requires
        forall|j: int| 0 <= j < uri.len() ==> uri[j] != ':',
    ensures
        signature_url(uri, digest) is None,
{
    lemma_last_colon(uri);
}

/// Deriving is a function of its inputs: two derivations from the same
/// reference and digest give the same result.
pub proof fn law_derivation_is_deterministic(
    uri: Seq<char>,
    digest: Seq<char>,
    first: Option<Seq<char>>,
    second: Option<Seq<char>>,
)
    requires
        first == signature_url(uri, digest),
        second == signature_url(uri, digest),
    ensures
        first == second,
{
}

/// Deriving again from a derived reference, with the same digest, gives that
/// reference back: the signature tag holds no `:`, so the last `:` stays put.
pub proof fn law_derivation_is_idempotent(uri: Seq<char>, digest: Seq<char>)
    requires
        signature_url(uri, digest) is Some,
    ensures
        signature_url(signature_url(uri, digest).unwrap(), digest) == signature_url(uri, digest),
{
    let i = last_colon(uri);
    lemma_last_colon(uri);
    let p = uri.take(i + 1);
    let t = signature_tag(digest);
    assert forall|j: int| 0 <= j < t.len() implies t[j] != ':' by {
        if j < digest.len() {
            assert(t[j] == dash_colons(digest)[j]);
        } else {
            assert(t[j] == sig_suffix()[j - digest.len()]);
        }
    }
    lemma_last_colon_append(p, t);
    assert(p.drop_last() =~= uri.take(i));
    assert(p.last() == ':');
    assert((p + t).take(i + 1) =~= p);
}

/// The signature tag for `digest`.
fn signature_tag_of(digest: &str) -> (r: String)
    ensures
        r@ == signature_tag(digest@),
{
    let n = digest.unicode_len();
    let mut out = String::new();
    let mut i: usize = 0;
    while i < n
        invariant
            n == digest@.len(),
            i <= n,
            out@ == dash_colons(digest@.take(i as int)),
        decreases n - i,
    {
        let c = digest.get_char(i);
        if c == ':' {
            proof {
                reveal_strlit("-");
            }
            out.append("-");
        } else {
            out.append(digest.substring_char(i, i + 1));
        }
        assert(out@ =~= dash_colons(digest@.take(i as int + 1)));
        i = i + 1;
    }
    proof {
        reveal_strlit(".sig");
        assert(digest@.take(n as int) =~= digest@);
    }
    out.append(".sig");
    assert(out@ =~= signature_tag(digest@));
    out
}

/// The reference under which the signatures of the artifact `uri`, whose
/// content digest is `digest`, are stored; None where `uri` holds no `:`.
pub fn get_signature_url(uri: String, digest: &str) -> (r: Option<String>)
    ensures
        text_option(r) == signature_url(uri@, digest@),
{
    let s = uri.as_str();
    let n = s.unicode_len();
    let mut found: Option<usize> = None;
    let mut i: usize = 0;
    while i < n
        invariant
            s@ == uri@,
            n == uri@.len(),
            i <= n,
            match found {
                Some(j) => last_colon(uri@.take(i as int)) == j as int,
                None => last_colon(uri@.take(i as int)) == -1,
            },
        decreases n - i,
    {
        let c = s.get_char(i);
        assert(uri@.take(i as int + 1).drop_last() =~= uri@.take(i as int));
        if c == ':' {
            found = Some(i);
        }
        i = i + 1;
    }
    assert(uri@.take(n as int) =~= uri@);
    proof {
        lemma_last_colon(uri@);
    }
    match found {
        None => None,
        Some(j) => {
            let mut out = String::from_str(s.substring_char(0, j + 1));
            let tag = signature_tag_of(digest);
            out.append(tag.as_str());
            assert(out@ =~= uri@.take(j as int + 1) + signature_tag(digest@));
            Some(out)
        },
    }
}

/// First steps of signature discovery: from the outcome of the digest lookup
/// of `uri` to the reference to fetch. A failed lookup (`None`) means there is
/// nothing to fetch.
pub fn signature_reference(uri: &str, digest: Option<String>) -> (r: Option<String>)
    ensures
        digest is None ==> r is None,
        digest matches Some(d) ==> text_option(r) == signature_url(uri@, d@),
{
    match digest {
        None => None,
        Some(d) => get_signature_url(String::from_str(uri), d.as_str()),
    }
}

} // verus!
