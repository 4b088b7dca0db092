//! Tenant topic-namespace rewriting.
//!
//! Topics are `/`-delimited paths. A tenant marker is the literal
//! `/users/` followed by a maximal nonempty run of non-`/` bytes.
//! `remove_username_from_topic` removes the leftmost marker (used when a
//! PUBLISH packet is written to the wire); `add_username_to_topic`
//! inserts a tenant segment after each versioned prefix (used when a
//! topic is reported to an external system).

use vstd::prelude::*;
use vstd::string::StrSliceExecFns;
use vstd::string::StringExecFns;

verus! {

/// Holds iff a tenant marker `/users/<id>` starts at index `i` of `s`:
/// the seven bytes of `/users/` followed by at least one non-`/` byte.
pub open spec fn marker_at(s: Seq<u8>, i: int) -> bool {
    &&& 0 <= i
    &&& i + 8 <= s.len()
    &&& s[i] == 47
    &&& s[i + 1] == 117
    &&& s[i + 2] == 115
    &&& s[i + 3] == 101
    &&& s[i + 4] == 114
    &&& s[i + 5] == 115
    &&& s[i + 6] == 47
    &&& s[i + 7] != 47
}

/// Index of the leftmost tenant marker at or after `i`, or -1 if none.
pub open spec fn first_marker_from(s: Seq<u8>, i: int) -> int
    decreases s.len() - i,
{
    if i + 8 > s.len() {
        -1
    } else if marker_at(s, i) {
        i
    } else {
        first_marker_from(s, i + 1)
    }
}

/// First index at or after `j` holding a `/`, or the length of `s`.
pub open spec fn run_end(s: Seq<u8>, j: int) -> int
    decreases s.len() - j,
{
    if j >= s.len() {
        s.len() as int
    } else if s[j] == 47 {
        j
    } else {
        run_end(s, j + 1)
    }
}

/// The topic after one namespace-strip pass: the leftmost tenant marker
/// `/users/<id>` is removed (the `<id>` run, not the `/` that follows
/// it); a topic without a marker is unchanged.
pub open spec fn spec_strip(s: Seq<u8>) -> Seq<u8> {
    let i = first_marker_from(s, 0);
    if i < 0 {
        s
    } else {
        s.subrange(0, i) + s.subrange(run_end(s, i + 7), s.len() as int)
    }
}

/// Removes the leftmost tenant marker `/users/<id>` from a topic; a
/// topic with no marker comes back unchanged. Only the first marker is
/// removed: a second one further right stays.
pub fn remove_username_from_topic(topic: &Vec<u8>) -> (r: Vec<u8>)
    ensures
        r@ == spec_strip(topic@),
{
    let n = topic.len();
    let mut i: usize = 0;
    loop
        invariant
            i <= n,
            n == topic@.len(),
            first_marker_from(topic@, 0) == first_marker_from(topic@, i as int),
        decreases n - i,
    {
        if n - i < 8 {
            proof {
                assert(first_marker_from(topic@, i as int) == -1);
            }
            return topic.clone();
        }
        if topic[i] == 47 && topic[i + 1] == 117 && topic[i + 2] == 115 && topic[i + 3] == 101
            && topic[i + 4] == 114 && topic[i + 5] == 115 && topic[i + 6] == 47
            && topic[i + 7] != 47 {
            proof {
                assert(marker_at(topic@, i as int));
                assert(first_marker_from(topic@, i as int) == i as int);
            }
            let mut j: usize = i + 7;
            while j < n && topic[j] != 47
                invariant
                    i + 7 <= j <= n,
                    n == topic@.len(),
                    run_end(topic@, i as int + 7) == run_end(topic@, j as int),
                decreases n - j,
            {
                j = j + 1;
            }
            proof {
                assert(run_end(topic@, j as int) == j as int);
            }
            let mut out = vstd::slice::slice_to_vec(vstd::slice::slice_subrange(
                topic.as_slice(),
                0,
                i,
            ));
            out.extend_from_slice(vstd::slice::slice_subrange(topic.as_slice(), j, n));
            return out;
        }
        i = i + 1;
    }
}

/// Every non-overlapping occurrence of `pat` in `s` replaced by `to`,
/// scanning left to right and continuing after each replacement — the
/// behaviour of `str::replace`. An empty pattern leaves `s` unchanged.
pub open spec fn spec_replace_all(s: Seq<char>, pat: Seq<char>, to: Seq<char>) -> Seq<char>
    decreases s.len(),
{
    if pat.len() == 0 || s.len() < pat.len() {
        s
    } else if s.subrange(0, pat.len() as int) == pat {
        to + spec_replace_all(s.skip(pat.len() as int), pat, to)
    } else {
        seq![s[0]] + spec_replace_all(s.skip(1), pat, to)
    }
}

/// Whether `pat` occurs in `s` at character position `i`.
fn matches_at(s: &str, pat: &str, i: usize) -> (r: bool)
    requires
        i + pat@.len() <= s@.len(),
        s@.len() <= usize::MAX,
    ensures
        r == (s@.subrange(i as int, i as int + pat@.len()) == pat@),
{
    let m = pat.unicode_len();
    let mut k: usize = 0;
    while k < m
        invariant
            k <= m,
            m == pat@.len(),
            i + m <= s@.len() <= usize::MAX,
            forall|j: int| 0 <= j < k ==> s@[i + j] == pat@[j],
        decreases m - k,
    {
        if s.get_char(i + k) != pat.get_char(k) {
            proof {
                assert(s@.subrange(i as int, i as int + pat@.len())[k as int] != pat@[k as int]);
            }
            return false;
        }
        k = k + 1;
    }
    proof {
        assert(s@.subrange(i as int, i as int + pat@.len()) =~= pat@);
    }
    true
}

/// Replaces every non-overlapping occurrence of `pat` in `s` by `to`,
/// scanning left to right.
pub fn replace_all(s: &str, pat: &str, to: &str) -> (r: String)
    requires
        pat@.len() > 0,
    ensures
        r@ == spec_replace_all(s@, pat@, to@),
{
    let n = s.unicode_len();
    let m = pat.unicode_len();
    let mut out = String::new();
    let mut i: usize = 0;
    proof {
        assert(s@.skip(0) =~= s@);
        assert(out@ + spec_replace_all(s@, pat@, to@) =~= spec_replace_all(s@, pat@, to@));
    }
    while i < n
        invariant
            i <= n,
            n == s@.len(),
            m == pat@.len(),
            m > 0,
            spec_replace_all(s@, pat@, to@) == out@ + spec_replace_all(
                s@.skip(i as int),
                pat@,
                to@,
            ),
        decreases n - i,
    {
        let ghost pre = out@;
        let ghost rem = s@.skip(i as int);
        if n - i >= m && matches_at(s, pat, i) {
            proof {
                assert(rem.subrange(0, m as int) =~= s@.subrange(i as int, i as int + m as int));
                assert(rem.skip(m as int) =~= s@.skip(i as int + m as int));
            }
            out.append(to);
            i = i + m;
        } else {
            proof {
                assert(rem[0] == s@[i as int]);
                assert(rem.skip(1) =~= s@.skip(i as int + 1));
                if rem.len() >= m {
                    assert(rem.subrange(0, m as int) =~= s@.subrange(
                        i as int,
                        i as int + m as int,
                    ));
                    assert(spec_replace_all(rem, pat@, to@) == seq![rem[0]] + spec_replace_all(
                        rem.skip(1),
                        pat@,
                        to@,
                    ));
                } else {
                    assert(spec_replace_all(rem, pat@, to@) == rem);
                    assert(spec_replace_all(rem.skip(1), pat@, to@) == rem.skip(1));
                    assert(rem =~= seq![rem[0]] + rem.skip(1));
                }
                assert(s@.subrange(i as int, i as int + 1) =~= seq![s@[i as int]]);
            }
            let piece = s.substring_char(i, i + 1);
            out.append(piece);
            i = i + 1;
        }
    }
    proof {
        assert(s@.skip(n as int) =~= Seq::<char>::empty());
        assert(spec_replace_all(s@.skip(n as int), pat@, to@) == Seq::<char>::empty());
        assert(out@ =~= out@ + Seq::<char>::empty());
    }
    out
}

/// The view of an optional owned string.
pub open spec fn opt_str_view(o: Option<String>) -> Option<Seq<char>> {
    match o {
        Some(s) => Some(s@),
        None => None,
    }
}

/// The topic with a tenant segment injected: with a username present,
/// every literal `/v1.6/` becomes `/v1.6/users/<username>/` and every
/// literal `/v2.0/` becomes `/v2.0/users/<username>/`, the first
/// substitution running before the second; with no username the topic
/// is unchanged.
pub open spec fn spec_inject(t: Seq<char>, username: Option<Seq<char>>) -> Seq<char> {
    match username {
        None => t,
        Some(u) => spec_replace_all(
            spec_replace_all(t, "/v1.6/"@, "/v1.6/users/"@ + u + "/"@),
            "/v2.0/"@,
            "/v2.0/users/"@ + u + "/"@,
        ),
    }
}

/// Injects the tenant segment of `username` after each versioned topic
/// prefix; with no username the topic comes back unchanged.
pub fn add_username_to_topic(original_topic: &str, username: Option<String>) -> (r: String)
    ensures
        r@ == spec_inject(original_topic@, opt_str_view(username)),
{
    match username {
        None => original_topic.to_owned(),
        Some(u) => {
            proof {
                reveal_strlit("/v1.6/");
                reveal_strlit("/v2.0/");
            }
            let mut segment_v16 = String::from_str("/v1.6/users/");
            segment_v16.append(u.as_str());
            segment_v16.append("/");
            let first = replace_all(original_topic, "/v1.6/", segment_v16.as_str());
            let mut segment_v20 = String::from_str("/v2.0/users/");
            segment_v20.append(u.as_str());
            segment_v20.append("/");
            replace_all(first.as_str(), "/v2.0/", segment_v20.as_str())
        },
    }
}

} // verus!

