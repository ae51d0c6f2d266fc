//! Sanitizes a request-relative URL tail against traversal and escape.
//!
//! The tail is percent-decoded first; a tail that fails to decode is
//! rejected outright. The decoded tail is then read as '/'-separated
//! segments: a segment beginning with ".." (parent traversal) or holding a
//! backslash (alternate-separator escape) rejects the whole request. The
//! remaining segments, in order, are appended onto the root; empty segments
//! from repeated slashes join nothing. Nothing here consults the
//! filesystem: the result is a candidate path only.

use vstd::prelude::*;
use vstd::string::StrSliceExecFns;
use vstd::string::StringExecFns;

verus! {

/// What `urlencoding::decode` returns for a given tail, when it returns at
/// all: `None` stands for a decode failure.
pub uninterp spec fn url_decoded(s: Seq<char>) -> Option<Seq<char>>;

/// Relies on `urlencoding::decode`: turns percent-encoded sequences back
/// into the characters they stand for, leaves every other character as it
/// is (so a tail without '%' comes back unchanged), and fails only when the
/// decoded bytes are not a valid string.
#[verifier::external_body]
fn percent_decode(tail: &str) -> (r: Option<String>)
    ensures
        r matches Some(d) ==> url_decoded(tail@) == Some(d@),
        r is None ==> url_decoded(tail@) is None,
        r is Some || tail@.contains('%'),
        r matches Some(d) ==> (!tail@.contains('%') ==> d@ == tail@),
{
    match urlencoding::decode(tail) {
        Ok(d) => Some(d.into_owned()),
        Err(_) => None,
    }
}

/// Some '/'-separated segment of `s` begins with "..".
pub open spec fn has_dotdot_segment(s: Seq<char>) -> bool {
    exists|p: int|
        0 <= p && p + 1 < s.len() && (p == 0 || s[p - 1] == '/') && #[trigger] s[p] == '.' && s[p
            + 1] == '.'
}

/// Some segment of `s` holds a backslash. A backslash is never a
/// separator, so this is simply: `s` holds one anywhere.
pub open spec fn has_backslash(s: Seq<char>) -> bool {
    s.contains('\\')
}

/// A decoded tail that the guard must refuse.
pub open spec fn tail_escapes(s: Seq<char>) -> bool {
    has_dotdot_segment(s) || has_backslash(s)
}

/// The contribution of character `i` of the tail to the joined path: a
/// separator character joins nothing; a character opening a new segment
/// brings one '/' before it.
pub open spec fn piece(s: Seq<char>, i: int) -> Seq<char> {
    if s[i] == '/' {
        Seq::empty()
    } else if i == 0 || s[i - 1] == '/' {
        seq!['/', s[i]]
    } else {
        seq![s[i]]
    }
}

/// The pieces of the first `i` characters of the tail, in order.
pub open spec fn joined_upto(s: Seq<char>, i: int) -> Seq<char>
    decreases i,
{
    if i <= 0 {
        Seq::empty()
    } else {
        joined_upto(s, i - 1) + piece(s, i - 1)
    }
}

/// The candidate path: the root with every non-empty segment of the tail
/// appended in order, each behind one '/'.
pub open spec fn guarded_join(root: Seq<char>, tail: Seq<char>) -> Seq<char> {
    root + joined_upto(tail, tail.len() as int)
}

/// What sanitizing decides, as a function of root and raw tail: reject when
/// the tail does not decode or when its decoded form escapes, and the
/// joined candidate path otherwise.
pub open spec fn guard_result(root: Seq<char>, tail: Seq<char>) -> Option<Seq<char>> {
    match url_decoded(tail) {
        Option::None => Option::None,
        Option::Some(d) => if tail_escapes(d) {
            Option::None
        } else {
            Option::Some(guarded_join(root, d))
        },
    }
}

/// One left-to-right pass over the decoded tail, refusing a backslash
/// anywhere and ".." at the head of any segment.
fn scan_escapes(s: &str) -> (bad: bool)
    ensures
        bad == tail_escapes(s@),
{
    let n = s.unicode_len();
    let mut i: usize = 0;
    while i < n
        invariant
            n == s@.len(),
            0 <= i <= n,
            forall|j: int| 0 <= j < i ==> s@[j] != '\\',
            forall|p: int|
                0 <= p < i && p + 1 < s@.len() && (p == 0 || s@[p - 1] == '/') ==> !(#[trigger] s@[p]
                    == '.' && s@[p + 1] == '.'),
        decreases n - i,
    {
        let c = s.get_char(i);
        if c == '\\' {
            assert(has_backslash(s@));
            return true;
        }
        let at_start = i == 0 || s.get_char(i - 1) == '/';
        if at_start && i + 1 < n && c == '.' && s.get_char(i + 1) == '.' {
            assert(has_dotdot_segment(s@));
            return true;
        }
        i += 1;
    }
    assert(!has_backslash(s@));
    assert(!has_dotdot_segment(s@));
    false
}

/// Appends every non-empty segment of the decoded tail onto the root.
fn join_tail(root: &str, decoded: &str) -> (r: String)
    ensures
        r@ == guarded_join(root@, decoded@),
{
    proof {
        reveal_strlit("/");
    }
    let mut out = String::from_str(root);
    let n = decoded.unicode_len();
    let mut i: usize = 0;
    assert(out@ =~= root@ + joined_upto(decoded@, 0));
    while i < n
        invariant
            n == decoded@.len(),
            0 <= i <= n,
            out@ == root@ + joined_upto(decoded@, i as int),
            "/"@ =~= seq!['/'],
        decreases n - i,
    {
        let ghost prev = out@;
        let c = decoded.get_char(i);
        if c != '/' {
            let at_start = i == 0 || decoded.get_char(i - 1) == '/';
            if at_start {
                out.append("/");
            }
            let one = decoded.substring_char(i, i + 1);
            assert(one@ =~= seq![decoded@[i as int]]);
            out.append(one);
            if at_start {
                assert(out@ =~= prev + seq!['/', decoded@[i as int]]);
            }
        }
        assert(joined_upto(decoded@, i + 1) == joined_upto(decoded@, i as int) + piece(
            decoded@,
            i as int,
        ));
        assert(out@ =~= root@ + joined_upto(decoded@, i + 1));
        i += 1;
    }
    out
}

/// Maps a URL-encoded tail onto a root directory, or refuses it.
///
/// The result is fully determined by [`guard_result`]: `None` when the tail
/// fails to decode, when any decoded segment begins with "..", or when any
/// decoded segment holds a backslash; otherwise the root with the decoded
/// segments appended. For a tail free of '%' the decoding changes nothing,
/// so the two rejection clauses below speak of the raw tail itself.
pub fn sanitize_path(root: &str, tail: &str) -> (r: Option<String>)
    ensures
        r is Some <==> guard_result(root@, tail@) is Some,
        r matches Some(p) ==> guard_result(root@, tail@) == Some(p@),
        !tail@.contains('%') && tail_escapes(tail@) ==> r is None,
        !tail@.contains('%') && !tail_escapes(tail@) ==> (r matches Some(p) && p@ == guarded_join(
            root@,
            tail@,
        )),
{
    match percent_decode(tail) {
        None => None,
        Some(d) => {
            if scan_escapes(d.as_str()) {
                None
            } else {
                Some(join_tail(root, d.as_str()))
            }
        },
    }
}

/// Parent traversal is refused: whenever the decoded tail holds a segment
/// beginning with "..", the guard rejects, whatever the filesystem holds.
pub proof fn lemma_guard_rejects_parent_traversal(root: Seq<char>, tail: Seq<char>, d: Seq<char>)
    requires
        url_decoded(tail) == Some(d),
        has_dotdot_segment(d),
    ensures
        guard_result(root, tail) is None,
{
}

/// Alternate-separator escape is refused: a backslash anywhere in the
/// decoded tail lies inside some segment, and the guard rejects it.
pub proof fn lemma_guard_rejects_backslash(root: Seq<char>, tail: Seq<char>, d: Seq<char>)
    requires
        url_decoded(tail) == Some(d),
        d.contains('\\'),
    ensures
        guard_result(root, tail) is None,
{
}

} // verus!
