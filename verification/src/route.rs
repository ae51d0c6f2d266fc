//! The wire surface: parsing request paths into routes, and rendering the
//! decimal numbers that session URLs carry.
//!
//! A request is `/{session_id}/static/{tail...}` or `/{session_id}/ws`,
//! nothing else. The id is read as decimal digits; anything non-numeric,
//! or a value past the id width, is no route at all — the transport
//! answers not-found instead of failing.

use vstd::prelude::*;
use vstd::string::StrSliceExecFns;
use vstd::string::StringExecFns;

verus! {

/// A decimal digit.
pub open spec fn is_digit(c: char) -> bool {
    '0' <= c && c <= '9'
}

/// The value of one digit character.
pub open spec fn digit_val(c: char) -> int {
    c as int - '0' as int
}

/// The character of one digit value.
pub open spec fn digit_char(d: int) -> char {
    if d == 0 {
        '0'
    } else if d == 1 {
        '1'
    } else if d == 2 {
        '2'
    } else if d == 3 {
        '3'
    } else if d == 4 {
        '4'
    } else if d == 5 {
        '5'
    } else if d == 6 {
        '6'
    } else if d == 7 {
        '7'
    } else if d == 8 {
        '8'
    } else {
        '9'
    }
}

/// Every character of `s` is a decimal digit.
pub open spec fn all_digits(s: Seq<char>) -> bool {
    forall|i: int| 0 <= i < s.len() ==> is_digit(#[trigger] s[i])
}

/// The number a digit string stands for, most significant digit first;
/// leading zeroes are allowed and change nothing.
pub open spec fn dec_value(s: Seq<char>) -> int
    decreases s.len(),
{
    if s.len() == 0 {
        0
    } else {
        dec_value(s.drop_last()) * 10 + digit_val(s.last())
    }
}

/// The canonical digit string of a number: no leading zeroes but for the
/// number zero itself.
pub open spec fn dec_digits(n: nat) -> Seq<char>
    decreases n,
{
    if n <= 9 {
        seq![digit_char(n as int)]
    } else {
        dec_digits(n / 10).push(digit_char((n % 10) as int))
    }
}

proof fn lemma_digit_char_val(d: int)
    requires
        0 <= d <= 9,
    ensures
        is_digit(digit_char(d)),
        digit_val(digit_char(d)) == d,
{
}

proof fn lemma_all_digits_take(s: Seq<char>, i: int)
    requires
        all_digits(s),
        0 <= i <= s.len(),
    ensures
        all_digits(s.take(i)),
{
    assert forall|j: int| 0 <= j < s.take(i).len() implies is_digit(#[trigger] s.take(i)[j]) by {
        assert(s.take(i)[j] == s[j]);
    }
}

proof fn lemma_dec_value_nonneg(s: Seq<char>)
    requires
        all_digits(s),
    ensures
        dec_value(s) >= 0,
    decreases s.len(),
{
    if s.len() > 0 {
        assert forall|j: int| 0 <= j < s.drop_last().len() implies is_digit(
            #[trigger] s.drop_last()[j],
        ) by {
            assert(s.drop_last()[j] == s[j]);
        }
        lemma_dec_value_nonneg(s.drop_last());
        assert(is_digit(s.last()));
    }
}

proof fn lemma_dec_value_step(s: Seq<char>, i: int)
    requires
        0 <= i < s.len(),
    ensures
        dec_value(s.take(i + 1)) == dec_value(s.take(i)) * 10 + digit_val(s[i]),
{
    assert(s.take(i + 1).drop_last() =~= s.take(i));
    assert(s.take(i + 1).last() == s[i]);
}

proof fn lemma_dec_value_grows(s: Seq<char>, i: int)
    requires
        all_digits(s),
        0 <= i <= s.len(),
    ensures
        dec_value(s.take(i)) <= dec_value(s),
    decreases s.len() - i,
{
    if i < s.len() {
        lemma_dec_value_step(s, i);
        lemma_all_digits_take(s, i);
        lemma_dec_value_nonneg(s.take(i));
        assert(is_digit(s[i]));
        assert(dec_value(s.take(i)) <= dec_value(s.take(i + 1)));
        lemma_dec_value_grows(s, i + 1);
    } else {
        assert(s.take(i) =~= s);
    }
}

/// Reads a decimal number: `Some` exactly for a non-empty, all-digit
/// string whose value fits; the value then is [`dec_value`] of the string.
pub fn parse_u64(s: &str) -> (r: Option<u64>)
    ensures
        r matches Some(v) ==> (s@.len() > 0 && all_digits(s@) && v == dec_value(s@)),
        r is None ==> (s@.len() == 0 || !all_digits(s@) || dec_value(s@) > u64::MAX),
{
    let n = s.unicode_len();
    if n == 0 {
        return None;
    }
    let mut i: usize = 0;
    let mut val: u64 = 0;
    assert(s@.take(0) =~= Seq::<char>::empty());
    while i < n
        invariant
            n == s@.len(),
            0 <= i <= n,
            all_digits(s@.take(i as int)),
            val == dec_value(s@.take(i as int)),
        decreases n - i,
    {
        let c = s.get_char(i);
        if c < '0' || c > '9' {
            assert(!is_digit(s@[i as int]));
            assert(!all_digits(s@));
            return None;
        }
        let d: u64 = (c as u32 - 48) as u64;
        assert(d == digit_val(s@[i as int]));
        let wide: u128 = (val as u128) * 10 + (d as u128);
        proof {
            lemma_dec_value_step(s@, i as int);
        }
        if wide > u64::MAX as u128 {
            proof {
                if all_digits(s@) {
                    lemma_dec_value_grows(s@, i + 1);
                }
            }
            return None;
        }
        val = wide as u64;
        i += 1;
    }
    assert(s@.take(n as int) =~= s@);
    Some(val)
}

/// One decimal digit as text.
fn digit_str(d: u64) -> (r: &'static str)
    requires
        d <= 9,
    ensures
        r@ == seq![digit_char(d as int)],
{
    proof {
        reveal_strlit("0");
        reveal_strlit("1");
        reveal_strlit("2");
        reveal_strlit("3");
        reveal_strlit("4");
        reveal_strlit("5");
        reveal_strlit("6");
        reveal_strlit("7");
        reveal_strlit("8");
        reveal_strlit("9");
    }
    let r = if d == 0 {
        "0"
    } else if d == 1 {
        "1"
    } else if d == 2 {
        "2"
    } else if d == 3 {
        "3"
    } else if d == 4 {
        "4"
    } else if d == 5 {
        "5"
    } else if d == 6 {
        "6"
    } else if d == 7 {
        "7"
    } else if d == 8 {
        "8"
    } else {
        "9"
    };
    assert(r@ =~= seq![digit_char(d as int)]);
    r
}

/// Renders a number as its canonical decimal digits.
pub fn u64_to_dec(n: u64) -> (r: String)
    ensures
        r@ == dec_digits(n as nat),
    decreases n,
{
    if n <= 9 {
        let r = String::from_str(digit_str(n));
        assert(r@ =~= dec_digits(n as nat));
        r
    } else {
        let mut s = u64_to_dec(n / 10);
        s.append(digit_str(n % 10));
        proof {
            assert((n / 10) as nat == (n as nat) / 10);
            assert((n % 10) as nat == (n as nat) % 10);
            assert(s@ =~= dec_digits((n as nat) / 10).push(digit_char(((n as nat) % 10) as int)));
        }
        s
    }
}

/// Reading a rendered number back gives the number: the decimal rendering
/// and the decimal reading are inverse.
pub proof fn lemma_dec_round_trip(n: nat)
    ensures
        all_digits(dec_digits(n)),
        dec_digits(n).len() > 0,
        dec_value(dec_digits(n)) == n,
    decreases n,
{
    if n <= 9 {
        lemma_digit_char_val(n as int);
        assert(dec_digits(n) =~= seq![digit_char(n as int)]);
        assert(dec_digits(n).drop_last() =~= Seq::<char>::empty());
        assert(dec_digits(n).last() == digit_char(n as int));
        assert(dec_value(Seq::<char>::empty()) == 0);
        assert(dec_value(dec_digits(n)) == 0 * 10 + digit_val(digit_char(n as int)));
    } else {
        lemma_dec_round_trip(n / 10);
        lemma_digit_char_val((n % 10) as int);
        assert(dec_digits(n).drop_last() =~= dec_digits(n / 10));
        assert(dec_digits(n).last() == digit_char((n % 10) as int));
        assert(dec_value(dec_digits(n)) == dec_value(dec_digits(n / 10)) * 10 + digit_val(
            dec_digits(n).last(),
        ));
        vstd::arithmetic::div_mod::lemma_fundamental_div_mod(n as int, 10);
        assert(dec_value(dec_digits(n)) == n);
        assert forall|j: int| 0 <= j < dec_digits(n).len() implies is_digit(
            #[trigger] dec_digits(n)[j],
        ) by {
            if j < dec_digits(n).len() - 1 {
                assert(dec_digits(n)[j] == dec_digits(n / 10)[j]);
            }
        }
    }
}

/// The socket endpoint a session advertises routes back to that session:
/// the path part of its reload URL, `/{id}/ws`, parses to exactly that
/// session's socket route.
pub proof fn lemma_endpoint_routes_to_session(id: u64)
    ensures
        route_of(seq!['/'] + dec_digits(id as nat) + "/ws"@) == Some::<RouteSpec>(
            RouteSpec::SocketRoute(id),
        ),
{
    reveal_strlit("/ws");
    reveal_strlit("ws");
    assert("/ws"@ =~= seq!['/', 'w', 's']);
    assert("ws"@ =~= seq!['w', 's']);
    lemma_dec_round_trip(id as nat);
    let ds = dec_digits(id as nat);
    let p = seq!['/'] + ds + "/ws"@;
    assert(p[0] == '/');
    let rest = p.skip(1);
    assert(rest =~= ds + "/ws"@);
    let i = ds.len() as int;
    assert(rest[i] == '/');
    assert forall|j: int| 0 <= j < i implies rest[j] != '/' by {
        assert(rest[j] == ds[j]);
        assert(is_digit(ds[j]));
    }
    assert(first_slash_at(rest, i));
    let picked = choose|x: int| first_slash_at(rest, x);
    if picked < i {
        assert(rest[picked] == '/');
        assert(is_digit(ds[picked]));
        assert(false);
    }
    if picked > i {
        assert(rest[i] != '/');
        assert(false);
    }
    assert(rest.take(i) =~= ds);
    assert(rest.skip(i + 1) =~= "ws"@);
    assert(dec_value(ds) == id);
}

/// Exact textual equality of two strings.
fn str_eq_str(a: &str, b: &str) -> (r: bool)
    ensures
        r == (a@ == b@),
{
    let n = a.unicode_len();
    if n != b.unicode_len() {
        return false;
    }
    let mut i: usize = 0;
    while i < n
        invariant
            n == a@.len(),
            n == b@.len(),
            0 <= i <= n,
            forall|j: int| 0 <= j < i ==> a@[j] == b@[j],
        decreases n - i,
    {
        if a.get_char(i) != b.get_char(i) {
            assert(a@[i as int] != b@[i as int]);
            return false;
        }
        i += 1;
    }
    assert(a@ =~= b@);
    true
}

/// Whether `s` begins with `prefix`, character for character.
fn str_starts_with(s: &str, prefix: &str) -> (r: bool)
    ensures
        r == (s@.len() >= prefix@.len() && s@.take(prefix@.len() as int) == prefix@),
{
    let m = prefix.unicode_len();
    let n = s.unicode_len();
    if n < m {
        return false;
    }
    let mut i: usize = 0;
    while i < m
        invariant
            m == prefix@.len(),
            n == s@.len(),
            m <= n,
            0 <= i <= m,
            forall|j: int| 0 <= j < i ==> s@[j] == prefix@[j],
        decreases m - i,
    {
        if s.get_char(i) != prefix.get_char(i) {
            assert(s@.take(m as int)[i as int] != prefix@[i as int]);
            return false;
        }
        i += 1;
    }
    assert(s@.take(m as int) =~= prefix@);
    true
}

/// A parsed route: which session, and which of the two route kinds.
pub enum RouteKind {
    /// Serve a file: the URL-encoded tail under the session's output root.
    Static(String),
    /// Upgrade to the session's reload socket.
    Socket,
}

/// One parsed request.
pub struct RouteRequest {
    /// The session the request addresses.
    pub session: u64,
    /// Static file or reload socket.
    pub kind: RouteKind,
}

/// The ghost shape of a parsed route.
pub enum RouteSpec {
    /// Session id and tail of a static-file request.
    StaticRoute(u64, Seq<char>),
    /// Session id of a socket request.
    SocketRoute(u64),
}

/// Position `i` holds the first '/' of `s`.
pub open spec fn first_slash_at(s: Seq<char>, i: int) -> bool {
    0 <= i < s.len() && s[i] == '/' && (forall|j: int| 0 <= j < i ==> s[j] != '/')
}

/// What a request path parses to: a leading '/', then the digits of a
/// session id up to the next '/', then either exactly `ws`, or `static`
/// with everything after `static/` as the tail (empty when nothing
/// follows `static`). Any other shape is no route.
pub open spec fn route_of(p: Seq<char>) -> Option<RouteSpec> {
    if p.len() == 0 || p[0] != '/' {
        None
    } else {
        let rest = p.skip(1);
        if exists|i: int| first_slash_at(rest, i) {
            let i = choose|i: int| first_slash_at(rest, i);
            let idpart = rest.take(i);
            let after = rest.skip(i + 1);
            if idpart.len() > 0 && all_digits(idpart) && dec_value(idpart) <= u64::MAX {
                let id = dec_value(idpart) as u64;
                if after == "ws"@ {
                    Some(RouteSpec::SocketRoute(id))
                } else if after == "static"@ {
                    Some(RouteSpec::StaticRoute(id, Seq::empty()))
                } else if after.len() >= 7 && after.take(7) == "static/"@ {
                    Some(RouteSpec::StaticRoute(id, after.skip(7)))
                } else {
                    None
                }
            } else {
                None
            }
        } else {
            None
        }
    }
}

/// Parses one request path. The result is fully determined by
/// [`route_of`]: no other path shape is ever accepted, and an id that is
/// not plain digits within width is no route.
pub fn parse_route(path: &str) -> (r: Option<RouteRequest>)
    ensures
        r is None <==> route_of(path@) is None,
        r matches Some(req) ==> (match req.kind {
            RouteKind::Socket => route_of(path@) == Some(RouteSpec::SocketRoute(req.session)),
            RouteKind::Static(tail) => route_of(path@) == Some(
                RouteSpec::StaticRoute(req.session, tail@),
            ),
        }),
{
    let n = path.unicode_len();
    if n == 0 {
        return None;
    }
    if path.get_char(0) != '/' {
        return None;
    }
    let ghost rest = path@.skip(1);
    // find the slash that ends the id part
    let mut k: usize = 1;
    while k < n && path.get_char(k) != '/'
        invariant
            n == path@.len(),
            1 <= k <= n,
            rest == path@.skip(1),
            forall|j: int| 1 <= j < k ==> path@[j] != '/',
        decreases n - k,
    {
        k += 1;
    }
    if k == n {
        proof {
            assert forall|i: int| !first_slash_at(rest, i) by {
                if 0 <= i < rest.len() {
                    assert(rest[i] == path@[i + 1]);
                }
            }
        }
        return None;
    }
    let ghost i: int = k - 1;
    proof {
        assert(rest[i] == path@[k as int]);
        assert forall|j: int| 0 <= j < i implies rest[j] != '/' by {
            assert(rest[j] == path@[j + 1]);
        }
        assert(first_slash_at(rest, i));
        let picked = choose|x: int| first_slash_at(rest, x);
        if picked < i {
            assert(rest[picked] == '/');
            assert(rest[picked] == path@[picked + 1]);
            assert(false);
        }
        if picked > i {
            assert(rest[i] != '/');
            assert(false);
        }
    }
    let idpart = path.substring_char(1, k);
    proof {
        assert(idpart@ =~= rest.take(i));
    }
    let id = match parse_u64(idpart) {
        Some(v) => v,
        None => {
            return None;
        },
    };
    let after = path.substring_char(k + 1, n);
    proof {
        assert(after@ =~= rest.skip(i + 1));
    }
    if str_eq_str(after, "ws") {
        return Some(RouteRequest { session: id, kind: RouteKind::Socket });
    }
    if str_eq_str(after, "static") {
        let tail = String::new();
        assert(tail@ =~= Seq::<char>::empty());
        return Some(RouteRequest { session: id, kind: RouteKind::Static(tail) });
    }
    proof {
        reveal_strlit("static/");
    }
    if str_starts_with(after, "static/") {
        let tail = after.substring_char(7, after.unicode_len());
        proof {
            assert(tail@ =~= after@.skip(7));
        }
        return Some(
            RouteRequest { session: id, kind: RouteKind::Static(String::from_str(tail)) },
        );
    }
    None
}

} // verus!
