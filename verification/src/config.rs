//! The environment the session's external tooling runs with, resolved
//! once as an explicit value — never by mutating process-global state.
//!
//! The host may hand over the text a login shell printed for its
//! environment; each `KEY=VALUE` line becomes one entry. When nothing
//! usable comes back, a fallback PATH is composed from the user's home
//! directory instead.

use vstd::prelude::*;
use vstd::string::StrSliceExecFns;
use vstd::string::StringExecFns;

verus! {

/// Position `i` holds the one and only '=' of `s`.
pub open spec fn single_eq_at(s: Seq<char>, i: int) -> bool {
    0 <= i < s.len() && s[i] == '=' && (forall|j: int|
        0 <= j < s.len() && j != i ==> s[j] != '=')
}

/// Reads one `KEY=VALUE` line: accepted exactly when the line holds one
/// single '=', which splits it; any other line carries nothing.
pub fn parse_env_line(line: &str) -> (r: Option<(String, String)>)
    ensures
        r matches Some(kv) ==> (exists|i: int|
            #[trigger] single_eq_at(line@, i) && kv.0@ == line@.take(i) && kv.1@ == line@.skip(
                i + 1,
            )),
        r is None ==> !(exists|i: int| single_eq_at(line@, i)),
{
    let n = line.unicode_len();
    let mut i: usize = 0;
    let mut first: Option<usize> = None;
    while i < n
        invariant
            n == line@.len(),
            0 <= i <= n,
            first matches Some(p) ==> (p < i && line@[p as int] == '=' && (forall|j: int|
                0 <= j < i && j != p ==> line@[j] != '=')),
            first is None ==> (forall|j: int| 0 <= j < i ==> line@[j] != '='),
        decreases n - i,
    {
        if line.get_char(i) == '=' {
            match first {
                None => {
                    first = Some(i);
                },
                Some(p) => {
                    proof {
                        assert forall|k: int| !single_eq_at(line@, k) by {
                            if single_eq_at(line@, k) {
                                if k == p as int {
                                    assert(line@[i as int] != '=');
                                } else {
                                    assert(line@[p as int] != '=');
                                }
                            }
                        }
                    }
                    return None;
                },
            }
        }
        i += 1;
    }
    match first {
        None => {
            proof {
                assert forall|k: int| !single_eq_at(line@, k) by {
                    if single_eq_at(line@, k) {
                        assert(line@[k] != '=');
                    }
                }
            }
            None
        },
        Some(p) => {
            let key = line.substring_char(0, p);
            let value = line.substring_char(p + 1, n);
            proof {
                assert(single_eq_at(line@, p as int));
                assert(key@ =~= line@.take(p as int));
                assert(value@ =~= line@.skip(p as int + 1));
            }
            Some((String::from_str(key), String::from_str(value)))
        },
    }
}

/// Composes the fallback PATH: the existing one, if any, with the user's
/// cargo binary directory behind it; that directory alone otherwise.
pub fn fallback_path(existing: Option<&String>, home: &str) -> (r: String)
    ensures
        existing matches Some(p) ==> r@ == p@ + ":"@ + home@ + "/.cargo/bin"@,
        existing is None ==> r@ == home@ + "/.cargo/bin"@,
{
    match existing {
        Some(p) => {
            let mut s = p.clone();
            s.append(":");
            s.append(home);
            s.append("/.cargo/bin");
            assert(s@ =~= p@ + ":"@ + home@ + "/.cargo/bin"@);
            s
        },
        None => {
            let mut s = String::from_str(home);
            s.append("/.cargo/bin");
            s
        },
    }
}

} // verus!
