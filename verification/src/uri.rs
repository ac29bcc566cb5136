//! Rewriting URIs for a containerized deployment: every occurrence of the
//! localhost alias is replaced by the host gateway.

use vstd::prelude::*;
use crate::status::{Status, StatusCode};
use crate::text::join2;

verus! {

/// `s` with `to` before each of its characters and at its end (what replacing
/// the empty pattern gives).
pub open spec fn replace_empty_pattern(s: Seq<char>, to: Seq<char>) -> Seq<char>
    decreases s.len(),
{
    if s.len() == 0 {
        to
    } else {
        to + seq![s[0]] + replace_empty_pattern(s.skip(1), to)
    }
}

/// `s` with every occurrence of the non-empty `from`, found left to right
/// without overlap, replaced by `to`.
pub open spec fn replace_pattern(s: Seq<char>, from: Seq<char>, to: Seq<char>) -> Seq<char>
    decreases s.len(),
{
    if from.len() == 0 || s.len() == 0 {
        s
    } else if s.len() >= from.len() && s.take(from.len() as int) == from {
        to + replace_pattern(s.skip(from.len() as int), from, to)
    } else {
        seq![s[0]] + replace_pattern(s.skip(1), from, to)
    }
}

/// What `str::replace(s, from, to)` gives.
pub open spec fn spec_replace(s: Seq<char>, from: Seq<char>, to: Seq<char>) -> Seq<char> {
    if from.len() == 0 { replace_empty_pattern(s, to) } else { replace_pattern(s, from, to) }
}

/// Replace every occurrence of `from` in `s` by `to`, left to right.
///
/// # Arguments
/// * `s` - The text.
/// * `from` - The pattern.
/// * `to` - The replacement.
pub fn replace(s: &str, from: &str, to: &str) -> (r: String)
    ensures
        r@ == spec_replace(s@, from@, to@),
{
    let n = s.unicode_len();
    let m = from.unicode_len();
    let mut result = String::new();
    let mut i: usize = 0;
    proof {
        assert(s@.skip(0) =~= s@);
        assert(result@ + replace_empty_pattern(s@, to@) =~= replace_empty_pattern(s@, to@));
        assert(result@ + replace_pattern(s@, from@, to@) =~= replace_pattern(s@, from@, to@));
    }
    if m == 0 {
        while i < n
            invariant
                n == s@.len(),
                i <= n,
                result@ + replace_empty_pattern(s@.skip(i as int), to@) == replace_empty_pattern(s@, to@),
            decreases n - i,
        {
            let piece = s.substring_char(i, i + 1);
            proof {
                let rest = s@.skip(i as int);
                assert(rest.skip(1) =~= s@.skip(i + 1));
                assert(seq![rest[0]] =~= piece@);
                assert(result@ + to@ + piece@ + replace_empty_pattern(s@.skip(i + 1), to@)
                    == result@ + replace_empty_pattern(rest, to@));
            }
            result.append(to);
            result.append(piece);
            i = i + 1;
        }
        proof {
            assert(s@.skip(n as int) =~= Seq::<char>::empty());
        }
        result.append(to);
        return result;
    }
    let pattern = String::from_str(from);
    while i < n
        invariant
            n == s@.len(),
            m == from@.len(),
            m > 0,
            pattern@ == from@,
            i <= n,
            result@ + replace_pattern(s@.skip(i as int), from@, to@) == replace_pattern(s@, from@, to@),
        decreases n - i,
    {
        let rest = Ghost(s@.skip(i as int));
        if n - i >= m && String::from_str(s.substring_char(i, i + m)) == pattern {
            proof {
                assert(rest@.take(m as int) =~= s@.subrange(i as int, i + m));
                assert(rest@.skip(m as int) =~= s@.skip(i + m));
                assert(result@ + to@ + replace_pattern(s@.skip(i + m), from@, to@)
                    == result@ + replace_pattern(rest@, from@, to@));
            }
            result.append(to);
            i = i + m;
        } else {
            let piece = s.substring_char(i, i + 1);
            proof {
                if rest@.len() >= m {
                    assert(rest@.take(m as int) =~= s@.subrange(i as int, i + m));
                }
                assert(rest@.skip(1) =~= s@.skip(i + 1));
                assert(seq![rest@[0]] =~= piece@);
                assert(result@ + piece@ + replace_pattern(s@.skip(i + 1), from@, to@)
                    == result@ + replace_pattern(rest@, from@, to@));
            }
            result.append(piece);
            i = i + 1;
        }
    }
    proof {
        assert(s@.skip(n as int) =~= Seq::<char>::empty());
        assert(result@ + Seq::<char>::empty() =~= result@);
    }
    result
}

/// The environment variable that names the host gateway.
pub const HOST_GATEWAY_ENV_VAR: &'static str = "HOST_GATEWAY";
/// The environment variable that names the localhost alias.
pub const LOCALHOST_ALIAS_ENV_VAR: &'static str = "LOCALHOST_ALIAS";

/// The URI to use inside a container: the localhost alias is replaced by the
/// host gateway. Each setting is the value of its environment variable, or the
/// reason it could not be read.
///
/// # Arguments
/// * `uri` - The uri to modify.
/// * `host_gateway` - The `HOST_GATEWAY` environment variable.
/// * `host_alias` - The `LOCALHOST_ALIAS` environment variable.
pub fn get_uri_in_container(
    uri: &str,
    host_gateway: Result<String, String>,
    host_alias: Result<String, String>,
) -> (r: Result<String, Status>)
    ensures
        host_gateway matches Err(e) ==> (r matches Err(s) && s.code == StatusCode::FailedPrecondition
            && s.message@ == "Unable to get environment var 'HOST_GATEWAY' with error: "@ + e@),
        host_gateway is Ok ==> (host_alias matches Err(e) ==> (r matches Err(s) && s.code == StatusCode::FailedPrecondition
            && s.message@ == "Unable to get environment var 'LOCALHOST_ALIAS' with error: "@ + e@)),
        host_gateway matches Ok(gateway) ==> (host_alias matches Ok(alias) ==> (r matches Ok(u)
            && u@ == spec_replace(uri@, alias@, gateway@))),
{
    let gateway = match host_gateway {
        Ok(g) => g,
        Err(e) => {
            return Err(Status::failed_precondition(join2("Unable to get environment var 'HOST_GATEWAY' with error: ", e.as_str())));
        },
    };
    let alias = match host_alias {
        Ok(a) => a,
        Err(e) => {
            return Err(Status::failed_precondition(join2("Unable to get environment var 'LOCALHOST_ALIAS' with error: ", e.as_str())));
        },
    };
    Ok(replace(uri, alias.as_str(), gateway.as_str()))
}

/// `from` occurs in `s` at some position.
pub open spec fn occurs_in(s: Seq<char>, from: Seq<char>) -> bool {
    exists|i: int| 0 <= i && i + from.len() <= s.len() && #[trigger] s.subrange(i, i + from.len()) == from
}

/// Does `pattern` occur in `s`?
///
/// # Arguments
/// * `s` - The text.
/// * `pattern` - The pattern.
pub fn contains_text(s: &str, pattern: &str) -> (r: bool)
    ensures
        r == occurs_in(s@, pattern@),
{
    let n = s.unicode_len();
    let m = pattern.unicode_len();
    if m > n {
        return false;
    }
    let p = String::from_str(pattern);
    let last = n - m;
    let mut i: usize = 0;
    loop
        invariant
            n == s@.len(),
            m == pattern@.len(),
            last == n - m,
            p@ == pattern@,
            i <= last,
            forall|k: int| 0 <= k < i ==> #[trigger] s@.subrange(k, k + m) != pattern@,
        decreases last - i,
    {
        if String::from_str(s.substring_char(i, i + m)) == p {
            assert(s@.subrange(i as int, i + m) == pattern@);
            return true;
        }
        if i == last {
            return false;
        }
        i = i + 1;
    }
}

/// A URI in which the localhost alias does not occur is left as it is.
pub proof fn lemma_replace_without_occurrence(s: Seq<char>, from: Seq<char>, to: Seq<char>)
    requires
        from.len() > 0,
        !occurs_in(s, from),
    ensures
        spec_replace(s, from, to) == s,
    decreases s.len(),
{
    if s.len() > 0 {
        if s.len() >= from.len() {
            assert(s.subrange(0, from.len() as int) == s.take(from.len() as int));
            assert(s.subrange(0, 0 + from.len() as int) != from);
        }
        let rest = s.skip(1);
        assert(!occurs_in(rest, from)) by {
            if occurs_in(rest, from) {
                let i = choose|i: int| 0 <= i && i + from.len() <= rest.len() && #[trigger] rest.subrange(i, i + from.len()) == from;
                assert(s.subrange(i + 1, i + 1 + from.len()) =~= rest.subrange(i, i + from.len()));
            }
        }
        lemma_replace_without_occurrence(rest, from, to);
        assert(seq![s[0]] + rest =~= s);
    }
}

} // verus!
