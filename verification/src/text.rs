//! Text helpers reaching the standard library's string operations.

use vstd::prelude::*;
use vstd::string::StringExecFns;

verus! {

/// Calls `<str as PartialEq>::eq`: true exactly when the two texts are equal.
#[verifier::external_body]
pub(crate) fn text_eq(a: &str, b: &str) -> (r: bool)
    ensures
        r == (a@ == b@),
{
    a == b
}

/// The decimal value of a string of ASCII digits.
pub open spec fn digits_value(s: Seq<char>) -> int
    decreases s.len(),
{
    if s.len() == 0 {
        0
    } else {
        digits_value(s.drop_last()) * 10 + (s.last() as int - '0' as int)
    }
}

/// Every character is an ASCII digit.
pub open spec fn all_digits(s: Seq<char>) -> bool {
    forall|i: int| 0 <= i < s.len() ==> '0' <= #[trigger] s[i] <= '9'
}

/// How the standard library reads an unsigned integer no larger than `max`:
/// an optional `+`, then at least one ASCII digit and nothing else, the
/// value not above `max`.
pub open spec fn parse_unsigned_spec(s: Seq<char>, max: int) -> Option<int> {
    let body = if s.len() > 0 && s[0] == '+' { s.drop_first() } else { s };
    if body.len() > 0 && all_digits(body) && digits_value(body) <= max {
        Some(digits_value(body))
    } else {
        None
    }
}

/// Calls `<u64 as FromStr>::from_str` and keeps the value: an optional `+`
/// and ASCII digits of a value that fits.
#[verifier::external_body]
pub(crate) fn parse_u64(s: &str) -> (r: Option<u64>)
    ensures
        match parse_unsigned_spec(s@, u64::MAX as int) {
            Some(v) => r is Some && r->0 == v,
            None => r is None,
        },
{
    s.parse::<u64>().ok()
}

/// Calls `<usize as FromStr>::from_str` and keeps the value: an optional
/// `+` and ASCII digits of a value that fits.
#[verifier::external_body]
pub(crate) fn parse_usize(s: &str) -> (r: Option<usize>)
    ensures
        match parse_unsigned_spec(s@, usize::MAX as int) {
            Some(v) => r is Some && r->0 == v,
            None => r is None,
        },
{
    s.parse::<usize>().ok()
}

/// How the standard library reads a signed integer within `[min, max]`:
/// an optional `+` or `-`, then at least one ASCII digit and nothing else.
pub open spec fn parse_signed_spec(s: Seq<char>, min: int, max: int) -> Option<int> {
    let signed = s.len() > 0 && (s[0] == '+' || s[0] == '-');
    let body = if signed { s.drop_first() } else { s };
    let v = if s.len() > 0 && s[0] == '-' { -digits_value(body) } else { digits_value(body) };
    if body.len() > 0 && all_digits(body) && min <= v <= max {
        Some(v)
    } else {
        None
    }
}

/// Calls `<i64 as FromStr>::from_str` and keeps the value: an optional sign
/// and ASCII digits of a value that fits.
#[verifier::external_body]
pub(crate) fn parse_i64(s: &str) -> (r: Option<i64>)
    ensures
        match parse_signed_spec(s@, i64::MIN as int, i64::MAX as int) {
            Some(v) => r is Some && r->0 == v,
            None => r is None,
        },
{
    s.parse::<i64>().ok()
}

/// What `str::to_lowercase` returns for the given text.
pub uninterp spec fn lowercase(s: Seq<char>) -> Seq<char>;

/// Calls `str::to_lowercase`: the result is the standard library's
/// lower-case mapping of this text.
#[verifier::external_body]
pub(crate) fn to_lowercase(s: &str) -> (r: String)
    ensures
        r@ == lowercase(s@),
{
    s.to_lowercase()
}

/// `parts` joined with `sep` between neighbours.
pub open spec fn join_spec(parts: Seq<Seq<char>>, sep: Seq<char>) -> Seq<char>
    decreases parts.len(),
{
    if parts.len() == 0 {
        Seq::empty()
    } else if parts.len() == 1 {
        parts[0]
    } else {
        join_spec(parts.drop_last(), sep) + sep + parts.last()
    }
}

/// The texts of `v` joined with `sep`, as `[String]::join` builds them.
pub fn join(v: &Vec<String>, sep: &str) -> (r: String)
    ensures
        r@ == join_spec(v@.map_values(|x: String| x@), sep@),
{
    let ghost parts = v@.map_values(|x: String| x@);
    let mut out = String::new();
    let n = v.len();
    let mut i: usize = 0;
    proof {
        assert(parts.take(0) =~= Seq::<Seq<char>>::empty());
    }
    while i < n
        invariant
            n == v@.len(),
            i <= n,
            parts == v@.map_values(|x: String| x@),
            out@ == join_spec(parts.take(i as int), sep@),
        decreases n - i,
    {
        proof {
            assert(parts.take(i + 1).drop_last() =~= parts.take(i as int));
            assert(parts.take(i + 1).last() == v@[i as int]@);
        }
        if i > 0 {
            out.append(sep);
        } else {
            proof {
                assert(out@ =~= Seq::<char>::empty());
            }
        }
        out.append(v[i].as_str());
        proof {
            if i == 0 {
                assert(out@ =~= parts.take(1)[0]);
            }
        }
        i = i + 1;
    }
    proof {
        assert(parts.take(n as int) =~= parts);
    }
    out
}

} // verus!
