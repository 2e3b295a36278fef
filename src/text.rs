//! Text pieces of a URL: decimal integers and `key=value` query pairs.

use vstd::prelude::*;
use vstd::string::{StrSliceExecFns, StringExecFns};

verus! {

/// The characters of the ten decimal digits, in order.
pub open spec fn digit_chars() -> Seq<char> {
    seq!['0', '1', '2', '3', '4', '5', '6', '7', '8', '9']
}

/// The decimal digits of a natural number, most significant first.
pub open spec fn digits(n: nat) -> Seq<char>
    decreases n,
{
    if n < 10 {
        seq![digit_chars()[n as int]]
    } else {
        digits(n / 10).push(digit_chars()[(n % 10) as int])
    }
}

/// The decimal text of an integer, with a leading `-` when it is negative.
pub open spec fn decimal(v: int) -> Seq<char> {
    if v < 0 {
        seq!['-'] + digits((-v) as nat)
    } else {
        digits(v as nat)
    }
}

fn digit_str(d: u64) -> (r: &'static str)
    requires
        d < 10,
    ensures
        r@ == seq![digit_chars()[d as int]],
{
    proof {
        reveal_strlit("0");
        reveal_strlit("1");
        reveal_strlit("2");
        reveal_strlit("3");
        reveal_strlit("4");
        reveal_strlit("5");
        reveal_strlit("6");
        reveal_strlit("7");
        reveal_strlit("8");
        reveal_strlit("9");
    }
    if d == 0 {
        "0"
    } else if d == 1 {
        "1"
    } else if d == 2 {
        "2"
    } else if d == 3 {
        "3"
    } else if d == 4 {
        "4"
    } else if d == 5 {
        "5"
    } else if d == 6 {
        "6"
    } else if d == 7 {
        "7"
    } else if d == 8 {
        "8"
    } else {
        "9"
    }
}

fn append_digits(out: &mut String, n: u64)
    ensures
        final(out)@ == old(out)@ + digits(n as nat),
    decreases n,
{
    if n >= 10 {
        append_digits(out, n / 10);
    }
    out.append(digit_str(n % 10));
    proof {
        if n >= 10 {
            assert(old(out)@ + digits((n / 10) as nat) + seq![digit_chars()[(n % 10) as int]]
                =~= old(out)@ + digits(n as nat));
        } else {
            assert(n % 10 == n);
        }
    }
}

/// Appends the decimal text of the unsigned `v` to `out`.
pub fn append_unsigned(out: &mut String, v: u64)
    ensures
        final(out)@ == old(out)@ + decimal(v as int),
{
    append_digits(out, v);
}

/// Appends the decimal text of `v` to `out`.
pub fn append_decimal(out: &mut String, v: i32)
    ensures
        final(out)@ == old(out)@ + decimal(v as int),
{
    if v < 0 {
        proof {
            reveal_strlit("-");
        }
        out.append("-");
        let m: i64 = -(v as i64);
        append_digits(out, m as u64);
        assert(out@ =~= old(out)@ + decimal(v as int)) by {
            assert(old(out)@ + seq!['-'] + digits((-v) as nat) =~= old(out)@ + (seq!['-'] + digits(
                (-v) as nat,
            )));
        }
    } else {
        append_digits(out, v as u64);
    }
}

/// What form-urlencoding makes of a text: the encoding that serde_url_params
/// applies to every string value.
pub uninterp spec fn form_encoded(s: Seq<char>) -> Seq<char>;

#[verifier::external_type_specification]
#[verifier::external_body]
pub struct ExUrlParamsError(serde_url_params::Error);

/// Relies on serde_url_params::to_string: a map of one string key to one
/// string value is written as the key as it is, `=`, and the value
/// form-urlencoded. On that input no step of the serializer fails: the key
/// goes through its string-only key serializer, the value through
/// `serialize_str`, the writer is a `Vec<u8>`, and the bytes are UTF-8.
#[verifier::external_body]
fn url_param(key: &str, value: &str) -> (r: Result<String, serde_url_params::Error>)
    ensures
        r is Ok,
        r is Ok ==> r->Ok_0@ == key@ + seq!['='] + form_encoded(value@),
{
    serde_url_params::to_string(&std::collections::BTreeMap::from([(key, value)]))
}

/// The text of the query pair `key=value` for a string value.
pub open spec fn str_pair(key: Seq<char>, value: Seq<char>) -> Seq<char> {
    key + seq!['='] + form_encoded(value)
}

/// The text of the query pair `key=value` for an integer value.
pub open spec fn int_pair(key: Seq<char>, value: int) -> Seq<char> {
    key + seq!['='] + decimal(value)
}

/// The pair for an optional string field: nothing when the field is absent.
pub open spec fn opt_str_pair(key: Seq<char>, value: Option<String>) -> Option<Seq<char>> {
    match value {
        Some(v) => Some(str_pair(key, v@)),
        None => None,
    }
}

/// The pair for an optional integer field: nothing when the field is absent.
pub open spec fn opt_int_pair(key: Seq<char>, value: Option<i32>) -> Option<Seq<char>> {
    match value {
        Some(v) => Some(int_pair(key, v as int)),
        None => None,
    }
}

/// Adds one optional pair to a query string: an absent pair leaves it as it
/// is, a present one is appended, after `&` unless the string is empty.
pub open spec fn join_step(acc: Seq<char>, part: Option<Seq<char>>) -> Seq<char> {
    match part {
        None => acc,
        Some(p) => if acc.len() == 0 {
            p
        } else {
            acc + seq!['&'] + p
        },
    }
}

/// The query string made of the present pairs, in order, joined by `&`.
pub open spec fn join_pairs(parts: Seq<Option<Seq<char>>>) -> Seq<char>
    decreases parts.len(),
{
    if parts.len() == 0 {
        Seq::empty()
    } else {
        join_step(join_pairs(parts.drop_last()), parts.last())
    }
}

/// Rendering one more pair takes one more step.
pub proof fn lemma_join_push(parts: Seq<Option<Seq<char>>>, part: Option<Seq<char>>)
    ensures
        join_pairs(parts.push(part)) == join_step(join_pairs(parts), part),
{
    assert(parts.push(part).drop_last() =~= parts);
}

/// The optional pair for a string field.
pub fn str_param(key: &str, value: &Option<String>) -> (r: Option<String>)
    ensures
        r.deep_view() == opt_str_pair(key@, *value),
{
    match value {
        Some(v) => match url_param(key, v.as_str()) {
            Ok(s) => Some(s),
            Err(_) => {
                proof {
                    assert(false);
                }
                None
            },
        },
        None => None,
    }
}

/// The optional pair for an integer field.
pub fn int_param(key: &str, value: Option<i32>) -> (r: Option<String>)
    ensures
        r.deep_view() == opt_int_pair(key@, value),
{
    match value {
        Some(v) => {
            let mut s = String::from_str(key);
            proof {
                reveal_strlit("=");
            }
            s.append("=");
            append_decimal(&mut s, v);
            Some(s)
        },
        None => None,
    }
}

/// Appends an optional pair to a query string under construction.
pub fn push_param(out: &mut String, part: Option<String>)
    ensures
        final(out)@ == join_step(old(out)@, part.deep_view()),
{
    match part {
        Some(p) => {
            if out.as_str().unicode_len() == 0 {
                *out = p;
            } else {
                proof {
                    reveal_strlit("&");
                }
                out.append("&");
                out.append(p.as_str());
            }
        },
        None => {},
    }
}

} // verus!
