//! Validation of user input: e-mail lists and commit hashes.

use vstd::prelude::*;
use crate::text::{chars_of, hex_digit, is_hex, split_chars, split_on, string_of, trim_chars, trimmed, views_of};

verus! {

/// Whether `email_address` accepts the text as an e-mail address.
pub uninterp spec fn email_valid(s: Seq<char>) -> bool;

/// Relies on `email_address::EmailAddress::is_valid`: whether the text parses
/// as an e-mail address.
#[verifier::external_body]
pub(crate) fn is_valid_email(s: &str) -> (r: bool)
    ensures
        r == email_valid(s@),
{
    email_address::EmailAddress::is_valid(s)
}

/// A comma-separated list in which every field is a non-empty valid address.
pub open spec fn valid_cc_list(s: Seq<char>) -> bool {
    forall|i: int|
        0 <= i < split_on(s, ',').len() ==> {
            let f = #[trigger] split_on(s, ',')[i];
            f.len() > 0 && email_valid(f)
        }
}

/// Checks a comma-separated list of e-mail addresses. The list is trimmed
/// first; it is accepted whole, or not at all.
pub fn sanitize_cc_list(input: &str) -> (r: Option<String>)
    ensures
        r is Some <==> valid_cc_list(trimmed(input@)),
        r matches Some(t) ==> t@ == trimmed(input@),
{
    let value = trim_chars(&chars_of(input));
    let fields = split_chars(&value, ',');
    let ghost f = views_of(fields@);
    let mut i: usize = 0;
    while i < fields.len()
        invariant
            0 <= i <= fields@.len(),
            f == views_of(fields@),
            f == split_on(value@, ','),
            value@ == trimmed(input@),
            forall|k: int| 0 <= k < i ==> #[trigger] f[k].len() > 0 && email_valid(f[k]),
        decreases fields@.len() - i,
    {
        assert(f[i as int] == fields@[i as int]@);
        if fields[i].len() == 0 {
            assert(split_on(value@, ',')[i as int].len() == 0);
            return None;
        }
        let field = string_of(fields[i].as_slice());
        if !is_valid_email(field.as_str()) {
            assert(!email_valid(split_on(value@, ',')[i as int]));
            return None;
        }
        i = i + 1;
    }
    Some(string_of(value.as_slice()))
}

/// Exactly forty hexadecimal digits, as a full commit hash is written.
pub open spec fn valid_commit_hash(s: Seq<char>) -> bool {
    s.len() == 40 && forall|i: int| 0 <= i < s.len() ==> is_hex(#[trigger] s[i])
}

/// Tests whether the text is a full commit hash.
pub fn commit_hash_valid(hash: &str) -> (r: bool)
    ensures
        r == valid_commit_hash(hash@),
{
    let c = chars_of(hash);
    if c.len() != 40 {
        return false;
    }
    let mut i: usize = 0;
    while i < c.len()
        invariant
            0 <= i <= c@.len(),
            c@ == hash@,
            forall|k: int| 0 <= k < i ==> is_hex(#[trigger] c@[k]),
        decreases c@.len() - i,
    {
        if !hex_digit(c[i]) {
            assert(!is_hex(hash@[i as int]));
            return false;
        }
        i = i + 1;
    }
    true
}

} // verus!
