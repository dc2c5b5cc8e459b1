//! The authorization check: the requester must be the project's managing user,
//! compared without regard to ASCII case.
use vstd::prelude::*;
use vstd::utf8::encode_utf8;

verus! {

/// The byte with ASCII upper-case letters mapped to lower case.
pub open spec fn ascii_lower(b: u8) -> u8 {
    if 65 <= b <= 90 {
        (b + 32) as u8
    } else {
        b
    }
}

/// Two byte strings are equal once ASCII letters are folded to lower case.
pub open spec fn bytes_match_ignoring_case(a: Seq<u8>, b: Seq<u8>) -> bool {
    &&& a.len() == b.len()
    &&& forall|i: int| 0 <= i < a.len() ==> ascii_lower(#[trigger] a[i]) == ascii_lower(b[i])
}

/// Two names denote the same user: their UTF-8 encodings match ignoring ASCII case.
pub open spec fn same_user(a: Seq<char>, b: Seq<char>) -> bool {
    bytes_match_ignoring_case(encode_utf8(a), encode_utf8(b))
}

/// Whether `candidate` may act for a project whose managing user is `manager`
/// (`None` when the project has no discoverable manager).
pub open spec fn authorized(manager: Option<Seq<char>>, candidate: Seq<char>) -> bool {
    match manager {
        Some(m) => same_user(m, candidate),
        None => false,
    }
}

fn lower_byte(b: u8) -> (r: u8)
    ensures
        r == ascii_lower(b),
{
    if 65 <= b && b <= 90 {
        b + 32
    } else {
        b
    }
}

/// Compares two names as `str::eq_ignore_ascii_case` does.
pub fn same_user_name(a: &str, b: &str) -> (r: bool)
    ensures
        r == same_user(a@, b@),
{
    let x = a.as_bytes();
    let y = b.as_bytes();
    if x.len() != y.len() {
        return false;
    }
    let mut i: usize = 0;
    while i < x.len()
        invariant
            x@ == encode_utf8(a@),
            y@ == encode_utf8(b@),
            x@.len() == y@.len(),
            0 <= i <= x@.len(),
            forall|j: int| 0 <= j < i ==> ascii_lower(#[trigger] x@[j]) == ascii_lower(y@[j]),
        decreases x@.len() - i,
    {
        if lower_byte(x[i]) != lower_byte(y[i]) {
            return false;
        }
        i = i + 1;
    }
    true
}

/// Decides the authorization check from the managing user found for the
/// project: a project without one authorizes nobody.
pub fn is_managing_user(manager: &Option<String>, candidate: &str) -> (r: bool)
    ensures
        r == authorized(
            match manager {
                Some(m) => Some(m@),
                None => None,
            },
            candidate@,
        ),
{
    match manager {
        Some(m) => same_user_name(m.as_str(), candidate),
        None => false,
    }
}

} // verus!
