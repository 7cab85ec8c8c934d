//! Session codes: six characters drawn from an alphabet without look-alike
//! characters (no `0`, `O`, `1`, `I` or `L`).
use vstd::prelude::*;
use crate::text::{upper_seq, lower_seq, upper_char, lower_char, ascii_uppercase};

verus! {

/// Number of characters in a session code.
pub const CODE_LEN: usize = 6;

/// Number of characters in a browser id.
pub const BROWSER_ID_LEN: usize = 8;

/// The characters a session code may hold: `A`-`Z` and `2`-`9`, without `I`, `L`, `O`.
pub open spec fn is_code_char(c: char) -> bool {
    ('A' <= c && c <= 'Z' && c != 'I' && c != 'L' && c != 'O') || ('2' <= c && c <= '9')
}

/// A well-formed session code.
pub open spec fn is_code(s: Seq<char>) -> bool {
    s.len() == CODE_LEN && forall|i: int| 0 <= i < s.len() ==> is_code_char(#[trigger] s[i])
}

/// The characters of a browser id: `_`, `-`, `0`-`9`, `a`-`z`, `A`-`Z`.
pub open spec fn is_id_char(c: char) -> bool {
    c == '_' || c == '-' || ('0' <= c && c <= '9') || ('a' <= c && c <= 'z') || ('A' <= c && c <= 'Z')
}

pub open spec fn is_ascii_char(c: char) -> bool {
    (c as u32) < 128
}

/// The session code alphabet, in order.
pub fn code_alphabet() -> (r: Vec<char>)
    ensures
        r@.len() == 31,
        forall|i: int| 0 <= i < r@.len() ==> is_code_char(#[trigger] r@[i]),
        forall|c: char| is_code_char(c) ==> r@.contains(c),
{
    let r = vec![
        'A', 'B', 'C', 'D', 'E', 'F', 'G', 'H', 'J', 'K', 'M', 'N', 'P', 'Q', 'R', 'S', 'T',
        'U', 'V', 'W', 'X', 'Y', 'Z', '2', '3', '4', '5', '6', '7', '8', '9',
    ];
    assert forall|c: char| is_code_char(c) implies r@.contains(c) by {
        let k = c as u32;
        if 'A' <= c && c <= 'H' {
            assert(r@[(k - 65) as int] == c);
        } else if c == 'J' || c == 'K' {
            assert(r@[(k - 66) as int] == c);
        } else if c == 'M' || c == 'N' {
            assert(r@[(k - 67) as int] == c);
        } else if 'P' <= c && c <= 'Z' {
            assert(r@[(k - 68) as int] == c);
        } else {
            assert(r@[(k - 50 + 23) as int] == c);
        }
    }
    r
}

/// The browser id alphabet, in order.
pub fn id_alphabet() -> (r: Vec<char>)
    ensures
        r@.len() == 64,
        forall|i: int| 0 <= i < r@.len() ==> is_id_char(#[trigger] r@[i]),
{
    vec![
        '_', '-', '0', '1', '2', '3', '4', '5', '6', '7', '8', '9', 'a', 'b', 'c', 'd', 'e', 'f',
        'g', 'h', 'i', 'j', 'k', 'l', 'm', 'n', 'o', 'p', 'q', 'r', 's', 't', 'u', 'v', 'w', 'x',
        'y', 'z', 'A', 'B', 'C', 'D', 'E', 'F', 'G', 'H', 'I', 'J', 'K', 'L', 'M', 'N', 'O', 'P',
        'Q', 'R', 'S', 'T', 'U', 'V', 'W', 'X', 'Y', 'Z',
    ]
}

/// Relies on `nanoid::format`: it draws `size` characters, each an element of
/// `alphabet`, and stops when the string is `size` bytes long (here: `size`
/// characters, as every character of the alphabet is ASCII). It panics on an
/// alphabet longer than 255 and never returns on an empty one or on `size == 0`.
#[verifier::external_body]
fn random_string(alphabet: &[char], size: usize) -> (r: String)
    requires
        0 < alphabet@.len() <= 255,
        size > 0,
        forall|i: int| 0 <= i < alphabet@.len() ==> is_ascii_char(#[trigger] alphabet@[i]),
    ensures
        r@.len() == size,
        forall|i: int| 0 <= i < r@.len() ==> alphabet@.contains(#[trigger] r@[i]),
{
    nanoid::format(nanoid::rngs::default, alphabet, size)
}

/// Draws a fresh random session code.
pub fn generate_session_code() -> (r: String)
    ensures
        is_code(r@),
{
    let alphabet = code_alphabet();
    let r = random_string(alphabet.as_slice(), CODE_LEN);
    assert forall|i: int| 0 <= i < r@.len() implies is_code_char(#[trigger] r@[i]) by {
        let j = choose|j: int| 0 <= j < alphabet@.len() && alphabet@[j] == r@[i];
        assert(is_code_char(alphabet@[j]));
    }
    r
}

/// Draws a random browser id of eight characters.
pub fn generate_browser_id() -> (r: String)
    ensures
        r@.len() == BROWSER_ID_LEN,
        forall|i: int| 0 <= i < r@.len() ==> is_id_char(#[trigger] r@[i]),
{
    let alphabet = id_alphabet();
    let r = random_string(alphabet.as_slice(), BROWSER_ID_LEN);
    assert forall|i: int| 0 <= i < r@.len() implies is_id_char(#[trigger] r@[i]) by {
        let j = choose|j: int| 0 <= j < alphabet@.len() && alphabet@[j] == r@[i];
        assert(is_id_char(alphabet@[j]));
    }
    r
}

/// Length of a UUID in its hyphenated text form.
pub const UUID_TEXT_LEN: usize = 36;

/// Relies on `uuid::Uuid::new_v4` and its `Display`: a random version-4 UUID
/// written as 32 lower-case hex digits in five hyphen-separated groups.
#[verifier::external_body]
pub(crate) fn random_uuid() -> (r: String)
    ensures
        r@.len() == UUID_TEXT_LEN,
{
    uuid::Uuid::new_v4().to_string()
}

/// The form in which a submitted code is looked up: ASCII letters upper-cased.
pub open spec fn normalized(s: Seq<char>) -> Seq<char> {
    upper_seq(s)
}

/// Upper-cases a code submitted by a browser before it is looked up.
pub fn normalize_code(submitted: &str) -> (r: String)
    ensures
        r@ == normalized(submitted@),
{
    ascii_uppercase(submitted)
}

/// Whether `s` is a well-formed session code.
pub fn is_valid_code(s: &str) -> (r: bool)
    ensures
        r == is_code(s@),
{
    let v = crate::text::chars_of(s);
    if v.len() != CODE_LEN {
        return false;
    }
    let mut i: usize = 0;
    while i < v.len()
        invariant
            v@ == s@,
            v@.len() == CODE_LEN,
            i <= v.len(),
            forall|k: int| 0 <= k < i ==> is_code_char(#[trigger] v@[k]),
        decreases v.len() - i,
    {
        let c = v[i];
        let ok = ('A' <= c && c <= 'Z' && c != 'I' && c != 'L' && c != 'O') || ('2' <= c && c
            <= '9');
        if !ok {
            return false;
        }
        i += 1;
    }
    true
}

/// A code typed in lower case is looked up as the code itself: upper-casing
/// the lower-case form of a well-formed code gives the code back, and a
/// well-formed code is already in normal form.
pub proof fn lemma_code_case_insensitive(c: Seq<char>)
    requires
        is_code(c),
    ensures
        normalized(lower_seq(c)) == c,
        normalized(c) == c,
{
    assert forall|i: int| 0 <= i < c.len() implies upper_char(lower_char(#[trigger] c[i]))
        == c[i] && upper_char(c[i]) == c[i] by {
        assert(is_code_char(c[i]));
    }
    assert(normalized(lower_seq(c)) =~= c);
    assert(normalized(c) =~= c);
}

} // verus!
