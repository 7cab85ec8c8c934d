//! The tunnel supervisor's logic: where the tunnel binary is looked for, and
//! how its public URL is picked out of its log lines.
use vstd::prelude::*;
use crate::text::{chars_of, string_of};
use crate::tmux::{contains_name, names};

verus! {

/// The scheme every public tunnel URL starts with.
pub const URL_SCHEME: &'static str = "https://";

/// How the host of a quick-tunnel URL ends.
pub const TUNNEL_DOMAIN: &'static str = ".trycloudflare.com";

/// The characters with the Unicode `White_Space` property, which is what
/// `char::is_whitespace` tests: U+0009..U+000D, U+0020, U+0085, U+00A0,
/// U+1680, U+2000..U+200A, U+2028, U+2029, U+202F, U+205F and U+3000.
pub open spec fn unicode_whitespace(c: char) -> bool {
    let u = c as u32;
    (0x09 <= u && u <= 0x0d) || u == 0x20 || u == 0x85 || u == 0xa0 || u == 0x1680 || (0x2000 <= u
        && u <= 0x200a) || u == 0x2028 || u == 0x2029 || u == 0x202f || u == 0x205f || u == 0x3000
}

fn is_space(c: char) -> (r: bool)
    ensures
        r == unicode_whitespace(c),
{
    let u = c as u32;
    (0x09 <= u && u <= 0x0d) || u == 0x20 || u == 0x85 || u == 0xa0 || u == 0x1680 || (0x2000 <= u
        && u <= 0x200a) || u == 0x2028 || u == 0x2029 || u == 0x202f || u == 0x205f || u == 0x3000
}

/// `s[i..j]` is a word: a maximal non-empty run of non-whitespace characters.
pub open spec fn word_at(s: Seq<char>, i: int, j: int) -> bool {
    &&& 0 <= i < j <= s.len()
    &&& (i == 0 || unicode_whitespace(s[i - 1]))
    &&& (j == s.len() || unicode_whitespace(s[j]))
    &&& forall|k: int| i <= k < j ==> !unicode_whitespace(#[trigger] s[k])
}

/// `p` occurs in `w` at position `at`.
pub open spec fn occurs_at(w: Seq<char>, p: Seq<char>, at: int) -> bool {
    0 <= at && at + p.len() <= w.len() && w.subrange(at, at + p.len()) == p
}

/// A public tunnel URL, `https://*.trycloudflare.com`: it starts with
/// `https://` and, after that, ends with `.trycloudflare.com`.
pub open spec fn is_tunnel_url(w: Seq<char>) -> bool {
    &&& w.len() >= URL_SCHEME@.len() + TUNNEL_DOMAIN@.len()
    &&& occurs_at(w, URL_SCHEME@, 0)
    &&& occurs_at(w, TUNNEL_DOMAIN@, w.len() - TUNNEL_DOMAIN@.len())
}

/// The first word of `s` that is a tunnel URL starts at `i` and ends at `j`.
pub open spec fn first_url_word(s: Seq<char>, i: int, j: int) -> bool {
    &&& word_at(s, i, j)
    &&& is_tunnel_url(s.subrange(i, j))
    &&& forall|i2: int, j2: int|
        word_at(s, i2, j2) && i2 < i ==> !is_tunnel_url(#[trigger] s.subrange(i2, j2))
}

fn occurs_in(v: &Vec<char>, lo: usize, hi: usize, p: &Vec<char>, at: usize) -> (r: bool)
    requires
        lo <= at <= hi,
        hi <= v@.len(),
    ensures
        r == occurs_at(v@.subrange(lo as int, hi as int), p@, at - lo),
{
    if p.len() > hi - at {
        return false;
    }
    let mut k: usize = 0;
    while k < p.len()
        invariant
            lo <= at,
            hi <= v@.len(),
            at + p@.len() <= hi,
            k <= p@.len(),
            forall|m: int| 0 <= m < k ==> v@[at + m] == p@[m],
        decreases p.len() - k,
    {
        if v[at + k] != p[k] {
            proof {
                let w = v@.subrange(lo as int, hi as int);
                assert(w.subrange(at - lo, at - lo + p@.len())[k as int] != p@[k as int]);
            }
            return false;
        }
        k += 1;
    }
    proof {
        let w = v@.subrange(lo as int, hi as int);
        assert(w.subrange(at - lo, at - lo + p@.len()) =~= p@);
    }
    true
}

fn is_url_word(v: &Vec<char>, lo: usize, hi: usize, scheme: &Vec<char>, domain: &Vec<char>) -> (r:
    bool)
    requires
        lo <= hi <= v@.len(),
        scheme@ == URL_SCHEME@,
        domain@ == TUNNEL_DOMAIN@,
    ensures
        r == is_tunnel_url(v@.subrange(lo as int, hi as int)),
{
    if hi - lo < scheme.len() || hi - lo - scheme.len() < domain.len() {
        return false;
    }
    occurs_in(v, lo, hi, scheme, lo) && occurs_in(v, lo, hi, domain, hi - domain.len())
}

/// Picks the public tunnel URL out of a log line of the tunnel: the first
/// whitespace-separated word of the form `https://*.trycloudflare.com`.
pub fn extract_tunnel_url(line: &str) -> (r: Option<String>)
    ensures
        r matches Some(u) ==> exists|i: int, j: int|
            first_url_word(line@, i, j) && u@ == #[trigger] line@.subrange(i, j),
        r is None ==> forall|i: int, j: int|
            word_at(line@, i, j) ==> !is_tunnel_url(#[trigger] line@.subrange(i, j)),
{
    let v = chars_of(line);
    let scheme = chars_of(URL_SCHEME);
    let domain = chars_of(TUNNEL_DOMAIN);
    let n = v.len();
    let mut k: usize = 0;
    while k < n
        invariant
            v@ == line@,
            n == v@.len(),
            scheme@ == URL_SCHEME@,
            domain@ == TUNNEL_DOMAIN@,
            k <= n,
            k == 0 || k == n || unicode_whitespace(v@[k - 1]) || unicode_whitespace(v@[k as int]),
            forall|i: int, j: int|
                word_at(v@, i, j) && i < k ==> !is_tunnel_url(#[trigger] v@.subrange(i, j)),
        decreases n - k,
    {
        if is_space(v[k]) {
            proof {
                assert forall|i: int, j: int|
                    word_at(v@, i, j) && i < k + 1 implies !is_tunnel_url(
                    #[trigger] v@.subrange(i, j),
                ) by {
                    if i == k {
                        assert(!unicode_whitespace(v@[i]));
                    }
                }
            }
            k += 1;
        } else {
            let start = k;
            let mut e = k + 1;
            while e < n && !is_space(v[e])
                invariant
                    v@ == line@,
                    n == v@.len(),
                    start < e <= n,
                    forall|m: int| start <= m < e ==> !unicode_whitespace(#[trigger] v@[m]),
                decreases n - e,
            {
                e += 1;
            }
            assert(start == 0 || unicode_whitespace(v@[start - 1]));
            assert(word_at(v@, start as int, e as int));
            let found = is_url_word(&v, start, e, &scheme, &domain);
            if found {
                let u = string_of(vstd::slice::slice_subrange(v.as_slice(), start, e));
                proof {
                    assert(first_url_word(v@, start as int, e as int));
                }
                return Some(u);
            }
            proof {
                assert forall|i: int, j: int|
                    word_at(v@, i, j) && i < e implies !is_tunnel_url(#[trigger] v@.subrange(i, j)) by {
                    if i == start {
                        if j < e {
                            assert(!unicode_whitespace(v@[j]));
                        } else if j > e {
                            assert(!unicode_whitespace(v@[e as int]));
                        }
                    } else if start < i && i < e {
                        assert(!unicode_whitespace(v@[i - 1]));
                    }
                }
            }
            k = e;
        }
    }
    None
}

/// Remembers every URL reported, so that each is reported once.
pub struct TunnelWatcher {
    pub reported: Vec<String>,
}

impl TunnelWatcher {
    pub fn new() -> (r: Self)
        ensures
            r.reported@.len() == 0,
    {
        TunnelWatcher { reported: Vec::new() }
    }

    /// Reads one log line of the tunnel. The line's URL is reported where it
    /// has one that was never reported before.
    pub fn observe(&mut self, line: &str) -> (r: Option<String>)
        ensures
            r matches Some(u) ==> (exists|i: int, j: int|
                first_url_word(line@, i, j) && u@ == #[trigger] line@.subrange(i, j))
                && !names(old(self).reported@).contains(u@) && names(final(self).reported@)
                == names(old(self).reported@).push(u@),
            r is None ==> names(final(self).reported@) == names(old(self).reported@) && ((forall|
                i: int,
                j: int,
            | word_at(line@, i, j) ==> !is_tunnel_url(#[trigger] line@.subrange(i, j))) || (
            exists|i: int, j: int|
                first_url_word(line@, i, j) && names(old(self).reported@).contains(
                    #[trigger] line@.subrange(i, j),
                ))),
    {
        match extract_tunnel_url(line) {
            None => None,
            Some(u) => {
                if contains_name(&self.reported, &u) {
                    None
                } else {
                    let ghost before = names(self.reported@);
                    self.reported.push(u.clone());
                    proof {
                        assert(names(self.reported@) =~= before.push(u@));
                    }
                    Some(u)
                }
            },
        }
    }
}

/// Relies on `std::path::Path::exists`: whether something is at that path
/// now; the answer depends on the file system, so nothing is promised of it.
#[verifier::external_body]
fn path_exists(path: &str) -> bool {
    std::path::Path::new(path).exists()
}

/// The Homebrew location of the tunnel binary on Apple silicon.
pub const HOMEBREW_TUNNEL_PATH: &'static str = "/opt/homebrew/bin/cloudflared";

/// The conventional local location of the tunnel binary.
pub const LOCAL_TUNNEL_PATH: &'static str = "/usr/local/bin/cloudflared";

/// The bare name, looked up in `PATH`.
pub const TUNNEL_BINARY: &'static str = "cloudflared";

/// The tunnel binary to run, given which of the two known locations hold one:
/// the Homebrew one first, then the local one, else the bare name.
pub fn choose_tunnel_binary(homebrew_present: bool, local_present: bool) -> (r: String)
    ensures
        homebrew_present ==> r@ == HOMEBREW_TUNNEL_PATH@,
        !homebrew_present && local_present ==> r@ == LOCAL_TUNNEL_PATH@,
        !homebrew_present && !local_present ==> r@ == TUNNEL_BINARY@,
{
    if homebrew_present {
        HOMEBREW_TUNNEL_PATH.to_owned()
    } else if local_present {
        LOCAL_TUNNEL_PATH.to_owned()
    } else {
        TUNNEL_BINARY.to_owned()
    }
}

/// Finds the tunnel binary: `/opt/homebrew/bin`, then `/usr/local/bin`, then `PATH`.
pub fn find_cloudflared() -> (r: String)
    ensures
        r@ == HOMEBREW_TUNNEL_PATH@ || r@ == LOCAL_TUNNEL_PATH@ || r@ == TUNNEL_BINARY@,
{
    if path_exists(HOMEBREW_TUNNEL_PATH) {
        choose_tunnel_binary(true, false)
    } else {
        choose_tunnel_binary(false, path_exists(LOCAL_TUNNEL_PATH))
    }
}

} // verus!
