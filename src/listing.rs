//! Reading the multiplexer's `list-sessions` output, one session per line in
//! the form `name|windows|created|attached`.
use vstd::prelude::*;
use crate::text::{chars_of, string_of};
use crate::tmux::TmuxSessionInfo;

verus! {

/// The pieces of `s` between occurrences of `sep` (always at least one).
pub open spec fn split_on(s: Seq<char>, sep: char) -> Seq<Seq<char>>
    decreases s.len(),
{
    if s.len() == 0 {
        seq![Seq::<char>::empty()]
    } else {
        let prev = split_on(s.drop_last(), sep);
        if s.last() == sep {
            prev.push(Seq::<char>::empty())
        } else {
            prev.update(prev.len() - 1, prev.last().push(s.last()))
        }
    }
}

pub proof fn lemma_split_nonempty(s: Seq<char>, sep: char)
    ensures
        split_on(s, sep).len() >= 1,
    decreases s.len(),
{
    if s.len() > 0 {
        lemma_split_nonempty(s.drop_last(), sep);
    }
}

/// A line without the `\r` of a `\r\n` ending.
pub open spec fn strip_cr(p: Seq<char>) -> Seq<char> {
    if p.len() > 0 && p.last() == '\r' {
        p.drop_last()
    } else {
        p
    }
}

/// The lines of `s` as `str::lines` gives them: split at `\n`, a `\r` before
/// the `\n` dropped, and no line after a final `\n`.
pub open spec fn lines_of(s: Seq<char>) -> Seq<Seq<char>> {
    let ps = split_on(s, '\n');
    let n = if ps.last().len() == 0 { ps.len() - 1 } else { ps.len() as int };
    Seq::new(n as nat, |i: int| if i < ps.len() - 1 { strip_cr(ps[i]) } else { ps[i] })
}

pub open spec fn is_digit(c: char) -> bool {
    '0' <= c && c <= '9'
}

/// The number a string of decimal digits writes.
pub open spec fn digits_value(s: Seq<char>) -> nat
    decreases s.len(),
{
    if s.len() == 0 {
        0
    } else {
        digits_value(s.drop_last()) * 10 + ((s.last() as u32) - ('0' as u32)) as nat
    }
}

/// The digits part of a number: the text without a leading `+`.
pub open spec fn unsigned_digits(s: Seq<char>) -> Seq<char> {
    if s.len() > 0 && s[0] == '+' {
        s.drop_first()
    } else {
        s
    }
}

/// What `u32::from_str` accepts: an optional `+` and then one or more digits
/// writing a number below 2^32.
pub open spec fn u32_text(s: Seq<char>) -> Option<u32> {
    let d = unsigned_digits(s);
    if d.len() > 0 && (forall|i: int| 0 <= i < d.len() ==> is_digit(#[trigger] d[i]))
        && digits_value(d) <= u32::MAX {
        Some(digits_value(d) as u32)
    } else {
        None
    }
}

/// Reads a decimal `u32` as `u32::from_str` does.
pub fn parse_u32(s: &[char]) -> (r: Option<u32>)
    ensures
        r == u32_text(s@),
{
    let start: usize = if s.len() > 0 && s[0] == '+' { 1 } else { 0 };
    let ghost d = unsigned_digits(s@);
    assert(d =~= s@.subrange(start as int, s@.len() as int));
    if start >= s.len() {
        return None;
    }
    let cap: u64 = 0x1_0000_0000;
    let mut acc: u64 = 0;
    let mut i: usize = start;
    while i < s.len()
        invariant
            start <= i <= s@.len(),
            d =~= s@.subrange(start as int, s@.len() as int),
            d == unsigned_digits(s@),
            cap == 0x1_0000_0000u64,
            forall|k: int| start <= k < i ==> is_digit(#[trigger] s@[k]),
            acc == if digits_value(s@.subrange(start as int, i as int)) < cap {
                digits_value(s@.subrange(start as int, i as int))
            } else {
                cap as nat
            },
        decreases s.len() - i,
    {
        let c = s[i];
        if !('0' <= c && c <= '9') {
            proof {
                assert(d[i - start] == c);
                assert(!is_digit(d[i - start]));
                assert(!(forall|j: int| 0 <= j < d.len() ==> is_digit(#[trigger] d[j])));
            }
            return None;
        }
        let digit: u64 = ((c as u32) - ('0' as u32)) as u64;
        let ghost pre = s@.subrange(start as int, i as int);
        let ghost post = s@.subrange(start as int, i + 1);
        proof {
            assert(post.drop_last() =~= pre);
            assert(post.last() == c);
            assert(digits_value(post) == digits_value(pre) * 10 + digit);
        }
        if acc >= cap {
            proof {
                assert(digits_value(pre) >= cap);
                assert(digits_value(pre) * 10 + digit >= cap) by (nonlinear_arith)
                    requires digits_value(pre) >= cap, digit >= 0;
            }
        } else {
            let next = acc * 10 + digit;
            acc = if next < cap { next } else { cap };
        }
        i += 1;
    }
    proof {
        assert(s@.subrange(start as int, i as int) =~= d);
    }
    if acc >= cap {
        None
    } else {
        Some(acc as u32)
    }
}

/// What one line says: name, windows (0 where unreadable), creation time and
/// whether a client is attached (the fourth field is other than `0`); `None`
/// for a line with fewer than four fields.
pub open spec fn record_of(line: Seq<char>) -> Option<(Seq<char>, u32, Seq<char>, bool)> {
    let f = split_on(line, '|');
    if f.len() >= 4 {
        Some(
            (
                f[0],
                match u32_text(f[1]) {
                    Some(n) => n,
                    None => 0,
                },
                f[2],
                f[3] != seq!['0'],
            ),
        )
    } else {
        None
    }
}

pub open spec fn info_view(t: TmuxSessionInfo) -> (Seq<char>, u32, Seq<char>, bool) {
    (t.name@, t.windows, t.created@, t.attached)
}

/// Splits `v` at every `sep`.
fn split_chars(v: &[char], sep: char) -> (r: Vec<Vec<char>>)
    ensures
        r@.map_values(|p: Vec<char>| p@) == split_on(v@, sep),
{
    let mut done: Vec<Vec<char>> = Vec::new();
    let mut cur: Vec<char> = Vec::new();
    let mut i: usize = 0;
    while i < v.len()
        invariant
            i <= v@.len(),
            done@.map_values(|p: Vec<char>| p@).push(cur@) == split_on(v@.subrange(0, i as int), sep),
        decreases v.len() - i,
    {
        let ghost pre = v@.subrange(0, i as int);
        let ghost post = v@.subrange(0, i + 1);
        let ghost before = done@.map_values(|p: Vec<char>| p@);
        let ghost cur_before = cur@;
        proof {
            assert(post.drop_last() =~= pre);
        }
        if v[i] == sep {
            let finished = cur;
            done.push(finished);
            cur = Vec::new();
            proof {
                assert(done@.map_values(|p: Vec<char>| p@) =~= before.push(cur_before));
                assert(done@.map_values(|p: Vec<char>| p@).push(cur@) =~= split_on(post, sep));
            }
        } else {
            cur.push(v[i]);
            proof {
                assert(done@.map_values(|p: Vec<char>| p@).push(cur@) =~= split_on(post, sep));
            }
        }
        i += 1;
    }
    proof {
        assert(v@.subrange(0, i as int) =~= v@);
    }
    let ghost before = done@.map_values(|p: Vec<char>| p@);
    done.push(cur);
    proof {
        assert(done@.map_values(|p: Vec<char>| p@) =~= before.push(done@.last()@));
    }
    done
}

fn is_zero_text(f: &Vec<char>) -> (r: bool)
    ensures
        r == (f@ == seq!['0']),
{
    if f.len() == 1 && f[0] == '0' {
        assert(f@ =~= seq!['0']);
        true
    } else {
        false
    }
}

/// Reads one line; `None` where it has fewer than four fields.
pub fn parse_session_line(line: &[char]) -> (r: Option<TmuxSessionInfo>)
    ensures
        r is None <==> record_of(line@) is None,
        r matches Some(t) ==> record_of(line@) == Some(info_view(t)),
{
    let f = split_chars(line, '|');
    proof {
        let fs = f@.map_values(|p: Vec<char>| p@);
        assert(fs.len() == f@.len());
    }
    if f.len() < 4 {
        return None;
    }
    let windows = match parse_u32(f[1].as_slice()) {
        Some(n) => n,
        None => 0,
    };
    let attached = !is_zero_text(&f[3]);
    proof {
        let fs = f@.map_values(|p: Vec<char>| p@);
        assert(fs[0] == f@[0]@ && fs[1] == f@[1]@ && fs[2] == f@[2]@ && fs[3] == f@[3]@);
    }
    Some(
        TmuxSessionInfo {
            name: string_of(f[0].as_slice()),
            windows,
            created: string_of(f[2].as_slice()),
            attached,
        },
    )
}

/// Reads the whole `list-sessions` output: one record per line that has at
/// least four fields, in order; other lines are skipped.
pub fn parse_session_list(stdout: &str) -> (r: Vec<TmuxSessionInfo>)
    ensures
        r@.map_values(|t: TmuxSessionInfo| info_view(t)) == lines_of(stdout@).filter_map(
            |l: Seq<char>| record_of(l),
        ),
{
    let v = chars_of(stdout);
    let pieces = split_chars(v.as_slice(), '\n');
    let ghost ps = pieces@.map_values(|p: Vec<char>| p@);
    proof {
        lemma_split_nonempty(v@, '\n');
    }
    let last_empty = pieces[pieces.len() - 1].len() == 0;
    let n: usize = if last_empty { pieces.len() - 1 } else { pieces.len() };
    let ghost lines = lines_of(stdout@);
    proof {
        assert(ps.last() == pieces@[pieces@.len() - 1]@);
        assert(lines.len() == n);
    }
    let mut out: Vec<TmuxSessionInfo> = Vec::new();
    let mut i: usize = 0;
    while i < n
        invariant
            i <= n,
            n <= pieces@.len(),
            ps == pieces@.map_values(|p: Vec<char>| p@),
            ps == split_on(stdout@, '\n'),
            lines == lines_of(stdout@),
            lines.len() == n,
            out@.map_values(|t: TmuxSessionInfo| info_view(t)) == lines.subrange(0, i as int).filter_map(
                |l: Seq<char>| record_of(l),
            ),
        decreases n - i,
    {
        let p = &pieces[i];
        let mut line: Vec<char> = Vec::new();
        let strip = i + 1 < pieces.len() && p.len() > 0 && p[p.len() - 1] == '\r';
        let keep: usize = if strip { p.len() - 1 } else { p.len() };
        let mut k: usize = 0;
        while k < keep
            invariant
                k <= keep <= p@.len(),
                line@ == p@.subrange(0, k as int),
            decreases keep - k,
        {
            line.push(p[k]);
            proof {
                assert(p@.subrange(0, k + 1) =~= p@.subrange(0, k as int).push(p@[k as int]));
            }
            k += 1;
        }
        proof {
            assert(ps[i as int] == p@);
            assert(line@ =~= lines[i as int]);
        }
        let ghost before = out@.map_values(|t: TmuxSessionInfo| info_view(t));
        let rec = parse_session_line(line.as_slice());
        match rec {
            Some(t) => {
                out.push(t);
                proof {
                    assert(out@.map_values(|t: TmuxSessionInfo| info_view(t)) =~= before.push(
                        record_of(lines[i as int])->Some_0,
                    ));
                }
            },
            None => {},
        }
        proof {
            let post = lines.subrange(0, i + 1);
            assert(post.drop_last() =~= lines.subrange(0, i as int));
            assert(post.last() == lines[i as int]);
            assert(out@.map_values(|t: TmuxSessionInfo| info_view(t)) =~= post.filter_map(
                |l: Seq<char>| record_of(l),
            ));
        }
        i += 1;
    }
    proof {
        assert(lines.subrange(0, n as int) =~= lines);
    }
    out
}

} // verus!
