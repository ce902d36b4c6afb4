//! Parsing of a textual process listing.
//!
//! The listing tool prints one process per line, an identifier followed by
//! the command name, separated by blanks.  A line yields an entry when its
//! first token is an unsigned decimal identifier and a second token exists;
//! every other line (headers, blank lines, garbled entries) is skipped and
//! enumeration continues, which keeps a single malformed entry from failing
//! the whole discovery call.

use vstd::prelude::*;
use vstd::string::StrSliceExecFns;

verus! {

/// Blank characters that separate the tokens of a listing line.
pub open spec fn is_space(c: char) -> bool {
    c == ' ' || c == '\t' || c == '\r'
}

/// The maximal blank-free runs of a line, in order.
pub open spec fn tokens_of(s: Seq<char>) -> Seq<Seq<char>>
    decreases s.len(),
{
    if s.len() == 0 {
        seq![]
    } else {
        let rest = tokens_of(s.drop_last());
        let c = s.last();
        if is_space(c) {
            rest
        } else if s.len() >= 2 && !is_space(s[s.len() - 2]) {
            rest.update(rest.len() - 1, rest.last().push(c))
        } else {
            rest.push(seq![c])
        }
    }
}

fn char_is_space(c: char) -> (r: bool)
    ensures
        r == is_space(c),
{
    c == ' ' || c == '\t' || c == '\r'
}

/// Splits a line into its blank-separated tokens.
pub fn tokenize(line: &str) -> (r: Vec<String>)
    ensures
        r.deep_view() == tokens_of(line@),
{
    let n = line.unicode_len();
    let mut r: Vec<String> = Vec::new();
    let mut start: usize = 0;
    let mut in_token: bool = false;
    let mut i: usize = 0;
    while i < n
        invariant
            n == line@.len(),
            i <= n,
            in_token ==> start < i,
            in_token ==> forall|j: int| start <= j < i ==> !is_space(line@[j]),
            !in_token ==> (i == 0 || is_space(line@[i - 1])),
            in_token ==> tokens_of(line@.take(i as int)) == r.deep_view().push(
                line@.subrange(start as int, i as int),
            ),
            !in_token ==> tokens_of(line@.take(i as int)) == r.deep_view(),
        decreases n - i,
    {
        let c = line.get_char(i);
        proof {
            assert(line@.take(i as int + 1).drop_last() =~= line@.take(i as int));
            assert(line@.take(i as int + 1).last() == line@[i as int]);
        }
        if char_is_space(c) {
            if in_token {
                let ghost old_dv = r.deep_view();
                let tok = line.substring_char(start, i).to_owned();
                r.push(tok);
                proof {
                    assert(r.deep_view() =~= old_dv.push(
                        line@.subrange(start as int, i as int),
                    ));
                }
                in_token = false;
            }
        } else {
            if in_token {
                proof {
                    let pre = line@.take(i as int + 1);
                    assert(!is_space(pre[pre.len() - 2]));
                    let rest = tokens_of(line@.take(i as int));
                    assert(rest.last() == line@.subrange(start as int, i as int));
                    assert(line@.subrange(start as int, i as int).push(line@[i as int])
                        =~= line@.subrange(start as int, i as int + 1));
                    assert(rest.update(rest.len() - 1, rest.last().push(line@[i as int]))
                        =~= r.deep_view().push(
                        line@.subrange(start as int, i as int + 1),
                    ));
                }
            } else {
                start = i;
                in_token = true;
                proof {
                    assert(line@.subrange(i as int, i as int + 1) =~= seq![line@[i as int]]);
                }
            }
        }
        i = i + 1;
    }
    proof {
        assert(line@.take(n as int) =~= line@);
    }
    if in_token {
        let ghost old_dv = r.deep_view();
        let tok = line.substring_char(start, n).to_owned();
        r.push(tok);
        proof {
            assert(r.deep_view() =~= old_dv.push(line@.subrange(start as int, n as int)));
        }
    }
    r
}

/// Decimal digit.
pub open spec fn is_digit(c: char) -> bool {
    48 <= c as u32 && c as u32 <= 57
}

/// Numeric value of a decimal digit.
pub open spec fn digit_val(c: char) -> int {
    c as u32 - 48
}

pub open spec fn all_digits(t: Seq<char>) -> bool {
    forall|i: int| 0 <= i < t.len() ==> is_digit(#[trigger] t[i])
}

/// Value of a digit string read in base ten.
pub open spec fn dec_value(t: Seq<char>) -> int
    decreases t.len(),
{
    if t.len() == 0 {
        0
    } else {
        dec_value(t.drop_last()) * 10 + digit_val(t.last())
    }
}

/// A token is a valid process identifier when it is a non-empty run of
/// decimal digits whose value fits the identifier type.
pub open spec fn parses_as_id(t: Seq<char>) -> bool {
    t.len() > 0 && all_digits(t) && dec_value(t) <= u32::MAX
}

proof fn lemma_dec_value_nonneg(t: Seq<char>)
    requires
        all_digits(t),
    ensures
        dec_value(t) >= 0,
    decreases t.len(),
{
    if t.len() > 0 {
        assert(all_digits(t.drop_last()));
        lemma_dec_value_nonneg(t.drop_last());
        assert(is_digit(t[t.len() - 1]));
        assert(t.last() == t[t.len() - 1]);
    }
}

proof fn lemma_dec_value_prefix_le(t: Seq<char>, i: int)
    requires
        all_digits(t),
        0 <= i <= t.len(),
    ensures
        dec_value(t.take(i)) <= dec_value(t),
    decreases t.len(),
{
    if i == t.len() {
        assert(t.take(i) =~= t);
    } else {
        let s = t.drop_last();
        assert(all_digits(s));
        assert(t.take(i) =~= s.take(i));
        lemma_dec_value_prefix_le(s, i);
        lemma_dec_value_nonneg(s);
        assert(is_digit(t[t.len() - 1]));
        assert(t.last() == t[t.len() - 1]);
    }
}

/// Reads a process identifier from a token: the digits in base ten, or
/// `None` when the token is empty, holds a non-digit, or overflows.
pub fn parse_id(t: &str) -> (r: Option<u32>)
    ensures
        r is Some <==> parses_as_id(t@),
        parses_as_id(t@) ==> r == Some((dec_value(t@) as u32)),
{
    let n = t.unicode_len();
    if n == 0 {
        return None;
    }
    let mut acc: u32 = 0;
    let mut i: usize = 0;
    while i < n
        invariant
            n == t@.len(),
            0 < n,
            i <= n,
            all_digits(t@.take(i as int)),
            acc as int == dec_value(t@.take(i as int)),
        decreases n - i,
    {
        let c = t.get_char(i);
        proof {
            assert(t@.take(i as int + 1).drop_last() =~= t@.take(i as int));
            assert(t@.take(i as int + 1).last() == t@[i as int]);
        }
        let v: u32 = c as u32;
        if v < 48 || v > 57 {
            proof {
                assert(!is_digit(t@[i as int]));
                assert(!all_digits(t@));
            }
            return None;
        }
        let d: u32 = v - 48;
        if acc > 429496729 || (acc == 429496729 && d > 5) {
            proof {
                assert(dec_value(t@.take(i as int + 1)) == acc as int * 10 + d);
                assert(dec_value(t@.take(i as int + 1)) > u32::MAX);
                if parses_as_id(t@) {
                    lemma_dec_value_prefix_le(t@, i as int + 1);
                }
            }
            return None;
        }
        acc = acc * 10 + d;
        i = i + 1;
    }
    proof {
        assert(t@.take(n as int) =~= t@);
    }
    Some(acc)
}

/// The entry a listing line contributes: its identifier and name, or
/// `None` for a line that is skipped.
pub open spec fn entry_of_line(line: Seq<char>) -> Option<(u32, Seq<char>)> {
    let toks = tokens_of(line);
    if toks.len() >= 2 && parses_as_id(toks[0]) {
        Some(((dec_value(toks[0]) as u32), toks[1]))
    } else {
        None
    }
}

/// Parses one listing line into an identifier and a name.
pub fn parse_line(line: &str) -> (r: Option<(u32, String)>)
    ensures
        r.deep_view() == entry_of_line(line@),
{
    let toks = tokenize(line);
    if toks.len() < 2 {
        return None;
    }
    proof {
        assert(toks.deep_view()[0] == toks@[0]@);
        assert(toks.deep_view()[1] == toks@[1]@);
    }
    match parse_id(toks[0].as_str()) {
        Some(id) => {
            let name = toks[1].clone();
            Some((id, name))
        },
        None => None,
    }
}

} // verus!
