//! Lookup of a value in the per-user configuration text. A value is found
//! on the first line that contains the key; the value is what follows the
//! line's last colon (the whole line when it has no colon), with
//! surrounding whitespace trimmed. The configuration store itself — its
//! on-disk location and its creation — belongs to the surrounding binary;
//! this module only reads the text it is handed.

use vstd::prelude::*;
use crate::strutil::contains_seq;
use crate::strutil::str_contains;

verus! {

/// Whitespace trimmed around a value.
pub open spec fn is_space_char(c: char) -> bool {
    c == ' ' || c == '\t' || c == '\r' || c == '\n'
}

/// `s` with its leading whitespace removed.
pub open spec fn trim_left_model(s: Seq<char>) -> Seq<char>
    decreases s.len(),
{
    if s.len() > 0 && is_space_char(s[0]) {
        trim_left_model(s.drop_first())
    } else {
        s
    }
}

/// `s` with its trailing whitespace removed.
pub open spec fn trim_right_model(s: Seq<char>) -> Seq<char>
    decreases s.len(),
{
    if s.len() > 0 && is_space_char(s[s.len() - 1]) {
        trim_right_model(s.drop_last())
    } else {
        s
    }
}

/// `s` with whitespace removed from both ends.
pub open spec fn trim_model(s: Seq<char>) -> Seq<char> {
    trim_right_model(trim_left_model(s))
}

/// What follows the last `sep` in `s`; all of `s` when `sep` is absent.
pub open spec fn after_last_sep(s: Seq<char>, sep: char) -> Seq<char>
    decreases s.len(),
{
    if s.len() == 0 {
        s
    } else if s[s.len() - 1] == sep {
        Seq::empty()
    } else {
        after_last_sep(s.drop_last(), sep).push(s[s.len() - 1])
    }
}

/// The value a configuration line yields: what follows its last colon,
/// trimmed.
pub open spec fn line_value(line: Seq<char>) -> Seq<char> {
    trim_model(after_last_sep(line, ':'))
}

/// The index of the line break that ends the line starting at `i`, or the
/// end of the text.
pub open spec fn line_end_from(s: Seq<char>, i: int) -> int
    decreases s.len() - i,
{
    if i < 0 || i >= s.len() {
        s.len() as int
    } else if s[i] == '\n' {
        i
    } else {
        line_end_from(s, i + 1)
    }
}

/// The line starting at `i` ends no earlier than `i` and within the text.
pub proof fn lemma_line_end_from_bounds(s: Seq<char>, i: int)
    requires
        0 <= i <= s.len(),
    ensures
        i <= line_end_from(s, i) <= s.len(),
    decreases s.len() - i,
{
    if i < s.len() && s[i] != '\n' {
        lemma_line_end_from_bounds(s, i + 1);
    }
}

/// The value found for `key` in the text from line beginning `start` on:
/// the first line from there that contains `key` yields its value.
pub open spec fn lookup_from(content: Seq<char>, start: int, key: Seq<char>) -> Option<Seq<char>>
    decreases content.len() - start
    via lookup_from_decreases
{
    if start < 0 || start > content.len() {
        None
    } else {
        let end = line_end_from(content, start);
        let line = content.subrange(start, end);
        if contains_seq(line, key) {
            Some(line_value(line))
        } else if end >= content.len() {
            None
        } else {
            lookup_from(content, end + 1, key)
        }
    }
}

#[via_fn]
proof fn lookup_from_decreases(content: Seq<char>, start: int, key: Seq<char>) {
    if 0 <= start <= content.len() {
        lemma_line_end_from_bounds(content, start);
    }
}

/// The value `key` resolves to in the configuration text, if any line
/// contains the key.
pub open spec fn config_lookup(content: Seq<char>, key: Seq<char>) -> Option<Seq<char>> {
    lookup_from(content, 0, key)
}

/// A scan that saw no line break through `end`, stopping at a break or at
/// the text's end, found exactly `line_end_from`.
proof fn lemma_line_end_from_at(s: Seq<char>, start: int, end: int)
    requires
        0 <= start <= end <= s.len(),
        forall|k: int| start <= k < end ==> s[k] != '\n',
        end == s.len() || s[end] == '\n',
    ensures
        line_end_from(s, start) == end,
    decreases end - start,
{
    if start < end {
        lemma_line_end_from_at(s, start + 1, end);
    }
}

/// When `sep` does not occur, `after_last_sep` is the whole string.
proof fn lemma_after_last_sep_absent(s: Seq<char>, sep: char)
    requires
        forall|k: int| 0 <= k < s.len() ==> s[k] != sep,
    ensures
        after_last_sep(s, sep) == s,
    decreases s.len(),
{
    if s.len() > 0 {
        lemma_after_last_sep_absent(s.drop_last(), sep);
        assert(s.drop_last().push(s[s.len() - 1]) =~= s);
    }
}

/// When the last `sep` stands at `p`, `after_last_sep` is what follows it.
proof fn lemma_after_last_sep_at(s: Seq<char>, sep: char, p: int)
    requires
        0 <= p < s.len(),
        s[p] == sep,
        forall|k: int| p < k < s.len() ==> s[k] != sep,
    ensures
        after_last_sep(s, sep) == s.subrange(p + 1, s.len() as int),
    decreases s.len(),
{
    if p == s.len() - 1 {
        assert(after_last_sep(s, sep) =~= s.subrange(p + 1, s.len() as int));
    } else {
        lemma_after_last_sep_at(s.drop_last(), sep, p);
        assert(s.drop_last().subrange(p + 1, s.len() - 1).push(s[s.len() - 1]) =~= s.subrange(
            p + 1,
            s.len() as int,
        ));
    }
}

/// A scan that skipped exactly the leading whitespace found `trim_left_model`.
proof fn lemma_trim_left_at(s: Seq<char>, lo: int)
    requires
        0 <= lo <= s.len(),
        forall|k: int| 0 <= k < lo ==> is_space_char(#[trigger] s[k]),
        lo == s.len() || !is_space_char(s[lo]),
    ensures
        trim_left_model(s) == s.subrange(lo, s.len() as int),
    decreases lo,
{
    if lo == 0 {
        assert(s.subrange(0, s.len() as int) =~= s);
    } else {
        lemma_trim_left_at(s.drop_first(), lo - 1);
        assert(s.drop_first().subrange(lo - 1, s.len() - 1) =~= s.subrange(lo, s.len() as int));
    }
}

/// A scan that dropped exactly the trailing whitespace found
/// `trim_right_model`.
proof fn lemma_trim_right_at(s: Seq<char>, hi: int)
    requires
        0 <= hi <= s.len(),
        forall|k: int| hi <= k < s.len() ==> is_space_char(#[trigger] s[k]),
        hi == 0 || !is_space_char(s[hi - 1]),
    ensures
        trim_right_model(s) == s.subrange(0, hi),
    decreases s.len() - hi,
{
    if hi == s.len() {
        assert(s.subrange(0, hi) =~= s);
    } else {
        lemma_trim_right_at(s.drop_last(), hi);
        assert(s.drop_last().subrange(0, hi) =~= s.subrange(0, hi));
    }
}

/// Extract the trimmed value behind the last colon of one line.
fn line_value_exec(line: &str) -> (r: String)
    ensures
        r@ == line_value(line@),
{
    let llen = line.unicode_len();
    // find the position right after the last colon, or 0 when there is none
    let mut cut: usize = 0;
    let mut k: usize = llen;
    while k > 0
        invariant
            llen == line@.len(),
            k <= llen,
            cut <= llen,
            k > 0 ==> cut == 0,
            cut == 0 ==> forall|j: int| k <= j < llen ==> line@[j] != ':',
            cut > 0 ==> line@[cut - 1] == ':' && (forall|j: int| cut <= j < llen ==> line@[j]
                != ':'),
        decreases k,
    {
        if line.get_char(k - 1) == ':' {
            cut = k;
            k = 0;
        } else {
            k -= 1;
        }
    }
    let value = line.substring_char(cut, llen);
    proof {
        if cut > 0 {
            lemma_after_last_sep_at(line@, ':', cut - 1);
        } else {
            lemma_after_last_sep_absent(line@, ':');
            assert(line@.subrange(0, llen as int) =~= line@);
        }
        assert(value@ == after_last_sep(line@, ':'));
    }
    // trim whitespace off both ends
    let vlen = value.unicode_len();
    let mut lo: usize = 0;
    while lo < vlen && is_space(value.get_char(lo))
        invariant
            vlen == value@.len(),
            lo <= vlen,
            forall|j: int| 0 <= j < lo ==> is_space_char(#[trigger] value@[j]),
        decreases vlen - lo,
    {
        lo += 1;
    }
    let mut hi: usize = vlen;
    while hi > lo && is_space(value.get_char(hi - 1))
        invariant
            vlen == value@.len(),
            lo <= hi <= vlen,
            forall|j: int| hi <= j < vlen ==> is_space_char(#[trigger] value@[j]),
        decreases hi,
    {
        hi -= 1;
    }
    let trimmed = value.substring_char(lo, hi);
    proof {
        lemma_trim_left_at(value@, lo as int);
        let t = value@.subrange(lo as int, vlen as int);
        lemma_trim_right_at(t, hi - lo);
        assert(t.subrange(0, hi - lo) =~= value@.subrange(lo as int, hi as int));
        assert(trimmed@ == trim_model(value@));
    }
    trimmed.to_owned()
}

/// Whether the character counts as whitespace around a value.
fn is_space(c: char) -> (r: bool)
    ensures
        r == is_space_char(c),
{
    c == ' ' || c == '\t' || c == '\r' || c == '\n'
}

/// Look `key` up in the configuration text: the first line that contains
/// the key yields what follows its last colon, trimmed; `None` when no
/// line contains the key.
pub fn get_config_value(content: &str, key: &str) -> (r: Option<String>)
    ensures
        r is Some <==> config_lookup(content@, key@) is Some,
        (r matches Some(v) ==> config_lookup(content@, key@) matches Some(m) && v@ == m),
{
    let clen = content.unicode_len();
    let mut start: usize = 0;
    loop
        invariant
            clen == content@.len(),
            start <= clen,
            config_lookup(content@, key@) == lookup_from(content@, start as int, key@),
        decreases clen - start,
    {
        // scan to the end of the current line
        let mut end: usize = start;
        while end < clen && content.get_char(end) != '\n'
            invariant
                clen == content@.len(),
                start <= end <= clen,
                forall|k: int| start <= k < end ==> content@[k] != '\n',
            decreases clen - end,
        {
            end += 1;
        }
        proof {
            lemma_line_end_from_at(content@, start as int, end as int);
        }
        let line = content.substring_char(start, end);
        if str_contains(line, key) {
            let value = line_value_exec(line);
            proof {
                assert(lookup_from(content@, start as int, key@) == Some(line_value(line@)));
            }
            return Some(value);
        }
        if end == clen {
            proof {
                assert(lookup_from(content@, start as int, key@) is None);
            }
            return None;
        }
        start = end + 1;
    }
}

} // verus!
