use vstd::prelude::*;
use vstd::string::*;
use crate::model::{ResolveError, opt_view, text_result};
use crate::scan::{is_line_end, is_pattern_space, is_quote, line_end, occurs_at, occurs_at_exec, pattern_space, quote, run_end, run_end_exec};
use crate::text::chars_of;

verus! {

/// The path prefix that marks the intermediate page.
pub open spec fn intermediate_marker() -> Seq<char> {
    seq!['/', 'p', 'r', 'o', 'r', 'c', 'p', '/']
}

/// The key that precedes the quoted media URL.
pub open spec fn file_key() -> Seq<char> {
    seq!['f', 'i', 'l', 'e', ':']
}

/// The opening of a decoy line, `//v`.
pub open spec fn decoy_marker() -> Seq<char> {
    seq!['/', '/', 'v']
}

/// Index of the first intermediate marker in `t` at or after `from`.
pub open spec fn first_marker(t: Seq<char>, from: int) -> Option<int>
    decreases t.len() - from,
{
    if from < 0 || from + 8 > t.len() {
        None
    } else if occurs_at(t, from, intermediate_marker()) {
        Some(from)
    } else {
        first_marker(t, from + 1)
    }
}

/// The leftmost `/prorcp/` followed by the longest run of non-quote characters.
pub open spec fn intermediate_path(t: Seq<char>) -> Option<Seq<char>> {
    match first_marker(t, 0) {
        Some(i) => Some(t.subrange(i, run_end(t, i + 8))),
        None => None,
    }
}

/// Whether `t` up to index `e` ends with `file:` and then only white space.
pub open spec fn key_ends_at(t: Seq<char>, e: int) -> bool
    decreases e,
{
    if e < 0 || e > t.len() {
        false
    } else if occurs_at(t, e - 5, file_key()) {
        true
    } else {
        e >= 1 && is_pattern_space(t[e - 1]) && key_ends_at(t, e - 1)
    }
}

/// Whether a `//v` opens before index `e` on the same line.
pub open spec fn decoy_open(t: Seq<char>, e: int) -> bool
    decreases e,
{
    if e < 0 || e > t.len() {
        false
    } else if occurs_at(t, e - 3, decoy_marker()) {
        true
    } else {
        e >= 1 && !is_line_end(t[e - 1]) && decoy_open(t, e - 1)
    }
}

/// A media URL may start at `p`: right after `file:`, white space and a quote,
/// with a non-quote character at `p`, and no `//v` earlier on the line.
pub open spec fn media_start(t: Seq<char>, p: int) -> bool {
    &&& media_shape(t, p)
    &&& !decoy_open(t, p)
}

/// A quoted `file:` value starts at `p`, whatever precedes it on the line.
pub open spec fn media_shape(t: Seq<char>, p: int) -> bool {
    &&& 1 <= p < t.len()
    &&& is_quote(t[p - 1])
    &&& key_ends_at(t, p - 1)
    &&& !is_quote(t[p])
}

pub open spec fn first_media_start(t: Seq<char>, from: int) -> Option<int>
    decreases t.len() - from,
{
    if from < 0 || from >= t.len() {
        None
    } else if media_start(t, from) {
        Some(from)
    } else {
        first_media_start(t, from + 1)
    }
}

/// The quoted value of the first `file:` key that no `//v` precedes on its line.
pub open spec fn media_url_spec(t: Seq<char>) -> Option<Seq<char>> {
    match first_media_start(t, 0) {
        Some(p) => Some(t.subrange(p, run_end(t, p))),
        None => None,
    }
}

fn key_ends_at_exec(cs: &Vec<char>, key: &Vec<char>, e: usize) -> (r: bool)
    requires
        e <= cs@.len(),
        key@ == file_key(),
    ensures
        r == key_ends_at(cs@, e as int),
{
    let mut k = e;
    loop
        invariant
            k <= e <= cs@.len(),
            key@ == file_key(),
            key_ends_at(cs@, e as int) == key_ends_at(cs@, k as int),
        decreases k,
    {
        if k >= 5 && occurs_at_exec(cs, k - 5, key) {
            return true;
        }
        if k >= 1 && pattern_space(cs[k - 1]) {
            k = k - 1;
        } else {
            return false;
        }
    }
}

fn decoy_open_exec(cs: &Vec<char>, decoy: &Vec<char>, e: usize) -> (r: bool)
    requires
        e <= cs@.len(),
        decoy@ == decoy_marker(),
    ensures
        r == decoy_open(cs@, e as int),
{
    let mut k = e;
    loop
        invariant
            k <= e <= cs@.len(),
            decoy@ == decoy_marker(),
            decoy_open(cs@, e as int) == decoy_open(cs@, k as int),
        decreases k,
    {
        if k >= 3 && occurs_at_exec(cs, k - 3, decoy) {
            return true;
        }
        if k >= 1 && !line_end(cs[k - 1]) {
            k = k - 1;
        } else {
            return false;
        }
    }
}

/// Finds the intermediate-page path in the iframe page's text.
pub fn find_intermediate_path(text: &str) -> (r: Option<String>)
    ensures
        opt_view(r) == intermediate_path(text@),
{
    let cs = chars_of(text);
    let marker: Vec<char> = vec!['/', 'p', 'r', 'o', 'r', 'c', 'p', '/'];
    assert(marker@ =~= intermediate_marker());
    let mut i: usize = 0;
    while i < cs.len() && 8 <= cs.len() - i
        invariant
            marker@ == intermediate_marker(),
            cs@ == text@,
            i <= cs@.len(),
            first_marker(cs@, 0) == first_marker(cs@, i as int),
        decreases cs@.len() - i,
    {
        if occurs_at_exec(&cs, i, &marker) {
            let end = run_end_exec(&cs, i + 8);
            return Some(text.substring_char(i, end).to_owned());
        }
        i = i + 1;
    }
    None
}

/// Finds the media URL in the intermediate page's text: the quoted value of
/// the first `file:` key that no `//v` precedes on its line.
pub fn find_media_url(text: &str) -> (r: Option<String>)
    ensures
        opt_view(r) == media_url_spec(text@),
{
    let cs = chars_of(text);
    let key: Vec<char> = vec!['f', 'i', 'l', 'e', ':'];
    let decoy: Vec<char> = vec!['/', '/', 'v'];
    assert(key@ =~= file_key());
    assert(decoy@ =~= decoy_marker());
    let mut p: usize = 0;
    while p < cs.len()
        invariant
            key@ == file_key(),
            decoy@ == decoy_marker(),
            cs@ == text@,
            p <= cs@.len(),
            first_media_start(cs@, 0) == first_media_start(cs@, p as int),
        decreases cs@.len() - p,
    {
        if p >= 1 && quote(cs[p - 1]) && !quote(cs[p]) && key_ends_at_exec(&cs, &key, p - 1)
            && !decoy_open_exec(&cs, &decoy, p) {
            let end = run_end_exec(&cs, p);
            return Some(text.substring_char(p, end).to_owned());
        }
        p = p + 1;
    }
    None
}

proof fn lemma_first_media_start_at(t: Seq<char>, from: int, q: int)
    requires
        0 <= from <= q,
        media_start(t, q),
        forall|p: int| from <= p < q ==> !media_start(t, p),
    ensures
        first_media_start(t, from) == Some(q),
    decreases q - from,
{
    if from < q {
        lemma_first_media_start_at(t, from + 1, q);
    }
}

/// A `file:` value preceded on its line by `//v` is a decoy and is never
/// taken: where it is the only candidate before a valid one, the valid one is
/// the media URL.
pub proof fn lemma_decoy_skipped(t: Seq<char>, d: int, q: int)
    requires
        0 <= d < q,
        media_shape(t, d),
        decoy_open(t, d),
        media_start(t, q),
        forall|p: int| 0 <= p < q && p != d ==> !media_shape(t, p),
    ensures
        !media_start(t, d),
        media_url_spec(t) == Some(t.subrange(q, run_end(t, q))),
{
    lemma_first_media_start_at(t, 0, q);
}

} // verus!
