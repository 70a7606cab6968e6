use vstd::prelude::*;
use crate::scan::{occurs_at, occurs_at_exec};
use crate::text::chars_of;

verus! {

/// White space as `char::is_whitespace` reads it, which `str::trim` removes.
pub open spec fn is_white_space(c: char) -> bool {
    ||| c == '\t' || c == '\n' || c == '\u{0b}' || c == '\u{0c}' || c == '\r' || c == ' '
    ||| c == '\u{85}' || c == '\u{a0}' || c == '\u{1680}' || c == '\u{2028}' || c == '\u{2029}'
    ||| c == '\u{202f}' || c == '\u{205f}' || c == '\u{3000}'
    ||| c == '\u{2000}' || c == '\u{2001}' || c == '\u{2002}' || c == '\u{2003}'
    ||| c == '\u{2004}' || c == '\u{2005}' || c == '\u{2006}' || c == '\u{2007}'
    ||| c == '\u{2008}' || c == '\u{2009}' || c == '\u{200a}'
}

fn white_space(c: char) -> (r: bool)
    ensures
        r == is_white_space(c),
{
    c == '\t' || c == '\n' || c == '\u{0b}' || c == '\u{0c}' || c == '\r' || c == ' ' || c
        == '\u{85}' || c == '\u{a0}' || c == '\u{1680}' || c == '\u{2028}' || c == '\u{2029}' || c
        == '\u{202f}' || c == '\u{205f}' || c == '\u{3000}' || c == '\u{2000}' || c == '\u{2001}'
        || c == '\u{2002}' || c == '\u{2003}' || c == '\u{2004}' || c == '\u{2005}' || c
        == '\u{2006}' || c == '\u{2007}' || c == '\u{2008}' || c == '\u{2009}' || c == '\u{200a}'
}

/// Index of the first character at or after `p` that is not white space,
/// line feeds counting as white space only where `lines` is true; or the
/// length of `t`.
pub open spec fn skip_space(t: Seq<char>, p: int, lines: bool) -> int
    decreases t.len() - p,
{
    if p < 0 || p >= t.len() {
        if p < 0 { 0 } else { t.len() as int }
    } else if is_white_space(t[p]) && (lines || t[p] != '\n') {
        skip_space(t, p + 1, lines)
    } else {
        p
    }
}

fn skip_space_exec(cs: &Vec<char>, p: usize, lines: bool) -> (r: usize)
    requires
        p <= cs@.len(),
    ensures
        r as int == skip_space(cs@, p as int, lines),
        p <= r <= cs@.len(),
{
    let mut k = p;
    while k < cs.len() && white_space(cs[k]) && (lines || cs[k] != '\n')
        invariant
            p <= k <= cs@.len(),
            skip_space(cs@, p as int, lines) == skip_space(cs@, k as int, lines),
        decreases cs@.len() - k,
    {
        k = k + 1;
    }
    k
}

pub open spec fn header() -> Seq<char> {
    seq!['#', 'E', 'X', 'T', 'M', '3', 'U']
}

pub open spec fn tag_mark() -> Seq<char> {
    seq!['#', 'E', 'X', 'T']
}

pub open spec fn inf_tag() -> Seq<char> {
    seq!['#', 'E', 'X', 'T', 'I', 'N', 'F', ':']
}

pub open spec fn byte_range_tag() -> Seq<char> {
    seq!['#', 'E', 'X', 'T', '-', 'X', '-', 'B', 'Y', 'T', 'E', 'R', 'A', 'N', 'G', 'E', ':']
}

pub open spec fn date_range_tag() -> Seq<char> {
    seq!['#', 'E', 'X', 'T', '-', 'X', '-', 'D', 'A', 'T', 'E', 'R', 'A', 'N', 'G', 'E', ':']
}

pub open spec fn map_tag() -> Seq<char> {
    seq!['#', 'E', 'X', 'T', '-', 'X', '-', 'M', 'A', 'P', ':']
}

/// What the parser reads after the header: the text trimmed at its start,
/// less `#EXTM3U`; `None` where the text does not start so.
pub open spec fn after_header(t: Seq<char>) -> Option<Seq<char>> {
    let c = skip_space(t, 0, true);
    if occurs_at(t, c, header()) {
        Some(t.subrange(c + 7, t.len() as int))
    } else {
        None
    }
}

/// Start of the line (text between line feeds) that holds index `i`.
pub open spec fn line_start(u: Seq<char>, i: int) -> int
    decreases i,
{
    if i <= 0 {
        0
    } else if u[i - 1] == '\n' {
        i
    } else {
        line_start(u, i - 1)
    }
}

/// A tag of segments, which a master playlist cannot hold, starts at `c`.
pub open spec fn segment_tag_at(u: Seq<char>, c: int) -> bool {
    occurs_at(u, c, inf_tag()) || occurs_at(u, c, byte_range_tag()) || occurs_at(u, c, date_range_tag())
        || occurs_at(u, c, map_tag())
}

/// The line starting at `s`, trimmed, opens with a tag of segments.
pub open spec fn segment_line_at(u: Seq<char>, s: int) -> bool {
    &&& 0 <= s <= u.len()
    &&& (s == 0 || u[s - 1] == '\n')
    &&& segment_tag_at(u, skip_space(u, s, false))
}

/// Where the attribute splitter stands before index `i` of a line: `0` while
/// it looks for the `=` of a key, `1` in a value outside quotes, `2` inside.
pub open spec fn splitter_state(u: Seq<char>, i: int) -> int
    decreases i,
{
    if i <= 0 {
        0
    } else {
        let p = splitter_state(u, i - 1);
        let c = u[i - 1];
        if c == '\n' {
            0
        } else if p == 0 {
            if c == '=' { 1 } else { 0 }
        } else if p == 1 {
            if c == '"' { 2 } else if c == ',' { 0 } else { 1 }
        } else {
            if c == '"' { 1 } else { 2 }
        }
    }
}

/// On a tag line, the `=` of a key at `k` starts a value that the splitter
/// hands on as a lone `"` once trimmed.
pub open spec fn lone_quote_at(u: Seq<char>, k: int) -> bool {
    let j = skip_space(u, k + 1, false);
    let m = skip_space(u, j + 1, false);
    &&& 0 <= k < u.len()
    &&& u[k] == '='
    &&& splitter_state(u, k) == 0
    &&& occurs_at(u, skip_space(u, line_start(u, k), false), tag_mark())
    &&& j < u.len()
    &&& u[j] == '"'
    &&& (m == u.len() || u[m] == '\n')
}

/// Text after the header that the playlist parser is not given: a tag of
/// segments, which no master playlist holds, or a value that is a lone `"`.
pub open spec fn screened(u: Seq<char>) -> bool {
    (exists|s: int| segment_line_at(u, s)) || (exists|k: int| lone_quote_at(u, k))
}

/// Text that is not handed to the playlist parser: without the header it is
/// no playlist, and after it the screen applies.
pub open spec fn kept_from_parser(t: Seq<char>) -> bool {
    match after_header(t) {
        None => true,
        Some(u) => screened(u),
    }
}

fn segment_tag_exec(u: &Vec<char>, c: usize, pats: &Vec<Vec<char>>) -> (r: bool)
    requires
        pats@.len() == 4,
        pats@[0]@ == inf_tag(),
        pats@[1]@ == byte_range_tag(),
        pats@[2]@ == date_range_tag(),
        pats@[3]@ == map_tag(),
    ensures
        r == segment_tag_at(u@, c as int),
{
    occurs_at_exec(u, c, &pats[0]) || occurs_at_exec(u, c, &pats[1]) || occurs_at_exec(u, c, &pats[2])
        || occurs_at_exec(u, c, &pats[3])
}

fn screened_exec(u: &Vec<char>) -> (r: bool)
    ensures
        r == screened(u@),
{
    let mut pats: Vec<Vec<char>> = Vec::new();
    pats.push(vec!['#', 'E', 'X', 'T', 'I', 'N', 'F', ':']);
    pats.push(vec!['#', 'E', 'X', 'T', '-', 'X', '-', 'B', 'Y', 'T', 'E', 'R', 'A', 'N', 'G', 'E', ':']);
    pats.push(vec!['#', 'E', 'X', 'T', '-', 'X', '-', 'D', 'A', 'T', 'E', 'R', 'A', 'N', 'G', 'E', ':']);
    pats.push(vec!['#', 'E', 'X', 'T', '-', 'X', '-', 'M', 'A', 'P', ':']);
    let mark: Vec<char> = vec!['#', 'E', 'X', 'T'];
    assert(pats@[0]@ =~= inf_tag());
    assert(pats@[1]@ =~= byte_range_tag());
    assert(pats@[2]@ =~= date_range_tag());
    assert(pats@[3]@ =~= map_tag());
    assert(mark@ =~= tag_mark());
    let mut i: usize = 0;
    let mut state: u8 = 0;
    let mut start: usize = 0;
    let mut head: usize = skip_space_exec(u, 0, false);
    let mut tag_line: bool = occurs_at_exec(u, head, &mark);
    while i < u.len()
        invariant
            pats@.len() == 4,
            pats@[0]@ == inf_tag(),
            pats@[1]@ == byte_range_tag(),
            pats@[2]@ == date_range_tag(),
            pats@[3]@ == map_tag(),
            mark@ == tag_mark(),
            i <= u@.len(),
            state as int == splitter_state(u@, i as int),
            i > 0 ==> start as int == line_start(u@, i - 1),
            i == 0 ==> start == 0,
            start <= u@.len(),
            head as int == skip_space(u@, start as int, false),
            tag_line == occurs_at(u@, head as int, tag_mark()),
            forall|s: int| 0 <= s < i ==> !segment_line_at(u@, s),
            forall|k: int| 0 <= k < i ==> !lone_quote_at(u@, k),
        decreases u@.len() - i,
    {
        if i > 0 && u[i - 1] == '\n' {
            start = i;
            head = skip_space_exec(u, i, false);
            tag_line = occurs_at_exec(u, head, &mark);
            if segment_tag_exec(u, head, &pats) {
                assert(segment_line_at(u@, i as int));
                return true;
            }
        } else if i == 0 {
            if segment_tag_exec(u, head, &pats) {
                assert(segment_line_at(u@, 0));
                return true;
            }
        }
        assert(start as int == line_start(u@, i as int));
        if u[i] == '=' && state == 0 && tag_line {
            let j = skip_space_exec(u, i + 1, false);
            if j < u.len() && u[j] == '"' {
                let m = skip_space_exec(u, j + 1, false);
                if m == u.len() || u[m] == '\n' {
                    assert(lone_quote_at(u@, i as int));
                    return true;
                }
            }
        }
        let c = u[i];
        state = if c == '\n' {
            0
        } else if state == 0 {
            if c == '=' { 1 } else { 0 }
        } else if state == 1 {
            if c == '"' { 2 } else if c == ',' { 0 } else { 1 }
        } else {
            if c == '"' { 1 } else { 2 }
        };
        i = i + 1;
    }
    assert forall|s: int| !segment_line_at(u@, s) by {
        if s == u@.len() {
            assert(skip_space(u@, s, false) == s);
        }
    }
    assert forall|k: int| !lone_quote_at(u@, k) by {
        if 0 <= k < i {
        }
    }
    false
}

/// Whether `text` is kept from the playlist parser: it lacks the `#EXTM3U`
/// header, holds a tag of segments, or a value that is a lone `"`.
pub fn keep_from_parser(text: &str) -> (r: bool)
    ensures
        r == kept_from_parser(text@),
{
    let cs = chars_of(text);
    let c = skip_space_exec(&cs, 0, true);
    let hdr: Vec<char> = vec!['#', 'E', 'X', 'T', 'M', '3', 'U'];
    assert(hdr@ =~= header());
    if !occurs_at_exec(&cs, c, &hdr) {
        return true;
    }
    let n = cs.len();
    assert(c + 7 <= n);
    let mut u: Vec<char> = Vec::new();
    let mut i: usize = c + 7;
    while i < cs.len()
        invariant
            c + 7 <= i <= cs@.len(),
            cs@ == text@,
            u@ == cs@.subrange(c + 7, i as int),
        decreases cs@.len() - i,
    {
        u.push(cs[i]);
        i = i + 1;
        assert(u@ =~= cs@.subrange(c + 7, i as int));
    }
    screened_exec(&u)
}

} // verus!
