use vstd::prelude::*;
use vstd::string::*;
use crate::model::{MediaType, ResolveError, text_result};
use crate::text::chars_of;

verus! {

/// The provider's embed endpoint, to which every target is relative.
pub open spec fn embed_base() -> Seq<char> {
    seq!['h', 't', 't', 'p', 's', ':', '/', '/', 'v', 'i', 'd', 's', 'r', 'c', '.', 'x', 'y', 'z', '/',
        'e', 'm', 'b', 'e', 'd', '/']
}

/// Index of the first `:` in `s` at or after `from`, or the length of `s`.
pub open spec fn first_colon(s: Seq<char>, from: int) -> int
    decreases s.len() - from,
{
    if from < 0 || from >= s.len() {
        s.len() as int
    } else if s[from] == ':' {
        from
    } else {
        first_colon(s, from + 1)
    }
}

/// The three fields of a series id, when it holds exactly two `:`.
pub open spec fn series_fields(id: Seq<char>) -> Option<(Seq<char>, Seq<char>, Seq<char>)> {
    let i = first_colon(id, 0);
    let j = first_colon(id, i + 1);
    if i < id.len() && j < id.len() && first_colon(id, j + 1) == id.len() {
        Some((id.subrange(0, i), id.subrange(i + 1, j), id.subrange(j + 1, id.len() as int)))
    } else {
        None
    }
}

/// The embed URL for a title, or why there is none.
pub open spec fn target_spec(kind: MediaType, id: Seq<char>) -> Result<Seq<char>, ResolveError> {
    match kind {
        MediaType::Movie => Ok(embed_base() + seq!['m', 'o', 'v', 'i', 'e', '/'] + id),
        MediaType::Series => match series_fields(id) {
            Some((ext, season, episode)) => Ok(embed_base() + seq!['t', 'v', '/'] + ext + seq!['/']
                + season + seq!['-'] + episode),
            None => Err(ResolveError::MalformedInput),
        },
    }
}

fn find_colon(cs: &Vec<char>, from: usize) -> (r: usize)
    requires
        from <= cs@.len(),
    ensures
        r as int == first_colon(cs@, from as int),
        from <= r <= cs@.len(),
{
    let mut i = from;
    while i < cs.len()
        invariant
            from <= i <= cs@.len(),
            first_colon(cs@, from as int) == first_colon(cs@, i as int),
        decreases cs@.len() - i,
    {
        if cs[i] == ':' {
            return i;
        }
        i = i + 1;
    }
    i
}

/// Builds the canonical embed URL for a title: `movie/{id}` for a movie,
/// `tv/{externalId}/{season}-{episode}` for a series, whose id must then hold
/// exactly two `:`.
pub fn build_target(kind: MediaType, id: &str) -> (r: Result<String, ResolveError>)
    ensures
        text_result(r) == target_spec(kind, id@),
{
    proof {
        reveal_strlit("https://vidsrc.xyz/embed/");
        reveal_strlit("movie/");
        reveal_strlit("tv/");
        reveal_strlit("/");
        reveal_strlit("-");
    }
    let base = String::from_str("https://vidsrc.xyz/embed/");
    match kind {
        MediaType::Movie => {
            let r = base.concat("movie/").concat(id);
            assert(r@ =~= embed_base() + seq!['m', 'o', 'v', 'i', 'e', '/'] + id@);
            Ok(r)
        },
        MediaType::Series => {
            let cs = chars_of(id);
            let i = find_colon(&cs, 0);
            if i == cs.len() {
                return Err(ResolveError::MalformedInput);
            }
            let j = find_colon(&cs, i + 1);
            if j == cs.len() {
                return Err(ResolveError::MalformedInput);
            }
            let k = find_colon(&cs, j + 1);
            if k != cs.len() {
                return Err(ResolveError::MalformedInput);
            }
            let ext = id.substring_char(0, i);
            let season = id.substring_char(i + 1, j);
            let episode = id.substring_char(j + 1, cs.len());
            let r = base.concat("tv/").concat(ext).concat("/").concat(season).concat("-").concat(episode);
            assert(r@ =~= embed_base() + seq!['t', 'v', '/'] + ext@ + seq!['/'] + season@ + seq!['-']
                + episode@);
            Ok(r)
        },
    }
}

/// Number of `:` in `s` at or after `from`.
pub open spec fn colons_from(s: Seq<char>, from: int) -> nat
    decreases s.len() - from,
{
    if from < 0 || from >= s.len() {
        0
    } else if s[from] == ':' {
        1 + colons_from(s, from + 1)
    } else {
        colons_from(s, from + 1)
    }
}

proof fn lemma_first_colon_count(s: Seq<char>, from: int)
    requires
        0 <= from <= s.len(),
    ensures
        first_colon(s, from) == s.len() ==> colons_from(s, from) == 0,
        first_colon(s, from) < s.len() ==> colons_from(s, from) == 1 + colons_from(
            s,
            first_colon(s, from) + 1,
        ),
        from <= first_colon(s, from) <= s.len(),
    decreases s.len() - from,
{
    if from < s.len() && s[from] != ':' {
        lemma_first_colon_count(s, from + 1);
    }
}

proof fn lemma_first_colon_at(s: Seq<char>, from: int, k: int)
    requires
        0 <= from <= k <= s.len(),
        k == s.len() || s[k] == ':',
        forall|i: int| from <= i < k ==> s[i] != ':',
    ensures
        first_colon(s, from) == k,
    decreases k - from,
{
    if from < k {
        lemma_first_colon_at(s, from + 1, k);
    }
}

/// A series id whose fields hold no `:` gives `tv/{externalId}/{season}-{episode}`
/// under the embed endpoint, and a movie id gives `movie/{id}`.
pub proof fn lemma_target_of_fields(ext: Seq<char>, season: Seq<char>, episode: Seq<char>, movie: Seq<char>)
    requires
        !ext.contains(':'),
        !season.contains(':'),
        !episode.contains(':'),
    ensures
        target_spec(MediaType::Series, ext + seq![':'] + season + seq![':'] + episode) == Ok::<
            Seq<char>,
            ResolveError,
        >(embed_base() + seq!['t', 'v', '/'] + ext + seq!['/'] + season + seq!['-'] + episode),
        target_spec(MediaType::Movie, movie) == Ok::<Seq<char>, ResolveError>(
            embed_base() + seq!['m', 'o', 'v', 'i', 'e', '/'] + movie,
        ),
{
    let id = ext + seq![':'] + season + seq![':'] + episode;
    let i = ext.len() as int;
    let j = i + 1 + season.len();
    assert forall|k: int| 0 <= k < i implies id[k] != ':' by {
        assert(id[k] == ext[k]);
    }
    lemma_first_colon_at(id, 0, i);
    assert forall|k: int| i + 1 <= k < j implies id[k] != ':' by {
        assert(id[k] == season[k - i - 1]);
    }
    lemma_first_colon_at(id, i + 1, j);
    assert forall|k: int| j + 1 <= k < id.len() implies id[k] != ':' by {
        assert(id[k] == episode[k - j - 1]);
    }
    lemma_first_colon_at(id, j + 1, id.len() as int);
    assert(id.subrange(0, i) =~= ext);
    assert(id.subrange(i + 1, j) =~= season);
    assert(id.subrange(j + 1, id.len() as int) =~= episode);
}

/// A series id is accepted exactly when it holds two `:`; any other id is
/// refused as malformed, before anything is fetched.
pub proof fn lemma_series_needs_two_colons(id: Seq<char>)
    ensures
        (target_spec(MediaType::Series, id) is Ok) <==> colons_from(id, 0) == 2,
        colons_from(id, 0) != 2 ==> target_spec(MediaType::Series, id) == Err::<
            Seq<char>,
            ResolveError,
        >(ResolveError::MalformedInput),
{
    lemma_first_colon_count(id, 0);
    let i = first_colon(id, 0);
    if i < id.len() {
        lemma_first_colon_count(id, i + 1);
        let j = first_colon(id, i + 1);
        if j < id.len() {
            lemma_first_colon_count(id, j + 1);
        }
    }
}

} // verus!
