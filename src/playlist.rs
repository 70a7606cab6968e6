use vstd::prelude::*;
use vstd::string::*;
use crate::model::{ResolveError, ResolvedMedia, Stream, opt_view};
use crate::screen::{keep_from_parser, kept_from_parser};
use crate::text::{decimal, decimal_spec};
use crate::web::{joined_url, resolve_url};
use hls_m3u8::tags::VariantStream;

verus! {

/// One variant stream of a master playlist: whether it is I-frame only, its
/// URI, and the vertical resolution when the playlist states one.
#[derive(Clone, Debug)]
pub struct Variant {
    pub iframe: bool,
    pub uri: String,
    pub height: Option<usize>,
}

impl View for Variant {
    type V = (bool, Seq<char>, Option<usize>);

    open spec fn view(&self) -> (bool, Seq<char>, Option<usize>) {
        (self.iframe, self.uri@, self.height)
    }
}

/// The variants, in order, of the master playlist that `text` holds; `None`
/// where `text` does not parse as one.
pub uninterp spec fn master_variants(text: Seq<char>) -> Option<Seq<(bool, Seq<char>, Option<usize>)>>;

pub open spec fn variants_view(o: Option<Vec<Variant>>) -> Option<Seq<(bool, Seq<char>, Option<usize>)>> {
    match o {
        Some(v) => Some(v@.map_values(|x: Variant| x@)),
        None => None,
    }
}

/// Relies on hls_m3u8's `MasterPlaylist::try_from`: parses a master playlist
/// and lists its variant streams in order. It parses every tag before it
/// rejects those a master playlist cannot hold, and some of those parsers, as
/// well as the unquoting of a lone `"` value, panic; such text is left out.
#[verifier::external_body]
fn parse_master(text: &str) -> (r: Option<Vec<Variant>>)
    requires
        !kept_from_parser(text@),
    ensures
        variants_view(r) == master_variants(text@),
{
    let playlist = hls_m3u8::MasterPlaylist::try_from(text).ok()?;
    Some(playlist.variant_streams.into_iter().map(|v| match v {
        VariantStream::ExtXIFrame { uri, stream_data } =>
            Variant { iframe: true, uri: uri.to_string(), height: stream_data.resolution().map(|r| r.height()) },
        VariantStream::ExtXStreamInf { uri, stream_data, .. } =>
            Variant { iframe: false, uri: uri.to_string(), height: stream_data.resolution().map(|r| r.height()) },
    }).collect())
}

/// The variants of the master playlist that `text` holds; `None` where it is
/// none. Text kept from the parser counts as none: without the header or with
/// a tag of segments it can be no master playlist, and a lone `"` value is
/// malformed.
pub open spec fn playlist_variants(text: Seq<char>) -> Option<Seq<(bool, Seq<char>, Option<usize>)>> {
    if kept_from_parser(text) {
        None
    } else {
        master_variants(text)
    }
}

/// The variants of the master playlist that `text` holds, if it is one.
pub fn master_playlist(text: &str) -> (r: Option<Vec<Variant>>)
    ensures
        variants_view(r) == playlist_variants(text@),
{
    if keep_from_parser(text) {
        None
    } else {
        parse_master(text)
    }
}

/// Whether `text` parses as a master playlist.
pub fn is_master_playlist(text: &str) -> (r: bool)
    ensures
        r == playlist_variants(text@) is Some,
{
    master_playlist(text).is_some()
}

/// The label of a variant of the given height, such as `720p`.
pub open spec fn quality_label(height: nat) -> Seq<char> {
    decimal_spec(height) + seq!['p']
}

/// The stream for one variant, with its URI resolved against `base`.
pub open spec fn variant_stream(base: Seq<char>, v: (bool, Seq<char>, Option<usize>)) -> Result<(Seq<char>, Seq<char>), ResolveError> {
    if v.0 || v.2 is None {
        Err(ResolveError::UnsupportedVariant)
    } else {
        match joined_url(base, v.1) {
            Some(u) => Ok((u, quality_label(v.2->0 as nat))),
            None => Err(ResolveError::InvalidUrl),
        }
    }
}

/// The streams for all variants, in order; the first failing variant decides
/// the error.
pub open spec fn variant_streams(base: Seq<char>, vs: Seq<(bool, Seq<char>, Option<usize>)>) -> Result<Seq<(Seq<char>, Seq<char>)>, ResolveError>
    decreases vs.len(),
{
    if vs.len() == 0 {
        Ok(Seq::empty())
    } else {
        match variant_streams(base, vs.drop_last()) {
            Err(e) => Err(e),
            Ok(s) => match variant_stream(base, vs.last()) {
                Err(e) => Err(e),
                Ok(x) => Ok(s.push(x)),
            },
        }
    }
}

pub open spec fn streams_view(r: Result<Vec<Stream>, ResolveError>) -> Result<Seq<(Seq<char>, Seq<char>)>, ResolveError> {
    match r {
        Ok(v) => Ok(v@.map_values(|s: Stream| s@)),
        Err(e) => Err(e),
    }
}

proof fn lemma_error_stays(base: Seq<char>, vs: Seq<(bool, Seq<char>, Option<usize>)>, k: int, n: int)
    requires
        0 <= k <= n <= vs.len(),
        variant_streams(base, vs.take(k)) is Err,
    ensures
        variant_streams(base, vs.take(n)) == variant_streams(base, vs.take(k)),
    decreases n - k,
{
    if n > k {
        lemma_error_stays(base, vs, k, n - 1);
        assert(vs.take(n).drop_last() =~= vs.take(n - 1));
    }
}

/// One stream per variant, its URI resolved against `base` and labelled
/// with its height; an I-frame-only variant or one without a resolution
/// fails the whole list.
pub fn streams_from_variants(base: &str, variants: &Vec<Variant>) -> (r: Result<Vec<Stream>, ResolveError>)
    ensures
        streams_view(r) == variant_streams(base@, variants@.map_values(|x: Variant| x@)),
{
    let ghost vs = variants@.map_values(|x: Variant| x@);
    let mut out: Vec<Stream> = Vec::new();
    let mut i: usize = 0;
    proof {
        reveal_strlit("p");
        assert(vs.take(0) =~= Seq::<(bool, Seq<char>, Option<usize>)>::empty());
        assert(out@.map_values(|s: Stream| s@) =~= Seq::<(Seq<char>, Seq<char>)>::empty());
    }
    while i < variants.len()
        invariant
            i <= variants@.len(),
            vs == variants@.map_values(|x: Variant| x@),
            variant_streams(base@, vs.take(i as int)) == Ok::<Seq<(Seq<char>, Seq<char>)>, ResolveError>(
                out@.map_values(|s: Stream| s@),
            ),
        decreases variants@.len() - i,
    {
        let v = &variants[i];
        assert(vs.take(i + 1).drop_last() =~= vs.take(i as int));
        assert(vs.take(i + 1).last() == v@);
        let ghost next = vs.take(i + 1);
        if v.iframe || v.height.is_none() {
            proof {
                lemma_error_stays(base@, vs, i + 1, vs.len() as int);
                assert(vs.take(vs.len() as int) =~= vs);
            }
            return Err(ResolveError::UnsupportedVariant);
        }
        let height = match v.height {
            Some(h) => h,
            None => 0,
        };
        let url = match resolve_url(base, v.uri.as_str()) {
            Some(u) => u,
            None => {
                proof {
                    lemma_error_stays(base@, vs, i + 1, vs.len() as int);
                    assert(vs.take(vs.len() as int) =~= vs);
                }
                return Err(ResolveError::InvalidUrl);
            },
        };
        let quality = decimal(height).concat("p");
        proof {
            reveal_strlit("p");
        }
        assert(quality@ =~= quality_label(height as nat));
        assert(variant_stream(base@, v@) == Ok::<(Seq<char>, Seq<char>), ResolveError>((url@, quality@)));
        let ghost before = out@.map_values(|s: Stream| s@);
        out.push(Stream { url, quality });
        assert(out@.map_values(|s: Stream| s@) =~= before.push((url@, quality@)));
        i = i + 1;
    }
    assert(vs.take(i as int) =~= vs);
    Ok(out)
}

/// The label of a stream that is no master playlist.
pub open spec fn unknown_label() -> Seq<char> {
    seq!['U', 'n', 'k', 'n', 'o', 'w', 'n']
}

/// Turns resolved media into streams. Media that is no master playlist gives
/// one stream, its URL unchanged, labelled `Unknown`; a master playlist, whose
/// text is `playlist`, gives one stream per variant.
pub fn interpret(media: &ResolvedMedia, playlist: &str) -> (r: Result<Vec<Stream>, ResolveError>)
    ensures
        !media.master ==> streams_view(r) == Ok::<Seq<(Seq<char>, Seq<char>)>, ResolveError>(
            seq![(media.url@, unknown_label())],
        ),
        media.master ==> match playlist_variants(playlist@) {
            Some(vs) => streams_view(r) == variant_streams(media.url@, vs),
            None => r == Err::<Vec<Stream>, ResolveError>(ResolveError::PlaylistParseFailure),
        },
{
    if !media.master {
        proof {
            reveal_strlit("Unknown");
        }
        let s = Stream { url: String::from_str(media.url.as_str()), quality: String::from_str("Unknown") };
        assert(s.quality@ =~= unknown_label());
        let mut out: Vec<Stream> = Vec::new();
        out.push(s);
        assert(out@.map_values(|s: Stream| s@) =~= seq![(media.url@, unknown_label())]);
        return Ok(out);
    }
    match master_playlist(playlist) {
        Some(vs) => streams_from_variants(media.url.as_str(), &vs),
        None => Err(ResolveError::PlaylistParseFailure),
    }
}

} // verus!
