use vstd::prelude::*;
use vstd::string::*;
use crate::model::{ResolveError, ResolvedMedia};
use crate::playlist::{is_master_playlist, playlist_variants};
use crate::scan::{occurs_at, occurs_at_exec};
use crate::text::chars_of;

verus! {

/// The substring that marks a request worth observing.
pub open spec fn playlist_marker() -> Seq<char> {
    seq!['m', '3', 'u', '8']
}

/// Whether `url` contains `m3u8`.
pub open spec fn names_playlist(url: Seq<char>) -> bool {
    exists|i: int| occurs_at(url, i, playlist_marker())
}

/// Whether the observer taps a request to `url`: those that contain `m3u8`.
pub fn should_observe(url: &str) -> (r: bool)
    ensures
        r == names_playlist(url@),
{
    let cs = chars_of(url);
    let marker: Vec<char> = vec!['m', '3', 'u', '8'];
    assert(marker@ =~= playlist_marker());
    let mut i: usize = 0;
    while i < cs.len()
        invariant
            marker@ == playlist_marker(),
            cs@ == url@,
            i <= cs@.len(),
            forall|j: int| 0 <= j < i ==> !occurs_at(cs@, j, playlist_marker()),
        decreases cs@.len() - i,
    {
        if occurs_at_exec(&cs, i, &marker) {
            return true;
        }
        i = i + 1;
    }
    assert forall|j: int| !occurs_at(cs@, j, playlist_marker()) by {
        if 0 <= j < i {
        }
    }
    false
}

/// What the observer publishes for a tapped request: its URL, and whether the
/// body fetched from it parses as a master playlist.
pub fn observation(url: String, body: &str) -> (r: ResolvedMedia)
    requires
        names_playlist(url@),
    ensures
        r.url == url,
        r.master == playlist_variants(body@) is Some,
{
    let master = is_master_playlist(body);
    ResolvedMedia { url, master }
}

/// A player iframe's `src` made absolute: a protocol-relative value (one that
/// starts with `//`) gets the `http:` scheme; any other stays as it is.
pub open spec fn absolute_src(src: Seq<char>) -> Seq<char> {
    if src.len() >= 2 && src[0] == '/' && src[1] == '/' {
        seq!['h', 't', 't', 'p', ':'] + src
    } else {
        src
    }
}

pub fn absolute_iframe_url(src: &str) -> (r: String)
    ensures
        r@ == absolute_src(src@),
{
    let cs = chars_of(src);
    if cs.len() >= 2 && cs[0] == '/' && cs[1] == '/' {
        proof {
            reveal_strlit("http:");
        }
        let r = String::from_str("http:").concat(src);
        assert(r@ =~= absolute_src(src@));
        r
    } else {
        String::from_str(src)
    }
}

/// The one place where the observer hands the waiting caller what it saw:
/// the latest observation, until the caller takes it. What it holds is a
/// request whose URL contains `m3u8`.
pub struct ObservationSlot {
    latest: Option<ResolvedMedia>,
}

impl ObservationSlot {
    /// The latest observation not yet taken.
    pub closed spec fn latest(&self) -> Option<ResolvedMedia> {
        self.latest
    }

    #[verifier::type_invariant]
    spec fn holds_playlist_requests(&self) -> bool {
        self.latest matches Some(m) ==> names_playlist(m.url@)
    }

    pub fn new() -> (r: ObservationSlot)
        ensures
            r.latest() is None,
    {
        ObservationSlot { latest: None }
    }

    /// Whether nothing has been published since the slot was made or last
    /// taken from.
    pub fn is_empty(&self) -> (r: bool)
        ensures
            r == self.latest() is None,
    {
        self.latest.is_none()
    }

    /// Publishes an observation of a playlist request; it replaces any
    /// earlier one.
    pub fn publish(&mut self, media: ResolvedMedia)
        requires
            names_playlist(media.url@),
        ensures
            final(self).latest() == Some(media),
    {
        self.latest = Some(media);
    }

    /// Reads the latest observation and clears the slot.
    pub fn take(&mut self) -> (r: Option<ResolvedMedia>)
        ensures
            r == old(self).latest(),
            final(self).latest() is None,
            r matches Some(m) ==> names_playlist(m.url@),
    {
        proof {
            use_type_invariant(&*self);
        }
        let r = match &self.latest {
            Some(m) => Some(ResolvedMedia { url: m.url.clone(), master: m.master }),
            None => None,
        };
        self.latest = None;
        r
    }
}

/// How the bounded wait ends, from what the slot held when it ended.
pub open spec fn wait_outcome_spec(observed: Option<ResolvedMedia>) -> Result<ResolvedMedia, ResolveError> {
    match observed {
        Some(m) => Ok(m),
        None => Err(ResolveError::ObservationTimeout),
    }
}

/// Ends the bounded wait: an observation resolves the media; none at all is
/// a timeout.
pub fn wait_outcome(observed: Option<ResolvedMedia>) -> (r: Result<ResolvedMedia, ResolveError>)
    ensures
        r == wait_outcome_spec(observed),
{
    match observed {
        Some(m) => Ok(m),
        None => Err(ResolveError::ObservationTimeout),
    }
}

/// A wait that ends on a slot to which nothing was published fails with
/// `ObservationTimeout` and yields no media; one that ends on a published
/// observation yields it.
pub proof fn lemma_unobserved_wait_times_out(slot: ObservationSlot)
    ensures
        slot.latest() is None ==> wait_outcome_spec(slot.latest()) == Err::<ResolvedMedia, ResolveError>(
            ResolveError::ObservationTimeout,
        ),
        slot.latest() is Some ==> wait_outcome_spec(slot.latest()) == Ok::<ResolvedMedia, ResolveError>(
            slot.latest()->0,
        ),
{
}

} // verus!
