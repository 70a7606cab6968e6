use vstd::prelude::*;

verus! {

/// Whether the title is a single film or one episode of a series.
#[derive(Clone, Copy, Debug, PartialEq, Eq, Structural)]
pub enum MediaType {
    Series,
    Movie,
}

/// Why a resolution failed.
#[derive(Clone, Copy, Debug, PartialEq, Eq, Structural)]
pub enum ResolveError {
    /// A series id that is not `externalId:season:episode`.
    MalformedInput,
    /// A step of the direct pipeline found no element, attribute or pattern.
    ExtractionFailure,
    /// The browser could not load a page.
    NavigationFailure,
    /// The browser found no element for a selector.
    ElementNotFound,
    /// No media request was observed within the waiting bound.
    ObservationTimeout,
    /// A playlist variant that cannot be played on its own.
    UnsupportedVariant,
    /// A playlist that parsed as master before no longer parses.
    PlaylistParseFailure,
    /// A reference that does not resolve to a URL.
    InvalidUrl,
}

/// One playable stream and its quality label.
#[derive(Clone, Debug)]
pub struct Stream {
    pub url: String,
    pub quality: String,
}

impl View for Stream {
    type V = (Seq<char>, Seq<char>);

    open spec fn view(&self) -> (Seq<char>, Seq<char>) {
        (self.url@, self.quality@)
    }
}

/// The media URL that a pipeline resolved, and whether its content is a
/// master playlist.
#[derive(Clone, Debug)]
pub struct ResolvedMedia {
    pub url: String,
    pub master: bool,
}

impl View for ResolvedMedia {
    type V = (Seq<char>, bool);

    open spec fn view(&self) -> (Seq<char>, bool) {
        (self.url@, self.master)
    }
}

/// The view of an optional text.
pub open spec fn opt_view(o: Option<String>) -> Option<Seq<char>> {
    match o {
        Some(s) => Some(s@),
        None => None,
    }
}

/// The view of a text or an error.
pub open spec fn text_result(r: Result<String, ResolveError>) -> Result<Seq<char>, ResolveError> {
    match r {
        Ok(s) => Ok(s@),
        Err(e) => Err(e),
    }
}

} // verus!
