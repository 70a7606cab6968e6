use vstd::prelude::*;
use vstd::string::*;
use crate::extract::{find_intermediate_path, find_media_url, intermediate_path, media_url_spec};
use crate::model::{ResolveError, ResolvedMedia, text_result};
use crate::playlist::{is_master_playlist, playlist_variants};
use crate::web::{first_attr, joined_url, resolve_url, select_attr};

verus! {

/// The CSS selector of the player iframe, `iframe#player_iframe`.
pub open spec fn player_selector() -> Seq<char> {
    seq!['i', 'f', 'r', 'a', 'm', 'e', '#', 'p', 'l', 'a', 'y', 'e', 'r', '_', 'i', 'f', 'r', 'a', 'm', 'e']
}

pub open spec fn src_attr() -> Seq<char> {
    seq!['s', 'r', 'c']
}

/// The player iframe's URL, its `src` resolved against the embed page's URL.
pub open spec fn iframe_url_spec(page: Seq<char>, html: Seq<char>) -> Result<Seq<char>, ResolveError> {
    match first_attr(html, player_selector(), src_attr()) {
        Some(src) => match joined_url(page, src) {
            Some(u) => Ok(u),
            None => Err(ResolveError::ExtractionFailure),
        },
        None => Err(ResolveError::ExtractionFailure),
    }
}

/// The intermediate page's URL, its path resolved against the iframe's URL.
pub open spec fn intermediate_url_spec(iframe: Seq<char>, text: Seq<char>) -> Result<Seq<char>, ResolveError> {
    match intermediate_path(text) {
        Some(p) => match joined_url(iframe, p) {
            Some(u) => Ok(u),
            None => Err(ResolveError::ExtractionFailure),
        },
        None => Err(ResolveError::ExtractionFailure),
    }
}

pub open spec fn media_url_result(text: Seq<char>) -> Result<Seq<char>, ResolveError> {
    match media_url_spec(text) {
        Some(m) => Ok(m),
        None => Err(ResolveError::ExtractionFailure),
    }
}

/// Reads the player iframe's URL from the embed page.
pub fn iframe_url(page_url: &str, html: &str) -> (r: Result<String, ResolveError>)
    ensures
        text_result(r) == iframe_url_spec(page_url@, html@),
{
    proof {
        reveal_strlit("iframe#player_iframe");
        reveal_strlit("src");
    }
    assert("iframe#player_iframe"@ =~= player_selector());
    assert("src"@ =~= src_attr());
    match select_attr(html, "iframe#player_iframe", "src") {
        Some(src) => match resolve_url(page_url, src.as_str()) {
            Some(u) => Ok(u),
            None => Err(ResolveError::ExtractionFailure),
        },
        None => Err(ResolveError::ExtractionFailure),
    }
}

/// Reads the intermediate page's URL from the iframe's text.
pub fn intermediate_url(iframe: &str, text: &str) -> (r: Result<String, ResolveError>)
    ensures
        text_result(r) == intermediate_url_spec(iframe@, text@),
{
    match find_intermediate_path(text) {
        Some(p) => match resolve_url(iframe, p.as_str()) {
            Some(u) => Ok(u),
            None => Err(ResolveError::ExtractionFailure),
        },
        None => Err(ResolveError::ExtractionFailure),
    }
}

/// Reads the media URL from the intermediate page's text.
pub fn media_url(text: &str) -> (r: Result<String, ResolveError>)
    ensures
        text_result(r) == media_url_result(text@),
{
    match find_media_url(text) {
        Some(m) => Ok(m),
        None => Err(ResolveError::ExtractionFailure),
    }
}

/// Which page the direct pipeline waits for.
#[derive(Clone, Copy, Debug, PartialEq, Eq, Structural)]
pub enum DirectStage {
    Embed,
    Iframe,
    Intermediate,
    Media,
    Finished,
}

/// What the direct pipeline asks for next.
#[derive(Clone, Debug)]
pub enum DirectStep {
    /// Fetch this URL and hand its body back.
    Fetch(String),
    /// The pipeline resolved the media.
    Resolved(ResolvedMedia),
    /// The pipeline failed.
    Failed(ResolveError),
}

pub enum DirectStepView {
    Fetch(Seq<char>),
    Resolved(Seq<char>, bool),
    Failed(ResolveError),
}

impl View for DirectStep {
    type V = DirectStepView;

    open spec fn view(&self) -> DirectStepView {
        match self {
            DirectStep::Fetch(u) => DirectStepView::Fetch(u@),
            DirectStep::Resolved(m) => DirectStepView::Resolved(m.url@, m.master),
            DirectStep::Failed(e) => DirectStepView::Failed(*e),
        }
    }
}

/// The walk through the pages: the stage and URL after the body of `url`
/// arrived at `stage`, and the step asked for.
pub open spec fn direct_next(stage: DirectStage, url: Seq<char>, body: Seq<char>) -> (DirectStage, Seq<char>, DirectStepView) {
    let advance = |r: Result<Seq<char>, ResolveError>, next: DirectStage|
        match r {
            Ok(u) => (next, u, DirectStepView::Fetch(u)),
            Err(e) => (DirectStage::Finished, url, DirectStepView::Failed(e)),
        };
    match stage {
        DirectStage::Embed => advance(iframe_url_spec(url, body), DirectStage::Iframe),
        DirectStage::Iframe => advance(intermediate_url_spec(url, body), DirectStage::Intermediate),
        DirectStage::Intermediate => advance(media_url_result(body), DirectStage::Media),
        DirectStage::Media => (
            DirectStage::Finished,
            url,
            DirectStepView::Resolved(url, playlist_variants(body) is Some),
        ),
        DirectStage::Finished => (
            DirectStage::Finished,
            url,
            DirectStepView::Failed(ResolveError::ExtractionFailure),
        ),
    }
}

/// The direct pipeline: fetches the embed page, the iframe, the intermediate
/// page and the media in turn, using no script.
pub struct DirectFetch {
    pub stage: DirectStage,
    /// The URL whose body the pipeline waits for.
    pub url: String,
}

impl DirectFetch {
    /// Starts at the embed page `target`.
    pub fn new(target: &str) -> (r: DirectFetch)
        ensures
            r.stage == DirectStage::Embed,
            r.url@ == target@,
    {
        DirectFetch { stage: DirectStage::Embed, url: String::from_str(target) }
    }

    /// Takes the body of the URL waited for and says what comes next.
    pub fn on_body(&mut self, body: &str) -> (r: DirectStep)
        ensures
            (final(self).stage, final(self).url@, r@) == direct_next(
                old(self).stage,
                old(self).url@,
                body@,
            ),
    {
        let found = match self.stage {
            DirectStage::Embed => iframe_url(self.url.as_str(), body),
            DirectStage::Iframe => intermediate_url(self.url.as_str(), body),
            DirectStage::Intermediate => media_url(body),
            DirectStage::Media => {
                let master = is_master_playlist(body);
                self.stage = DirectStage::Finished;
                return DirectStep::Resolved(
                    ResolvedMedia { url: String::from_str(self.url.as_str()), master },
                );
            },
            DirectStage::Finished => {
                return DirectStep::Failed(ResolveError::ExtractionFailure);
            },
        };
        match found {
            Ok(u) => {
                self.stage = match self.stage {
                    DirectStage::Embed => DirectStage::Iframe,
                    DirectStage::Iframe => DirectStage::Intermediate,
                    _ => DirectStage::Media,
                };
                self.url = String::from_str(u.as_str());
                DirectStep::Fetch(u)
            },
            Err(e) => {
                self.stage = DirectStage::Finished;
                DirectStep::Failed(e)
            },
        }
    }

    /// A fetch failed: the pipeline fails, with no retry.
    pub fn on_fetch_error(&mut self) -> (r: DirectStep)
        ensures
            final(self).stage == DirectStage::Finished,
            final(self).url == old(self).url,
            r@ == DirectStepView::Failed(ResolveError::ExtractionFailure),
    {
        self.stage = DirectStage::Finished;
        DirectStep::Failed(ResolveError::ExtractionFailure)
    }
}

} // verus!
