//! Resolves playable video streams for a title identifier.

mod direct;
mod extract;
mod model;
mod observe;
mod playlist;
mod resolve;
mod scan;
mod screen;
mod target;
mod text;
mod web;

pub use direct::{DirectFetch, DirectStage, DirectStep, iframe_url, intermediate_url, media_url};
pub use extract::{find_intermediate_path, find_media_url, lemma_decoy_skipped};
pub use model::{MediaType, ResolveError, ResolvedMedia, Stream};
pub use observe::{ObservationSlot, absolute_iframe_url, lemma_unobserved_wait_times_out, observation, should_observe, wait_outcome};
pub use playlist::{Variant, interpret, is_master_playlist, master_playlist, streams_from_variants};
pub use resolve::{Action, Event, Phase, Resolution, lemma_fallback_runs_browser_once};
pub use screen::keep_from_parser;
pub use target::{build_target, target_spec, lemma_target_of_fields, lemma_series_needs_two_colons};
pub use text::{chars_of, decimal};
