//! The provider's answers, as plain data.

use vstd::prelude::*;

verus! {

#[derive(Debug)]
pub struct AllAnimeResponse<T> {
    pub data: T,
}

#[derive(Debug)]
pub struct SearchResultData {
    pub shows: ShowsConnection,
}

#[derive(Debug)]
pub struct ShowsConnection {
    pub edges: Vec<ShowEdge>,
}

#[derive(Debug)]
pub struct ShowEdge {
    pub id: String,
    pub name: String,
    pub available_episodes: AvailableEpisodes,
}

#[derive(Debug)]
pub struct AvailableEpisodes {
    pub sub: usize,
    pub dub: usize,
    pub raw: usize,
}

#[derive(Debug)]
pub struct EpisodeResultData {
    /// Absent when the provider knows no such episode.
    pub episode: Option<EpisodeData>,
}

#[derive(Debug)]
pub struct EpisodeData {
    pub source_urls: Vec<SourceUrl>,
}

/// One way to obtain an episode: a label and a reference still to be
/// turned into a playable address.
#[derive(Debug)]
pub struct SourceUrl {
    pub source_name: String,
    pub source_url: String,
}

#[derive(Debug)]
pub struct GogoStreamResponse {
    pub links: Vec<GogoLink>,
}

#[derive(Debug)]
pub struct GogoLink {
    pub link: String,
    pub resolution: String,
}

} // verus!
