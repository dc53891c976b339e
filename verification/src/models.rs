//! The catalogue's answer to a media query, as plain data.

use vstd::prelude::*;
use crate::text::{copy_optional_text, copy_texts, optional_text, texts};

verus! {

/// A reply of the catalogue.
#[derive(Debug, Clone)]
pub struct AniListResponse {
    pub data: Data,
}

/// What a reply can hold; each part is there only where it was asked for.
#[derive(Debug, Clone)]
pub struct Data {
    pub page: Option<Page>,
    pub viewer: Option<User>,
    pub saved_entry: Option<MediaListEntry>,
    pub media_list: Option<MediaListEntry>,
}

#[derive(Debug, Clone)]
pub struct Page {
    pub page_info: PageInfo,
    pub media: Vec<Media>,
}

#[derive(Debug, Clone, Copy)]
pub struct PageInfo {
    pub total: i32,
    pub current_page: i32,
    pub has_next_page: bool,
}

#[derive(Debug)]
pub struct Media {
    pub id: i32,
    pub title: MediaTitle,
    pub cover_image: Option<CoverImage>,
    pub episodes: Option<i32>,
    pub description: Option<String>,
    pub average_score: Option<i32>,
    pub genres: Vec<String>,
    pub studios: Option<StudioConnection>,
    pub trailer: Option<Trailer>,
}

#[derive(Debug)]
pub struct Trailer {
    pub id: Option<String>,
    pub site: Option<String>,
}

#[derive(Debug)]
pub struct MediaTitle {
    pub romaji: Option<String>,
    pub english: Option<String>,
    pub native: Option<String>,
}

#[derive(Debug)]
pub struct CoverImage {
    pub extra_large: Option<String>,
    pub large: Option<String>,
    pub medium: Option<String>,
}

#[derive(Debug)]
pub struct StudioConnection {
    pub nodes: Vec<Studio>,
}

#[derive(Debug)]
pub struct Studio {
    pub name: String,
}

#[derive(Debug, Clone)]
pub struct User {
    pub id: i32,
    pub name: String,
}

/// A show on a user's list.
#[derive(Debug, Clone)]
pub struct MediaListEntry {
    pub id: Option<i32>,
    pub media_id: Option<i32>,
    pub status: Option<String>,
    /// The number of the last episode seen.
    pub progress: Option<i32>,
    /// The user's score, as the bits of a number in double precision.
    pub score_bits: Option<u64>,
}

/// The title to show: English first, then romaji, then native, and a fixed
/// stand-in when none is known.
pub open spec fn preferred_title_of(title: MediaTitleView) -> Seq<char> {
    match title.english {
        Some(english) => english,
        None => match title.romaji {
            Some(romaji) => romaji,
            None => match title.native {
                Some(native) => native,
                None => "Unknown Title"@,
            },
        },
    }
}

impl Media {
    /// The title under which this entry is listed.
    pub fn preferred_title(&self) -> (title: &str)
        ensures
            title@ == preferred_title_of(self@.title),
    {
        match &self.title.english {
            Some(english) => english.as_str(),
            None => match &self.title.romaji {
                Some(romaji) => romaji.as_str(),
                None => match &self.title.native {
                    Some(native) => native.as_str(),
                    None => "Unknown Title",
                },
            },
        }
    }
}

/// What a [`Trailer`] holds.
pub struct TrailerView {
    pub id: Option<Seq<char>>,
    pub site: Option<Seq<char>>,
}

/// What a [`MediaTitle`] holds.
pub struct MediaTitleView {
    pub romaji: Option<Seq<char>>,
    pub english: Option<Seq<char>>,
    pub native: Option<Seq<char>>,
}

/// What a [`CoverImage`] holds.
pub struct CoverImageView {
    pub extra_large: Option<Seq<char>>,
    pub large: Option<Seq<char>>,
    pub medium: Option<Seq<char>>,
}

/// What a [`Media`] holds.
pub struct MediaView {
    pub id: i32,
    pub title: MediaTitleView,
    pub cover_image: Option<CoverImageView>,
    pub episodes: Option<i32>,
    pub description: Option<Seq<char>>,
    pub average_score: Option<i32>,
    pub genres: Seq<Seq<char>>,
    /// The names of the studios, where they are known.
    pub studios: Option<Seq<Seq<char>>>,
    pub trailer: Option<TrailerView>,
}

impl View for Trailer {
    type V = TrailerView;

    open spec fn view(&self) -> TrailerView {
        TrailerView { id: optional_text(self.id), site: optional_text(self.site) }
    }
}

impl View for MediaTitle {
    type V = MediaTitleView;

    open spec fn view(&self) -> MediaTitleView {
        MediaTitleView {
            romaji: optional_text(self.romaji),
            english: optional_text(self.english),
            native: optional_text(self.native),
        }
    }
}

impl View for CoverImage {
    type V = CoverImageView;

    open spec fn view(&self) -> CoverImageView {
        CoverImageView {
            extra_large: optional_text(self.extra_large),
            large: optional_text(self.large),
            medium: optional_text(self.medium),
        }
    }
}

impl View for Studio {
    type V = Seq<char>;

    open spec fn view(&self) -> Seq<char> {
        self.name@
    }
}

impl View for StudioConnection {
    type V = Seq<Seq<char>>;

    open spec fn view(&self) -> Seq<Seq<char>> {
        self.nodes@.map_values(|studio: Studio| studio@)
    }
}

impl View for Media {
    type V = MediaView;

    open spec fn view(&self) -> MediaView {
        MediaView {
            id: self.id,
            title: self.title@,
            cover_image: match self.cover_image {
                Some(cover) => Some(cover@),
                None => None,
            },
            episodes: self.episodes,
            description: optional_text(self.description),
            average_score: self.average_score,
            genres: texts(self.genres@),
            studios: match self.studios {
                Some(studios) => Some(studios@),
                None => None,
            },
            trailer: match self.trailer {
                Some(trailer) => Some(trailer@),
                None => None,
            },
        }
    }
}

/// What an optional media entry holds.
pub open spec fn optional_media(media: Option<Media>) -> Option<MediaView> {
    match media {
        Some(m) => Some(m@),
        None => None,
    }
}

/// What a list of media entries holds.
pub open spec fn media_views(list: Seq<Media>) -> Seq<MediaView> {
    list.map_values(|media: Media| media@)
}

impl Clone for Trailer {
    fn clone(&self) -> (copy: Trailer)
        ensures
            copy@ == self@,
    {
        Trailer { id: copy_optional_text(&self.id), site: copy_optional_text(&self.site) }
    }
}

impl Clone for MediaTitle {
    fn clone(&self) -> (copy: MediaTitle)
        ensures
            copy@ == self@,
    {
        MediaTitle {
            romaji: copy_optional_text(&self.romaji),
            english: copy_optional_text(&self.english),
            native: copy_optional_text(&self.native),
        }
    }
}

impl Clone for CoverImage {
    fn clone(&self) -> (copy: CoverImage)
        ensures
            copy@ == self@,
    {
        CoverImage {
            extra_large: copy_optional_text(&self.extra_large),
            large: copy_optional_text(&self.large),
            medium: copy_optional_text(&self.medium),
        }
    }
}

impl Clone for Studio {
    fn clone(&self) -> (copy: Studio)
        ensures
            copy@ == self@,
    {
        Studio { name: self.name.clone() }
    }
}

impl Clone for StudioConnection {
    fn clone(&self) -> (copy: StudioConnection)
        ensures
            copy@ == self@,
    {
        let mut nodes: Vec<Studio> = Vec::new();
        let mut i: usize = 0;
        while i < self.nodes.len()
            invariant
                i <= self.nodes@.len(),
                nodes@.len() == i,
                forall|k: int| 0 <= k < i ==> (#[trigger] nodes@[k])@ == self.nodes@[k]@,
            decreases self.nodes@.len() - i,
        {
            nodes.push(self.nodes[i].clone());
            i += 1;
        }
        let copy = StudioConnection { nodes };
        assert(copy@ =~= self@);
        copy
    }
}

impl Clone for Media {
    fn clone(&self) -> (copy: Media)
        ensures
            copy@ == self@,
    {
        Media {
            id: self.id,
            title: self.title.clone(),
            cover_image: match &self.cover_image {
                Some(cover) => Some(cover.clone()),
                None => None,
            },
            episodes: self.episodes,
            description: copy_optional_text(&self.description),
            average_score: self.average_score,
            genres: copy_texts(&self.genres),
            studios: match &self.studios {
                Some(studios) => Some(studios.clone()),
                None => None,
            },
            trailer: match &self.trailer {
                Some(trailer) => Some(trailer.clone()),
                None => None,
            },
        }
    }
}

} // verus!
