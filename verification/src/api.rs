//! The catalogue's interface: its address, its queries and how its replies
//! are read.

use vstd::prelude::*;
use vstd::string::StringExecFns;
use rand::seq::SliceRandom;
use crate::models::{AniListResponse, MediaListEntry, User};
use crate::text::{contains, contains_text};

verus! {

/// Where the catalogue answers.
pub const ANILIST_URL: &'static str = "https://graphql.anilist.co";

/// The query that lists media by search text, identifiers and sort order.
pub const SEARCH_QUERY: &'static str = "\nquery ($search: String, $perPage: Int, $page: Int, $sort: [MediaSort], $id_in: [Int]) {\n  Page(perPage: $perPage, page: $page) {\n    pageInfo { total, currentPage, hasNextPage }\n    media(search: $search, id_in: $id_in, sort: $sort, type: ANIME) {\n      id\n      title { romaji, english, native }\n      coverImage { large }\n      episodes\n      averageScore\n      genres\n      description\n      studios { nodes { name } }\n      trailer { id, site }\n    }\n  }\n}\n";

/// The query that asks who the token belongs to.
pub const VIEWER_QUERY: &'static str = "\nquery {\n  Viewer {\n    id\n    name\n  }\n}\n";

/// The mutation that records progress on the user's list.
pub const SAVE_PROGRESS_MUTATION: &'static str = "\nmutation ($mediaId: Int, $progress: Int, $status: MediaListStatus) {\n  SaveMediaListEntry(mediaId: $mediaId, progress: $progress, status: $status) {\n    id\n    mediaId\n    status\n    progress\n    score\n  }\n}\n";

/// The query that reads the progress recorded on a user's list.
pub const GET_PROGRESS_QUERY: &'static str = "\nquery ($mediaId: Int, $userName: String) {\n  MediaList(mediaId: $mediaId, userName: $userName, type: ANIME) {\n    progress\n    status\n  }\n}\n";

/// The value of the authorization header for `token`.
pub open spec fn bearer_text(token: Seq<char>) -> Seq<char> {
    "Bearer "@ + token
}

/// Computes [`bearer_text`].
pub fn bearer(token: &str) -> (header: String)
    ensures
        header@ == bearer_text(token@),
{
    let mut header = "Bearer ".to_owned();
    header.append(token);
    header
}

/// Whether a reply to the progress query says that the show is not on the
/// user's list: the request did not succeed, or the body reports an error
/// and says that nothing was found.
pub open spec fn reports_no_entry(success: bool, body: Seq<char>) -> bool {
    !success || (contains_text(body, "\"errors\""@) && contains_text(body, "Not Found"@))
}

/// Computes [`reports_no_entry`]. Where it is false, the body holds the
/// entry and is worth parsing.
pub fn reply_reports_no_entry(success: bool, body: &str) -> (missing: bool)
    ensures
        missing == reports_no_entry(success, body@),
{
    !success || (contains(body, "\"errors\"") && contains(body, "Not Found"))
}

/// What a reply of the catalogue can lack.
#[derive(Debug, Clone, Copy, PartialEq, Eq, Structural)]
pub enum ApiError {
    /// The reply names no viewer.
    NoViewer,
    /// The reply holds no saved entry.
    NotSaved,
}

impl ApiError {
    /// The error in words.
    pub fn message(&self) -> (text: &'static str)
        ensures
            text@ == match self {
                ApiError::NoViewer => "No Viewer data found in response"@,
                ApiError::NotSaved => "Failed to save entry"@,
            },
    {
        match self {
            ApiError::NoViewer => "No Viewer data found in response",
            ApiError::NotSaved => "Failed to save entry",
        }
    }
}

/// The user that a reply to the viewer query names.
pub fn viewer_of(response: AniListResponse) -> (viewer: Result<User, ApiError>)
    ensures
        match viewer {
            Ok(user) => response.data.viewer == Some(user),
            Err(error) => response.data.viewer is None && error == ApiError::NoViewer,
        },
{
    match response.data.viewer {
        Some(user) => Ok(user),
        None => Err(ApiError::NoViewer),
    }
}

/// The entry that a reply to the mutation confirms.
pub fn saved_entry_of(response: AniListResponse) -> (entry: Result<MediaListEntry, ApiError>)
    ensures
        match entry {
            Ok(saved) => response.data.saved_entry == Some(saved),
            Err(error) => response.data.saved_entry is None && error == ApiError::NotSaved,
        },
{
    match response.data.saved_entry {
        Some(saved) => Ok(saved),
        None => Err(ApiError::NotSaved),
    }
}

/// The progress that a reply to the progress query reports: none where the
/// show is not on the list or the entry records none.
pub fn recorded_progress(response: &AniListResponse) -> (progress: Option<i32>)
    ensures
        progress == match response.data.media_list {
            Some(entry) => entry.progress,
            None => None,
        },
{
    match &response.data.media_list {
        Some(entry) => entry.progress,
        None => None,
    }
}

/// The catalogue's identifiers are drawn from one up to, but not including,
/// this number.
pub const MEDIA_ID_LIMIT: i32 = 18000;

/// Draws with `SliceRandom::choose_multiple` of `rand`, which picks `amount`
/// items of the slice at places that are all different, or all items where
/// the slice has fewer. Which places, and in what order, is left to chance.
#[verifier::external_body]
fn choose_some(pool: &Vec<i32>, amount: usize) -> (chosen: Vec<i32>)
    ensures
        chosen@.len() == if amount <= pool@.len() {
            amount as nat
        } else {
            pool@.len()
        },
        exists|places: Seq<int>|
            #![trigger places.len()]
            {
                &&& places.len() == chosen@.len()
                &&& forall|k: int|
                    0 <= k < places.len() ==> 0 <= #[trigger] places[k] < pool@.len()
                        && chosen@[k] == pool@[places[k]]
                &&& forall|j: int, k: int|
                    0 <= j < k < places.len() ==> #[trigger] places[j] != #[trigger] places[k]
            },
{
    pool.choose_multiple(&mut rand::thread_rng(), amount).cloned().collect()
}

/// Identifiers picked at random for a listing of random shows: `amount` of
/// them (all there are, if that is fewer), each a possible identifier and no
/// two the same.
pub fn random_media_ids(amount: usize) -> (ids: Vec<i32>)
    ensures
        ids@.len() == if amount <= MEDIA_ID_LIMIT - 1 {
            amount as int
        } else {
            MEDIA_ID_LIMIT - 1
        },
        forall|k: int| 0 <= k < ids@.len() ==> 1 <= #[trigger] ids@[k] < MEDIA_ID_LIMIT,
        forall|j: int, k: int| 0 <= j < k < ids@.len() ==> ids@[j] != ids@[k],
{
    let mut pool: Vec<i32> = Vec::new();
    let mut id: i32 = 1;
    while id < MEDIA_ID_LIMIT
        invariant
            1 <= id <= MEDIA_ID_LIMIT,
            pool@.len() == id - 1,
            forall|k: int| 0 <= k < pool@.len() ==> #[trigger] pool@[k] == k + 1,
        decreases MEDIA_ID_LIMIT - id,
    {
        pool.push(id);
        id += 1;
    }
    let ids = choose_some(&pool, amount);
    proof {
        let places = choose|places: Seq<int>|
            #![trigger places.len()]
            {
                &&& places.len() == ids@.len()
                &&& forall|k: int|
                    0 <= k < places.len() ==> 0 <= #[trigger] places[k] < pool@.len() && ids@[k]
                        == pool@[places[k]]
                &&& forall|j: int, k: int|
                    0 <= j < k < places.len() ==> #[trigger] places[j] != #[trigger] places[k]
            };
        assert forall|k: int| 0 <= k < ids@.len() implies 1 <= #[trigger] ids@[k]
            < MEDIA_ID_LIMIT by {
            assert(0 <= places[k] < pool@.len());
        }
        assert forall|j: int, k: int| 0 <= j < k < ids@.len() implies ids@[j] != ids@[k] by {
            assert(0 <= places[j] < pool@.len());
            assert(0 <= places[k] < pool@.len());
            assert(places[j] != places[k]);
        }
    }
    ids
}

} // verus!
