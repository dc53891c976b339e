//! The values exchanged between a player and its caller.

use vstd::prelude::*;

verus! {

/// A request to move to a neighbouring episode.
#[derive(Debug, Clone, Copy, PartialEq, Eq, Structural)]
pub enum EpisodeAction {
    Next,
    Previous,
}

impl EpisodeAction {
    /// The capitalised word for this direction.
    pub open spec fn label_text(self) -> Seq<char> {
        match self {
            EpisodeAction::Next => "Next"@,
            EpisodeAction::Previous => "Previous"@,
        }
    }

    /// The same word in lower case.
    pub open spec fn lower_label_text(self) -> Seq<char> {
        match self {
            EpisodeAction::Next => "next"@,
            EpisodeAction::Previous => "previous"@,
        }
    }

    /// The capitalised word shown to the user for this direction.
    pub fn label(self) -> (word: &'static str)
        ensures
            word@ == self.label_text(),
    {
        match self {
            EpisodeAction::Next => "Next",
            EpisodeAction::Previous => "Previous",
        }
    }

    /// The word for this direction as it stands inside a sentence.
    pub fn lower_label(self) -> (word: &'static str)
        ensures
            word@ == self.lower_label_text(),
    {
        match self {
            EpisodeAction::Next => "next",
            EpisodeAction::Previous => "previous",
        }
    }
}

/// What to play and how: built anew for the first episode and for every
/// episode navigated to.
#[derive(Debug, Clone)]
pub struct PlayOptions {
    /// A stream address or a local path.
    pub url: String,
    pub title: Option<String>,
    pub start_time: Option<String>,
    /// Header names and values to send with the stream request, in order.
    pub headers: Option<Vec<(String, String)>>,
    pub subtitles: Option<Vec<String>>,
}

impl Default for PlayOptions {
    fn default() -> (options: PlayOptions)
        ensures
            options.url@.len() == 0,
            options.title is None,
            options.start_time is None,
            options.headers is None,
            options.subtitles is None,
    {
        PlayOptions {
            url: String::new(),
            title: None,
            start_time: None,
            headers: None,
            subtitles: None,
        }
    }
}

impl PlayOptions {
    /// The same request under the title `title`.
    pub fn titled(self, title: String) -> (options: PlayOptions)
        ensures
            options.title == Some(title),
            options.url == self.url,
            options.start_time == self.start_time,
            options.headers == self.headers,
            options.subtitles == self.subtitles,
    {
        PlayOptions {
            url: self.url,
            title: Some(title),
            start_time: self.start_time,
            headers: self.headers,
            subtitles: self.subtitles,
        }
    }
}

/// Why a playback could not begin. Everything that goes wrong later is
/// shown to the user in the player and does not end the playback.
#[derive(Debug, Clone, Copy, PartialEq, Eq, Structural)]
pub enum PlayerError {
    /// The player program could not be started, for one because it is not
    /// installed.
    ProcessSpawnError,
}

impl PlayerError {
    /// The error in words.
    pub fn message(&self) -> (text: &'static str)
        ensures
            text@ == "Failed to spawn MPV"@,
    {
        "Failed to spawn MPV"
    }
}

} // verus!
