//! What the keys do: from a key press to the change on screen and the work
//! that is left for the caller.

use vstd::prelude::*;
use vstd::string::StringExecFns;
use crate::models::{media_views, optional_media, preferred_title_of, Media, MediaView};
use crate::text::{
    decimal, eq_ignore_ascii_case, optional_text, push_decimal, same_ignoring_ascii_case,
    signed_decimal, push_signed_decimal, texts,
};
use crate::tui::app::{
    at_main_menu, entered, gone_back, last_line, line_above, line_below, previewed,
    selected_line, App, AppView, Focus, ListMode, ListModeView,
};

verus! {

/// A key, as far as the interface tells keys apart.
#[derive(Debug, Clone, Copy, PartialEq, Eq, Structural)]
pub enum Key {
    Char(char),
    Esc,
    Backspace,
    Enter,
    Up,
    Down,
    PageUp,
    PageDown,
    /// Any other key.
    Other,
}

/// What the interface reacts to.
#[derive(Debug, Clone, Copy, PartialEq, Eq, Structural)]
pub enum TuiEvent {
    Key(Key),
    Tick,
    Quit,
}

/// How many lines a page key moves the selection.
pub const PAGE_LINES: usize = 10;

/// How long a notice stays up before playback takes over, in milliseconds.
pub const NOTICE_MS: u64 = 800;

/// How long the interface waits for a key before it ticks, in milliseconds.
pub const INPUT_POLL_MS: u64 = 16;

/// How many shows a listing asks for.
pub const LISTING_SIZE: usize = 20;

/// The main menu's line that ends the program.
pub const MENU_EXIT: &'static str = "❌ Exit";

/// The main menu's line for the trending shows.
pub const MENU_TRENDING: &'static str = "🔥 Trending";

/// The main menu's line for the popular shows.
pub const MENU_POPULAR: &'static str = "✨ Popular";

/// The main menu's line for shows picked at random.
pub const MENU_RANDOM: &'static str = "🎲 Random";

/// The action that plays the episode after the last one seen.
pub const ACTION_STREAM: &'static str = "▶️  Stream (Resume)";

/// The action that lists the episodes.
pub const ACTION_EPISODES: &'static str = "📺 Episodes";

/// The action that opens the trailer.
pub const ACTION_TRAILER: &'static str = "🎞️  Watch Trailer";

/// The event for what the terminal reported within the polling time: a
/// pressed key, or nothing. `q` and escape ask to quit.
pub fn handle_input(pressed: Option<Key>) -> (event: TuiEvent)
    ensures
        event == match pressed {
            Some(Key::Char('q')) => TuiEvent::Quit,
            Some(Key::Esc) => TuiEvent::Quit,
            Some(key) => TuiEvent::Key(key),
            None => TuiEvent::Tick,
        },
{
    match pressed {
        Some(Key::Char(c)) => if c == 'q' {
            TuiEvent::Quit
        } else {
            TuiEvent::Key(Key::Char(c))
        },
        Some(Key::Esc) => TuiEvent::Quit,
        Some(key) => TuiEvent::Key(key),
        None => TuiEvent::Tick,
    }
}

/// A listing of the main menu.
#[derive(Debug, Clone, Copy, PartialEq, Eq, Structural)]
pub enum Listing {
    Trending,
    Popular,
    Random,
}

impl Listing {
    /// The name of the listing.
    pub open spec fn name_text(self) -> Seq<char> {
        match self {
            Listing::Trending => "Trending"@,
            Listing::Popular => "Popular"@,
            Listing::Random => "Random"@,
        }
    }

    /// The name under which the listing is shown.
    pub fn name(self) -> (name: &'static str)
        ensures
            name@ == self.name_text(),
    {
        match self {
            Listing::Trending => "Trending",
            Listing::Popular => "Popular",
            Listing::Random => "Random",
        }
    }
}

/// What is left for the caller to do after an event.
#[derive(Debug)]
pub enum Command {
    /// Nothing.
    Nothing,
    /// Let time pass: move the animation on and take in a cover image that
    /// has arrived.
    Tick,
    /// Draw, search the catalogue for this text and report the outcome to
    /// [`App::search_finished`].
    Search(String),
    /// Draw, fetch this listing and report the outcome to
    /// [`App::listing_loaded`].
    Fetch(Listing),
    /// Draw, look up the progress recorded for this show and report it to
    /// [`App::progress_checked`].
    CheckProgress(i32),
    /// Play.
    Watch(WatchOrder),
    /// Open this address in the browser.
    OpenTrailer(String),
}

/// An order to leave the interface and play an episode.
#[derive(Debug)]
pub struct WatchOrder {
    /// The show's title, to search the provider with.
    pub title: String,
    pub episode: String,
    pub media_id: i32,
    /// How long to leave the status line up before playback starts.
    pub pause_ms: u64,
    /// Whether the status line is emptied when playback is over.
    pub clear_status_after: bool,
}

/// What a [`Command`] holds.
pub enum CommandView {
    Nothing,
    Tick,
    Search(Seq<char>),
    Fetch(Listing),
    CheckProgress(i32),
    Watch(WatchOrderView),
    OpenTrailer(Seq<char>),
}

/// What a [`WatchOrder`] holds.
pub struct WatchOrderView {
    pub title: Seq<char>,
    pub episode: Seq<char>,
    pub media_id: i32,
    pub pause_ms: u64,
    pub clear_status_after: bool,
}

impl View for WatchOrder {
    type V = WatchOrderView;

    open spec fn view(&self) -> WatchOrderView {
        WatchOrderView {
            title: self.title@,
            episode: self.episode@,
            media_id: self.media_id,
            pause_ms: self.pause_ms,
            clear_status_after: self.clear_status_after,
        }
    }
}

impl View for Command {
    type V = CommandView;

    open spec fn view(&self) -> CommandView {
        match self {
            Command::Nothing => CommandView::Nothing,
            Command::Tick => CommandView::Tick,
            Command::Search(text) => CommandView::Search(text@),
            Command::Fetch(listing) => CommandView::Fetch(*listing),
            Command::CheckProgress(id) => CommandView::CheckProgress(*id),
            Command::Watch(order) => CommandView::Watch(order@),
            Command::OpenTrailer(address) => CommandView::OpenTrailer(address@),
        }
    }
}

/// How a search of the catalogue ended.
#[derive(Debug)]
pub enum SearchOutcome {
    /// The catalogue answered with a page of shows.
    Found(Vec<Media>),
    /// The catalogue answered without a page.
    NoPage,
    /// The search failed.
    Failed,
}

/// What the catalogue has recorded for a show.
#[derive(Debug)]
pub enum ProgressLookup {
    /// The number of the last episode seen.
    Recorded(i32),
    /// The show is not on the user's list.
    NotListed,
    /// The lookup failed; the text says why.
    Failed(String),
}

/// The first show of a list, where there is one.
pub open spec fn first_of(list: Seq<MediaView>) -> Option<MediaView> {
    if list.len() > 0 {
        Some(list[0])
    } else {
        None
    }
}

/// The interface after a key was pressed while the search bar had the focus.
pub open spec fn after_search_key(app: AppView, key: Key) -> AppView {
    match key {
        Key::Char(c) => AppView { search_query: app.search_query.push(c), ..app },
        Key::Backspace => if app.search_query.len() > 0 {
            AppView { search_query: app.search_query.drop_last(), ..app }
        } else {
            app
        },
        Key::Enter => if app.search_query.len() > 0 {
            AppView {
                status_message: Some("Searching for '"@ + app.search_query + "'..."@),
                is_loading: true,
                ..app
            }
        } else {
            app
        },
        _ => app,
    }
}

/// The interface after the catalogue was searched.
pub open spec fn after_search(app: AppView, outcome: SearchOutcome) -> AppView {
    match outcome {
        SearchOutcome::Found(list) => {
            let listed = entered(
                AppView { media_list: media_views(list@), ..app },
                ListModeView::SearchResults,
                true,
            );
            AppView {
                active_media: first_of(media_views(list@)),
                focus: Focus::List,
                status_message: None,
                is_loading: false,
                ..listed
            }
        },
        SearchOutcome::NoPage => AppView { is_loading: false, ..app },
        SearchOutcome::Failed => AppView {
            status_message: Some("Search failed."@),
            is_loading: false,
            ..app
        },
    }
}

/// The interface after a listing of the main menu was fetched; `None` says
/// that the fetch failed or brought no page.
pub open spec fn after_listing(app: AppView, listing: Listing, list: Option<Vec<Media>>) -> AppView {
    match list {
        Some(list) => {
            let filled = AppView {
                media_list: media_views(list@),
                active_media: first_of(media_views(list@)),
                ..app
            };
            AppView {
                status_message: None,
                ..entered(filled, ListModeView::AnimeList(listing.name_text()), true)
            }
        },
        None => AppView { status_message: None, ..app },
    }
}

impl App {
    /// Takes a key while the search bar has the focus.
    fn search_key(&mut self, key: Key) -> (command: Command)
        ensures
            final(self)@ == after_search_key(old(self)@, key),
            command@ == if key == Key::Enter && old(self)@.search_query.len() > 0 {
                CommandView::Search(old(self)@.search_query)
            } else {
                CommandView::Nothing
            },
    {
        match key {
            Key::Char(c) => {
                self.search_query.push(c);
                Command::Nothing
            },
            Key::Backspace => {
                let _ = self.search_query.pop();
                Command::Nothing
            },
            Key::Enter => {
                if self.search_query.as_str().unicode_len() > 0 {
                    let query = self.search_query.clone();
                    let mut status = "Searching for '".to_owned();
                    status.append(query.as_str());
                    status.append("'...");
                    self.status_message = Some(status);
                    self.is_loading = true;
                    Command::Search(query)
                } else {
                    Command::Nothing
                }
            },
            _ => Command::Nothing,
        }
    }

    /// Takes in the outcome of a search: a page of shows becomes the list of
    /// search results, with its first show active and the list in focus.
    pub fn search_finished(&mut self, outcome: SearchOutcome)
        ensures
            final(self)@ == after_search(old(self)@, outcome),
    {
        match outcome {
            SearchOutcome::Found(list) => {
                self.media_list = list;
                self.go_to_mode(ListMode::SearchResults, true);
                self.active_media = if self.media_list.len() > 0 {
                    Some(self.media_list[0].clone())
                } else {
                    None
                };
                self.focus = Focus::List;
                self.status_message = None;
            },
            SearchOutcome::NoPage => {},
            SearchOutcome::Failed => {
                self.status_message = Some("Search failed.".to_owned());
            },
        }
        self.is_loading = false;
    }

    /// Takes in a listing of the main menu: its shows become the list, with
    /// the first show active. The status line is emptied in any case.
    pub fn listing_loaded(&mut self, listing: Listing, list: Option<Vec<Media>>)
        ensures
            final(self)@ == after_listing(old(self)@, listing, list),
    {
        match list {
            Some(list) => {
                self.media_list = list;
                self.active_media = if self.media_list.len() > 0 {
                    Some(self.media_list[0].clone())
                } else {
                    None
                };
                self.go_to_mode(ListMode::AnimeList(listing.name().to_owned()), true);
            },
            None => {},
        }
        self.status_message = None;
    }
}

/// The listing that a line of the main menu leads to.
pub open spec fn listing_of(item: Seq<char>) -> Option<Listing> {
    if item == MENU_TRENDING@ {
        Some(Listing::Trending)
    } else if item == MENU_POPULAR@ {
        Some(Listing::Popular)
    } else if item == MENU_RANDOM@ {
        Some(Listing::Random)
    } else {
        None
    }
}

/// The address of a show's trailer, where it has one on YouTube.
pub open spec fn trailer_address(media: MediaView) -> Option<Seq<char>> {
    match media.trailer {
        Some(trailer) => {
            let site = match trailer.site {
                Some(site) => site,
                None => "youtube"@,
            };
            let id = match trailer.id {
                Some(id) => id,
                None => Seq::empty(),
            };
            if same_ignoring_ascii_case(site, "youtube"@) && id.len() > 0 {
                Some("https://www.youtube.com/watch?v="@ + id)
            } else {
                None
            }
        },
        None => None,
    }
}

/// The order to play `episode` of `media`.
pub open spec fn watch_order(
    media: MediaView,
    episode: Seq<char>,
    pause_ms: u64,
    clear_status_after: bool,
) -> WatchOrderView {
    WatchOrderView {
        title: preferred_title_of(media.title),
        episode,
        media_id: media.id,
        pause_ms,
        clear_status_after,
    }
}

/// The interface with `text` in the status line.
pub open spec fn with_status(app: AppView, text: Seq<char>) -> AppView {
    AppView { status_message: Some(text), ..app }
}

/// What enter does on the main menu.
pub open spec fn enter_on_menu(app: AppView) -> (AppView, CommandView) {
    if selected_line(app) >= app.main_menu_items.len() {
        (app, CommandView::Nothing)
    } else {
        let item = app.main_menu_items[selected_line(app) as int];
        if item == MENU_EXIT@ {
            (AppView { running: false, status_message: None, ..app }, CommandView::Nothing)
        } else {
            match listing_of(item) {
                Some(listing) => (
                    with_status(app, "Loading "@ + item + "..."@),
                    CommandView::Fetch(listing),
                ),
                None => (AppView { status_message: None, ..app }, CommandView::Nothing),
            }
        }
    }
}

/// What enter does on the actions of the show `media`.
pub open spec fn enter_on_action(app: AppView, media: MediaView, logged_in: bool) -> (
    AppView,
    CommandView,
) {
    let action = app.anime_action_items[selected_line(app) as int];
    if action == ACTION_STREAM@ {
        if logged_in {
            (
                with_status(app, "Checking AniList progress..."@),
                CommandView::CheckProgress(media.id),
            )
        } else {
            (
                with_status(app, "Not logged in. Starting at Episode 1."@),
                CommandView::Watch(watch_order(media, "1"@, NOTICE_MS, true)),
            )
        }
    } else if action == ACTION_EPISODES@ {
        (entered(app, ListModeView::EpisodeSelect, true), CommandView::Nothing)
    } else if action == ACTION_TRAILER@ {
        match media.trailer {
            Some(_) => match trailer_address(media) {
                Some(address) => (
                    with_status(app, "Opening "@ + address),
                    CommandView::OpenTrailer(address),
                ),
                None => (
                    with_status(app, "No YouTube trailer available."@),
                    CommandView::Nothing,
                ),
            },
            None => (with_status(app, "No trailer info found."@), CommandView::Nothing),
        }
    } else {
        (entered(app, ListModeView::SubMenu(action), true), CommandView::Nothing)
    }
}

/// What enter does: the interface afterwards and what is left to do.
pub open spec fn after_enter(app: AppView, logged_in: bool) -> (AppView, CommandView) {
    match app.list_mode {
        ListModeView::MainMenu => enter_on_menu(app),
        ListModeView::SearchResults | ListModeView::AnimeList(_) => if app.active_media is Some {
            (entered(app, ListModeView::AnimeActions, true), CommandView::Nothing)
        } else {
            (app, CommandView::Nothing)
        },
        ListModeView::AnimeActions => match app.active_media {
            Some(media) => if selected_line(app) < app.anime_action_items.len() {
                enter_on_action(app, media, logged_in)
            } else {
                (app, CommandView::Nothing)
            },
            None => (app, CommandView::Nothing),
        },
        ListModeView::EpisodeSelect => match app.active_media {
            Some(media) => (
                app,
                CommandView::Watch(
                    watch_order(media, decimal(selected_line(app) + 1), 0, false),
                ),
            ),
            None => (app, CommandView::Nothing),
        },
        ListModeView::SubMenu(_) => (app, CommandView::Nothing),
    }
}

/// What follows once the recorded progress is known: the status line says
/// where playback starts, and the episode after the last one seen is played;
/// the first where none is recorded.
pub open spec fn after_progress(app: AppView, lookup: ProgressLookup) -> (AppView, CommandView) {
    match app.active_media {
        Some(media) => match lookup {
            ProgressLookup::Recorded(progress) => (
                with_status(
                    app,
                    "Resuming at Episode "@ + signed_decimal(progress + 1) + "..."@,
                ),
                CommandView::Watch(
                    watch_order(media, signed_decimal(progress + 1), NOTICE_MS, true),
                ),
            ),
            ProgressLookup::NotListed => (
                with_status(app, "Not in list. Starting at Episode 1."@),
                CommandView::Watch(watch_order(media, "1"@, NOTICE_MS, true)),
            ),
            ProgressLookup::Failed(reason) => (
                with_status(app, "Sync failed: "@ + reason@ + ". Defaulting to Ep 1."@),
                CommandView::Watch(watch_order(media, "1"@, NOTICE_MS, true)),
            ),
        },
        None => (app, CommandView::Nothing),
    }
}

/// What a key does while the list has the focus.
pub open spec fn after_list_key(app: AppView, key: Key, logged_in: bool) -> (AppView, CommandView) {
    match key {
        Key::Char('j') | Key::Down => (
            previewed(AppView { selected: Some(line_below(app)), ..app }),
            CommandView::Nothing,
        ),
        Key::Char('k') | Key::Up => (
            previewed(AppView { selected: Some(line_above(app)), ..app }),
            CommandView::Nothing,
        ),
        Key::Char('J') | Key::PageDown => (
            previewed(
                AppView {
                    selected: Some(
                        if selected_line(app) + PAGE_LINES <= last_line(app) {
                            (selected_line(app) + PAGE_LINES) as nat
                        } else {
                            last_line(app)
                        },
                    ),
                    ..app
                },
            ),
            CommandView::Nothing,
        ),
        Key::Char('K') | Key::PageUp => (
            previewed(
                AppView {
                    selected: Some(
                        if selected_line(app) >= PAGE_LINES {
                            (selected_line(app) - PAGE_LINES) as nat
                        } else {
                            0
                        },
                    ),
                    ..app
                },
            ),
            CommandView::Nothing,
        ),
        Key::Char('h') => (at_main_menu(app), CommandView::Nothing),
        Key::Enter => after_enter(app, logged_in),
        _ => (app, CommandView::Nothing),
    }
}

/// What an event does: the interface afterwards and what is left to do.
/// A slash moves the focus between the search bar and the list; escape, and
/// backspace on the list, go one step back; every other key goes to the part
/// that has the focus.
pub open spec fn after_event(app: AppView, event: TuiEvent, logged_in: bool) -> (
    AppView,
    CommandView,
) {
    match event {
        TuiEvent::Tick => (app, CommandView::Tick),
        TuiEvent::Quit => if app.list_mode is MainMenu {
            (AppView { running: false, ..app }, CommandView::Nothing)
        } else {
            (at_main_menu(app), CommandView::Nothing)
        },
        TuiEvent::Key(key) => if key == Key::Char('/') {
            (
                AppView {
                    focus: match app.focus {
                        Focus::List => Focus::SearchBar,
                        Focus::SearchBar => Focus::List,
                    },
                    ..app
                },
                CommandView::Nothing,
            )
        } else if key == Key::Esc || (key == Key::Backspace && app.focus == Focus::List) {
            (gone_back(app), CommandView::Nothing)
        } else {
            match app.focus {
                Focus::SearchBar => (
                    after_search_key(app, key),
                    if key == Key::Enter && app.search_query.len() > 0 {
                        CommandView::Search(app.search_query)
                    } else {
                        CommandView::Nothing
                    },
                ),
                Focus::List => after_list_key(app, key, logged_in),
            }
        },
    }
}

/// Computes [`trailer_address`].
fn trailer_url(media: &Media) -> (address: Option<String>)
    ensures
        optional_text(address) == trailer_address(media@),
{
    match &media.trailer {
        Some(trailer) => {
            let site = match &trailer.site {
                Some(site) => site.as_str(),
                None => "youtube",
            };
            let id = match &trailer.id {
                Some(id) => id.as_str(),
                None => "",
            };
            proof {
                reveal_strlit("");
            }
            if eq_ignore_ascii_case(site, "youtube") && id.unicode_len() > 0 {
                let mut address = "https://www.youtube.com/watch?v=".to_owned();
                address.append(id);
                Some(address)
            } else {
                None
            }
        },
        None => None,
    }
}

/// `prefix`, then `middle`, then `suffix`.
fn sentence(prefix: &str, middle: &str, suffix: &str) -> (text: String)
    ensures
        text@ == prefix@ + middle@ + suffix@,
{
    let mut text = prefix.to_owned();
    text.append(middle);
    text.append(suffix);
    text
}

/// The order to play `episode` of `media`.
fn order_for(media: &Media, episode: String, pause_ms: u64, clear_status_after: bool) -> (order:
    WatchOrder)
    ensures
        order@ == watch_order(media@, episode@, pause_ms, clear_status_after),
{
    WatchOrder {
        title: media.preferred_title().to_owned(),
        episode,
        media_id: media.id,
        pause_ms,
        clear_status_after,
    }
}

impl App {
    /// Enter on the main menu.
    fn enter_menu(&mut self) -> (command: Command)
        ensures
            (final(self)@, command@) == enter_on_menu(old(self)@),
    {
        let index = self.get_selected_index();
        if index >= self.main_menu_items.len() {
            return Command::Nothing;
        }
        assert(old(self)@.main_menu_items[index as int] == self.main_menu_items@[index as int]@);
        let item = self.main_menu_items[index].as_str();
        let listing = if item.eq(MENU_EXIT) {
            self.running = false;
            None
        } else if item.eq(MENU_TRENDING) {
            Some(Listing::Trending)
        } else if item.eq(MENU_POPULAR) {
            Some(Listing::Popular)
        } else if item.eq(MENU_RANDOM) {
            Some(Listing::Random)
        } else {
            None
        };
        match listing {
            Some(listing) => {
                let status = sentence("Loading ", self.main_menu_items[index].as_str(), "...");
                self.status_message = Some(status);
                Command::Fetch(listing)
            },
            None => {
                self.status_message = None;
                Command::Nothing
            },
        }
    }

    /// Enter on the actions of a show.
    fn enter_action(&mut self, logged_in: bool) -> (command: Command)
        requires
            old(self)@.list_mode is AnimeActions,
        ensures
            (final(self)@, command@) == after_enter(old(self)@, logged_in),
    {
        let index = self.get_selected_index();
        if index >= self.anime_action_items.len() {
            return Command::Nothing;
        }
        let media = match &self.active_media {
            Some(media) => media.clone(),
            None => {
                return Command::Nothing;
            },
        };
        assert(old(self)@.anime_action_items[index as int] == self.anime_action_items@[index as int]@);
        let action = self.anime_action_items[index].clone();
        if action.as_str().eq(ACTION_STREAM) {
            if logged_in {
                self.status_message = Some("Checking AniList progress...".to_owned());
                Command::CheckProgress(media.id)
            } else {
                self.status_message = Some("Not logged in. Starting at Episode 1.".to_owned());
                Command::Watch(order_for(&media, "1".to_owned(), NOTICE_MS, true))
            }
        } else if action.as_str().eq(ACTION_EPISODES) {
            self.go_to_mode(ListMode::EpisodeSelect, true);
            Command::Nothing
        } else if action.as_str().eq(ACTION_TRAILER) {
            match &media.trailer {
                Some(_) => match trailer_url(&media) {
                    Some(address) => {
                        let mut status = "Opening ".to_owned();
                        status.append(address.as_str());
                        self.status_message = Some(status);
                        Command::OpenTrailer(address)
                    },
                    None => {
                        self.status_message = Some("No YouTube trailer available.".to_owned());
                        Command::Nothing
                    },
                },
                None => {
                    self.status_message = Some("No trailer info found.".to_owned());
                    Command::Nothing
                },
            }
        } else {
            self.go_to_mode(ListMode::SubMenu(action), true);
            Command::Nothing
        }
    }

    /// Takes the enter key on the list.
    pub fn enter(&mut self, logged_in: bool) -> (command: Command)
        ensures
            (final(self)@, command@) == after_enter(old(self)@, logged_in),
    {
        let mode = self.list_mode.clone();
        match mode {
            ListMode::MainMenu => self.enter_menu(),
            ListMode::SearchResults => {
                if self.active_media.is_some() {
                    self.go_to_mode(ListMode::AnimeActions, true);
                }
                Command::Nothing
            },
            ListMode::AnimeList(_) => {
                if self.active_media.is_some() {
                    self.go_to_mode(ListMode::AnimeActions, true);
                }
                Command::Nothing
            },
            ListMode::AnimeActions => self.enter_action(logged_in),
            ListMode::EpisodeSelect => {
                let index = self.get_selected_index();
                match &self.active_media {
                    Some(media) => {
                        let mut episode = String::new();
                        push_decimal(&mut episode, index as u128 + 1);
                        Command::Watch(order_for(media, episode, 0, false))
                    },
                    None => Command::Nothing,
                }
            },
            ListMode::SubMenu(_) => Command::Nothing,
        }
    }

    /// Takes in what the catalogue has recorded for the active show and
    /// orders playback.
    pub fn progress_checked(&mut self, lookup: ProgressLookup) -> (command: Command)
        ensures
            (final(self)@, command@) == after_progress(old(self)@, lookup),
    {
        let media = match &self.active_media {
            Some(media) => media.clone(),
            None => {
                return Command::Nothing;
            },
        };
        match lookup {
            ProgressLookup::Recorded(progress) => {
                let mut episode = String::new();
                push_signed_decimal(&mut episode, progress as i64 + 1);
                self.status_message = Some(
                    sentence("Resuming at Episode ", episode.as_str(), "..."),
                );
                Command::Watch(order_for(&media, episode, NOTICE_MS, true))
            },
            ProgressLookup::NotListed => {
                self.status_message = Some("Not in list. Starting at Episode 1.".to_owned());
                Command::Watch(order_for(&media, "1".to_owned(), NOTICE_MS, true))
            },
            ProgressLookup::Failed(reason) => {
                self.status_message = Some(
                    sentence("Sync failed: ", reason.as_str(), ". Defaulting to Ep 1."),
                );
                Command::Watch(order_for(&media, "1".to_owned(), NOTICE_MS, true))
            },
        }
    }

    /// Takes a key while the list has the focus.
    fn list_key(&mut self, key: Key, logged_in: bool) -> (command: Command)
        ensures
            (final(self)@, command@) == after_list_key(old(self)@, key, logged_in),
    {
        let step = match key {
            Key::Char(c) => if c == 'j' {
                Key::Down
            } else if c == 'k' {
                Key::Up
            } else if c == 'J' {
                Key::PageDown
            } else if c == 'K' {
                Key::PageUp
            } else if c == 'h' {
                self.reset_to_main_menu();
                return Command::Nothing;
            } else {
                return Command::Nothing;
            },
            other => other,
        };
        match step {
            Key::Down => {
                self.next();
                self.update_preview();
                Command::Nothing
            },
            Key::Up => {
                self.previous();
                self.update_preview();
                Command::Nothing
            },
            Key::PageDown => {
                self.jump_forward(PAGE_LINES);
                self.update_preview();
                Command::Nothing
            },
            Key::PageUp => {
                self.jump_backward(PAGE_LINES);
                self.update_preview();
                Command::Nothing
            },
            Key::Enter => self.enter(logged_in),
            _ => Command::Nothing,
        }
    }

    /// Takes an event and says what is left for the caller to do.
    /// `logged_in` says whether a token and a user name are stored.
    pub fn handle_event(&mut self, event: TuiEvent, logged_in: bool) -> (command: Command)
        ensures
            (final(self)@, command@) == after_event(old(self)@, event, logged_in),
    {
        match event {
            TuiEvent::Tick => Command::Tick,
            TuiEvent::Quit => {
                if matches!(self.list_mode, ListMode::MainMenu) {
                    self.running = false;
                } else {
                    self.reset_to_main_menu();
                }
                Command::Nothing
            },
            TuiEvent::Key(key) => {
                if key == Key::Char('/') {
                    self.focus = match self.focus {
                        Focus::List => Focus::SearchBar,
                        Focus::SearchBar => Focus::List,
                    };
                    Command::Nothing
                } else if key == Key::Esc || (key == Key::Backspace && self.focus == Focus::List) {
                    self.go_back();
                    Command::Nothing
                } else {
                    match self.focus {
                        Focus::SearchBar => self.search_key(key),
                        Focus::List => self.list_key(key, logged_in),
                    }
                }
            },
        }
    }
}

} // verus!
