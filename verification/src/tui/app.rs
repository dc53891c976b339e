//! What the interface shows and how moving through it changes that.

use vstd::prelude::*;
use crate::models::{media_views, optional_media, Media, MediaView};
use crate::text::{optional_text, texts};

verus! {

/// Which part of the screen takes the keys.
#[derive(Debug, Clone, Copy, PartialEq, Eq, Structural)]
pub enum Focus {
    SearchBar,
    List,
}

/// What the list shows.
#[derive(Debug, PartialEq)]
pub enum ListMode {
    MainMenu,
    SearchResults,
    /// A named listing, such as the trending shows.
    AnimeList(String),
    AnimeActions,
    EpisodeSelect,
    /// A part of the interface that is not there yet, by its name.
    SubMenu(String),
}

/// What a [`ListMode`] holds.
pub enum ListModeView {
    MainMenu,
    SearchResults,
    AnimeList(Seq<char>),
    AnimeActions,
    EpisodeSelect,
    SubMenu(Seq<char>),
}

impl View for ListMode {
    type V = ListModeView;

    open spec fn view(&self) -> ListModeView {
        match self {
            ListMode::MainMenu => ListModeView::MainMenu,
            ListMode::SearchResults => ListModeView::SearchResults,
            ListMode::AnimeList(name) => ListModeView::AnimeList(name@),
            ListMode::AnimeActions => ListModeView::AnimeActions,
            ListMode::EpisodeSelect => ListModeView::EpisodeSelect,
            ListMode::SubMenu(name) => ListModeView::SubMenu(name@),
        }
    }
}

impl Clone for ListMode {
    fn clone(&self) -> (copy: ListMode)
        ensures
            copy@ == self@,
    {
        match self {
            ListMode::MainMenu => ListMode::MainMenu,
            ListMode::SearchResults => ListMode::SearchResults,
            ListMode::AnimeList(name) => ListMode::AnimeList(name.clone()),
            ListMode::AnimeActions => ListMode::AnimeActions,
            ListMode::EpisodeSelect => ListMode::EpisodeSelect,
            ListMode::SubMenu(name) => ListMode::SubMenu(name.clone()),
        }
    }
}

/// How many episodes the list offers for a show whose count is not known.
pub const UNKNOWN_EPISODE_COUNT: usize = 100;

/// One step back in the history: the list that was shown, the line that was
/// selected and the show that was active.
pub struct Visit {
    pub mode: ListModeView,
    pub index: nat,
    pub media: Option<MediaView>,
}

/// What an [`App`] holds.
pub struct AppView {
    pub running: bool,
    pub focus: Focus,
    pub list_mode: ListModeView,
    pub history: Seq<Visit>,
    pub search_query: Seq<char>,
    pub selected: Option<nat>,
    pub main_menu_items: Seq<Seq<char>>,
    pub anime_action_items: Seq<Seq<char>>,
    pub media_list: Seq<MediaView>,
    pub active_media: Option<MediaView>,
    pub status_message: Option<Seq<char>>,
    pub is_loading: bool,
    pub cover_shown: bool,
    pub is_fetching_image: bool,
}

/// The history as it is seen from outside.
pub open spec fn visits(stack: Seq<(ListMode, usize, Option<Media>)>) -> Seq<Visit> {
    stack.map_values(
        |entry: (ListMode, usize, Option<Media>)|
            Visit { mode: entry.0@, index: entry.1 as nat, media: optional_media(entry.2) },
    )
}

/// An episode count as a number of lines. A count below zero wraps round
/// to the top of the unsigned numbers, as it does when it is cast.
pub open spec fn unsigned_count(count: i32) -> nat {
    if count >= 0 {
        count as nat
    } else {
        (usize::MAX + 1 + count) as nat
    }
}

/// The number of lines that the list has in the state `app`.
pub open spec fn lines_of(app: AppView) -> nat {
    match app.list_mode {
        ListModeView::MainMenu => app.main_menu_items.len(),
        ListModeView::AnimeActions => app.anime_action_items.len(),
        ListModeView::EpisodeSelect => match app.active_media {
            Some(media) => match media.episodes {
                Some(count) => unsigned_count(count),
                None => UNKNOWN_EPISODE_COUNT as nat,
            },
            None => UNKNOWN_EPISODE_COUNT as nat,
        },
        ListModeView::SubMenu(_) => 0,
        _ => app.media_list.len(),
    }
}

/// The line that is selected; the first where none is.
pub open spec fn selected_line(app: AppView) -> nat {
    match app.selected {
        Some(index) => index,
        None => 0,
    }
}

/// The last line of the list; the first where the list is empty.
pub open spec fn last_line(app: AppView) -> nat {
    if lines_of(app) == 0 {
        0
    } else {
        (lines_of(app) - 1) as nat
    }
}

/// The line below the selected one, going round to the first after the last.
pub open spec fn line_below(app: AppView) -> nat {
    match app.selected {
        Some(index) => if index >= last_line(app) {
            0
        } else {
            index + 1
        },
        None => 0,
    }
}

/// The line above the selected one, going round to the last before the first.
pub open spec fn line_above(app: AppView) -> nat {
    match app.selected {
        Some(index) => if index == 0 {
            last_line(app)
        } else {
            (index - 1) as nat
        },
        None => 0,
    }
}

/// The interface as it is after going back to the main menu.
pub open spec fn at_main_menu(app: AppView) -> AppView {
    AppView {
        list_mode: ListModeView::MainMenu,
        history: Seq::empty(),
        media_list: Seq::empty(),
        selected: Some(0),
        active_media: None,
        search_query: Seq::empty(),
        focus: Focus::List,
        status_message: None,
        cover_shown: false,
        ..app
    }
}

/// The interface as it is after entering the list `mode`.
pub open spec fn entered(app: AppView, mode: ListModeView, reset_index: bool) -> AppView {
    AppView {
        history: app.history.push(
            Visit { mode: app.list_mode, index: selected_line(app), media: app.active_media },
        ),
        list_mode: mode,
        selected: if reset_index {
            Some(0)
        } else {
            app.selected
        },
        ..app
    }
}

/// The interface as it is after going one step back.
pub open spec fn gone_back(app: AppView) -> AppView {
    if app.history.len() > 0 {
        AppView {
            list_mode: app.history.last().mode,
            selected: Some(app.history.last().index),
            active_media: app.history.last().media,
            history: app.history.drop_last(),
            status_message: None,
            cover_shown: false,
            ..app
        }
    } else if app.list_mode is MainMenu {
        AppView { running: false, ..app }
    } else {
        at_main_menu(app)
    }
}

/// The interface as it is after the preview followed the selection: in a
/// list of shows the selected show becomes the active one.
pub open spec fn previewed(app: AppView) -> AppView {
    if (app.list_mode is SearchResults || app.list_mode is AnimeList) && selected_line(app)
        < app.media_list.len() {
        AppView { active_media: Some(app.media_list[selected_line(app) as int]), ..app }
    } else {
        app
    }
}

/// The state of the interface.
pub struct App {
    pub running: bool,
    pub focus: Focus,
    pub list_mode: ListMode,
    /// The lists gone through to get here, the latest last.
    pub history_stack: Vec<(ListMode, usize, Option<Media>)>,
    pub search_query: String,
    /// The selected line of the list.
    pub selected: Option<usize>,
    pub main_menu_items: Vec<String>,
    pub anime_action_items: Vec<String>,
    pub media_list: Vec<Media>,
    pub active_media: Option<Media>,
    pub status_message: Option<String>,
    pub is_loading: bool,
    /// Whether a cover image is on display.
    pub cover_shown: bool,
    pub is_fetching_image: bool,
}

impl View for App {
    type V = AppView;

    open spec fn view(&self) -> AppView {
        AppView {
            running: self.running,
            focus: self.focus,
            list_mode: self.list_mode@,
            history: visits(self.history_stack@),
            search_query: self.search_query@,
            selected: match self.selected {
                Some(index) => Some(index as nat),
                None => None,
            },
            main_menu_items: texts(self.main_menu_items@),
            anime_action_items: texts(self.anime_action_items@),
            media_list: media_views(self.media_list@),
            active_media: optional_media(self.active_media),
            status_message: optional_text(self.status_message),
            is_loading: self.is_loading,
            cover_shown: self.cover_shown,
            is_fetching_image: self.is_fetching_image,
        }
    }
}

impl App {
    /// The interface as it starts: running, on the main menu, the first
    /// line selected and the list in focus.
    pub fn new(main_menu_items: Vec<String>, anime_action_items: Vec<String>) -> (app: App)
        ensures
            app@ == (AppView {
                running: true,
                focus: Focus::List,
                list_mode: ListModeView::MainMenu,
                history: Seq::empty(),
                search_query: Seq::empty(),
                selected: Some(0),
                main_menu_items: texts(main_menu_items@),
                anime_action_items: texts(anime_action_items@),
                media_list: Seq::empty(),
                active_media: None,
                status_message: None,
                is_loading: false,
                cover_shown: false,
                is_fetching_image: false,
            }),
    {
        let app = App {
            running: true,
            focus: Focus::List,
            list_mode: ListMode::MainMenu,
            history_stack: Vec::new(),
            search_query: String::new(),
            selected: Some(0),
            main_menu_items,
            anime_action_items,
            media_list: Vec::new(),
            active_media: None,
            status_message: None,
            is_loading: false,
            cover_shown: false,
            is_fetching_image: false,
        };
        assert(app@.history =~= Seq::empty());
        assert(app@.media_list =~= Seq::empty());
        app
    }

    /// Shows `message` in the status line.
    pub fn set_status(&mut self, message: String)
        ensures
            final(self)@ == (AppView { status_message: Some(message@), ..old(self)@ }),
    {
        self.status_message = Some(message);
    }

    /// Empties the status line.
    pub fn clear_status(&mut self)
        ensures
            final(self)@ == (AppView { status_message: None, ..old(self)@ }),
    {
        self.status_message = None;
    }

    /// The selected line; the first where none is selected.
    pub fn get_selected_index(&self) -> (index: usize)
        ensures
            index == selected_line(self@),
    {
        match self.selected {
            Some(index) => index,
            None => 0,
        }
    }

    /// The number of lines in the list that is shown. A show whose episode
    /// count is not known offers [`UNKNOWN_EPISODE_COUNT`] episodes.
    pub fn list_len(&self) -> (lines: usize)
        ensures
            lines == lines_of(self@),
    {
        match &self.list_mode {
            ListMode::MainMenu => self.main_menu_items.len(),
            ListMode::AnimeActions => self.anime_action_items.len(),
            ListMode::EpisodeSelect => match &self.active_media {
                Some(media) => match media.episodes {
                    Some(count) => if count >= 0 {
                        count as usize
                    } else {
                        usize::MAX - (-(count + 1)) as usize
                    },
                    None => UNKNOWN_EPISODE_COUNT,
                },
                None => UNKNOWN_EPISODE_COUNT,
            },
            ListMode::SubMenu(_) => 0,
            _ => self.media_list.len(),
        }
    }

    /// The last line of the list.
    fn last_index(&self) -> (index: usize)
        ensures
            index == last_line(self@),
    {
        let lines = self.list_len();
        if lines == 0 {
            0
        } else {
            lines - 1
        }
    }

    /// Moves the selection one line down, from the last line to the first.
    pub fn next(&mut self)
        ensures
            final(self)@ == (AppView { selected: Some(line_below(old(self)@)), ..old(self)@ }),
    {
        let index = match self.selected {
            Some(index) => if index >= self.last_index() {
                0
            } else {
                index + 1
            },
            None => 0,
        };
        self.selected = Some(index);
    }

    /// Moves the selection one line up, from the first line to the last.
    pub fn previous(&mut self)
        ensures
            final(self)@ == (AppView { selected: Some(line_above(old(self)@)), ..old(self)@ }),
    {
        let index = match self.selected {
            Some(index) => if index == 0 {
                self.last_index()
            } else {
                index - 1
            },
            None => 0,
        };
        self.selected = Some(index);
    }

    /// Moves the selection `amount` lines down, but not past the last line.
    pub fn jump_forward(&mut self, amount: usize)
        ensures
            final(self)@ == (AppView {
                selected: Some(
                    if selected_line(old(self)@) + amount <= last_line(old(self)@) {
                        (selected_line(old(self)@) + amount) as nat
                    } else {
                        last_line(old(self)@)
                    },
                ),
                ..old(self)@
            }),
    {
        let current = self.get_selected_index();
        let last = self.last_index();
        let index = if current <= last && amount <= last - current {
            current + amount
        } else {
            last
        };
        self.selected = Some(index);
    }

    /// Moves the selection `amount` lines up, but not past the first line.
    pub fn jump_backward(&mut self, amount: usize)
        ensures
            final(self)@ == (AppView {
                selected: Some(
                    if selected_line(old(self)@) >= amount {
                        (selected_line(old(self)@) - amount) as nat
                    } else {
                        0
                    },
                ),
                ..old(self)@
            }),
    {
        let current = self.get_selected_index();
        let index = if current >= amount {
            current - amount
        } else {
            0
        };
        self.selected = Some(index);
    }

    /// Enters the list `mode`, remembering where the user came from; with
    /// `reset_index` the first line is selected.
    pub fn go_to_mode(&mut self, mode: ListMode, reset_index: bool)
        ensures
            final(self)@ == entered(old(self)@, mode@, reset_index),
    {
        let current = self.get_selected_index();
        let media = match &self.active_media {
            Some(media) => Some(media.clone()),
            None => None,
        };
        let ghost before = self.history_stack@;
        self.history_stack.push((self.list_mode.clone(), current, media));
        assert(visits(self.history_stack@) =~= visits(before).push(
            Visit {
                mode: old(self)@.list_mode,
                index: selected_line(old(self)@),
                media: old(self)@.active_media,
            },
        ));
        self.list_mode = mode;
        if reset_index {
            self.selected = Some(0);
        }
    }

    /// Goes one step back in the history. With nothing to go back to, the
    /// main menu ends the program and any other list leads to the main menu.
    pub fn go_back(&mut self)
        ensures
            final(self)@ == gone_back(old(self)@),
    {
        let ghost before = self.history_stack@;
        match self.history_stack.pop() {
            Some((mode, index, media)) => {
                assert(visits(self.history_stack@) =~= visits(before).drop_last());
                assert(visits(before).last() == (Visit {
                    mode: mode@,
                    index: index as nat,
                    media: optional_media(media),
                }));
                self.list_mode = mode;
                self.selected = Some(index);
                self.active_media = media;
                self.status_message = None;
                self.cover_shown = false;
            },
            None => {
                assert(visits(before).len() == 0);
                if matches!(self.list_mode, ListMode::MainMenu) {
                    self.running = false;
                } else {
                    self.reset_to_main_menu();
                }
            },
        }
    }

    /// Goes to the main menu and forgets the history, the listing, the
    /// search text and the active show.
    pub fn reset_to_main_menu(&mut self)
        ensures
            final(self)@ == at_main_menu(old(self)@),
    {
        self.list_mode = ListMode::MainMenu;
        self.history_stack = Vec::new();
        self.media_list = Vec::new();
        self.selected = Some(0);
        self.active_media = None;
        self.search_query = String::new();
        self.focus = Focus::List;
        self.status_message = None;
        self.cover_shown = false;
        assert(visits(self.history_stack@) =~= Seq::empty());
        assert(media_views(self.media_list@) =~= Seq::empty());
    }

    /// Lets the preview follow the selection.
    pub fn update_preview(&mut self)
        ensures
            final(self)@ == previewed(old(self)@),
    {
        let in_listing = match &self.list_mode {
            ListMode::SearchResults => true,
            ListMode::AnimeList(_) => true,
            _ => false,
        };
        if in_listing {
            let index = self.get_selected_index();
            if index < self.media_list.len() {
                self.active_media = Some(self.media_list[index].clone());
            }
        }
    }
}

} // verus!
