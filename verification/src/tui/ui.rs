//! The words on the screen: what each panel says, before it is styled and
//! drawn.

use vstd::prelude::*;
use vstd::string::StringExecFns;
use crate::models::{preferred_title_of, Media, MediaView};
use crate::text::{
    chars_of, decimal, optional_text, push_decimal, push_range, push_signed_decimal, replace,
    replaced, signed_decimal, texts,
};
use crate::tui::app::{lines_of, App, AppView, Focus, ListMode, ListModeView};

verus! {

/// How the status bar is coloured.
#[derive(Debug, Clone, Copy, PartialEq, Eq, Structural)]
pub enum StatusKind {
    /// Something is being loaded.
    Loading,
    /// A message is shown.
    Message,
    /// The keys are explained.
    Help,
}

/// The longest title, in bytes, that a list row shows in full.
pub const ROW_TITLE_BYTES: usize = 30;

/// How many bytes of a longer title a list row keeps before the dots.
pub const ROW_TITLE_KEPT_BYTES: usize = 27;

/// The keys that work in the state `app`, in words.
pub open spec fn help_text(app: AppView) -> Seq<char> {
    match app.focus {
        Focus::SearchBar => "/:Menu | ENTER:Search"@,
        Focus::List => match app.list_mode {
            ListModeView::MainMenu => "j/k:Nav | ENTER:Select | q:Quit"@,
            ListModeView::AnimeActions => "j/k:Nav | ENTER:Select | ESC:Back"@,
            _ => "(SHIFT)j/k:Nav | ENTER:Select | ⌫:Back | ESC:Home | /:Search"@,
        },
    }
}

/// What the status bar says: loading comes before a message, and a message
/// before the help.
pub open spec fn status_bar_of(app: AppView) -> (StatusKind, Seq<char>) {
    if app.is_loading {
        (StatusKind::Loading, " ⏳ Loading... "@)
    } else {
        match app.status_message {
            Some(message) => (StatusKind::Message, " ℹ️  "@ + message + " "@),
            None => (StatusKind::Help, " "@ + help_text(app) + " "@),
        }
    }
}

/// Computes [`status_bar_of`].
pub fn status_bar(app: &App) -> (bar: (StatusKind, String))
    ensures
        bar.0 == status_bar_of(app@).0,
        bar.1@ == status_bar_of(app@).1,
{
    if app.is_loading {
        (StatusKind::Loading, " ⏳ Loading... ".to_owned())
    } else {
        match &app.status_message {
            Some(message) => {
                let mut text = " ℹ️  ".to_owned();
                text.append(message.as_str());
                text.append(" ");
                (StatusKind::Message, text)
            },
            None => {
                let help = match app.focus {
                    Focus::SearchBar => "/:Menu | ENTER:Search",
                    Focus::List => match &app.list_mode {
                        ListMode::MainMenu => "j/k:Nav | ENTER:Select | q:Quit",
                        ListMode::AnimeActions => "j/k:Nav | ENTER:Select | ESC:Back",
                        _ => "(SHIFT)j/k:Nav | ENTER:Select | ⌫:Back | ESC:Home | /:Search",
                    },
                };
                let mut text = " ".to_owned();
                text.append(help);
                text.append(" ");
                (StatusKind::Help, text)
            },
        }
    }
}

/// The heading of the list.
pub open spec fn list_title_of(mode: ListModeView) -> Seq<char> {
    match mode {
        ListModeView::MainMenu => " Main Menu "@,
        ListModeView::SearchResults => " Search Results "@,
        ListModeView::AnimeList(name) => " "@ + name + " "@,
        ListModeView::AnimeActions => " Actions "@,
        ListModeView::EpisodeSelect => " Select Episode "@,
        ListModeView::SubMenu(name) => " "@ + name + " "@,
    }
}

/// Computes [`list_title_of`].
pub fn list_title(mode: &ListMode) -> (title: String)
    ensures
        title@ == list_title_of(mode@),
{
    match mode {
        ListMode::MainMenu => " Main Menu ".to_owned(),
        ListMode::SearchResults => " Search Results ".to_owned(),
        ListMode::AnimeList(name) => {
            let mut title = " ".to_owned();
            title.append(name.as_str());
            title.append(" ");
            title
        },
        ListMode::AnimeActions => " Actions ".to_owned(),
        ListMode::EpisodeSelect => " Select Episode ".to_owned(),
        ListMode::SubMenu(name) => {
            let mut title = " ".to_owned();
            title.append(name.as_str());
            title.append(" ");
            title
        },
    }
}

/// A row of the list: the text with three spaces on either side.
pub open spec fn padded(text: Seq<char>) -> Seq<char> {
    "   "@ + text + "   "@
}

/// Computes [`padded`].
pub fn pad(text: &str) -> (row: String)
    ensures
        row@ == padded(text@),
{
    let mut row = "   ".to_owned();
    row.append(text);
    row.append("   ");
    row
}

/// How many bytes a character takes in UTF-8.
pub open spec fn char_width(c: char) -> nat {
    if (c as u32) < 0x80 {
        1
    } else if (c as u32) < 0x800 {
        2
    } else if (c as u32) < 0x10000 {
        3
    } else {
        4
    }
}

/// How many bytes a text takes in UTF-8.
pub open spec fn byte_len(text: Seq<char>) -> nat
    decreases text.len(),
{
    if text.len() == 0 {
        0
    } else {
        byte_len(text.drop_last()) + char_width(text.last())
    }
}

/// Whether the first `k` characters of `text` are as many as fit in `limit`
/// bytes.
pub open spec fn fits_exactly(text: Seq<char>, limit: nat, k: int) -> bool {
    &&& 0 <= k <= text.len()
    &&& byte_len(text.take(k)) <= limit
    &&& k < text.len() ==> byte_len(text.take(k + 1)) > limit
}

/// How many leading characters of `text` fit in `limit` bytes.
pub open spec fn fitting_chars(text: Seq<char>, limit: nat) -> nat
    decreases text.len(),
{
    if text.len() == 0 || byte_len(text) <= limit {
        text.len()
    } else {
        fitting_chars(text.drop_last(), limit)
    }
}

/// The title as a list row shows it: in full where it takes at most
/// [`ROW_TITLE_BYTES`] bytes, else as many characters as fit in
/// [`ROW_TITLE_KEPT_BYTES`] bytes, followed by three dots.
pub open spec fn row_title_of(title: Seq<char>) -> Seq<char> {
    if byte_len(title) <= ROW_TITLE_BYTES {
        title
    } else {
        title.take(fitting_chars(title, ROW_TITLE_KEPT_BYTES as nat) as int) + "..."@
    }
}

/// The one number of leading characters that fits exactly is the number
/// that fits.
pub proof fn lemma_fitting_chars(text: Seq<char>, limit: nat, k: int)
    requires
        fits_exactly(text, limit, k),
    ensures
        fitting_chars(text, limit) == k,
    decreases text.len(),
{
    if text.len() == 0 {
    } else if byte_len(text) <= limit {
        if k < text.len() {
            lemma_byte_len_grows(text, k + 1);
        }
    } else {
        assert(text.take(text.len() as int) =~= text);
        assert(k < text.len());
        let shorter = text.drop_last();
        assert(shorter.take(k) =~= text.take(k));
        if k < shorter.len() {
            assert(shorter.take(k + 1) =~= text.take(k + 1));
        }
        lemma_fitting_chars(shorter, limit, k);
    }
}

/// Computes [`char_width`].
fn width_of(c: char) -> (width: usize)
    ensures
        width == char_width(c),
{
    let code: u32 = c as u32;
    if code < 0x80 {
        1
    } else if code < 0x800 {
        2
    } else if code < 0x10000 {
        3
    } else {
        4
    }
}

/// The number of leading characters of `chars` that fit in `limit` bytes,
/// and whether that is all of them.
fn fitting(chars: &Vec<char>, limit: usize) -> (cut: (usize, bool))
    requires
        limit <= 1000,
    ensures
        cut.0 == fitting_chars(chars@, limit as nat),
        cut.0 <= chars@.len(),
        cut.1 == (byte_len(chars@) <= limit),
{
    let mut used: usize = 0;
    let mut k: usize = 0;
    while k < chars.len()
        invariant
            k <= chars@.len(),
            used == byte_len(chars@.take(k as int)),
            used <= limit <= 1000,
        decreases chars@.len() - k,
    {
        let width = width_of(chars[k]);
        assert(chars@.take(k + 1).drop_last() =~= chars@.take(k as int));
        assert(chars@.take(k + 1).last() == chars@[k as int]);
        if used + width > limit {
            proof {
                lemma_byte_len_grows(chars@, k + 1);
                lemma_fitting_chars(chars@, limit as nat, k as int);
            }
            return (k, false);
        }
        used = used + width;
        k += 1;
    }
    assert(chars@.take(k as int) =~= chars@);
    proof {
        lemma_fitting_chars(chars@, limit as nat, k as int);
    }
    (k, true)
}

/// A text takes at least as many bytes as any of its beginnings.
pub proof fn lemma_byte_len_grows(text: Seq<char>, k: int)
    requires
        0 <= k <= text.len(),
    ensures
        byte_len(text.take(k)) <= byte_len(text),
    decreases text.len() - k,
{
    if k == text.len() {
        assert(text.take(k) =~= text);
    } else {
        assert(text.take(k + 1).drop_last() =~= text.take(k));
        lemma_byte_len_grows(text, k + 1);
    }
}

/// The title as a list row shows it.
pub fn row_title(title: &str) -> (row: String)
    ensures
        row@ == row_title_of(title@),
{
    let chars = chars_of(title);
    let (_, whole) = fitting(&chars, ROW_TITLE_BYTES);
    if whole {
        title.to_owned()
    } else {
        let (kept, _) = fitting(&chars, ROW_TITLE_KEPT_BYTES);
        let mut row = String::new();
        push_range(&mut row, &chars, 0, kept);
        row.append("...");
        assert(chars@.subrange(0, kept as int) =~= title@.take(kept as int));
        row
    }
}

/// The row for episode `number`.
pub open spec fn episode_row(number: nat) -> Seq<char> {
    padded("Episode "@ + decimal(number))
}

/// Whether `rows` are the rows of the list in the state `app`: the menu's
/// or the actions' lines, one row for each episode, a note where the part
/// is not there yet, and else the shows by their titles.
pub open spec fn are_list_rows(app: AppView, rows: Seq<Seq<char>>) -> bool {
    match app.list_mode {
        ListModeView::MainMenu => rows == app.main_menu_items.map_values(
            |item: Seq<char>| padded(item),
        ),
        ListModeView::AnimeActions => rows == app.anime_action_items.map_values(
            |item: Seq<char>| padded(item),
        ),
        ListModeView::EpisodeSelect => rows == Seq::new(
            lines_of(app),
            |i: int| episode_row((i + 1) as nat),
        ),
        ListModeView::SubMenu(_) => rows == seq!["  (Feature Coming Soon)"@],
        _ => rows == app.media_list.map_values(
            |media: MediaView| padded(row_title_of(preferred_title_of(media.title))),
        ),
    }
}

/// Pads each of `items`.
fn pad_all(items: &Vec<String>) -> (rows: Vec<String>)
    ensures
        texts(rows@) == texts(items@).map_values(|item: Seq<char>| padded(item)),
{
    let mut rows: Vec<String> = Vec::new();
    let mut i: usize = 0;
    while i < items.len()
        invariant
            i <= items@.len(),
            rows@.len() == i,
            forall|k: int| 0 <= k < i ==> (#[trigger] rows@[k])@ == padded(items@[k]@),
        decreases items@.len() - i,
    {
        rows.push(pad(items[i].as_str()));
        i += 1;
    }
    assert(texts(rows@) =~= texts(items@).map_values(|item: Seq<char>| padded(item)));
    rows
}

/// The rows of the list, from top to bottom.
pub fn list_rows(app: &App) -> (rows: Vec<String>)
    ensures
        are_list_rows(app@, texts(rows@)),
{
    match &app.list_mode {
        ListMode::MainMenu => pad_all(&app.main_menu_items),
        ListMode::AnimeActions => pad_all(&app.anime_action_items),
        ListMode::EpisodeSelect => {
            let count = app.list_len();
            let mut rows: Vec<String> = Vec::new();
            let mut i: usize = 0;
            while i < count
                invariant
                    i <= count,
                    rows@.len() == i,
                    forall|k: int| 0 <= k < i ==> (#[trigger] rows@[k])@ == episode_row((k + 1) as nat),
                decreases count - i,
            {
                let mut label = "Episode ".to_owned();
                push_decimal(&mut label, i as u128 + 1);
                rows.push(pad(label.as_str()));
                i += 1;
            }
            assert(texts(rows@) =~= Seq::new(
                lines_of(app@),
                |i: int| episode_row((i + 1) as nat),
            ));
            rows
        },
        ListMode::SubMenu(_) => {
            let mut rows: Vec<String> = Vec::new();
            rows.push("  (Feature Coming Soon)".to_owned());
            assert(texts(rows@) =~= seq!["  (Feature Coming Soon)"@]);
            rows
        },
        _ => {
            let mut rows: Vec<String> = Vec::new();
            let mut i: usize = 0;
            while i < app.media_list.len()
                invariant
                    i <= app.media_list@.len(),
                    rows@.len() == i,
                    forall|k: int|
                        0 <= k < i ==> (#[trigger] rows@[k])@ == padded(
                            row_title_of(preferred_title_of(app.media_list@[k]@.title)),
                        ),
                decreases app.media_list@.len() - i,
            {
                let title = row_title(app.media_list[i].preferred_title());
                rows.push(pad(title.as_str()));
                i += 1;
            }
            assert(texts(rows@) =~= app@.media_list.map_values(
                |media: MediaView| padded(row_title_of(preferred_title_of(media.title))),
            ));
            rows
        },
    }
}

/// The number to show for an optional count: nothing counts as zero.
pub open spec fn count_text(count: Option<i32>) -> Seq<char> {
    match count {
        Some(n) => signed_decimal(n as int),
        None => "0"@,
    }
}

/// The line that gives a show's score.
pub open spec fn score_text(media: MediaView) -> Seq<char> {
    count_text(media.average_score) + "%"@
}

/// The text that gives a show's number of episodes.
pub open spec fn episodes_text(media: MediaView) -> Seq<char> {
    count_text(media.episodes)
}

/// A description without its markup: line breaks become line feeds and the
/// marks for italics vanish.
pub open spec fn cleaned(description: Seq<char>) -> Seq<char> {
    replaced(
        replaced(replaced(description, "<br>"@, "\n"@), "<i>"@, Seq::empty()),
        "</i>"@,
        Seq::empty(),
    )
}

/// A show's description as it is displayed; empty where the show has none.
pub open spec fn description_text(media: MediaView) -> Seq<char> {
    match media.description {
        Some(description) => cleaned(description),
        None => Seq::empty(),
    }
}

/// Computes [`count_text`].
fn render_count(count: Option<i32>) -> (text: String)
    ensures
        text@ == count_text(count),
{
    match count {
        Some(n) => {
            let mut text = String::new();
            push_signed_decimal(&mut text, n as i64);
            text
        },
        None => "0".to_owned(),
    }
}

/// What the panel of the active show says besides the title.
#[derive(Debug)]
pub struct Details {
    pub title: String,
    /// The score with its percent sign.
    pub score: String,
    pub episodes: String,
    pub description: String,
}

/// The words for the panel of the show `media`.
pub fn details(media: &Media) -> (panel: Details)
    ensures
        panel.title@ == preferred_title_of(media@.title),
        panel.score@ == score_text(media@),
        panel.episodes@ == episodes_text(media@),
        panel.description@ == description_text(media@),
{
    proof {
        reveal_strlit("");
        assert(""@ =~= Seq::<char>::empty());
    }
    let mut score = render_count(media.average_score);
    score.append("%");
    let description = match &media.description {
        Some(text) => {
            let broken = replace(text.as_str(), "<br>", "\n");
            let upright = replace(broken.as_str(), "<i>", "");
            replace(upright.as_str(), "</i>", "")
        },
        None => String::new(),
    };
    Details {
        title: media.preferred_title().to_owned(),
        score,
        episodes: render_count(media.episodes),
        description,
    }
}

/// What the search bar says: the search text, or a hint while the text is
/// empty and the bar is not in focus. The flag tells the hint apart.
pub open spec fn search_bar_of(app: AppView) -> (Seq<char>, bool) {
    if app.search_query.len() == 0 && app.focus != Focus::SearchBar {
        ("Press '/' to search..."@, true)
    } else {
        (app.search_query, false)
    }
}

/// Computes [`search_bar_of`].
pub fn search_bar(app: &App) -> (bar: (String, bool))
    ensures
        bar.0@ == search_bar_of(app@).0,
        bar.1 == search_bar_of(app@).1,
{
    if app.search_query.as_str().unicode_len() == 0 && app.focus != Focus::SearchBar {
        ("Press '/' to search...".to_owned(), true)
    } else {
        (app.search_query.clone(), false)
    }
}

} // verus!
