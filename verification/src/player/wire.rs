//! The control channel's wire format: one JSON object per line.
//!
//! Commands go out as `{"command":[..]}`; events come in as objects with an
//! `"event"` member.

use vstd::prelude::*;
use vstd::string::StringExecFns;
use crate::json::{
    json_member, json_string, optional_member, quoted, read_member, JsonMember, JsonMemberView,
};
use crate::player::traits::{EpisodeAction, PlayOptions};
use crate::text::{join, joined, texts};

verus! {

/// The signal a key press sends for the next episode.
pub const SIGNAL_NEXT: &'static str = "next-episode";

/// The signal a key press sends for the previous episode.
pub const SIGNAL_PREVIOUS: &'static str = "previous-episode";

/// The property whose changes report the playback position.
pub const POSITION_PROPERTY: &'static str = "percent-pos";

/// How long the notice that an episode is being fetched stays up, in
/// milliseconds.
pub const FETCHING_NOTICE_MS: &'static str = "5000";

/// One command line: the parts, each already JSON text, as the array of a
/// `command` object, closed by a line feed.
pub open spec fn command_line(parts: Seq<Seq<char>>) -> Seq<char> {
    "{\"command\":["@ + joined(parts, ","@) + "]}\n"@
}

/// The line that binds `key` to sending `signal`.
pub open spec fn keybind_line(key: Seq<char>, signal: Seq<char>) -> Seq<char> {
    command_line(
        seq![
            json_string("keybind"@),
            json_string(key),
            json_string("script-message "@ + signal),
        ],
    )
}

/// The line that asks for every change of the playback position.
pub open spec fn observe_line() -> Seq<char> {
    command_line(
        seq![json_string("observe_property"@), "1"@, json_string(POSITION_PROPERTY@)],
    )
}

/// The line that shows `text` on screen, for `duration` milliseconds where
/// one is given.
pub open spec fn show_text_line(text: Seq<char>, duration: Option<Seq<char>>) -> Seq<char> {
    match duration {
        Some(ms) => command_line(
            seq![json_string("show-text"@), json_string(text), json_string(ms)],
        ),
        None => command_line(seq![json_string("show-text"@), json_string(text)]),
    }
}

/// The line that loads new media into the running player.
pub open spec fn load_line(url: Seq<char>) -> Seq<char> {
    command_line(seq![json_string("loadfile"@), json_string(url)])
}

/// The line that sets the window title.
pub open spec fn title_line(title: Seq<char>) -> Seq<char> {
    command_line(
        seq![json_string("set_property"@), json_string("title"@), json_string(title)],
    )
}

/// What is sent once the channel is up: two keys for each direction, a
/// primary one and a fallback, then the subscription to the position.
pub open spec fn setup_lines() -> Seq<Seq<char>> {
    seq![
        keybind_line("shift+n"@, SIGNAL_NEXT@),
        keybind_line("N"@, SIGNAL_NEXT@),
        keybind_line("shift+p"@, SIGNAL_PREVIOUS@),
        keybind_line("P"@, SIGNAL_PREVIOUS@),
        observe_line(),
    ]
}

/// The notice shown while the episode in direction `action` is looked up.
pub open spec fn fetching_line(action: EpisodeAction) -> Seq<char> {
    show_text_line(
        "Fetching "@ + action.label_text() + " Episode..."@,
        Some(FETCHING_NOTICE_MS@),
    )
}

/// The notice shown when there is no episode in direction `action`.
pub open spec fn not_found_line(action: EpisodeAction) -> Seq<char> {
    show_text_line("No "@ + action.lower_label_text() + " episode found"@, None)
}

/// The notice shown when the lookup failed with `message`.
pub open spec fn error_line(message: Seq<char>) -> Seq<char> {
    show_text_line("Error: "@ + message, None)
}

/// What swaps the playing media for `options`: the load, then the title
/// where there is one.
pub open spec fn swap_lines(options: PlayOptions) -> Seq<Seq<char>> {
    match options.title {
        Some(title) => seq![load_line(options.url@), title_line(title@)],
        None => seq![load_line(options.url@)],
    }
}

/// Frames parts that are JSON text already as one command line.
fn frame(parts: &Vec<String>) -> (line: String)
    ensures
        line@ == command_line(texts(parts@)),
{
    let mut line = "{\"command\":[".to_owned();
    let body = join(parts, ",");
    line.append(body.as_str());
    line.append("]}\n");
    line
}

/// Computes [`keybind_line`].
pub fn keybind_command(key: &str, signal: &str) -> (line: String)
    ensures
        line@ == keybind_line(key@, signal@),
{
    let mut action = "script-message ".to_owned();
    action.append(signal);
    let mut parts: Vec<String> = Vec::new();
    parts.push(quoted("keybind"));
    parts.push(quoted(key));
    parts.push(quoted(action.as_str()));
    assert(texts(parts@) == seq![
        json_string("keybind"@),
        json_string(key@),
        json_string("script-message "@ + signal@),
    ]);
    frame(&parts)
}

/// Computes [`observe_line`].
pub fn observe_command() -> (line: String)
    ensures
        line@ == observe_line(),
{
    let mut parts: Vec<String> = Vec::new();
    parts.push(quoted("observe_property"));
    parts.push("1".to_owned());
    parts.push(quoted(POSITION_PROPERTY));
    assert(texts(parts@) == seq![
        json_string("observe_property"@),
        "1"@,
        json_string(POSITION_PROPERTY@),
    ]);
    frame(&parts)
}

/// Computes [`show_text_line`].
pub fn show_text_command(text: &str, duration: Option<&str>) -> (line: String)
    ensures
        line@ == show_text_line(
            text@,
            match duration {
                Some(ms) => Some(ms@),
                None => None,
            },
        ),
{
    let mut parts: Vec<String> = Vec::new();
    parts.push(quoted("show-text"));
    parts.push(quoted(text));
    match duration {
        Some(ms) => {
            parts.push(quoted(ms));
            assert(texts(parts@) == seq![
                json_string("show-text"@),
                json_string(text@),
                json_string(ms@),
            ]);
        },
        None => {
            assert(texts(parts@) == seq![json_string("show-text"@), json_string(text@)]);
        },
    }
    frame(&parts)
}

/// Computes [`load_line`].
pub fn load_command(url: &str) -> (line: String)
    ensures
        line@ == load_line(url@),
{
    let mut parts: Vec<String> = Vec::new();
    parts.push(quoted("loadfile"));
    parts.push(quoted(url));
    assert(texts(parts@) == seq![json_string("loadfile"@), json_string(url@)]);
    frame(&parts)
}

/// Computes [`title_line`].
pub fn title_command(title: &str) -> (line: String)
    ensures
        line@ == title_line(title@),
{
    let mut parts: Vec<String> = Vec::new();
    parts.push(quoted("set_property"));
    parts.push(quoted("title"));
    parts.push(quoted(title));
    assert(texts(parts@) == seq![
        json_string("set_property"@),
        json_string("title"@),
        json_string(title@),
    ]);
    frame(&parts)
}

/// Computes [`setup_lines`].
pub fn setup_commands() -> (lines: Vec<String>)
    ensures
        texts(lines@) == setup_lines(),
{
    let mut lines: Vec<String> = Vec::new();
    lines.push(keybind_command("shift+n", SIGNAL_NEXT));
    lines.push(keybind_command("N", SIGNAL_NEXT));
    lines.push(keybind_command("shift+p", SIGNAL_PREVIOUS));
    lines.push(keybind_command("P", SIGNAL_PREVIOUS));
    lines.push(observe_command());
    assert(texts(lines@) == setup_lines());
    lines
}

/// Computes [`fetching_line`].
pub fn fetching_command(action: EpisodeAction) -> (line: String)
    ensures
        line@ == fetching_line(action),
{
    let mut text = "Fetching ".to_owned();
    text.append(action.label());
    text.append(" Episode...");
    show_text_command(text.as_str(), Some(FETCHING_NOTICE_MS))
}

/// Computes [`not_found_line`].
pub fn not_found_command(action: EpisodeAction) -> (line: String)
    ensures
        line@ == not_found_line(action),
{
    let mut text = "No ".to_owned();
    text.append(action.lower_label());
    text.append(" episode found");
    show_text_command(text.as_str(), None)
}

/// Computes [`error_line`].
pub fn error_command(message: &str) -> (line: String)
    ensures
        line@ == error_line(message@),
{
    let mut text = "Error: ".to_owned();
    text.append(message);
    show_text_command(text.as_str(), None)
}

/// Computes [`swap_lines`].
pub fn swap_commands(options: &PlayOptions) -> (lines: Vec<String>)
    ensures
        texts(lines@) == swap_lines(*options),
{
    let mut lines: Vec<String> = Vec::new();
    lines.push(load_command(options.url.as_str()));
    match &options.title {
        Some(title) => {
            lines.push(title_command(title.as_str()));
            assert(texts(lines@) == seq![load_line(options.url@), title_line(title@)]);
        },
        None => {
            assert(texts(lines@) == seq![load_line(options.url@)]);
        },
    }
    lines
}

/// What a message from the player means to the controller.
#[derive(Debug, Clone, Copy, PartialEq, Eq, Structural)]
pub enum PlayerEvent {
    /// The playback position changed; the bits of the new percentage.
    Position(u64),
    /// The user asked for a neighbouring episode.
    Signal(EpisodeAction),
    /// Nothing the controller acts on.
    Other,
}

/// The direction that a client message with these arguments asks for.
pub open spec fn signal_of(args: Option<JsonMemberView>) -> PlayerEvent {
    match args {
        Some(JsonMemberView::List(items)) => if items.len() == 0 {
            PlayerEvent::Other
        } else {
            match items[0] {
                Some(word) => if word == SIGNAL_NEXT@ {
                    PlayerEvent::Signal(EpisodeAction::Next)
                } else if word == SIGNAL_PREVIOUS@ {
                    PlayerEvent::Signal(EpisodeAction::Previous)
                } else {
                    PlayerEvent::Other
                },
                None => PlayerEvent::Other,
            }
        },
        _ => PlayerEvent::Other,
    }
}

/// The position that a property change with this name and payload reports.
pub open spec fn position_of(
    name: Option<JsonMemberView>,
    data: Option<JsonMemberView>,
) -> PlayerEvent {
    match (name, data) {
        (Some(JsonMemberView::Text(property)), Some(JsonMemberView::Number(Some(bits)))) => {
            if property == POSITION_PROPERTY@ {
                PlayerEvent::Position(bits)
            } else {
                PlayerEvent::Other
            }
        },
        _ => PlayerEvent::Other,
    }
}

/// What a message with the members `event`, `args`, `name` and `data` means.
pub open spec fn classify(
    event: Option<JsonMemberView>,
    args: Option<JsonMemberView>,
    name: Option<JsonMemberView>,
    data: Option<JsonMemberView>,
) -> PlayerEvent {
    match event {
        Some(JsonMemberView::Text(kind)) => if kind == "client-message"@ {
            signal_of(args)
        } else if kind == "property-change"@ {
            position_of(name, data)
        } else {
            PlayerEvent::Other
        },
        _ => PlayerEvent::Other,
    }
}

/// What the line `line` means.
pub open spec fn event_of_line(line: Seq<char>) -> PlayerEvent {
    classify(
        json_member(line, "event"@),
        json_member(line, "args"@),
        json_member(line, "name"@),
        json_member(line, "data"@),
    )
}

/// Computes [`signal_of`].
pub fn interpret_signal(args: &Option<JsonMember>) -> (event: PlayerEvent)
    ensures
        event == signal_of(optional_member(*args)),
{
    match args {
        Some(JsonMember::List(items)) => {
            if items.len() == 0 {
                return PlayerEvent::Other;
            }
            match &items[0] {
                Some(word) => {
                    if word.as_str().eq(SIGNAL_NEXT) {
                        PlayerEvent::Signal(EpisodeAction::Next)
                    } else if word.as_str().eq(SIGNAL_PREVIOUS) {
                        PlayerEvent::Signal(EpisodeAction::Previous)
                    } else {
                        PlayerEvent::Other
                    }
                },
                None => PlayerEvent::Other,
            }
        },
        _ => PlayerEvent::Other,
    }
}

/// Computes [`position_of`].
pub fn interpret_position(name: &Option<JsonMember>, data: &Option<JsonMember>) -> (event:
    PlayerEvent)
    ensures
        event == position_of(optional_member(*name), optional_member(*data)),
{
    match (name, data) {
        (Some(JsonMember::Text(property)), Some(JsonMember::Number(Some(bits)))) => {
            if property.as_str().eq(POSITION_PROPERTY) {
                PlayerEvent::Position(*bits)
            } else {
                PlayerEvent::Other
            }
        },
        _ => PlayerEvent::Other,
    }
}

/// Says what a message means, given its four members as they were read.
pub fn interpret(
    event: &Option<JsonMember>,
    args: &Option<JsonMember>,
    name: &Option<JsonMember>,
    data: &Option<JsonMember>,
) -> (meaning: PlayerEvent)
    ensures
        meaning == classify(
            optional_member(*event),
            optional_member(*args),
            optional_member(*name),
            optional_member(*data),
        ),
{
    match event {
        Some(JsonMember::Text(kind)) => {
            if kind.as_str().eq("client-message") {
                interpret_signal(args)
            } else if kind.as_str().eq("property-change") {
                interpret_position(name, data)
            } else {
                PlayerEvent::Other
            }
        },
        _ => PlayerEvent::Other,
    }
}

/// Reads one line from the channel and says what it means. Only the members
/// that the kind of message calls for are looked up.
pub fn read_event(line: &str) -> (meaning: PlayerEvent)
    ensures
        meaning == event_of_line(line@),
{
    let event = read_member(line, "event");
    match &event {
        Some(JsonMember::Text(kind)) => {
            if kind.as_str().eq("client-message") {
                let args = read_member(line, "args");
                interpret_signal(&args)
            } else if kind.as_str().eq("property-change") {
                let name = read_member(line, "name");
                let data = read_member(line, "data");
                interpret_position(&name, &data)
            } else {
                PlayerEvent::Other
            }
        },
        _ => PlayerEvent::Other,
    }
}

} // verus!
