//! How the player process is started: its name, its control channel's
//! address and its arguments.

use vstd::prelude::*;
use vstd::string::StringExecFns;
use crate::player::traits::PlayOptions;
use crate::text::{decimal, join, joined, push_decimal, texts};

verus! {

/// The program that plays the media, looked up on the search path.
pub const PLAYER_BINARY: &'static str = "mpv";

/// The control channel's address for the invocation numbered `id`.
pub open spec fn socket_path_text(id: u32) -> Seq<char> {
    "/tmp/ani-l-mpv-"@ + decimal(id as nat) + ".sock"@
}

/// Computes [`socket_path_text`].
pub fn socket_path(id: u32) -> (path: String)
    ensures
        path@ == socket_path_text(id),
{
    let mut path = "/tmp/ani-l-mpv-".to_owned();
    push_decimal(&mut path, id as u128);
    path.append(".sock");
    path
}

/// Draws a number with `rand::random`. Nothing is known of the outcome.
#[verifier::external_body]
fn random_id() -> u32 {
    rand::random::<u32>()
}

/// An address for a new invocation, numbered at random so that invocations
/// running side by side or one after the other do not collide.
pub fn fresh_socket_path() -> (path: String)
    ensures
        exists|id: u32| path@ == socket_path_text(id),
{
    let id = random_id();
    socket_path(id)
}

/// One header as the player takes it: name, colon, space, value.
pub open spec fn header_field(header: (String, String)) -> Seq<char> {
    header.0@ + ": "@ + header.1@
}

/// All headers in one argument value, separated by commas.
pub open spec fn header_fields(headers: Seq<(String, String)>) -> Seq<char> {
    joined(headers.map_values(|header: (String, String)| header_field(header)), ","@)
}

/// The arguments that never change, but for the channel's address.
pub open spec fn fixed_arguments(socket_path: Seq<char>) -> Seq<Seq<char>> {
    seq![
        "--force-window=yes"@,
        "--keep-open=yes"@,
        "--input-ipc-server="@ + socket_path,
        "--term-osd-bar"@,
        "--term-status-msg=Status: ${time-pos} / ${duration} (${percent-pos}%)"@,
    ]
}

/// The argument that attaches the request headers, where there are any.
pub open spec fn header_arguments(headers: Option<Vec<(String, String)>>) -> Seq<Seq<char>> {
    match headers {
        Some(list) => if header_fields(list@).len() == 0 {
            Seq::empty()
        } else {
            seq!["--http-header-fields="@ + header_fields(list@)]
        },
        None => Seq::empty(),
    }
}

/// The argument `prefix` followed by `value`, where there is a value.
pub open spec fn optional_argument(prefix: Seq<char>, value: Option<String>) -> Seq<Seq<char>> {
    match value {
        Some(text) => seq![prefix + text@],
        None => Seq::empty(),
    }
}

/// One argument for each subtitle file, in order.
pub open spec fn subtitle_arguments(subtitles: Option<Vec<String>>) -> Seq<Seq<char>> {
    match subtitles {
        Some(files) => files@.map_values(|file: String| "--sub-file="@ + file@),
        None => Seq::empty(),
    }
}

/// The player's arguments for `options`: the window is kept open after the
/// end of the stream, the control channel is bound to `socket_path`,
/// progress is shown on the terminal, then come headers, title, start offset
/// and subtitle files as far as they are given, and last the address to play.
pub open spec fn launch_arguments_of(options: PlayOptions, socket_path: Seq<char>) -> Seq<
    Seq<char>,
> {
    fixed_arguments(socket_path) + header_arguments(options.headers) + optional_argument(
        "--title="@,
        options.title,
    ) + optional_argument("--start="@, options.start_time) + subtitle_arguments(
        options.subtitles,
    ) + seq![options.url@]
}

/// `prefix` followed by `value`.
fn prefixed(prefix: &str, value: &str) -> (argument: String)
    ensures
        argument@ == prefix@ + value@,
{
    let mut argument = prefix.to_owned();
    argument.append(value);
    argument
}

/// Computes [`header_fields`].
fn render_headers(headers: &Vec<(String, String)>) -> (fields: String)
    ensures
        fields@ == header_fields(headers@),
{
    let mut rendered: Vec<String> = Vec::new();
    let mut i: usize = 0;
    while i < headers.len()
        invariant
            i <= headers@.len(),
            rendered@.len() == i,
            forall|k: int| 0 <= k < i ==> (#[trigger] rendered@[k])@ == header_field(headers@[k]),
        decreases headers@.len() - i,
    {
        let mut field = headers[i].0.clone();
        field.append(": ");
        field.append(headers[i].1.as_str());
        rendered.push(field);
        i += 1;
    }
    assert(texts(rendered@) =~= headers@.map_values(
        |header: (String, String)| header_field(header),
    ));
    join(&rendered, ",")
}

/// Computes [`launch_arguments_of`].
pub fn launch_arguments(options: &PlayOptions, socket_path: &str) -> (arguments: Vec<String>)
    ensures
        texts(arguments@) == launch_arguments_of(*options, socket_path@),
{
    let mut arguments: Vec<String> = Vec::new();
    arguments.push("--force-window=yes".to_owned());
    arguments.push("--keep-open=yes".to_owned());
    arguments.push(prefixed("--input-ipc-server=", socket_path));
    arguments.push("--term-osd-bar".to_owned());
    arguments.push(
        "--term-status-msg=Status: ${time-pos} / ${duration} (${percent-pos}%)".to_owned(),
    );
    assert(texts(arguments@) == fixed_arguments(socket_path@));

    match &options.headers {
        Some(list) => {
            let fields = render_headers(list);
            if fields.as_str().unicode_len() != 0 {
                arguments.push(prefixed("--http-header-fields=", fields.as_str()));
            }
        },
        None => {},
    }
    assert(texts(arguments@) == fixed_arguments(socket_path@) + header_arguments(
        options.headers,
    ));

    match &options.title {
        Some(title) => {
            arguments.push(prefixed("--title=", title.as_str()));
        },
        None => {},
    }
    match &options.start_time {
        Some(start) => {
            arguments.push(prefixed("--start=", start.as_str()));
        },
        None => {},
    }
    let ghost before_subtitles = fixed_arguments(socket_path@) + header_arguments(
        options.headers,
    ) + optional_argument("--title="@, options.title) + optional_argument(
        "--start="@,
        options.start_time,
    );
    assert(texts(arguments@) == before_subtitles);

    match &options.subtitles {
        Some(files) => {
            let ghost base = arguments@;
            let mut i: usize = 0;
            while i < files.len()
                invariant
                    i <= files@.len(),
                    arguments@.len() == base.len() + i,
                    forall|k: int| 0 <= k < base.len() ==> arguments@[k] == base[k],
                    forall|k: int|
                        base.len() <= k < arguments@.len() ==> (#[trigger] arguments@[k])@
                            == "--sub-file="@ + files@[k - base.len()]@,
                decreases files@.len() - i,
            {
                arguments.push(prefixed("--sub-file=", files[i].as_str()));
                i += 1;
            }
            assert(texts(arguments@) =~= texts(base) + files@.map_values(
                |file: String| "--sub-file="@ + file@,
            ));
        },
        None => {},
    }
    assert(texts(arguments@) == before_subtitles + subtitle_arguments(options.subtitles));

    arguments.push(options.url.clone());
    assert(texts(arguments@) == launch_arguments_of(*options, socket_path@));
    arguments
}

} // verus!
