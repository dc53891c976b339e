//! What is worked out about the terminal before images are shown: the size
//! of a character cell and the way images are sent.

use vstd::prelude::*;
use crate::text::{
    chars_of, find, first_occurrence, is_first_occurrence, parse_u16_range, parsed_u16,
};

verus! {

/// The width of a character cell, in pixels, where nothing else is known.
pub const FALLBACK_CELL_WIDTH: u16 = 10;

/// The height of a character cell, in pixels, where nothing else is known.
pub const FALLBACK_CELL_HEIGHT: u16 = 20;

/// How long the terminal is given to report its size, in milliseconds.
pub const REPORT_TIMEOUT_MS: u64 = 500;

/// What asks the terminal for its size in pixels.
pub const SIZE_QUERY: &'static str = "\x1b[14t";

/// What the terminal's report of its size begins with.
pub const REPORT_PREFIX: &'static str = "\x1b[4;";

/// Whether a cell size can be worked with: neither side is zero.
pub open spec fn is_usable(size: (u16, u16)) -> bool {
    size.0 != 0 && size.1 != 0
}

/// Whether the terminal has to be asked for its size in pixels.
pub fn needs_measuring(detected: (u16, u16)) -> (needed: bool)
    ensures
        needed == !is_usable(detected),
{
    detected.0 == 0 || detected.1 == 0
}

/// The size of a character cell: what was detected, where that is usable;
/// else the terminal's size in pixels divided by its size in cells, where
/// both were measured and the terminal has cells; and where that is still
/// not usable, the fallback.
pub open spec fn cell_size_of(
    detected: (u16, u16),
    measured: Option<((u16, u16), (u16, u16))>,
) -> (u16, u16) {
    let size = if is_usable(detected) {
        detected
    } else {
        match measured {
            Some((pixels, cells)) => if cells.0 > 0 && cells.1 > 0 {
                ((pixels.0 / cells.0) as u16, (pixels.1 / cells.1) as u16)
            } else {
                detected
            },
            None => detected,
        }
    };
    if is_usable(size) {
        size
    } else {
        (FALLBACK_CELL_WIDTH, FALLBACK_CELL_HEIGHT)
    }
}

/// Computes [`cell_size_of`]. `measured` holds the terminal's size in
/// pixels and in cells, width first.
pub fn cell_size(detected: (u16, u16), measured: Option<((u16, u16), (u16, u16))>) -> (size: (
    u16,
    u16,
))
    ensures
        size == cell_size_of(detected, measured),
        is_usable(size),
{
    let mut size = detected;
    if needs_measuring(size) {
        match measured {
            Some((pixels, cells)) => {
                if cells.0 > 0 && cells.1 > 0 {
                    size = (pixels.0 / cells.0, pixels.1 / cells.1);
                }
            },
            None => {},
        }
    }
    if needs_measuring(size) {
        size = (FALLBACK_CELL_WIDTH, FALLBACK_CELL_HEIGHT);
    }
    size
}

/// A way to send images to the terminal.
#[derive(Debug, Clone, Copy, PartialEq, Eq, Structural)]
pub enum ProtocolChoice {
    Kitty,
    Sixel,
    Iterm2,
    Halfblocks,
}

/// The way that goes by `name`, written in lower case; any other name
/// stands for half blocks.
pub open spec fn protocol_of(name: Seq<char>) -> ProtocolChoice {
    if name == "kitty"@ {
        ProtocolChoice::Kitty
    } else if name == "sixel"@ {
        ProtocolChoice::Sixel
    } else if name == "iterm2"@ {
        ProtocolChoice::Iterm2
    } else {
        ProtocolChoice::Halfblocks
    }
}

/// Computes [`protocol_of`].
pub fn protocol_named(name: &str) -> (choice: ProtocolChoice)
    ensures
        choice == protocol_of(name@),
{
    if name.eq("kitty") {
        ProtocolChoice::Kitty
    } else if name.eq("sixel") {
        ProtocolChoice::Sixel
    } else if name.eq("iterm2") {
        ProtocolChoice::Iterm2
    } else {
        ProtocolChoice::Halfblocks
    }
}

/// `text` in lower case, as the standard library turns it.
pub uninterp spec fn lowercased(text: Seq<char>) -> Seq<char>;

/// Calls `str::to_lowercase` of the standard library. The result is a
/// function of the text alone and is known here only by its name.
#[verifier::external_body]
fn lowercase(text: &str) -> (lower: String)
    ensures
        lower@ == lowercased(text@),
{
    text.to_lowercase()
}

/// The way that the user asked for by `name`, in whatever case.
pub fn forced_protocol(name: &str) -> (choice: ProtocolChoice)
    ensures
        choice == protocol_of(lowercased(name@)),
{
    let lower = lowercase(name);
    protocol_named(lower.as_str())
}

/// The number that a part of the report writes down; zero where it writes
/// down none.
pub open spec fn part_value(part: Seq<char>) -> u16 {
    match parsed_u16(part) {
        Some(value) => value,
        None => 0,
    }
}

/// The terminal's size in pixels, width first, as `response` reports it.
/// The report begins with [`REPORT_PREFIX`]; between that and the last
/// character of the response stand the height, a semicolon and the width,
/// and whatever follows a further semicolon does not count.
pub open spec fn pixel_report(response: Seq<char>) -> Option<(u16, u16)> {
    match first_occurrence(response, REPORT_PREFIX@, 0) {
        Some(start) => if start + 4 <= response.len() - 1 {
            let content = response.subrange(start + 4, response.len() - 1);
            match first_occurrence(content, ";"@, 0) {
                Some(first) => {
                    let height = content.subrange(0, first);
                    let rest = content.subrange(first + 1, content.len() as int);
                    let width = match first_occurrence(rest, ";"@, 0) {
                        Some(second) => rest.subrange(0, second),
                        None => rest,
                    };
                    Some((part_value(width), part_value(height)))
                },
                None => None,
            }
        } else {
            None
        },
        None => None,
    }
}

/// Computes [`part_value`] for `chars[from..to]`.
fn value_of(chars: &Vec<char>, from: usize, to: usize) -> (value: u16)
    requires
        from <= to <= chars@.len(),
    ensures
        value == part_value(chars@.subrange(from as int, to as int)),
{
    match parse_u16_range(chars, from, to) {
        Some(value) => value,
        None => 0,
    }
}

/// Computes [`pixel_report`].
pub fn parse_pixel_report(response: &str) -> (size: Option<(u16, u16)>)
    ensures
        size == pixel_report(response@),
{
    proof {
        reveal_strlit("\x1b[4;");
        reveal_strlit(";");
    }
    let chars = chars_of(response);
    let prefix = chars_of(REPORT_PREFIX);
    let semicolon = chars_of(";");
    let start = match find(&chars, &prefix, 0) {
        Some(start) => start,
        None => {
            return None;
        },
    };
    if chars.len() < 5 || start > chars.len() - 5 {
        return None;
    }
    let mut content: Vec<char> = Vec::new();
    let mut i: usize = start + 4;
    while i < chars.len() - 1
        invariant
            start + 4 <= i <= chars@.len() - 1,
            content@ == chars@.subrange(start + 4, i as int),
        decreases chars@.len() - i,
    {
        content.push(chars[i]);
        i += 1;
        assert(content@ =~= chars@.subrange(start + 4, i as int));
    }
    let first = match find(&content, &semicolon, 0) {
        Some(first) => first,
        None => {
            return None;
        },
    };
    let height = value_of(&content, 0, first);
    let mut rest: Vec<char> = Vec::new();
    let mut k: usize = first + 1;
    while k < content.len()
        invariant
            first + 1 <= k <= content@.len(),
            rest@ == content@.subrange(first + 1, k as int),
        decreases content@.len() - k,
    {
        rest.push(content[k]);
        k += 1;
        assert(rest@ =~= content@.subrange(first + 1, k as int));
    }
    let width = match find(&rest, &semicolon, 0) {
        Some(second) => value_of(&rest, 0, second),
        None => {
            assert(rest@ =~= rest@.subrange(0, rest@.len() as int));
            value_of(&rest, 0, rest.len())
        },
    };
    Some((width, height))
}

} // verus!
