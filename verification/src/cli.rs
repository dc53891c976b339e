//! The words of the command line: what a search announces and how its
//! results are listed.

use vstd::prelude::*;
use vstd::string::StringExecFns;
use crate::models::{preferred_title_of, Media, MediaView};
use crate::text::{decimal, push_decimal, push_signed_decimal, signed_decimal};

verus! {

/// How many shows a random search asks for.
pub const RANDOM_SEARCH_SIZE: usize = 50;

/// The order in which the catalogue sorts by popularity.
pub const SORT_POPULARITY: &'static str = "POPULARITY_DESC";

/// The order in which the catalogue sorts by what is trending.
pub const SORT_TRENDING: &'static str = "TRENDING_DESC";

/// How many of `available` results are listed when `per_page` were asked
/// for: at most that many, and all of them where the number asked for is
/// negative.
pub open spec fn listed_count(per_page: i32, available: nat) -> nat {
    if per_page < 0 || per_page >= available {
        available
    } else {
        per_page as nat
    }
}

/// Computes [`listed_count`].
pub fn shown_results(per_page: i32, available: usize) -> (count: usize)
    ensures
        count == listed_count(per_page, available as nat),
{
    if per_page < 0 {
        available
    } else if per_page as usize >= available {
        available
    } else {
        per_page as usize
    }
}

/// A number where it is known, else `missing`.
pub open spec fn number_or(number: Option<i32>, missing: Seq<char>) -> Seq<char> {
    match number {
        Some(n) => signed_decimal(n as int),
        None => missing,
    }
}

/// The first line for the result at `position`, counted from zero: a blank
/// line, then the number in the list, the title and the score.
pub open spec fn headline(position: nat, media: MediaView) -> Seq<char> {
    "\n"@ + decimal(position + 1) + ". "@ + preferred_title_of(media.title) + " (Score: "@
        + number_or(media.average_score, "N/A"@) + "%)"@
}

/// The second line for a result: the number of episodes and the identifier.
pub open spec fn subline(media: MediaView) -> Seq<char> {
    "   Episodes: "@ + number_or(media.episodes, "?"@) + " | ID: "@ + signed_decimal(
        media.id as int,
    )
}

/// Appends a number where it is known, else `missing`.
fn push_number_or(out: &mut String, number: Option<i32>, missing: &str)
    ensures
        final(out)@ == old(out)@ + number_or(number, missing@),
{
    match number {
        Some(n) => push_signed_decimal(out, n as i64),
        None => out.append(missing),
    }
}

/// The two lines that list the result at `position`, counted from zero.
pub fn result_lines(position: usize, media: &Media) -> (lines: (String, String))
    ensures
        lines.0@ == headline(position as nat, media@),
        lines.1@ == subline(media@),
{
    let mut first = "\n".to_owned();
    push_decimal(&mut first, position as u128 + 1);
    first.append(". ");
    first.append(media.preferred_title());
    first.append(" (Score: ");
    push_number_or(&mut first, media.average_score, "N/A");
    first.append("%)");

    let mut second = "   Episodes: ".to_owned();
    push_number_or(&mut second, media.episodes, "?");
    second.append(" | ID: ");
    push_signed_decimal(&mut second, media.id as i64);
    (first, second)
}

} // verus!
