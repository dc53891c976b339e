//! The provider's addresses and what is done with its answers.

use vstd::prelude::*;
use vstd::string::{StringExecFns, StringSliceAdditionalSpecFns};
use crate::json::{json_string, quoted};
use crate::player::traits::PlayOptions;
use crate::provider::models::GogoLink;
use crate::text::{
    chars_of, is_first_offer, matches_at, offers, push_range, replace, replaced, starts_with,
};

verus! {

/// Where the provider answers queries.
pub const API_ENDPOINT: &'static str = "https://api.allanime.day/api";

/// The referer sent with every query.
pub const REFERER: &'static str = "https://allanime.to/";

/// The referer sent with a stream request.
pub const STREAM_REFERER: &'static str = "https://allanime.day/";

/// The browser that every request claims to come from.
pub const USER_AGENT: &'static str = "Mozilla/5.0 (Windows NT 10.0; Win64; x64) AppleWebKit/537.36 (KHTML, like Gecko) Chrome/120.0.0.0 Safari/537.36";

/// The host that serves the stream descriptions.
pub const STREAM_HOST: &'static str = "https://allanime.day";

/// The query that searches shows by name.
pub const SEARCH_QUERY: &'static str = "\n        query($search: SearchInput, $limit: Int, $page: Int, $translationType: VaildTranslationTypeEnumType, $countryOrigin: VaildCountryOriginEnumType) {\n            shows(search: $search, limit: $limit, page: $page, translationType: $translationType, countryOrigin: $countryOrigin) {\n                edges {\n                    _id\n                    name\n                    availableEpisodes\n                }\n            }\n        }\n        ";

/// The query that lists the sources of one episode.
pub const EPISODE_QUERY: &'static str = "\n        query($showId: String!, $translationType: VaildTranslationTypeEnumType!, $episodeString: String!) {\n            episode(showId: $showId, translationType: $translationType, episodeString: $episodeString) {\n                sourceUrls\n            }\n        }\n        ";

/// The title that a stream carries until its caller gives it a better one.
pub const STREAM_TITLE: &'static str = "Anime Stream";

/// The resolution to take where it is offered.
pub const BEST_RESOLUTION: &'static str = "1080p";

/// The key that reference bytes are combined with.
pub const REFERENCE_KEY: u8 = 56;

/// Whether `byte` is written as it is in an address: a letter, a digit or
/// one of `-`, `.`, `_` and `~`.
pub open spec fn is_unreserved(byte: u8) -> bool {
    ||| 48 <= byte <= 57
    ||| 65 <= byte <= 90
    ||| 97 <= byte <= 122
    ||| byte == 45
    ||| byte == 46
    ||| byte == 95
    ||| byte == 126
}

/// The digit for `nibble` in upper-case hexadecimal.
pub open spec fn upper_hex_digit(nibble: int) -> char {
    if nibble < 10 {
        ((48 + nibble) as u8) as char
    } else {
        ((55 + nibble) as u8) as char
    }
}

/// One byte as it stands in an address: itself where it is unreserved, else
/// a percent sign and its two hexadecimal digits.
pub open spec fn percent_encoded_byte(byte: u8) -> Seq<char> {
    if is_unreserved(byte) {
        seq![byte as char]
    } else {
        seq!['%', upper_hex_digit(byte as int / 16), upper_hex_digit(byte as int % 16)]
    }
}

/// Bytes as they stand in an address.
pub open spec fn percent_encoded(bytes: Seq<u8>) -> Seq<char>
    decreases bytes.len(),
{
    if bytes.len() == 0 {
        Seq::empty()
    } else {
        percent_encoded(bytes.drop_last()) + percent_encoded_byte(bytes.last())
    }
}

/// Computes [`upper_hex_digit`].
fn upper_hex(nibble: u8) -> (digit: char)
    requires
        nibble < 16,
    ensures
        digit == upper_hex_digit(nibble as int),
{
    if nibble < 10 {
        (48 + nibble) as char
    } else {
        (55 + nibble) as char
    }
}

/// Computes [`percent_encoded`] for the bytes of `text` in UTF-8: every
/// byte but letters, digits and `-`, `.`, `_`, `~` becomes a percent sign
/// and two upper-case hexadecimal digits.
pub fn percent_encode(text: &str) -> (encoded: String)
    ensures
        encoded@ == percent_encoded(text.spec_bytes()),
{
    let bytes = text.as_bytes();
    let mut encoded = String::new();
    let mut i: usize = 0;
    assert(bytes@.take(0) =~= Seq::<u8>::empty());
    while i < bytes.len()
        invariant
            i <= bytes@.len(),
            bytes@ == text.spec_bytes(),
            encoded@ == percent_encoded(bytes@.take(i as int)),
        decreases bytes@.len() - i,
    {
        let byte = bytes[i];
        assert(bytes@.take(i + 1).drop_last() =~= bytes@.take(i as int));
        assert(bytes@.take(i + 1).last() == byte);
        let ghost before = encoded@;
        let unreserved = (48 <= byte && byte <= 57) || (65 <= byte && byte <= 90) || (97 <= byte
            && byte <= 122) || byte == 45 || byte == 46 || byte == 95 || byte == 126;
        if unreserved {
            encoded.push(byte as char);
            assert(encoded@ =~= before + seq![byte as char]);
        } else {
            encoded.push('%');
            encoded.push(upper_hex(byte / 16));
            encoded.push(upper_hex(byte % 16));
            assert(encoded@ =~= before + seq![
                '%',
                upper_hex_digit(byte as int / 16),
                upper_hex_digit(byte as int % 16),
            ]);
        }
        i += 1;
    }
    assert(bytes@.take(bytes@.len() as int) =~= bytes@);
    encoded
}

/// The variables of a search for `query`, as JSON text.
pub open spec fn search_variables(query: Seq<char>) -> Seq<char> {
    "{\"countryOrigin\":\"ALL\",\"limit\":5,\"page\":1,\"search\":{\"allowAdult\":false,\"allowUnknown\":false,\"query\":"@
        + json_string(query) + "},\"translationType\":\"sub\"}"@
}

/// The variables of a query for the sources of one episode, as JSON text.
pub open spec fn episode_variables(show_id: Seq<char>, episode: Seq<char>) -> Seq<char> {
    "{\"episodeString\":"@ + json_string(episode) + ",\"showId\":"@ + json_string(show_id)
        + ",\"translationType\":\"sub\"}"@
}

/// The address of a query: the endpoint, then the variables and the query
/// text, both percent-encoded.
pub open spec fn query_address(variables: Seq<char>, query: Seq<char>) -> Seq<char> {
    API_ENDPOINT@ + "?variables="@ + percent_encoded(vstd::utf8::encode_utf8(variables))
        + "&query="@ + percent_encoded(vstd::utf8::encode_utf8(query))
}

/// Computes [`query_address`].
fn address_of(variables: &str, query: &str) -> (address: String)
    ensures
        address@ == query_address(variables@, query@),
{
    let mut address = API_ENDPOINT.to_owned();
    address.append("?variables=");
    address.append(percent_encode(variables).as_str());
    address.append("&query=");
    address.append(percent_encode(query).as_str());
    address
}

/// The address that searches the provider's shows for `query`: at most five
/// subtitled shows from any country, adult and unknown ones left out.
pub fn search_url(query: &str) -> (address: String)
    ensures
        address@ == query_address(search_variables(query@), SEARCH_QUERY@),
{
    let mut variables =
        "{\"countryOrigin\":\"ALL\",\"limit\":5,\"page\":1,\"search\":{\"allowAdult\":false,\"allowUnknown\":false,\"query\":".to_owned();
    variables.append(quoted(query).as_str());
    variables.append("},\"translationType\":\"sub\"}");
    address_of(variables.as_str(), SEARCH_QUERY)
}

/// The address that asks for the sources of episode `episode` of the show
/// `show_id`, subtitled.
pub fn episode_sources_url(show_id: &str, episode: &str) -> (address: String)
    ensures
        address@ == query_address(episode_variables(show_id@, episode@), EPISODE_QUERY@),
{
    let mut variables = "{\"episodeString\":".to_owned();
    variables.append(quoted(episode).as_str());
    variables.append(",\"showId\":");
    variables.append(quoted(show_id).as_str());
    variables.append(",\"translationType\":\"sub\"}");
    address_of(variables.as_str(), EPISODE_QUERY)
}

/// Why a source could not be turned into something playable.
#[derive(Debug, Clone, Copy, PartialEq, Eq, Structural)]
pub enum ExtractError {
    /// The reference is no run of two-digit hexadecimal numbers.
    MalformedReference,
    /// The provider offers no link for the source.
    NoLinks,
}

impl ExtractError {
    /// The error in words.
    pub fn message(&self) -> (text: &'static str)
        ensures
            text@ == match self {
                ExtractError::MalformedReference => "Failed to parse hex string"@,
                ExtractError::NoLinks => "No stream links found"@,
            },
    {
        match self {
            ExtractError::MalformedReference => "Failed to parse hex string",
            ExtractError::NoLinks => "No stream links found",
        }
    }
}

/// What a hexadecimal digit stands for, in either case.
pub open spec fn hex_digit_value(c: char) -> Option<int> {
    let code = c as u32;
    if 48 <= code <= 57 {
        Some(code - 48)
    } else if 97 <= code <= 102 {
        Some(code - 87)
    } else if 65 <= code <= 70 {
        Some(code - 55)
    } else {
        None
    }
}

/// The byte that two characters write down: two hexadecimal digits, or a
/// plus sign and one digit.
pub open spec fn hex_pair_value(first: char, second: char) -> Option<u8> {
    match (hex_digit_value(first), hex_digit_value(second)) {
        (Some(high), Some(low)) => Some((16 * high + low) as u8),
        (None, Some(low)) => if first == '+' {
            Some(low as u8)
        } else {
            None
        },
        _ => None,
    }
}

/// Whether `hex` is a reference in its obscured form: pairs of characters
/// that each write down a byte.
pub open spec fn is_reference(hex: Seq<char>) -> bool {
    &&& hex.len() % 2 == 0
    &&& forall|k: int|
        0 <= k < hex.len() / 2 ==> (#[trigger] hex_pair_value(hex[2 * k], hex[2 * k + 1])) is Some
}

/// The character behind one byte of a reference: the byte combined with the
/// key by exclusive or.
pub open spec fn revealed_char(byte: u8) -> char {
    (byte ^ REFERENCE_KEY) as char
}

/// The reference that `hex` obscures: one character for each pair.
pub open spec fn revealed(hex: Seq<char>) -> Seq<char> {
    Seq::new(
        (hex.len() / 2) as nat,
        |k: int| revealed_char(hex_pair_value(hex[2 * k], hex[2 * k + 1]).unwrap()),
    )
}

/// Computes [`hex_digit_value`].
fn hex_digit(c: char) -> (value: Option<u8>)
    ensures
        match value {
            Some(v) => hex_digit_value(c) == Some(v as int),
            None => hex_digit_value(c) is None,
        },
{
    let code: u32 = c as u32;
    if 48 <= code && code <= 57 {
        Some((code - 48) as u8)
    } else if 97 <= code && code <= 102 {
        Some((code - 87) as u8)
    } else if 65 <= code && code <= 70 {
        Some((code - 55) as u8)
    } else {
        None
    }
}

/// Computes [`hex_pair_value`].
fn hex_pair(first: char, second: char) -> (value: Option<u8>)
    ensures
        value == hex_pair_value(first, second),
{
    match (hex_digit(first), hex_digit(second)) {
        (Some(high), Some(low)) => Some(16 * high + low),
        (None, Some(low)) => if first == '+' {
            Some(low)
        } else {
            None
        },
        _ => None,
    }
}

/// Reveals the characters `chars[from..]` of an obscured reference.
fn reveal_from(chars: &Vec<char>, from: usize) -> (result: Result<String, ExtractError>)
    requires
        from <= chars@.len(),
    ensures
        match result {
            Ok(text) => is_reference(chars@.skip(from as int)) && text@ == revealed(
                chars@.skip(from as int),
            ),
            Err(error) => !is_reference(chars@.skip(from as int)) && error
                == ExtractError::MalformedReference,
        },
{
    let ghost hex = chars@.skip(from as int);
    let count = chars.len() - from;
    if count % 2 != 0 {
        return Err(ExtractError::MalformedReference);
    }
    let mut text = String::new();
    let mut k: usize = 0;
    while k < count / 2
        invariant
            from <= chars@.len() <= usize::MAX,
            count == chars@.len() - from,
            count % 2 == 0,
            hex == chars@.skip(from as int),
            k <= count / 2,
            text@.len() == k,
            forall|j: int|
                0 <= j < k ==> (#[trigger] hex_pair_value(hex[2 * j], hex[2 * j + 1])) is Some,
            forall|j: int|
                0 <= j < k ==> #[trigger] text@[j] == revealed_char(
                    hex_pair_value(hex[2 * j], hex[2 * j + 1]).unwrap(),
                ),
        decreases count / 2 - k,
    {
        let first = chars[from + 2 * k];
        let second = chars[from + 2 * k + 1];
        assert(first == hex[2 * k]);
        assert(second == hex[2 * k + 1]);
        match hex_pair(first, second) {
            Some(byte) => {
                text.push((byte ^ REFERENCE_KEY) as char);
            },
            None => {
                assert(hex_pair_value(hex[2 * k], hex[2 * k + 1]) is None);
                return Err(ExtractError::MalformedReference);
            },
        }
        k += 1;
    }
    assert(text@ =~= revealed(hex));
    Ok(text)
}

/// Reveals an obscured source reference: every two characters write down a
/// byte in hexadecimal, and each byte, combined with the key, is one
/// character of the reference.
pub fn decrypt_source_url(hex_string: &str) -> (result: Result<String, ExtractError>)
    ensures
        match result {
            Ok(text) => is_reference(hex_string@) && text@ == revealed(hex_string@),
            Err(error) => !is_reference(hex_string@) && error == ExtractError::MalformedReference,
        },
{
    let chars = chars_of(hex_string);
    assert(chars@.skip(0) =~= hex_string@);
    reveal_from(&chars, 0)
}

/// The plain reference behind `source_url`: what follows two leading dashes
/// is obscured and is revealed; anything else is plain already.
pub open spec fn plain_reference(source_url: Seq<char>) -> Option<Seq<char>> {
    if starts_with(source_url, "--"@) {
        if is_reference(source_url.skip(2)) {
            Some(revealed(source_url.skip(2)))
        } else {
            None
        }
    } else {
        Some(source_url)
    }
}

/// `path` with a leading slash, added where it has none.
pub open spec fn rooted(path: Seq<char>) -> Seq<char> {
    if starts_with(path, "/"@) {
        path
    } else {
        "/"@ + path
    }
}

/// The address that describes the stream behind a plain reference.
pub open spec fn clock_address(reference: Seq<char>) -> Seq<char> {
    STREAM_HOST@ + replaced(rooted(reference), "clock"@, "clock.json"@)
}

/// The address that describes the stream behind `source_url`.
pub fn clock_url(source_url: &str) -> (result: Result<String, ExtractError>)
    ensures
        match result {
            Ok(address) => plain_reference(source_url@) matches Some(reference) && address@
                == clock_address(reference),
            Err(error) => plain_reference(source_url@) is None && error
                == ExtractError::MalformedReference,
        },
{
    proof {
        reveal_strlit("--");
        reveal_strlit("/");
    }
    let chars = chars_of(source_url);
    let dashes = chars_of("--");
    let reference = if matches_at(&chars, 0, &dashes) {
        match reveal_from(&chars, 2) {
            Ok(text) => text,
            Err(error) => {
                return Err(error);
            },
        }
    } else {
        source_url.to_owned()
    };
    let plain = chars_of(reference.as_str());
    let slash = chars_of("/");
    let mut path = String::new();
    if !matches_at(&plain, 0, &slash) {
        path.append("/");
    }
    path.append(reference.as_str());
    assert(path@ =~= rooted(reference@));
    let mut address = STREAM_HOST.to_owned();
    address.append(replace(path.as_str(), "clock", "clock.json").as_str());
    Ok(address)
}

/// The resolutions of `links`, in order.
pub open spec fn resolutions_of(links: Seq<GogoLink>) -> Seq<Seq<char>> {
    links.map_values(|link: GogoLink| link.resolution@)
}

/// Whether link `i` is the one to play: the first in the best resolution,
/// or the last of all where none is in the best resolution.
pub open spec fn is_best_link(links: Seq<GogoLink>, i: int) -> bool {
    if offers(resolutions_of(links), BEST_RESOLUTION@) {
        is_first_offer(resolutions_of(links), BEST_RESOLUTION@, i)
    } else {
        i == links.len() - 1 && 0 <= i
    }
}

/// Picks the link to play. `None` only where there is no link at all.
pub fn best_link(links: &Vec<GogoLink>) -> (best: Option<usize>)
    ensures
        match best {
            Some(i) => i < links@.len() && is_best_link(links@, i as int),
            None => links@.len() == 0,
        },
{
    let ghost resolutions = resolutions_of(links@);
    let mut i: usize = 0;
    while i < links.len()
        invariant
            i <= links@.len(),
            resolutions == resolutions_of(links@),
            forall|j: int| 0 <= j < i ==> #[trigger] resolutions[j] != BEST_RESOLUTION@,
        decreases links@.len() - i,
    {
        if links[i].resolution.as_str().eq(BEST_RESOLUTION) {
            assert(resolutions[i as int] == BEST_RESOLUTION@);
            return Some(i);
        }
        i += 1;
    }
    if links.len() == 0 {
        None
    } else {
        Some(links.len() - 1)
    }
}

/// Whether `options` play the stream at `address`: under the stream title,
/// from the beginning, without subtitles, and with the two headers that the
/// stream host asks for.
pub open spec fn plays_stream(options: PlayOptions, address: Seq<char>) -> bool {
    &&& options.url@ == address
    &&& options.title matches Some(title) && title@ == STREAM_TITLE@
    &&& options.start_time is None
    &&& options.subtitles is None
    &&& options.headers matches Some(headers) && headers@.len() == 2 && headers@[0].0@
        == "User-Agent"@ && headers@[0].1@ == USER_AGENT@ && headers@[1].0@ == "Referer"@
        && headers@[1].1@ == STREAM_REFERER@
}

/// The request that plays the stream at `address`.
pub fn stream_options(address: &str) -> (options: PlayOptions)
    ensures
        plays_stream(options, address@),
{
    let mut headers: Vec<(String, String)> = Vec::new();
    headers.push(("User-Agent".to_owned(), USER_AGENT.to_owned()));
    headers.push(("Referer".to_owned(), STREAM_REFERER.to_owned()));
    PlayOptions {
        url: address.to_owned(),
        title: Some(STREAM_TITLE.to_owned()),
        start_time: None,
        headers: Some(headers),
        subtitles: None,
    }
}

/// Turns the provider's links for a source into a request to play the best
/// of them. Fails only where there is no link.
pub fn extract_stream(links: &Vec<GogoLink>) -> (result: Result<PlayOptions, ExtractError>)
    ensures
        match result {
            Ok(options) => exists|i: int|
                0 <= i < links@.len() && is_best_link(links@, i) && plays_stream(
                    options,
                    (#[trigger] links@[i]).link@,
                ),
            Err(error) => links@.len() == 0 && error == ExtractError::NoLinks,
        },
{
    match best_link(links) {
        Some(i) => Ok(stream_options(links[i].link.as_str())),
        None => Err(ExtractError::NoLinks),
    }
}

} // verus!
