use ani_l::provider::allanime::{
    best_link, clock_url, decrypt_source_url, episode_sources_url, extract_stream,
    percent_encode, search_url,
    stream_options, ExtractError, API_ENDPOINT, EPISODE_QUERY, REFERER, SEARCH_QUERY,
    STREAM_REFERER, USER_AGENT,
};
use ani_l::provider::models::GogoLink;

fn obscure(text: &str) -> String {
    text.bytes().map(|b| format!("{:02x}", b ^ 56)).collect()
}

fn links(resolutions: &[&str]) -> Vec<GogoLink> {
    resolutions
        .iter()
        .enumerate()
        .map(|(i, r)| GogoLink { link: format!("https://cdn/{}.mp4", i), resolution: r.to_string() })
        .collect()
}

#[test]
fn search_url_is_endpoint_variables_and_query() {
    let mut search = serde_json::Map::new();
    search.insert("allowAdult".to_string(), false.into());
    search.insert("allowUnknown".to_string(), false.into());
    search.insert("query".to_string(), "one punch \"man\" & co".into());
    let mut variables = serde_json::Map::new();
    variables.insert("search".to_string(), serde_json::Value::Object(search));
    variables.insert("limit".to_string(), 5.into());
    variables.insert("page".to_string(), 1.into());
    variables.insert("translationType".to_string(), "sub".into());
    variables.insert("countryOrigin".to_string(), "ALL".into());
    let expected = format!(
        "{}?variables={}&query={}",
        API_ENDPOINT,
        urlencoding::encode(&serde_json::Value::Object(variables).to_string()),
        urlencoding::encode(SEARCH_QUERY)
    );
    assert_eq!(search_url("one punch \"man\" & co"), expected);
}

#[test]
fn search_url_for_a_plain_name() {
    let url = search_url("naruto");
    assert!(url.starts_with(
        "https://api.allanime.day/api?variables=%7B%22countryOrigin%22%3A%22ALL%22%2C%22limit%22%3A5%2C%22page%22%3A1%2C%22search%22%3A%7B%22allowAdult%22%3Afalse%2C%22allowUnknown%22%3Afalse%2C%22query%22%3A%22naruto%22%7D%2C%22translationType%22%3A%22sub%22%7D&query=%0A%20%20%20%20%20%20%20%20query%28%24search%3A%20SearchInput"
    ));
    assert!(url.is_ascii());
    assert!(!url.contains(' '));
}

#[test]
fn search_url_encodes_every_byte_of_other_scripts() {
    let url = search_url("進撃");
    assert!(url.contains("%22query%22%3A%22%E9%80%B2%E6%92%83%22"));
}

#[test]
fn episode_sources_url_is_endpoint_variables_and_query() {
    let mut variables = serde_json::Map::new();
    variables.insert("showId".to_string(), "ReooPAxPMsHM4KPMY".into());
    variables.insert("translationType".to_string(), "sub".into());
    variables.insert("episodeString".to_string(), "12".into());
    let expected = format!(
        "{}?variables={}&query={}",
        API_ENDPOINT,
        urlencoding::encode(&serde_json::Value::Object(variables).to_string()),
        urlencoding::encode(EPISODE_QUERY)
    );
    assert_eq!(episode_sources_url("ReooPAxPMsHM4KPMY", "12"), expected);
}

#[test]
fn queries_name_what_they_ask_for() {
    assert!(SEARCH_QUERY.contains("shows(search: $search"));
    assert!(SEARCH_QUERY.contains("availableEpisodes"));
    assert!(EPISODE_QUERY.contains("episode(showId: $showId"));
    assert!(EPISODE_QUERY.contains("sourceUrls"));
    assert_eq!(REFERER, "https://allanime.to/");
    assert!(USER_AGENT.starts_with("Mozilla/5.0"));
}

#[test]
fn decrypt_reveals_the_reference() {
    assert_eq!(decrypt_source_url(""), Ok(String::new()));
    // 0x17 ^ 56 = '/', 0x59 ^ 56 = 'a'
    assert_eq!(decrypt_source_url("1759"), Ok("/a".to_string()));
    assert_eq!(decrypt_source_url("175B5A"), Ok("/cb".to_string()));
    let reference = "/apivtwo/clock?id=7d2473746a243c2429";
    assert_eq!(decrypt_source_url(&obscure(reference)), Ok(reference.to_string()));
    assert_eq!(decrypt_source_url(&obscure(reference).to_uppercase()), Ok(reference.to_string()));
}

#[test]
fn decrypt_covers_every_byte() {
    for byte in 0..=255u8 {
        let hex = format!("{:02x}", byte);
        let expected: String = std::iter::once(char::from(byte ^ 56)).collect();
        assert_eq!(decrypt_source_url(&hex), Ok(expected), "byte {}", byte);
    }
}

#[test]
fn decrypt_accepts_a_plus_sign_before_one_digit() {
    assert_eq!(decrypt_source_url("+7"), Ok(char::from(7u8 ^ 56).to_string()));
    assert_eq!(decrypt_source_url("17+f"), Ok(format!("/{}", char::from(15u8 ^ 56))));
}

#[test]
fn decrypt_rejects_what_is_no_hex() {
    for bad in ["1", "175", "zz", "1g", "-1", "++", "+", " 1", "1 ", "é", "17é1", "0x17"] {
        assert_eq!(decrypt_source_url(bad), Err(ExtractError::MalformedReference), "{:?}", bad);
    }
}

#[test]
fn error_messages() {
    assert_eq!(ExtractError::MalformedReference.message(), "Failed to parse hex string");
    assert_eq!(ExtractError::NoLinks.message(), "No stream links found");
}

#[test]
fn clock_url_of_an_obscured_reference() {
    let source = format!("--{}", obscure("/apivtwo/clock?id=abc"));
    assert_eq!(clock_url(&source), Ok("https://allanime.day/apivtwo/clock.json?id=abc".to_string()));
}

#[test]
fn clock_url_of_a_plain_reference() {
    assert_eq!(
        clock_url("/apivtwo/clock?id=abc"),
        Ok("https://allanime.day/apivtwo/clock.json?id=abc".to_string())
    );
    assert_eq!(
        clock_url("apivtwo/clock?id=abc"),
        Ok("https://allanime.day/apivtwo/clock.json?id=abc".to_string())
    );
    assert_eq!(clock_url(""), Ok("https://allanime.day/".to_string()));
    assert_eq!(clock_url("-"), Ok("https://allanime.day/-".to_string()));
}

#[test]
fn clock_url_replaces_every_clock() {
    assert_eq!(
        clock_url("/clock/clockclock.json"),
        Ok("https://allanime.day/clock.json/clock.jsonclock.json.json".to_string())
    );
    let source = format!("--{}", obscure("clock"));
    assert_eq!(clock_url(&source), Ok("https://allanime.day/clock.json".to_string()));
}

#[test]
fn clock_url_rejects_a_malformed_reference() {
    assert_eq!(clock_url("--17zz"), Err(ExtractError::MalformedReference));
    assert_eq!(clock_url("--175"), Err(ExtractError::MalformedReference));
    assert_eq!(clock_url("--"), Ok("https://allanime.day/".to_string()));
}

#[test]
fn best_link_prefers_full_hd() {
    assert_eq!(best_link(&links(&["480p", "1080p", "720p", "1080p"])), Some(1));
    assert_eq!(best_link(&links(&["1080p"])), Some(0));
}

#[test]
fn best_link_falls_back_to_the_last() {
    assert_eq!(best_link(&links(&["480p", "720p", "360p"])), Some(2));
    assert_eq!(best_link(&links(&["1080"])), Some(0));
    assert_eq!(best_link(&links(&[])), None);
}

#[test]
fn stream_options_carry_the_headers() {
    let options = stream_options("https://cdn/video.mp4");
    assert_eq!(options.url, "https://cdn/video.mp4");
    assert_eq!(options.title.as_deref(), Some("Anime Stream"));
    assert_eq!(options.start_time, None);
    assert_eq!(options.subtitles, None);
    assert_eq!(
        options.headers,
        Some(vec![
            ("User-Agent".to_string(), USER_AGENT.to_string()),
            ("Referer".to_string(), STREAM_REFERER.to_string()),
        ])
    );
    assert_eq!(STREAM_REFERER, "https://allanime.day/");
}

#[test]
fn extract_stream_plays_the_best_link() {
    let options = extract_stream(&links(&["480p", "1080p", "720p"])).unwrap();
    assert_eq!(options.url, "https://cdn/1.mp4");
    let options = extract_stream(&links(&["480p", "720p"])).unwrap();
    assert_eq!(options.url, "https://cdn/1.mp4");
    assert_eq!(extract_stream(&links(&[])).err(), Some(ExtractError::NoLinks));
}

#[test]
fn percent_encoding_keeps_only_unreserved_bytes() {
    assert_eq!(percent_encode(""), "");
    assert_eq!(percent_encode("AZaz09-._~"), "AZaz09-._~");
    assert_eq!(percent_encode("a b"), "a%20b");
    assert_eq!(percent_encode("{\"k\":1}"), "%7B%22k%22%3A1%7D");
    assert_eq!(percent_encode("é"), "%C3%A9");
    assert_eq!(percent_encode("\n\u{7f}/+%"), "%0A%7F%2F%2B%25");
}

#[test]
fn percent_encoding_agrees_with_urlencoding() {
    let mut every_char = String::new();
    for code in 0..=0x2FFu32 {
        if let Some(c) = char::from_u32(code) {
            every_char.push(c);
        }
    }
    for text in ["", "plain", "a b&c=d/e?f", "進撃の巨人 🎬", "100%", every_char.as_str()] {
        assert_eq!(percent_encode(text), urlencoding::encode(text).into_owned(), "{:?}", text);
    }
}
