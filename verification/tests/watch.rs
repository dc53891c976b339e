use ani_l::config::AuthConfig;
use ani_l::player::progress::WatchedFraction;
use ani_l::player::traits::EpisodeAction;
use ani_l::player::traits::PlayOptions;
use ani_l::provider::models::{
    AvailableEpisodes, EpisodeData, EpisodeResultData, ShowEdge, SourceUrl,
};
use ani_l::watch::{
    attempts, episode_title, find_label, preferred_labels, progress_to_record, select_preferred,
    first_show, first_stream, sync_plan, EpisodeCursor, Resolution, ResolutionStep, SyncPlan,
    WatchError,
};

fn candidates(labels: &[&str]) -> Vec<SourceUrl> {
    labels
        .iter()
        .enumerate()
        .map(|(i, label)| SourceUrl {
            source_name: label.to_string(),
            source_url: format!("--ref{}", i),
        })
        .collect()
}

#[test]
fn previous_on_first_episode_stays() {
    let mut cursor = EpisodeCursor::new(1);
    assert_eq!(cursor.step(EpisodeAction::Previous), None);
    assert_eq!(cursor.index(), 1);
    assert_eq!(cursor.step(EpisodeAction::Previous), None);
    assert_eq!(cursor.index(), 1);
}

#[test]
fn next_counts_up_one_by_one() {
    let mut cursor = EpisodeCursor::new(1);
    for expected in 2..=50 {
        assert_eq!(cursor.step(EpisodeAction::Next), Some(expected));
        assert_eq!(cursor.index(), expected);
    }
}

#[test]
fn previous_goes_back_to_the_first_and_no_further() {
    let mut cursor = EpisodeCursor::new(3);
    assert_eq!(cursor.step(EpisodeAction::Previous), Some(2));
    assert_eq!(cursor.step(EpisodeAction::Previous), Some(1));
    assert_eq!(cursor.step(EpisodeAction::Previous), None);
    assert_eq!(cursor.index(), 1);
    assert_eq!(cursor.step(EpisodeAction::Next), Some(2));
}

#[test]
fn cursor_below_one_is_not_lowered() {
    let mut cursor = EpisodeCursor::new(0);
    assert_eq!(cursor.step(EpisodeAction::Previous), None);
    assert_eq!(cursor.index(), 0);
    assert_eq!(cursor.step(EpisodeAction::Next), Some(1));
    let mut cursor = EpisodeCursor::new(-4);
    assert_eq!(cursor.step(EpisodeAction::Previous), None);
    assert_eq!(cursor.index(), -4);
}

#[test]
fn cursor_reaches_the_last_number() {
    let mut cursor = EpisodeCursor::new(i32::MAX - 1);
    assert_eq!(cursor.step(EpisodeAction::Next), Some(i32::MAX));
    assert_eq!(cursor.step(EpisodeAction::Previous), Some(i32::MAX - 1));
}

#[test]
fn cursor_from_label() {
    assert_eq!(EpisodeCursor::from_label("1").index(), 1);
    assert_eq!(EpisodeCursor::from_label("12").index(), 12);
    assert_eq!(EpisodeCursor::from_label("007").index(), 7);
    assert_eq!(EpisodeCursor::from_label("+3").index(), 3);
    assert_eq!(EpisodeCursor::from_label("-3").index(), -3);
    assert_eq!(EpisodeCursor::from_label("0").index(), 0);
    assert_eq!(EpisodeCursor::from_label("").index(), 1);
    assert_eq!(EpisodeCursor::from_label("12.5").index(), 1);
    assert_eq!(EpisodeCursor::from_label(" 4").index(), 1);
    assert_eq!(EpisodeCursor::from_label("special").index(), 1);
    assert_eq!(EpisodeCursor::from_label("99999999999").index(), 1);
}

#[test]
fn selector_prefers_by_priority_not_by_position() {
    let list = candidates(&["Yt-mp4", "S-mp4"]);
    let selected = select_preferred(&["S-mp4", "Luf-mp4", "Default"], &list);
    assert_eq!(selected, Some(1));
    assert_eq!(list[selected.unwrap()].source_name, "S-mp4");
}

#[test]
fn selector_signals_no_preferred_match() {
    let list = candidates(&["Unknown-1", "Unknown-2"]);
    assert_eq!(select_preferred(&["S-mp4", "Luf-mp4", "Default"], &list), None);
    // The caller falls back to the order of the list.
    assert_eq!(attempts(&["S-mp4", "Luf-mp4", "Default"], &list), vec![0, 1]);
}

#[test]
fn selector_takes_the_first_of_equal_labels() {
    let list = candidates(&["Default", "S-mp4", "Default", "S-mp4"]);
    assert_eq!(select_preferred(&["S-mp4", "Default"], &list), Some(1));
    assert_eq!(select_preferred(&["Default", "S-mp4"], &list), Some(0));
    assert_eq!(select_preferred(&["Missing", "Default"], &list), Some(0));
}

#[test]
fn selector_matches_labels_exactly() {
    let list = candidates(&["s-mp4", "S-mp4 ", "S-mp"]);
    assert_eq!(select_preferred(&["S-mp4"], &list), None);
    assert_eq!(find_label(&list, "S-mp"), Some(2));
    assert_eq!(find_label(&list, "S-mp4"), None);
}

#[test]
fn selector_on_empty_inputs() {
    assert_eq!(select_preferred(&["S-mp4"], &candidates(&[])), None);
    assert_eq!(select_preferred(&[], &candidates(&["S-mp4"])), None);
    assert_eq!(attempts(&["S-mp4"], &candidates(&[])), Vec::<usize>::new());
    assert_eq!(attempts(&[], &candidates(&["a", "b", "c"])), vec![0, 1, 2]);
}

#[test]
fn attempts_follow_the_priorities() {
    let list = candidates(&["Yt-mp4", "Other", "Default", "S-mp4", "Default", "Luf-Mp4"]);
    let labels = preferred_labels();
    assert_eq!(labels, vec!["S-mp4", "Luf-mp4", "Luf-Mp4", "Sak", "Default", "Yt-mp4"]);
    assert_eq!(attempts(&labels, &list), vec![3, 5, 2, 4, 0]);
    assert_eq!(select_preferred(&labels, &list), Some(3));
}

#[test]
fn first_attempt_is_the_selected_candidate() {
    let labels = preferred_labels();
    for list in [
        candidates(&["Yt-mp4", "S-mp4"]),
        candidates(&["Sak"]),
        candidates(&["x", "Default", "y", "Luf-mp4"]),
    ] {
        let order = attempts(&labels, &list);
        assert_eq!(order.first().copied(), select_preferred(&labels, &list));
    }
}

#[test]
fn episode_title_joins_name_and_number() {
    assert_eq!(episode_title("One Piece", "1071"), "One Piece - Episode 1071");
    assert_eq!(episode_title("", ""), " - Episode ");
    assert_eq!(episode_title("進撃の巨人", "2"), "進撃の巨人 - Episode 2");
}

fn fraction(percent: f64) -> WatchedFraction {
    let mut fraction = WatchedFraction::zero();
    fraction.observe(percent.to_bits());
    fraction
}

fn logged_in() -> AuthConfig {
    AuthConfig { anilist_token: Some("token".to_string()), username: Some("user".to_string()) }
}

#[test]
fn sync_needs_enough_watched() {
    assert_eq!(sync_plan(fraction(84.9), 85, &logged_in(), Some(21)), SyncPlan::Incomplete);
    assert_eq!(sync_plan(fraction(0.0), 85, &AuthConfig::anonymous(), None), SyncPlan::Incomplete);
    assert_eq!(sync_plan(fraction(85.0), 85, &logged_in(), Some(21)), SyncPlan::Compare(21));
    assert_eq!(sync_plan(fraction(100.0), 85, &logged_in(), Some(21)), SyncPlan::Compare(21));
    assert_eq!(sync_plan(fraction(0.0), 0, &logged_in(), Some(5)), SyncPlan::Compare(5));
}

#[test]
fn sync_needs_login_and_id() {
    assert_eq!(sync_plan(fraction(90.0), 85, &AuthConfig::anonymous(), Some(21)), SyncPlan::Unlinked);
    assert_eq!(sync_plan(fraction(90.0), 85, &logged_in(), None), SyncPlan::Unlinked);
    let token_only = AuthConfig { anilist_token: Some("t".to_string()), username: None };
    assert_eq!(sync_plan(fraction(90.0), 85, &token_only, Some(21)), SyncPlan::Unlinked);
    let name_only = AuthConfig { anilist_token: None, username: Some("u".to_string()) };
    assert_eq!(sync_plan(fraction(90.0), 85, &name_only, Some(21)), SyncPlan::Unlinked);
}

#[test]
fn progress_is_recorded_only_forward() {
    assert_eq!(progress_to_record(5, Some(4)), Some(5));
    assert_eq!(progress_to_record(5, Some(5)), None);
    assert_eq!(progress_to_record(5, Some(9)), None);
    assert_eq!(progress_to_record(1, None), Some(1));
    assert_eq!(progress_to_record(0, None), None);
    assert_eq!(progress_to_record(-1, None), None);
}

#[test]
fn credentials_need_both_parts() {
    assert_eq!(logged_in().credentials(), Some(("token", "user")));
    assert_eq!(AuthConfig::anonymous().credentials(), None);
    let token_only = AuthConfig { anilist_token: Some("t".to_string()), username: None };
    assert_eq!(token_only.credentials(), None);
}

#[test]
fn cursor_label_is_the_number() {
    assert_eq!(EpisodeCursor::new(1).label(), "1");
    assert_eq!(EpisodeCursor::new(1071).label(), "1071");
    assert_eq!(EpisodeCursor::new(0).label(), "0");
    assert_eq!(EpisodeCursor::new(-3).label(), "-3");
    assert_eq!(EpisodeCursor::new(i32::MAX).label(), "2147483647");
    assert_eq!(EpisodeCursor::new(i32::MIN).label(), "-2147483648");
    let mut cursor = EpisodeCursor::from_label("9");
    cursor.step(EpisodeAction::Next);
    assert_eq!(cursor.label(), "10");
}

#[test]
fn attempts_take_every_candidate_of_a_label() {
    assert_eq!(attempts(&["S-mp4"], &candidates(&["S-mp4", "S-mp4"])), vec![0, 1]);
    assert_eq!(
        attempts(&["Default", "S-mp4"], &candidates(&["S-mp4", "Default", "x", "S-mp4", "Default"])),
        vec![1, 4, 0, 3]
    );
    assert_eq!(attempts(&["a", "a"], &candidates(&["a", "b"])), vec![0, 0]);
}

fn answer(labels: &[&str]) -> Result<EpisodeResultData, String> {
    Ok(EpisodeResultData { episode: Some(EpisodeData { source_urls: candidates(labels) }) })
}

fn stream(url: &str) -> PlayOptions {
    PlayOptions {
        url: url.to_string(),
        title: Some("Anime Stream".to_string()),
        start_time: None,
        headers: Some(vec![("Referer".to_string(), "https://allanime.day/".to_string())]),
        subtitles: None,
    }
}

/// Carries a resolution through; a source extracts where `playable` names it.
fn resolve(labels: &[&str], playable: &[&str]) -> (Vec<String>, Option<PlayOptions>) {
    let mut resolution =
        Resolution::begin(answer(labels), &preferred_labels(), "Show", "7").unwrap();
    let mut tried = Vec::new();
    let mut extracted = None;
    loop {
        match resolution.advance(extracted.take()) {
            ResolutionStep::Extract(reference) => {
                if playable.contains(&reference.as_str()) {
                    extracted = Some(stream(&format!("https://cdn/{}", reference)));
                }
                tried.push(reference);
            }
            ResolutionStep::Found(options) => return (tried, Some(options)),
            ResolutionStep::NotFound => return (tried, None),
        }
    }
}

#[test]
fn second_candidate_of_a_label_is_tried_when_the_first_fails() {
    let (tried, found) = resolve(&["S-mp4", "S-mp4"], &["--ref1"]);
    assert_eq!(tried, vec!["--ref0", "--ref1"]);
    let found = found.unwrap();
    assert_eq!(found.url, "https://cdn/--ref1");
    assert_eq!(found.title.as_deref(), Some("Show - Episode 7"));
    assert_eq!(found.headers, stream("x").headers);
}

#[test]
fn resolution_stops_at_the_first_success() {
    let (tried, found) = resolve(&["Yt-mp4", "S-mp4", "Default"], &["--ref1", "--ref2"]);
    assert_eq!(tried, vec!["--ref1"]);
    assert_eq!(found.unwrap().url, "https://cdn/--ref1");
}

#[test]
fn better_label_wins_whatever_the_order_of_the_list() {
    let (tried, found) = resolve(&["Yt-mp4", "Default", "S-mp4"], &["--ref0", "--ref1"]);
    assert_eq!(tried, vec!["--ref2", "--ref1"]);
    assert_eq!(found.unwrap().url, "https://cdn/--ref1");
}

#[test]
fn resolution_finds_nothing_only_when_all_fail() {
    let (tried, found) = resolve(&["Yt-mp4", "S-mp4", "Other"], &["--ref2"]);
    assert_eq!(tried, vec!["--ref1", "--ref0"]);
    assert!(found.is_none());
    let (tried, found) = resolve(&["Unknown-1", "Unknown-2"], &["--ref1"]);
    assert_eq!(tried, vec!["--ref0", "--ref1"]);
    assert_eq!(found.unwrap().url, "https://cdn/--ref1");
    let (tried, found) = resolve(&[], &[]);
    assert!(tried.is_empty());
    assert!(found.is_none());
}

#[test]
fn unknown_episode_is_not_found() {
    let unknown: Result<EpisodeResultData, String> = Ok(EpisodeResultData { episode: None });
    let mut resolution = Resolution::begin(unknown, &preferred_labels(), "Show", "7").unwrap();
    assert!(matches!(resolution.advance(None), ResolutionStep::NotFound));
    assert!(matches!(resolution.advance(None), ResolutionStep::NotFound));
}

#[test]
fn provider_error_is_handed_on() {
    let failed: Result<EpisodeResultData, String> = Err("connection reset".to_string());
    let error = Resolution::begin(failed, &preferred_labels(), "Show", "7").err();
    assert_eq!(error.as_deref(), Some("connection reset"));
}

#[test]
fn a_request_ends_the_resolution_at_once() {
    let mut resolution =
        Resolution::begin(answer(&["S-mp4", "Default"]), &preferred_labels(), "Show", "1").unwrap();
    match resolution.advance(Some(stream("direct"))) {
        ResolutionStep::Found(options) => {
            assert_eq!(options.url, "direct");
            assert_eq!(options.title.as_deref(), Some("Show - Episode 1"));
        }
        other => panic!("unexpected {:?}", other),
    }
    // Nothing was handed out by that step.
    assert!(matches!(resolution.advance(None), ResolutionStep::Extract(r) if r == "--ref0"));
}

fn edge(id: &str, name: &str) -> ShowEdge {
    ShowEdge {
        id: id.to_string(),
        name: name.to_string(),
        available_episodes: AvailableEpisodes { sub: 12, dub: 0, raw: 0 },
    }
}

#[test]
fn first_show_of_a_search() {
    let results = vec![edge("a1", "One Piece"), edge("b2", "One Punch Man")];
    let show = first_show(&results).unwrap();
    assert_eq!(show.id, "a1");
    assert_eq!(show.name, "One Piece");
    assert_eq!(first_show(&vec![]).err(), Some(WatchError::NoResults));
    assert_eq!(WatchError::NoResults.message(), "No results found on AllAnime");
}

#[test]
fn first_stream_of_a_resolution() {
    assert_eq!(first_stream(Some(stream("u"))).unwrap().url, "u");
    assert_eq!(first_stream(None).err(), Some(WatchError::NoStreams));
    assert_eq!(WatchError::NoStreams.message(), "No streams found.");
}
