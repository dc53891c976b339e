use ani_l::json::JsonMember;
use ani_l::player::traits::{EpisodeAction, PlayOptions};
use ani_l::player::wire::{
    error_command, fetching_command, interpret, interpret_position, interpret_signal,
    keybind_command, load_command, not_found_command, observe_command, read_event,
    setup_commands, show_text_command, swap_commands, title_command, PlayerEvent,
    FETCHING_NOTICE_MS, POSITION_PROPERTY, SIGNAL_NEXT, SIGNAL_PREVIOUS,
};

/// What `serde_json` itself writes for a command with these arguments.
fn reference_line(arguments: Vec<serde_json::Value>) -> String {
    let mut object = serde_json::Map::new();
    object.insert("command".to_string(), serde_json::Value::Array(arguments));
    let mut line = serde_json::Value::Object(object).to_string();
    line.push('\n');
    line
}

const AWKWARD: [&str; 7] = [
    "",
    "plain",
    "with \"quotes\" and \\ backslash",
    "line\nbreak\ttab",
    "control \u{1} \u{1f} \u{7f}",
    "ünïcödé 進撃 🎬",
    "https://host/path?x=1&y=\"2\"",
];

#[test]
fn wire_constants() {
    assert_eq!(SIGNAL_NEXT, "next-episode");
    assert_eq!(SIGNAL_PREVIOUS, "previous-episode");
    assert_eq!(POSITION_PROPERTY, "percent-pos");
    assert_eq!(FETCHING_NOTICE_MS, "5000");
}

#[test]
fn commands_are_what_serde_json_writes() {
    for text in AWKWARD {
        assert_eq!(load_command(text), reference_line(vec!["loadfile".into(), text.into()]));
        assert_eq!(
            title_command(text),
            reference_line(vec!["set_property".into(), "title".into(), text.into()])
        );
        assert_eq!(
            show_text_command(text, None),
            reference_line(vec!["show-text".into(), text.into()])
        );
        assert_eq!(
            show_text_command(text, Some("5000")),
            reference_line(vec!["show-text".into(), text.into(), "5000".into()])
        );
        assert_eq!(
            error_command(text),
            reference_line(vec!["show-text".into(), format!("Error: {}", text).into()])
        );
        assert_eq!(
            keybind_command(text, "sig"),
            reference_line(vec!["keybind".into(), text.into(), "script-message sig".into()])
        );
    }
}

#[test]
fn observe_command_carries_a_number() {
    assert_eq!(observe_command(), "{\"command\":[\"observe_property\",1,\"percent-pos\"]}\n");
    assert_eq!(
        observe_command(),
        reference_line(vec!["observe_property".into(), 1.into(), "percent-pos".into()])
    );
}

#[test]
fn setup_has_two_keys_per_direction() {
    let lines = setup_commands();
    assert_eq!(lines.len(), 5);
    assert_eq!(lines[0], keybind_command("shift+n", SIGNAL_NEXT));
    assert_eq!(lines[1], keybind_command("N", SIGNAL_NEXT));
    assert_eq!(lines[2], keybind_command("shift+p", SIGNAL_PREVIOUS));
    assert_eq!(lines[3], keybind_command("P", SIGNAL_PREVIOUS));
    assert_eq!(lines[4], observe_command());
    assert!(lines.iter().all(|line| line.ends_with('\n') && line.matches('\n').count() == 1));
}

#[test]
fn notices_name_the_direction() {
    assert_eq!(
        fetching_command(EpisodeAction::Next),
        "{\"command\":[\"show-text\",\"Fetching Next Episode...\",\"5000\"]}\n"
    );
    assert_eq!(
        fetching_command(EpisodeAction::Previous),
        "{\"command\":[\"show-text\",\"Fetching Previous Episode...\",\"5000\"]}\n"
    );
    assert_eq!(
        not_found_command(EpisodeAction::Next),
        "{\"command\":[\"show-text\",\"No next episode found\"]}\n"
    );
    assert_eq!(
        not_found_command(EpisodeAction::Previous),
        "{\"command\":[\"show-text\",\"No previous episode found\"]}\n"
    );
    assert_eq!(EpisodeAction::Next.label(), "Next");
    assert_eq!(EpisodeAction::Previous.label(), "Previous");
    assert_eq!(EpisodeAction::Next.lower_label(), "next");
    assert_eq!(EpisodeAction::Previous.lower_label(), "previous");
}

#[test]
fn swap_commands_load_then_title() {
    let options = PlayOptions {
        url: "http://example/ep2.m3u8".to_string(),
        title: Some("Show - Episode 2".to_string()),
        ..Default::default()
    };
    assert_eq!(
        swap_commands(&options),
        vec![load_command("http://example/ep2.m3u8"), title_command("Show - Episode 2")]
    );
    let untitled = PlayOptions { url: "x".to_string(), ..Default::default() };
    assert_eq!(swap_commands(&untitled), vec![load_command("x")]);
}

#[test]
fn read_event_recognises_positions() {
    assert_eq!(
        read_event("{\"event\":\"property-change\",\"id\":1,\"name\":\"percent-pos\",\"data\":45.0}"),
        PlayerEvent::Position(45.0f64.to_bits())
    );
    assert_eq!(
        read_event("{\"data\":0.125,\"name\":\"percent-pos\",\"event\":\"property-change\"}"),
        PlayerEvent::Position(0.125f64.to_bits())
    );
    assert_eq!(
        read_event("{\"event\":\"property-change\",\"name\":\"percent-pos\",\"data\":7}"),
        PlayerEvent::Position(7.0f64.to_bits())
    );
    assert_eq!(
        read_event("{\"event\":\"property-change\",\"name\":\"percent-pos\",\"data\":-2.5}"),
        PlayerEvent::Position((-2.5f64).to_bits())
    );
    assert_eq!(
        read_event("{\"event\":\"property-change\",\"name\":\"time-pos\",\"data\":45.0}"),
        PlayerEvent::Other
    );
    assert_eq!(
        read_event("{\"event\":\"property-change\",\"name\":\"percent-pos\",\"data\":\"45\"}"),
        PlayerEvent::Other
    );
}

#[test]
fn read_event_recognises_signals() {
    assert_eq!(
        read_event("{\"event\":\"client-message\",\"args\":[\"next-episode\"]}"),
        PlayerEvent::Signal(EpisodeAction::Next)
    );
    assert_eq!(
        read_event("{\"event\":\"client-message\",\"args\":[\"previous-episode\",\"extra\"]}"),
        PlayerEvent::Signal(EpisodeAction::Previous)
    );
    assert_eq!(
        read_event("{\"event\":\"client-message\",\"args\":[\"Next-Episode\"]}"),
        PlayerEvent::Other
    );
    assert_eq!(read_event("{\"event\":\"client-message\",\"args\":[]}"), PlayerEvent::Other);
    assert_eq!(
        read_event("{\"event\":\"other\",\"args\":[\"next-episode\"]}"),
        PlayerEvent::Other
    );
    assert_eq!(
        read_event("{\"event\":\"client-message\",\"args\":[null,\"next-episode\"]}"),
        PlayerEvent::Other
    );
    assert_eq!(
        read_event("{\"event\":\"client-message\",\"args\":{\"0\":\"next-episode\"}}"),
        PlayerEvent::Other
    );
    assert_eq!(read_event("{\"args\":[\"next-episode\"]}"), PlayerEvent::Other);
    assert_eq!(read_event("garbage"), PlayerEvent::Other);
}

#[test]
fn interpret_works_on_members_as_read() {
    let text = |s: &str| Some(JsonMember::Text(s.to_string()));
    let list = |items: Vec<Option<&str>>| {
        Some(JsonMember::List(items.into_iter().map(|i| i.map(|s| s.to_string())).collect()))
    };
    let number = |bits: u64| Some(JsonMember::Number(Some(bits)));

    assert_eq!(
        interpret(&text("client-message"), &list(vec![Some("next-episode")]), &None, &None),
        PlayerEvent::Signal(EpisodeAction::Next)
    );
    assert_eq!(
        interpret(&text("client-message"), &list(vec![None, Some("next-episode")]), &None, &None),
        PlayerEvent::Other
    );
    assert_eq!(
        interpret(&text("property-change"), &None, &text("percent-pos"), &number(99)),
        PlayerEvent::Position(99)
    );
    assert_eq!(
        interpret(
            &text("property-change"),
            &None,
            &text("percent-pos"),
            &Some(JsonMember::Number(None))
        ),
        PlayerEvent::Other
    );
    assert_eq!(
        interpret(
            &text("property-change"),
            &list(vec![Some("next-episode")]),
            &text("volume"),
            &number(1)
        ),
        PlayerEvent::Other
    );
    assert_eq!(
        interpret(&Some(JsonMember::Other), &None, &text("percent-pos"), &number(1)),
        PlayerEvent::Other
    );
    assert_eq!(
        interpret(&None, &list(vec![Some("next-episode")]), &text("percent-pos"), &number(1)),
        PlayerEvent::Other
    );
    assert_eq!(
        interpret_signal(&list(vec![Some("previous-episode")])),
        PlayerEvent::Signal(EpisodeAction::Previous)
    );
    assert_eq!(interpret_signal(&text("next-episode")), PlayerEvent::Other);
    assert_eq!(interpret_position(&text("percent-pos"), &number(5)), PlayerEvent::Position(5));
    assert_eq!(interpret_position(&None, &number(5)), PlayerEvent::Other);
}
