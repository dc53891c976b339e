use ani_l::player::launch::{fresh_socket_path, launch_arguments, socket_path, PLAYER_BINARY};
use ani_l::player::traits::PlayOptions;

#[test]
fn player_is_mpv() {
    assert_eq!(PLAYER_BINARY, "mpv");
}

#[test]
fn socket_path_holds_the_number() {
    assert_eq!(socket_path(0), "/tmp/ani-l-mpv-0.sock");
    assert_eq!(socket_path(7), "/tmp/ani-l-mpv-7.sock");
    assert_eq!(socket_path(10), "/tmp/ani-l-mpv-10.sock");
    assert_eq!(socket_path(123456), "/tmp/ani-l-mpv-123456.sock");
    assert_eq!(socket_path(4294967295), "/tmp/ani-l-mpv-4294967295.sock");
}

#[test]
fn fresh_socket_path_has_the_shape() {
    for _ in 0..50 {
        let path = fresh_socket_path();
        let number = path
            .strip_prefix("/tmp/ani-l-mpv-")
            .and_then(|rest| rest.strip_suffix(".sock"))
            .unwrap_or_else(|| panic!("unexpected path {}", path));
        let id: u32 = number.parse().unwrap();
        assert_eq!(socket_path(id), path);
    }
}

#[test]
fn arguments_for_a_bare_request() {
    let options = PlayOptions { url: "http://example/ep1.m3u8".to_string(), ..Default::default() };
    assert_eq!(
        launch_arguments(&options, "/tmp/ani-l-mpv-1.sock"),
        vec![
            "--force-window=yes",
            "--keep-open=yes",
            "--input-ipc-server=/tmp/ani-l-mpv-1.sock",
            "--term-osd-bar",
            "--term-status-msg=Status: ${time-pos} / ${duration} (${percent-pos}%)",
            "http://example/ep1.m3u8",
        ]
    );
}

#[test]
fn arguments_for_a_full_request() {
    let options = PlayOptions {
        url: "https://host/stream.mp4".to_string(),
        title: Some("Show - Episode 3".to_string()),
        start_time: Some("00:01:30".to_string()),
        headers: Some(vec![
            ("User-Agent".to_string(), "Mozilla/5.0".to_string()),
            ("Referer".to_string(), "https://allanime.day/".to_string()),
        ]),
        subtitles: Some(vec!["a.srt".to_string(), "b.ass".to_string()]),
    };
    assert_eq!(
        launch_arguments(&options, "/tmp/s.sock"),
        vec![
            "--force-window=yes",
            "--keep-open=yes",
            "--input-ipc-server=/tmp/s.sock",
            "--term-osd-bar",
            "--term-status-msg=Status: ${time-pos} / ${duration} (${percent-pos}%)",
            "--http-header-fields=User-Agent: Mozilla/5.0,Referer: https://allanime.day/",
            "--title=Show - Episode 3",
            "--start=00:01:30",
            "--sub-file=a.srt",
            "--sub-file=b.ass",
            "https://host/stream.mp4",
        ]
    );
}

#[test]
fn empty_header_list_adds_no_argument() {
    let options = PlayOptions {
        url: "file.mkv".to_string(),
        headers: Some(vec![]),
        subtitles: Some(vec![]),
        ..Default::default()
    };
    let arguments = launch_arguments(&options, "/tmp/s.sock");
    assert_eq!(arguments.len(), 6);
    assert!(arguments.iter().all(|a| !a.starts_with("--http-header-fields")));
    assert_eq!(arguments[5], "file.mkv");
}

#[test]
fn single_header_has_no_comma() {
    let options = PlayOptions {
        url: "u".to_string(),
        headers: Some(vec![("A".to_string(), "b".to_string())]),
        ..Default::default()
    };
    let arguments = launch_arguments(&options, "p");
    assert_eq!(arguments[5], "--http-header-fields=A: b");
    assert_eq!(arguments[2], "--input-ipc-server=p");
}

#[test]
fn default_request_is_empty() {
    let options = PlayOptions::default();
    assert_eq!(options.url, "");
    assert!(options.title.is_none());
    assert!(options.start_time.is_none());
    assert!(options.headers.is_none());
    assert!(options.subtitles.is_none());
}
