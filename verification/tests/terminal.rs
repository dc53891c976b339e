use ani_l::tui::terminal::{
    cell_size, forced_protocol, needs_measuring, parse_pixel_report, protocol_named,
    ProtocolChoice, FALLBACK_CELL_HEIGHT, FALLBACK_CELL_WIDTH, REPORT_PREFIX, SIZE_QUERY,
};

#[test]
fn detected_cell_size_is_kept() {
    assert!(!needs_measuring((8, 16)));
    assert_eq!(cell_size((8, 16), None), (8, 16));
    assert_eq!(cell_size((8, 16), Some(((1920, 1080), (240, 60)))), (8, 16));
}

#[test]
fn cell_size_is_measured_where_detection_fails() {
    assert!(needs_measuring((0, 16)));
    assert!(needs_measuring((8, 0)));
    assert!(needs_measuring((0, 0)));
    assert_eq!(cell_size((0, 0), Some(((1920, 1080), (240, 60)))), (8, 18));
    assert_eq!(cell_size((0, 16), Some(((1000, 500), (100, 25)))), (10, 20));
    assert_eq!(cell_size((8, 0), Some(((999, 499), (100, 25)))), (9, 19));
}

#[test]
fn cell_size_falls_back() {
    assert_eq!((FALLBACK_CELL_WIDTH, FALLBACK_CELL_HEIGHT), (10, 20));
    assert_eq!(cell_size((0, 0), None), (10, 20));
    assert_eq!(cell_size((0, 7), None), (10, 20));
    assert_eq!(cell_size((0, 0), Some(((1920, 1080), (0, 60)))), (10, 20));
    assert_eq!(cell_size((0, 0), Some(((1920, 1080), (240, 0)))), (10, 20));
    // Fewer pixels than cells make a cell of no width.
    assert_eq!(cell_size((0, 0), Some(((100, 1080), (240, 60)))), (10, 20));
    assert_eq!(cell_size((0, 0), Some(((0, 0), (240, 60)))), (10, 20));
}

#[test]
fn protocols_by_name() {
    assert_eq!(protocol_named("kitty"), ProtocolChoice::Kitty);
    assert_eq!(protocol_named("sixel"), ProtocolChoice::Sixel);
    assert_eq!(protocol_named("iterm2"), ProtocolChoice::Iterm2);
    assert_eq!(protocol_named("halfblocks"), ProtocolChoice::Halfblocks);
    assert_eq!(protocol_named("Kitty"), ProtocolChoice::Halfblocks);
    assert_eq!(protocol_named(""), ProtocolChoice::Halfblocks);
}

#[test]
fn forced_protocol_ignores_case() {
    assert_eq!(forced_protocol("KITTY"), ProtocolChoice::Kitty);
    assert_eq!(forced_protocol("Sixel"), ProtocolChoice::Sixel);
    assert_eq!(forced_protocol("iTerm2"), ProtocolChoice::Iterm2);
    assert_eq!(forced_protocol("kitty"), ProtocolChoice::Kitty);
    assert_eq!(forced_protocol("other"), ProtocolChoice::Halfblocks);
    // The Kelvin sign is a capital K to the standard library.
    assert_eq!(forced_protocol("\u{212a}itty"), ProtocolChoice::Kitty);
}

#[test]
fn terminal_sequences() {
    assert_eq!(SIZE_QUERY, "\u{1b}[14t");
    assert_eq!(REPORT_PREFIX, "\u{1b}[4;");
}

/// The parsing that the report is held to, written with the standard library.
fn reference(response: &str) -> Option<(u16, u16)> {
    let start = response.find("\x1b[4;")?;
    if start + 4 > response.len() - 1 {
        return None;
    }
    let content = &response[start + 4..response.len() - 1];
    let parts: Vec<&str> = content.split(';').collect();
    if parts.len() >= 2 {
        let h: u16 = parts[0].parse().unwrap_or(0);
        let w: u16 = parts[1].parse().unwrap_or(0);
        return Some((w, h));
    }
    None
}

#[test]
fn pixel_report_is_read() {
    assert_eq!(parse_pixel_report("\x1b[4;1080;1920t"), Some((1920, 1080)));
    assert_eq!(parse_pixel_report("noise\x1b[4;600;800t"), Some((800, 600)));
    assert_eq!(parse_pixel_report("\x1b[4;600;800;7t"), Some((800, 600)));
    assert_eq!(parse_pixel_report("\x1b[4;+600;0800t"), Some((800, 600)));
}

#[test]
fn pixel_report_agrees_with_the_standard_library() {
    let samples = [
        "\x1b[4;1080;1920t",
        "\x1b[4;1080;1920",
        "\x1b[4;;t",
        "\x1b[4;;",
        "\x1b[4;a;bt",
        "\x1b[4;70000;12t",
        "\x1b[4;65535;65536t",
        "\x1b[4;12t",
        "\x1b[4;t",
        "\x1b[4;12;t",
        "\x1b[4;-1;5t",
        "\x1b[4;1;2;3;4t",
        "x\x1b[4;1;2t\x1b[4;3;4t",
        "\x1b[4\x1b[4;5;6t",
        "\x1b[8;24;80t",
        "t",
        "12;34t",
        "\x1b[4; 1;2 t",
    ];
    for response in samples {
        assert_eq!(parse_pixel_report(response), reference(response), "{:?}", response);
    }
}

#[test]
fn pixel_report_needs_something_after_the_prefix() {
    assert_eq!(parse_pixel_report(""), None);
    assert_eq!(parse_pixel_report("\x1b[4;"), None);
    assert_eq!(parse_pixel_report("\x1b[4"), None);
    assert_eq!(parse_pixel_report("abc"), None);
}
