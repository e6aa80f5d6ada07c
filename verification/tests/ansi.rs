use winix::ansi::{parse_text, AnsiEvent, AnsiParser};

#[test]
fn test_ls_color_output_parses_color_events() {
    let ansi_output = "\x1b[31mHello\x1b[0m";
    let events = AnsiParser::parse(ansi_output.as_bytes());
    let has_color_event = events.iter().any(|e| matches!(e, AnsiEvent::SetColor(_)));
    assert!(has_color_event, "Expected at least one SetColor event in ANSI output");
}

#[test]
fn colours_text_and_clear_line() {
    let events = AnsiParser::parse("a\x1b[32mb\x1b[Kc\x1b[0m".as_bytes());
    assert_eq!(
        events,
        vec![
            AnsiEvent::PrintText("a".to_string()),
            AnsiEvent::SetColor("Green".to_string()),
            AnsiEvent::PrintText("b".to_string()),
            AnsiEvent::ClearLine,
            AnsiEvent::PrintText("c".to_string()),
            AnsiEvent::ResetColor,
        ]
    );
    assert_eq!(
        AnsiParser::parse(b"\x1b[31m"),
        vec![AnsiEvent::SetColor("Red".to_string())]
    );
}

#[test]
fn unknown_sequences_give_no_event() {
    assert_eq!(
        parse_text("x\x1b[1;34my\x1b[2Jz"),
        vec![
            AnsiEvent::PrintText("x".to_string()),
            AnsiEvent::PrintText("y".to_string()),
            AnsiEvent::PrintText("z".to_string()),
        ]
    );
}

#[test]
fn incomplete_sequences_are_text() {
    assert_eq!(parse_text("\x1b[31"), vec![AnsiEvent::PrintText("\x1b[31".to_string())]);
    assert_eq!(parse_text("\x1b"), vec![AnsiEvent::PrintText("\x1b".to_string())]);
    assert_eq!(parse_text("\x1b[3 m"), vec![AnsiEvent::PrintText("\x1b[3 m".to_string())]);
    assert_eq!(
        parse_text("\x1b[\x1b[0m!"),
        vec![
            AnsiEvent::PrintText("\x1b[".to_string()),
            AnsiEvent::ResetColor,
            AnsiEvent::PrintText("!".to_string()),
        ]
    );
    assert_eq!(parse_text(""), Vec::<AnsiEvent>::new());
    assert_eq!(parse_text("héllo ✓"), vec![AnsiEvent::PrintText("héllo ✓".to_string())]);
}

#[test]
fn invalid_utf8_gives_no_event() {
    assert_eq!(AnsiParser::parse(&[0x61, 0xff, 0x62]), Vec::<AnsiEvent>::new());
    assert_eq!(AnsiParser::parse(&[0xc3]), Vec::<AnsiEvent>::new());
    assert_eq!(
        AnsiParser::parse(&[0xc3, 0xa9, 0x1b, b'[', b'K']),
        vec![AnsiEvent::PrintText("é".to_string()), AnsiEvent::ClearLine]
    );
}
