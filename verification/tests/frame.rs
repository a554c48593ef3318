use cargo_horizon::frame::{ByteClass, LogFrame};
use regex::bytes::Regex;

fn frame(
    time: &[u8],
    channel: &[u8],
    level: &[u8],
    file: &[u8],
    function: &[u8],
    line: &[u8],
    content: &[u8],
) -> LogFrame {
    LogFrame {
        time: time.to_vec(),
        channel: channel.to_vec(),
        level: level.to_vec(),
        file: file.to_vec(),
        function: function.to_vec(),
        line: line.to_vec(),
        content: content.to_vec(),
    }
}

#[test]
fn parses_every_field() {
    assert_eq!(
        LogFrame::parse(b"[0.1] A.B <Debug> f:OutputDebugString:10: Hello\n"),
        Some(frame(
            b"0.1",
            b"A.B",
            b"Debug",
            b"f",
            b"OutputDebugString",
            b"10",
            b"Hello"
        ))
    );
}

#[test]
fn parses_a_line_of_the_emulator() {
    assert_eq!(
        LogFrame::parse(
            b"\x1b[1;31m[  23.004512] Service.FS <Error> core/file_sys/vfs.cpp:OpenFile:120: not found: /a:b\n"
        ),
        Some(frame(
            b"23.004512",
            b"Service.FS",
            b"Error",
            b"core/file_sys/vfs.cpp",
            b"OpenFile",
            b"120",
            b"not found: /a:b"
        ))
    );
}

#[test]
fn padding_before_the_timestamp_is_dropped() {
    let expected = Some(frame(b"7", b"c", b"l", b"f", b"g", b"1", b""));
    assert_eq!(LogFrame::parse(b"[7] c <l> f:g:1: \n"), expected);
    assert_eq!(LogFrame::parse(b"[ 7] c <l> f:g:1: \n"), expected);
    assert_eq!(LogFrame::parse(b"[      7] c <l> f:g:1: \n"), expected);
}

#[test]
fn escape_sequences_are_skipped() {
    let expected = Some(frame(b"7", b"c", b"l", b"f", b"g", b"1", b"x"));
    assert_eq!(LogFrame::parse(b"\x1b[0m[7] c <l> f:g:1: x\n"), expected);
    assert_eq!(
        LogFrame::parse(b"\x1b[0m\x1b[38;5;196m\x1b[;K[7] c <l> f:g:1: x\n"),
        expected
    );
}

#[test]
fn broken_escape_sequences_are_refused() {
    assert_eq!(LogFrame::parse(b"\x1b[m[7] c <l> f:g:1: x\n"), None);
    assert_eq!(LogFrame::parse(b"\x1b[0[7] c <l> f:g:1: x\n"), None);
    assert_eq!(LogFrame::parse(b"\x1b0m[7] c <l> f:g:1: x\n"), None);
    assert_eq!(LogFrame::parse(b"\x1b[0mm[7] c <l> f:g:1: x\n"), None);
    assert_eq!(LogFrame::parse(b"\x1b[0 m[7] c <l> f:g:1: x\n"), None);
    assert_eq!(LogFrame::parse(b"\x1b"), None);
    assert_eq!(LogFrame::parse(b"\x1b["), None);
    assert_eq!(LogFrame::parse(b"\x1b[0"), None);
    assert_eq!(LogFrame::parse(b"\x1b[0m"), None);
}

#[test]
fn escape_sequences_inside_the_content_are_kept() {
    assert_eq!(
        LogFrame::parse(b"[7] c <l> f:g:1: \x1b[0mx\n"),
        Some(frame(b"7", b"c", b"l", b"f", b"g", b"1", b"\x1b[0mx"))
    );
}

#[test]
fn timestamp_needs_digits_or_dots() {
    assert!(LogFrame::parse(b"[...] c <l> f:g:1: x\n").is_some());
    assert!(LogFrame::parse(b"[1.2.3] c <l> f:g:1: x\n").is_some());
    assert_eq!(LogFrame::parse(b"[] c <l> f:g:1: x\n"), None);
    assert_eq!(LogFrame::parse(b"[  ] c <l> f:g:1: x\n"), None);
    assert_eq!(LogFrame::parse(b"[1 ] c <l> f:g:1: x\n"), None);
    assert_eq!(LogFrame::parse(b"[1e5] c <l> f:g:1: x\n"), None);
    assert_eq!(LogFrame::parse(b"[-1] c <l> f:g:1: x\n"), None);
    assert_eq!(LogFrame::parse(b"[1]c <l> f:g:1: x\n"), None);
    assert_eq!(LogFrame::parse(b"[1]  c <l> f:g:1: x\n"), None);
}

#[test]
fn channel_needs_letters_or_dots() {
    assert!(LogFrame::parse(b"[1] . <l> f:g:1: x\n").is_some());
    assert_eq!(LogFrame::parse(b"[1]  <l> f:g:1: x\n"), None);
    assert_eq!(LogFrame::parse(b"[1] c1 <l> f:g:1: x\n"), None);
    assert_eq!(LogFrame::parse(b"[1] c_d <l> f:g:1: x\n"), None);
    assert_eq!(LogFrame::parse(b"[1] c<l> f:g:1: x\n"), None);
    assert_eq!(LogFrame::parse(b"[1] c  <l> f:g:1: x\n"), None);
}

#[test]
fn level_needs_letters() {
    assert_eq!(LogFrame::parse(b"[1] c <> f:g:1: x\n"), None);
    assert_eq!(LogFrame::parse(b"[1] c <l.> f:g:1: x\n"), None);
    assert_eq!(LogFrame::parse(b"[1] c <l1> f:g:1: x\n"), None);
    assert_eq!(LogFrame::parse(b"[1] c <l>f:g:1: x\n"), None);
    assert_eq!(LogFrame::parse(b"[1] c <l f:g:1: x\n"), None);
    assert_eq!(LogFrame::parse(b"[1] c l> f:g:1: x\n"), None);
}

#[test]
fn file_and_function_run_up_to_a_colon() {
    assert_eq!(
        LogFrame::parse(b"[1] c <l>  a b>\n\t:<g h>:1: x\n"),
        Some(frame(b"1", b"c", b"l", b" a b>\n\t", b"<g h>", b"1", b"x"))
    );
    assert_eq!(LogFrame::parse(b"[1] c <l> :g:1: x\n"), None);
    assert_eq!(LogFrame::parse(b"[1] c <l> f::1: x\n"), None);
    assert_eq!(LogFrame::parse(b"[1] c <l> f:1: x\n"), None);
    assert_eq!(LogFrame::parse(b"[1] c <l> f\n"), None);
    assert_eq!(LogFrame::parse(b"[1] c <l> f:g\n"), None);
}

#[test]
fn line_number_needs_digits() {
    assert!(LogFrame::parse(b"[1] c <l> f:g:00123456789012345678901234567890: x\n").is_some());
    assert_eq!(LogFrame::parse(b"[1] c <l> f:g:: x\n"), None);
    assert_eq!(LogFrame::parse(b"[1] c <l> f:g:1a: x\n"), None);
    assert_eq!(LogFrame::parse(b"[1] c <l> f:g:-1: x\n"), None);
    assert_eq!(LogFrame::parse(b"[1] c <l> f:g:1:x\n"), None);
    assert_eq!(LogFrame::parse(b"[1] c <l> f:g:1 : x\n"), None);
    assert_eq!(LogFrame::parse(b"[1] c <l> f:g:1:\n"), None);
}

#[test]
fn the_line_ends_with_its_only_newline() {
    assert_eq!(LogFrame::parse(b"[1] c <l> f:g:1: x"), None);
    assert_eq!(LogFrame::parse(b"[1] c <l> f:g:1: x\ny\n"), None);
    assert_eq!(LogFrame::parse(b"[1] c <l> f:g:1: x\n\n"), None);
    assert_eq!(LogFrame::parse(b"[1] c <l> f:g:1: x\ny"), None);
    assert_eq!(
        LogFrame::parse(b"[1] c <l> f:g:1: x\r\n"),
        Some(frame(b"1", b"c", b"l", b"f", b"g", b"1", b"x\r"))
    );
}

#[test]
fn short_and_empty_lines_are_refused() {
    assert_eq!(LogFrame::parse(b""), None);
    assert_eq!(LogFrame::parse(b"\n"), None);
    assert_eq!(LogFrame::parse(b"["), None);
    assert_eq!(LogFrame::parse(b"[1"), None);
    assert_eq!(LogFrame::parse(b"[1]"), None);
    assert_eq!(LogFrame::parse(b"[1] "), None);
    assert_eq!(LogFrame::parse(b"[1] c"), None);
    assert_eq!(LogFrame::parse(b"[1] c <l> f:g:1:"), None);
    assert_eq!(LogFrame::parse(b"[1] c <l> f:g:1: "), None);
    assert_eq!(LogFrame::parse(b" [1] c <l> f:g:1: x\n"), None);
    assert_eq!(LogFrame::parse(b"x[1] c <l> f:g:1: x\n"), None);
}

#[test]
fn fields_may_hold_bytes_that_are_no_text() {
    assert_eq!(
        LogFrame::parse(b"[1] c <l> \xff:\xc3:1: \x80\xfe\n"),
        Some(frame(b"1", b"c", b"l", b"\xff", b"\xc3", b"1", b"\x80\xfe"))
    );
}

#[test]
fn byte_classes() {
    for b in 0..=255u8 {
        let digit = b.is_ascii_digit();
        let letter = b.is_ascii_alphabetic();
        assert_eq!(ByteClass::Padding.contains(b), b == b' ');
        assert_eq!(ByteClass::Time.contains(b), digit || b == b'.');
        assert_eq!(ByteClass::Channel.contains(b), letter || b == b'.');
        assert_eq!(ByteClass::Letter.contains(b), letter);
        assert_eq!(ByteClass::Name.contains(b), b != b':');
        assert_eq!(ByteClass::Digit.contains(b), digit);
        assert_eq!(ByteClass::Content.contains(b), b != b'\n');
        assert_eq!(ByteClass::Parameter.contains(b), digit || b == b';');
    }
}

fn by_pattern(pattern: &Regex, line: &[u8]) -> Option<LogFrame> {
    pattern.captures(line).map(|found| {
        frame(
            found.name("time").unwrap().as_bytes(),
            found.name("channel").unwrap().as_bytes(),
            found.name("level").unwrap().as_bytes(),
            found.name("file").unwrap().as_bytes(),
            found.name("function").unwrap().as_bytes(),
            found.name("line").unwrap().as_bytes(),
            found.name("contents").unwrap().as_bytes(),
        )
    })
}

const GRAMMAR: &str = r"^(\x1B\x5B[0-9;]{1,}[A-Za-z])*\[ *(?P<time>[0-9.]+)\] (?P<channel>[a-zA-Z.]+) <(?P<level>[a-zA-Z]+)> (?P<file>[^:]+):(?P<function>[^:]+):(?P<line>[0-9]+): (?P<contents>.*)\n$";

fn corpus() -> Vec<Vec<u8>> {
    let seeds: Vec<&[u8]> = vec![
        b"[0.1] A.B <Debug> f:OutputDebugString:10: Hello\n",
        b"\x1b[0m\x1b[1;32m[  2.5] Debug.Emulated <Info> a/b.cpp:Fn:7: x: y\n",
        b"[1] c <l> f:g:1: \n",
        b"World\n",
        b"",
    ];
    let pieces: Vec<&[u8]> = vec![
        b"", b" ", b"\n", b":", b"[", b"]", b"<", b">", b".", b";", b"0", b"9", b"a", b"Z", b"\x1b",
        b"\x1b[", b"\x1b[0m", b"\xc3", b"\xc3\xa9", b"\xff", b"\x00", b": ", b"] ", b" <", b"> ",
        b"/", b"@", b"`", b"{", b"G",
    ];
    let mut lines = Vec::new();
    for seed in &seeds {
        lines.push(seed.to_vec());
        for at in 0..=seed.len() {
            for piece in &pieces {
                let mut inserted = seed[..at].to_vec();
                inserted.extend_from_slice(piece);
                inserted.extend_from_slice(&seed[at..]);
                lines.push(inserted);
                if at < seed.len() {
                    let mut replaced = seed[..at].to_vec();
                    replaced.extend_from_slice(piece);
                    replaced.extend_from_slice(&seed[at + 1..]);
                    lines.push(replaced);
                }
            }
            lines.push(seed[..at].to_vec());
            lines.push(seed[at..].to_vec());
        }
    }
    lines
}

#[test]
fn parser_agrees_with_the_grammar_as_a_pattern_over_bytes() {
    let pattern = Regex::new(&format!("(?-u){}", GRAMMAR)).unwrap();
    let lines = corpus();
    assert!(lines.len() > 5000);
    let mut frames = 0;
    for line in &lines {
        let parsed = LogFrame::parse(line);
        assert_eq!(parsed, by_pattern(&pattern, line), "on {:?}", line);
        if parsed.is_some() {
            frames += 1;
        }
    }
    assert!(frames > 500);
    assert!(frames < lines.len() - 500);
}

#[test]
fn parser_agrees_with_the_grammar_as_a_pattern_over_text() {
    let pattern = Regex::new(GRAMMAR).unwrap();
    let mut checked = 0;
    for line in &corpus() {
        if std::str::from_utf8(line).is_ok() {
            assert_eq!(LogFrame::parse(line), by_pattern(&pattern, line), "on {:?}", line);
            checked += 1;
        }
    }
    assert!(checked > 3000);
}
