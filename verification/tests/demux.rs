use cargo_horizon::demux::{demultiplex, DemuxAction, LogDemultiplexer};

fn feed(demux: &mut LogDemultiplexer, lines: &[&[u8]]) -> Vec<u8> {
    let mut text = Vec::new();
    for line in lines {
        text.extend(demux.consume(line).output());
    }
    text
}

#[test]
fn debug_frame_emits_its_content() {
    let mut demux = LogDemultiplexer::new();
    let action = demux.consume(b"[0.1] A.B <Debug> f:OutputDebugString:10: Hello\n");
    assert_eq!(action, DemuxAction::Emit(b"Hello".to_vec()));
    assert!(demux.is_capturing());
}

#[test]
fn debug_frame_content_is_exact() {
    let mut demux = LogDemultiplexer::new();
    let action = demux.consume(
        b"[  12.345678] Debug.Emulated <Debug> core/hle/kernel/svc.cpp:OutputDebugString:42:   a: b\t<c>  \n",
    );
    assert_eq!(action, DemuxAction::Emit(b"  a: b\t<c>  ".to_vec()));
}

#[test]
fn debug_frame_with_empty_content() {
    let mut demux = LogDemultiplexer::new();
    let action = demux.consume(b"[0.1] A.B <Debug> f:OutputDebugString:10: \n");
    assert_eq!(action, DemuxAction::Emit(Vec::new()));
    assert!(demux.is_capturing());
    assert_eq!(action.output(), Vec::<u8>::new());
}

#[test]
fn debug_frame_behind_escape_sequences() {
    let mut demux = LogDemultiplexer::new();
    let action = demux
        .consume(b"\x1b[0m\x1b[1;32m[ 0.5] A <Info> f.cpp:OutputDebugString:1: colored\n");
    assert_eq!(action, DemuxAction::Emit(b"colored".to_vec()));
}

#[test]
fn other_frame_resets_capture_from_on() {
    let mut demux = LogDemultiplexer::new();
    demux.consume(b"[0.1] A.B <Debug> f:OutputDebugString:10: Hello\n");
    assert!(demux.is_capturing());
    let action = demux.consume(b"[0.2] A.B <Debug> f:Other:11: ignored\n");
    assert_eq!(action, DemuxAction::Ignore);
    assert!(!demux.is_capturing());
}

#[test]
fn other_frame_resets_capture_from_off() {
    let mut demux = LogDemultiplexer::new();
    let action = demux.consume(b"[0.2] A.B <Debug> f:Other:11: ignored\n");
    assert_eq!(action, DemuxAction::Ignore);
    assert!(!demux.is_capturing());
}

#[test]
fn function_name_must_match_whole() {
    let mut demux = LogDemultiplexer::new();
    assert_eq!(
        demux.consume(b"[0.1] A <D> f:OutputDebugStrin:1: x\n"),
        DemuxAction::Ignore
    );
    assert_eq!(
        demux.consume(b"[0.1] A <D> f:OutputDebugStrings:1: x\n"),
        DemuxAction::Ignore
    );
    assert_eq!(
        demux.consume(b"[0.1] A <D> f:outputdebugstring:1: x\n"),
        DemuxAction::Ignore
    );
    assert_eq!(
        demux.consume(b"[0.1] A <D> f: OutputDebugString:1: x\n"),
        DemuxAction::Ignore
    );
    assert!(!demux.is_capturing());
}

#[test]
fn unstructured_line_outside_capture_is_ignored() {
    let mut demux = LogDemultiplexer::new();
    assert_eq!(demux.consume(b"World\n"), DemuxAction::Ignore);
    assert_eq!(demux.consume(b"World\n").output(), Vec::<u8>::new());
    assert!(!demux.is_capturing());
}

#[test]
fn unstructured_line_inside_capture_continues() {
    let mut demux = LogDemultiplexer::new();
    demux.consume(b"[0.1] A.B <Debug> f:OutputDebugString:10: Hello\n");
    let action = demux.consume(b"World\n");
    assert_eq!(action, DemuxAction::EmitContinuation(b"World".to_vec()));
    assert_eq!(action.output(), b"\nWorld".to_vec());
    assert!(demux.is_capturing());
}

#[test]
fn hello_world_sequence() {
    let mut demux = LogDemultiplexer::new();
    let first = demux.consume(b"[0.1] A.B <Debug> f:OutputDebugString:10: Hello\n");
    let second = demux.consume(b"World\n");
    let third = demux.consume(b"[0.2] A.B <Debug> f:Other:11: ignored\n");
    assert_eq!(first, DemuxAction::Emit(b"Hello".to_vec()));
    assert_eq!(second, DemuxAction::EmitContinuation(b"World".to_vec()));
    assert_eq!(third, DemuxAction::Ignore);
    let mut text = first.output();
    text.extend(second.output());
    text.extend(third.output());
    assert_eq!(text, b"Hello\nWorld".to_vec());
    assert_eq!(demux.consume(b"more\n"), DemuxAction::Ignore);
}

#[test]
fn hello_world_sequence_as_a_stream() {
    let lines = vec![
        b"[0.1] A.B <Debug> f:OutputDebugString:10: Hello\n".to_vec(),
        b"World\n".to_vec(),
        b"[0.2] A.B <Debug> f:Other:11: ignored\n".to_vec(),
    ];
    assert_eq!(demultiplex(&lines), b"Hello\nWorld".to_vec());
}

#[test]
fn empty_stream_has_no_text() {
    assert_eq!(demultiplex(&Vec::new()), Vec::<u8>::new());
}

#[test]
fn final_fragment_without_terminator_is_kept_whole() {
    let mut demux = LogDemultiplexer::new();
    demux.consume(b"[0.1] A.B <Debug> f:OutputDebugString:10: Hello\n");
    let action = demux.consume(b"tail");
    assert_eq!(action, DemuxAction::EmitContinuation(b"tail".to_vec()));
    assert_eq!(action.output(), b"\ntail".to_vec());
}

#[test]
fn frame_without_terminator_is_a_continuation() {
    let mut demux = LogDemultiplexer::new();
    demux.consume(b"[0.1] A.B <Debug> f:OutputDebugString:10: Hello\n");
    let line: &[u8] = b"[0.2] A.B <Debug> f:Other:11: cut";
    assert_eq!(
        demux.consume(line),
        DemuxAction::EmitContinuation(line.to_vec())
    );
    assert!(demux.is_capturing());
}

#[test]
fn empty_line_inside_capture() {
    let mut demux = LogDemultiplexer::new();
    demux.consume(b"[0.1] A.B <Debug> f:OutputDebugString:10: Hello\n");
    assert_eq!(
        demux.consume(b"\n"),
        DemuxAction::EmitContinuation(Vec::new())
    );
    assert_eq!(demux.consume(b""), DemuxAction::EmitContinuation(Vec::new()));
    assert_eq!(demux.consume(b"\n").output(), b"\n".to_vec());
}

#[test]
fn only_one_terminator_is_stripped() {
    let mut demux = LogDemultiplexer::new();
    demux.consume(b"[0.1] A.B <Debug> f:OutputDebugString:10: Hello\n");
    assert_eq!(
        demux.consume(b"a\n\n"),
        DemuxAction::EmitContinuation(b"a\n".to_vec())
    );
    assert_eq!(
        demux.consume(b"a\r\n"),
        DemuxAction::EmitContinuation(b"a\r".to_vec())
    );
}

#[test]
fn bytes_that_are_no_text_pass_through() {
    let mut demux = LogDemultiplexer::new();
    assert_eq!(
        demux.consume(b"[0.1] A.B <Debug> f:OutputDebugString:10: caf\xc3\n"),
        DemuxAction::Emit(b"caf\xc3".to_vec())
    );
    assert_eq!(
        demux.consume(b"\xa9 \xff\xfe\n"),
        DemuxAction::EmitContinuation(b"\xa9 \xff\xfe".to_vec())
    );
}

#[test]
fn consecutive_debug_frames_each_emit() {
    let mut demux = LogDemultiplexer::new();
    let text = feed(
        &mut demux,
        &[
            b"[0.1] A <D> f:OutputDebugString:1: one\n",
            b"two\n",
            b"three\n",
            b"[0.2] A <D> f:OutputDebugString:2: four\n",
            b"five\n",
            b"[0.3] A <D> f:Log:3: six\n",
            b"seven\n",
            b"[0.4] A <D> f:OutputDebugString:4: eight\n",
        ],
    );
    assert_eq!(text, b"one\ntwo\nthreefour\nfiveeight".to_vec());
    assert!(demux.is_capturing());
}

#[test]
fn stream_text_is_the_sum_of_the_actions() {
    let lines: Vec<Vec<u8>> = vec![
        b"noise\n".to_vec(),
        b"[0.1] A <D> f:OutputDebugString:1: one\n".to_vec(),
        b"two\n".to_vec(),
        b"[0.3] A <D> f:Log:3: six\n".to_vec(),
        b"seven\n".to_vec(),
        b"[0.4] A <D> f:OutputDebugString:4: eight\n".to_vec(),
        b"nine".to_vec(),
    ];
    let mut demux = LogDemultiplexer::new();
    let mut text = Vec::new();
    for line in &lines {
        text.extend(demux.consume(line).output());
    }
    assert_eq!(demultiplex(&lines), text);
    assert_eq!(text, b"one\ntwoeight\nnine".to_vec());
}

#[test]
fn capture_follows_the_last_structured_line() {
    let mut demux = LogDemultiplexer::new();
    assert!(!demux.is_capturing());
    demux.consume(b"x\n");
    assert!(!demux.is_capturing());
    demux.consume(b"[0.1] A <D> f:OutputDebugString:1: one\n");
    assert!(demux.is_capturing());
    demux.consume(b"x\n");
    demux.consume(b"[not a frame\n");
    assert!(demux.is_capturing());
    demux.consume(b"[0.1] A <D> f:Else:1: one\n");
    assert!(!demux.is_capturing());
    demux.consume(b"x\n");
    assert!(!demux.is_capturing());
}

#[test]
fn action_output_is_the_text_behind_its_separator() {
    assert_eq!(DemuxAction::Emit(b"a".to_vec()).output(), b"a".to_vec());
    assert_eq!(
        DemuxAction::EmitContinuation(b"a".to_vec()).output(),
        b"\na".to_vec()
    );
    assert_eq!(DemuxAction::Ignore.output(), Vec::<u8>::new());
}
