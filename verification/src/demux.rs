//! Demultiplexing the emulator's diagnostic stream: structured lines are
//! recognised, and the text that the target program wrote to its debug
//! console is recovered from among them.

use vstd::prelude::*;
use vstd::slice::*;
use vstd::string::*;
use crate::frame::{frame_of, scanned, spells, ByteClass, FrameText, LogFrame, NEWLINE};
use crate::frame_laws::lemma_frame_of_is_scanned;

verus! {

/// The name, in ASCII, of the function whose frames carry the target's
/// debug-console text: `OutputDebugString`.
pub open spec fn debug_function() -> Seq<u8> {
    seq![
        0x4Fu8,
        0x75u8,
        0x74u8,
        0x70u8,
        0x75u8,
        0x74u8,
        0x44u8,
        0x65u8,
        0x62u8,
        0x75u8,
        0x67u8,
        0x53u8,
        0x74u8,
        0x72u8,
        0x69u8,
        0x6Eu8,
        0x67u8,
    ]
}

/// What the demultiplexer makes of one line.
#[derive(Debug, PartialEq, Eq)]
pub enum DemuxAction {
    /// The line opens debug-console text: the content of its frame.
    Emit(Vec<u8>),
    /// The line continues debug-console text: the line without its
    /// terminator.
    EmitContinuation(Vec<u8>),
    /// The line carries no debug-console text.
    Ignore,
}

/// A `DemuxAction` over byte strings.
pub enum ActionText {
    Emit(Seq<u8>),
    EmitContinuation(Seq<u8>),
    Ignore,
}

impl View for DemuxAction {
    type V = ActionText;

    open spec fn view(&self) -> ActionText {
        match self {
            DemuxAction::Emit(text) => ActionText::Emit(text@),
            DemuxAction::EmitContinuation(text) => ActionText::EmitContinuation(text@),
            DemuxAction::Ignore => ActionText::Ignore,
        }
    }
}

/// `line` without the newline that ends it, if one does.
pub open spec fn strip_terminator(line: Seq<u8>) -> Seq<u8> {
    if line.len() > 0 && line.last() == NEWLINE {
        line.drop_last()
    } else {
        line
    }
}

/// The action on `line` in the capture state `capturing`, and the capture
/// state after it, where `frame` is what the line was read as.
///
/// A frame of the debug function emits its content and turns the capture
/// state on; any other frame is ignored and turns it off. A line that is no
/// frame continues the debug text while the capture state is on, is ignored
/// while it is off, and leaves the state as it is.
pub open spec fn decide(capturing: bool, frame: Option<FrameText>, line: Seq<u8>) -> (
    ActionText,
    bool,
) {
    match frame {
        Some(frame) => if frame.function == debug_function() {
            (ActionText::Emit(frame.content), true)
        } else {
            (ActionText::Ignore, false)
        },
        None => if capturing {
            (ActionText::EmitContinuation(strip_terminator(line)), true)
        } else {
            (ActionText::Ignore, false)
        },
    }
}

/// The action on `line` in the capture state `capturing`, and the capture
/// state after it.
pub open spec fn classify(capturing: bool, line: Seq<u8>) -> (ActionText, bool) {
    decide(capturing, frame_of(line), line)
}

/// The bytes that an action adds to the recovered debug text: the text of an
/// `Emit` as it is, the text of an `EmitContinuation` behind one newline.
pub open spec fn written(action: ActionText) -> Seq<u8> {
    match action {
        ActionText::Emit(text) => text,
        ActionText::EmitContinuation(text) => seq![NEWLINE] + text,
        ActionText::Ignore => Seq::empty(),
    }
}

/// The capture state after the lines of a stream, in order, from a fresh
/// demultiplexer.
pub open spec fn capture_after(lines: Seq<Seq<u8>>) -> bool
    decreases lines.len(),
{
    if lines.len() == 0 {
        false
    } else {
        classify(capture_after(lines.drop_last()), lines.last()).1
    }
}

/// The debug text recovered from the lines of a stream, in order, by a
/// fresh demultiplexer.
pub open spec fn debug_text(lines: Seq<Seq<u8>>) -> Seq<u8>
    decreases lines.len(),
{
    if lines.len() == 0 {
        Seq::empty()
    } else {
        debug_text(lines.drop_last()) + written(
            classify(capture_after(lines.drop_last()), lines.last()).0,
        )
    }
}

/// Whether `name` is the name of the debug function.
fn is_debug_function(name: &[u8]) -> (r: bool)
    ensures
        r == (name@ == debug_function()),
{
    let expected = "OutputDebugString".as_bytes();
    proof {
        reveal_strlit("OutputDebugString");
        broadcast use vstd::string::is_ascii_spec_bytes;

        assert(vstd::string::is_ascii("OutputDebugString"));
        assert(expected@ =~= debug_function());
    }
    if name.len() != expected.len() {
        return false;
    }
    let mut i: usize = 0;
    while i < name.len()
        invariant
            i <= name@.len(),
            name@.len() == expected@.len(),
            expected@ == debug_function(),
            forall|j: int| 0 <= j < i ==> name@[j] == expected@[j],
        decreases name@.len() - i,
    {
        if name[i] != expected[i] {
            return false;
        }
        i += 1;
    }
    assert(name@ =~= expected@);
    true
}

impl DemuxAction {
    /// The bytes that the action adds to the recovered debug text.
    pub fn output(&self) -> (bytes: Vec<u8>)
        ensures
            bytes@ == written(self@),
    {
        match self {
            DemuxAction::Emit(text) => text.clone(),
            DemuxAction::EmitContinuation(text) => {
                let mut bytes: Vec<u8> = Vec::new();
                bytes.push(NEWLINE);
                bytes.extend_from_slice(text.as_slice());
                assert(bytes@ =~= seq![NEWLINE] + text@);
                bytes
            },
            DemuxAction::Ignore => Vec::new(),
        }
    }
}

/// The state of one run of the demultiplexer: whether the stream is inside
/// debug-console text.
#[derive(Debug)]
pub struct LogDemultiplexer {
    capturing: bool,
}

impl View for LogDemultiplexer {
    type V = bool;

    /// The capture state.
    closed spec fn view(&self) -> bool {
        self.capturing
    }
}

impl LogDemultiplexer {
    /// A demultiplexer at the start of a stream: outside debug-console text.
    pub fn new() -> (demux: LogDemultiplexer)
        ensures
            demux@ == false,
    {
        LogDemultiplexer { capturing: false }
    }

    /// Whether the stream is inside debug-console text.
    pub fn is_capturing(&self) -> (capturing: bool)
        ensures
            capturing == self@,
    {
        self.capturing
    }

    /// Takes the next line of the stream, with its terminator if it has one.
    pub fn consume(&mut self, line: &[u8]) -> (action: DemuxAction)
        ensures
            (action@, final(self)@) == classify(old(self)@, line@),
            (action@, final(self)@) == decide(old(self)@, scanned(line@), line@),
    {
        match LogFrame::parse(line) {
            Some(frame) => {
                if is_debug_function(frame.function.as_slice()) {
                    self.capturing = true;
                    DemuxAction::Emit(frame.content)
                } else {
                    self.capturing = false;
                    DemuxAction::Ignore
                }
            },
            None => {
                if self.capturing {
                    let len = line.len();
                    let end = if len > 0 && line[len - 1] == NEWLINE {
                        len - 1
                    } else {
                        len
                    };
                    let text = slice_to_vec(slice_subrange(line, 0, end));
                    assert(text@ =~= strip_terminator(line@));
                    DemuxAction::EmitContinuation(text)
                } else {
                    DemuxAction::Ignore
                }
            },
        }
    }
}

/// Recovers the debug text from the lines of a whole stream.
pub fn demultiplex(lines: &Vec<Vec<u8>>) -> (text: Vec<u8>)
    ensures
        text@ == debug_text(lines.deep_view()),
{
    let mut demux = LogDemultiplexer::new();
    let mut text: Vec<u8> = Vec::new();
    let mut i: usize = 0;
    assert(lines.deep_view().take(0) =~= Seq::empty());
    while i < lines.len()
        invariant
            i <= lines.len(),
            demux@ == capture_after(lines.deep_view().take(i as int)),
            text@ == debug_text(lines.deep_view().take(i as int)),
        decreases lines.len() - i,
    {
        let action = demux.consume(lines[i].as_slice());
        let mut bytes = action.output();
        text.append(&mut bytes);
        proof {
            let all = lines.deep_view();
            assert(all.take(i + 1).drop_last() =~= all.take(i as int));
            assert(all.take(i + 1).last() == lines[i as int]@);
        }
        i += 1;
    }
    assert(lines.deep_view().take(lines.len() as int) =~= lines.deep_view());
    text
}

/// The frame of the last structured line among `lines`, if there is one.
pub open spec fn last_frame(lines: Seq<Seq<u8>>) -> Option<FrameText>
    decreases lines.len(),
{
    if lines.len() == 0 {
        None
    } else {
        match frame_of(lines.last()) {
            Some(frame) => Some(frame),
            None => last_frame(lines.drop_last()),
        }
    }
}

/// A structured line of the debug function emits exactly the content of its
/// frame, which holds no line terminator, and turns the capture state on,
/// whatever the state was.
pub proof fn lemma_debug_frame_emits_content(capturing: bool, line: Seq<u8>, frame: FrameText)
    requires
        spells(line, frame),
        frame.function == debug_function(),
    ensures
        classify(capturing, line) == (ActionText::Emit(frame.content), true),
        written(classify(capturing, line).0) == frame.content,
        !frame.content.contains(NEWLINE),
{
    lemma_frame_of_is_scanned(line);
    if frame.content.contains(NEWLINE) {
        let i = choose|i: int| 0 <= i < frame.content.len() && frame.content[i] == NEWLINE;
        assert(ByteClass::Content.holds(frame.content[i]));
    }
}

/// A structured line of any other function writes nothing and turns the
/// capture state off, whatever the state was.
pub proof fn lemma_other_frame_resets(capturing: bool, line: Seq<u8>, frame: FrameText)
    requires
        spells(line, frame),
        frame.function != debug_function(),
    ensures
        classify(capturing, line) == (ActionText::Ignore, false),
        written(classify(capturing, line).0) == Seq::<u8>::empty(),
{
    lemma_frame_of_is_scanned(line);
}

/// A line that is no structured line writes nothing while the capture state
/// is off, and never changes the capture state.
pub proof fn lemma_unstructured_line(capturing: bool, line: Seq<u8>)
    requires
        forall|frame: FrameText| !spells(line, frame),
    ensures
        classify(capturing, line).1 == capturing,
        !capturing ==> written(classify(capturing, line).0) == Seq::<u8>::empty(),
        capturing ==> written(classify(capturing, line).0) == seq![NEWLINE] + strip_terminator(
            line,
        ),
{
}

/// The capture state is on exactly when the last structured line of the
/// stream so far was a frame of the debug function.
pub proof fn lemma_capture_state(lines: Seq<Seq<u8>>)
    ensures
        capture_after(lines) == match last_frame(lines) {
            Some(frame) => frame.function == debug_function(),
            None => false,
        },
    decreases lines.len(),
{
    if lines.len() > 0 {
        lemma_capture_state(lines.drop_last());
    }
}

} // verus!
