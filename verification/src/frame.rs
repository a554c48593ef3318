//! The grammar of one structured line of the emulator's diagnostic stream.
//!
//! A structured line is, in order: any number of ANSI CSI escape sequences,
//! `[`, any number of spaces, a timestamp, `] `, a dotted channel, ` <`, a
//! level, `> `, a source file, `:`, a function name, `:`, a line number,
//! `: `, the content, and a newline that ends the line.

use vstd::prelude::*;
use vstd::slice::*;
use crate::frame_laws::lemma_frame_of_is_scanned;

verus! {

pub const NEWLINE: u8 = 0x0A;

pub const ESCAPE: u8 = 0x1B;

pub const SPACE: u8 = 0x20;

pub const DOT: u8 = 0x2E;

pub const COLON: u8 = 0x3A;

pub const SEMICOLON: u8 = 0x3B;

pub const LESS_THAN: u8 = 0x3C;

pub const GREATER_THAN: u8 = 0x3E;

pub const OPEN_BRACKET: u8 = 0x5B;

pub const CLOSE_BRACKET: u8 = 0x5D;

/// An ASCII decimal digit.
pub open spec fn is_digit(b: u8) -> bool {
    0x30 <= b <= 0x39
}

/// An ASCII letter of either case.
pub open spec fn is_letter(b: u8) -> bool {
    (0x41 <= b <= 0x5A) || (0x61 <= b <= 0x7A)
}

/// The sets of bytes that the fields of a structured line are drawn from.
#[derive(Clone, Copy, Debug, PartialEq, Eq)]
pub enum ByteClass {
    /// The space that may pad the timestamp on the left.
    Padding,
    /// Digits and dots: the timestamp.
    Time,
    /// Letters and dots: the channel.
    Channel,
    /// Letters: the level, and the byte that ends an escape sequence.
    Letter,
    /// Anything but a colon: the source file and the function name.
    Name,
    /// Digits: the source line number.
    Digit,
    /// Anything but a newline: the content.
    Content,
    /// Digits and semicolons: the parameters of an escape sequence.
    Parameter,
}

impl ByteClass {
    /// Whether `b` belongs to the class.
    pub open spec fn holds(self, b: u8) -> bool {
        match self {
            ByteClass::Padding => b == SPACE,
            ByteClass::Time => is_digit(b) || b == DOT,
            ByteClass::Channel => is_letter(b) || b == DOT,
            ByteClass::Letter => is_letter(b),
            ByteClass::Name => b != COLON,
            ByteClass::Digit => is_digit(b),
            ByteClass::Content => b != NEWLINE,
            ByteClass::Parameter => is_digit(b) || b == SEMICOLON,
        }
    }

    /// Whether every byte of `s` belongs to the class.
    pub open spec fn holds_all(self, s: Seq<u8>) -> bool {
        forall|i: int| 0 <= i < s.len() ==> self.holds(#[trigger] s[i])
    }

    /// Tests one byte against the class.
    pub fn contains(self, b: u8) -> (r: bool)
        ensures
            r == self.holds(b),
    {
        let digit = 0x30 <= b && b <= 0x39;
        let letter = (0x41 <= b && b <= 0x5A) || (0x61 <= b && b <= 0x7A);
        match self {
            ByteClass::Padding => b == SPACE,
            ByteClass::Time => digit || b == DOT,
            ByteClass::Channel => letter || b == DOT,
            ByteClass::Letter => letter,
            ByteClass::Name => b != COLON,
            ByteClass::Digit => digit,
            ByteClass::Content => b != NEWLINE,
            ByteClass::Parameter => digit || b == SEMICOLON,
        }
    }
}

/// The fields of a structured line, as byte strings.
pub struct FrameText {
    pub time: Seq<u8>,
    pub channel: Seq<u8>,
    pub level: Seq<u8>,
    pub file: Seq<u8>,
    pub function: Seq<u8>,
    pub line: Seq<u8>,
    pub content: Seq<u8>,
}

impl FrameText {
    /// Each field is drawn from its class, and only the content may be empty.
    pub open spec fn well_formed(self) -> bool {
        &&& self.time.len() > 0 && ByteClass::Time.holds_all(self.time)
        &&& self.channel.len() > 0 && ByteClass::Channel.holds_all(self.channel)
        &&& self.level.len() > 0 && ByteClass::Letter.holds_all(self.level)
        &&& self.file.len() > 0 && ByteClass::Name.holds_all(self.file)
        &&& self.function.len() > 0 && ByteClass::Name.holds_all(self.function)
        &&& self.line.len() > 0 && ByteClass::Digit.holds_all(self.line)
        &&& ByteClass::Content.holds_all(self.content)
    }
}

/// `n` spaces.
pub open spec fn padding(n: nat) -> Seq<u8> {
    Seq::new(n, |i: int| SPACE)
}

/// One ANSI CSI escape sequence: the escape byte, `[`, one or more
/// parameter bytes, and a final letter.
pub open spec fn is_escape_sequence(e: Seq<u8>) -> bool {
    &&& e.len() >= 4
    &&& e[0] == ESCAPE
    &&& e[1] == OPEN_BRACKET
    &&& forall|k: int| 2 <= k < e.len() - 1 ==> ByteClass::Parameter.holds(#[trigger] e[k])
    &&& is_letter(e[e.len() - 1])
}

/// Whether every element of `escapes` is an escape sequence.
pub open spec fn are_escape_sequences(escapes: Seq<Seq<u8>>) -> bool {
    forall|i: int| 0 <= i < escapes.len() ==> is_escape_sequence(#[trigger] escapes[i])
}

/// The line that spells the frame `f`, led by the given escape sequences and
/// with `pad` spaces before the timestamp.
pub open spec fn frame_line(escapes: Seq<Seq<u8>>, pad: nat, f: FrameText) -> Seq<u8> {
    escapes.flatten() + seq![OPEN_BRACKET] + padding(pad) + f.time + seq![CLOSE_BRACKET, SPACE]
        + f.channel + seq![SPACE, LESS_THAN] + f.level + seq![GREATER_THAN, SPACE] + f.file
        + seq![COLON] + f.function + seq![COLON] + f.line + seq![COLON, SPACE] + f.content
        + seq![NEWLINE]
}

/// Whether `line` is a structured line with the fields `f`.
pub open spec fn spells(line: Seq<u8>, f: FrameText) -> bool {
    &&& f.well_formed()
    &&& exists|escapes: Seq<Seq<u8>>, pad: nat|
        are_escape_sequences(escapes) && line == #[trigger] frame_line(escapes, pad, f)
}

/// The fields of `line` where it is a structured line, `None` where it is
/// not.
pub open spec fn frame_of(line: Seq<u8>) -> Option<FrameText> {
    if exists|f: FrameText| spells(line, f) {
        Some(choose|f: FrameText| spells(line, f))
    } else {
        None
    }
}

/// Where the run of bytes of `class` that starts at `from` ends: the first
/// index at or after `from` whose byte is outside the class, or the length
/// of `s`.
pub open spec fn run_end(s: Seq<u8>, from: int, class: ByteClass) -> int
    decreases s.len() - from,
{
    if 0 <= from < s.len() && class.holds(s[from]) {
        run_end(s, from + 1, class)
    } else {
        from
    }
}

/// Where the escape sequences that start at `from` end, or `None` where an
/// escape byte opens something that is no escape sequence.
pub open spec fn escapes_end(s: Seq<u8>, from: int) -> Option<int>
    decreases s.len() - from,
{
    if 0 <= from < s.len() && s[from] == ESCAPE {
        let p = run_end(s, from + 2, ByteClass::Parameter);
        if from + 1 < s.len() && s[from + 1] == OPEN_BRACKET && from + 2 < p < s.len() && is_letter(
            s[p],
        ) {
            escapes_end(s, p + 1)
        } else {
            None
        }
    } else {
        Some(from)
    }
}

/// Where the fields of a structured line lie in it: each field as the pair
/// of the index of its first byte and the index after its last.
pub struct Layout {
    pub time: (int, int),
    pub channel: (int, int),
    pub level: (int, int),
    pub file: (int, int),
    pub function: (int, int),
    pub line: (int, int),
    pub content: (int, int),
}

impl Layout {
    /// The fields that the layout cuts out of `s`.
    pub open spec fn fields(self, s: Seq<u8>) -> FrameText {
        FrameText {
            time: s.subrange(self.time.0, self.time.1),
            channel: s.subrange(self.channel.0, self.channel.1),
            level: s.subrange(self.level.0, self.level.1),
            file: s.subrange(self.file.0, self.file.1),
            function: s.subrange(self.function.0, self.function.1),
            line: s.subrange(self.line.0, self.line.1),
            content: s.subrange(self.content.0, self.content.1),
        }
    }
}

/// The layout that reading `s` from left to right finds: each field is the
/// longest run of its class, and each separator must follow its field.
pub open spec fn layout_of(s: Seq<u8>) -> Option<Layout> {
    match escapes_end(s, 0) {
        None => None,
        Some(open) => {
            let time = run_end(s, open + 1, ByteClass::Padding);
            let time_end = run_end(s, time, ByteClass::Time);
            let channel_end = run_end(s, time_end + 2, ByteClass::Channel);
            let level_end = run_end(s, channel_end + 2, ByteClass::Letter);
            let file_end = run_end(s, level_end + 2, ByteClass::Name);
            let function_end = run_end(s, file_end + 1, ByteClass::Name);
            let line_end = run_end(s, function_end + 1, ByteClass::Digit);
            let content_end = run_end(s, line_end + 2, ByteClass::Content);
            let fits = {
                &&& open < s.len() && s[open] == OPEN_BRACKET
                &&& time < time_end
                &&& time_end + 1 < s.len() && s[time_end] == CLOSE_BRACKET && s[time_end + 1]
                    == SPACE
                &&& time_end + 2 < channel_end
                &&& channel_end + 1 < s.len() && s[channel_end] == SPACE && s[channel_end + 1]
                    == LESS_THAN
                &&& channel_end + 2 < level_end
                &&& level_end + 1 < s.len() && s[level_end] == GREATER_THAN && s[level_end + 1]
                    == SPACE
                &&& level_end + 2 < file_end
                &&& file_end < s.len()
                &&& file_end + 1 < function_end
                &&& function_end < s.len()
                &&& function_end + 1 < line_end
                &&& line_end + 1 < s.len() && s[line_end] == COLON && s[line_end + 1] == SPACE
                &&& content_end + 1 == s.len()
            };
            if fits {
                Some(
                    Layout {
                        time: (time, time_end),
                        channel: (time_end + 2, channel_end),
                        level: (channel_end + 2, level_end),
                        file: (level_end + 2, file_end),
                        function: (file_end + 1, function_end),
                        line: (function_end + 1, line_end),
                        content: (line_end + 2, content_end),
                    },
                )
            } else {
                None
            }
        },
    }
}

/// The fields that reading `s` from left to right finds.
pub open spec fn scanned(s: Seq<u8>) -> Option<FrameText> {
    match layout_of(s) {
        Some(layout) => Some(layout.fields(s)),
        None => None,
    }
}

/// The fields of one structured line.
#[derive(Debug, PartialEq, Eq)]
pub struct LogFrame {
    pub time: Vec<u8>,
    pub channel: Vec<u8>,
    pub level: Vec<u8>,
    pub file: Vec<u8>,
    pub function: Vec<u8>,
    pub line: Vec<u8>,
    pub content: Vec<u8>,
}

impl View for LogFrame {
    type V = FrameText;

    open spec fn view(&self) -> FrameText {
        FrameText {
            time: self.time@,
            channel: self.channel@,
            level: self.level@,
            file: self.file@,
            function: self.function@,
            line: self.line@,
            content: self.content@,
        }
    }
}

/// The view of a frame that may be absent.
pub open spec fn frame_view(frame: Option<LogFrame>) -> Option<FrameText> {
    match frame {
        Some(f) => Some(f@),
        None => None,
    }
}

/// Finds the end of the run of bytes of `class` that starts at `from`.
fn scan_run(line: &[u8], from: usize, class: ByteClass) -> (end: usize)
    requires
        from <= line@.len(),
    ensures
        end == run_end(line@, from as int, class),
        from <= end <= line@.len(),
{
    let mut i = from;
    while i < line.len() && class.contains(line[i])
        invariant
            from <= i <= line@.len(),
            run_end(line@, from as int, class) == run_end(line@, i as int, class),
        decreases line@.len() - i,
    {
        i += 1;
    }
    i
}

/// Skips the escape sequences at the start of `line`.
fn skip_escapes(line: &[u8]) -> (r: Option<usize>)
    ensures
        match r {
            Some(end) => escapes_end(line@, 0) == Some(end as int) && end <= line@.len(),
            None => escapes_end(line@, 0) is None,
        },
{
    let mut i: usize = 0;
    while i < line.len() && line[i] == ESCAPE
        invariant
            i <= line@.len(),
            escapes_end(line@, 0) == escapes_end(line@, i as int),
        decreases line@.len() - i,
    {
        if i + 1 >= line.len() || line[i + 1] != OPEN_BRACKET {
            return None;
        }
        let p = scan_run(line, i + 2, ByteClass::Parameter);
        if p == i + 2 || p >= line.len() || !ByteClass::Letter.contains(line[p]) {
            return None;
        }
        i = p + 1;
    }
    Some(i)
}

/// Copies the bytes of `line` from `from` up to `to`.
fn copy_range(line: &[u8], from: usize, to: usize) -> (v: Vec<u8>)
    requires
        from <= to <= line@.len(),
    ensures
        v@ == line@.subrange(from as int, to as int),
{
    slice_to_vec(slice_subrange(line, from, to))
}

impl LogFrame {
    /// Reads `line` as a structured line: the fields of the frame that the
    /// line spells, `None` where it spells none. That frame is the one that
    /// reading the line from left to right finds.
    pub fn parse(line: &[u8]) -> (r: Option<LogFrame>)
        ensures
            frame_view(r) == frame_of(line@),
            frame_view(r) == scanned(line@),
    {
        proof {
            lemma_frame_of_is_scanned(line@);
        }
        scan_frame(line)
    }
}

/// Reads `line` from left to right as a structured line.
fn scan_frame(line: &[u8]) -> (r: Option<LogFrame>)
    ensures
        frame_view(r) == scanned(line@),
{
    let len = line.len();
    let open = match skip_escapes(line) {
        Some(open) => open,
        None => { return None; },
    };
    if open >= len || line[open] != OPEN_BRACKET {
        return None;
    }
    let time = scan_run(line, open + 1, ByteClass::Padding);
    let time_end = scan_run(line, time, ByteClass::Time);
    if time_end == time || len - time_end < 2 || line[time_end] != CLOSE_BRACKET || line[time_end
        + 1] != SPACE {
        return None;
    }
    let channel = time_end + 2;
    let channel_end = scan_run(line, channel, ByteClass::Channel);
    if channel_end == channel || len - channel_end < 2 || line[channel_end] != SPACE
        || line[channel_end + 1] != LESS_THAN {
        return None;
    }
    let level = channel_end + 2;
    let level_end = scan_run(line, level, ByteClass::Letter);
    if level_end == level || len - level_end < 2 || line[level_end] != GREATER_THAN
        || line[level_end + 1] != SPACE {
        return None;
    }
    let file = level_end + 2;
    let file_end = scan_run(line, file, ByteClass::Name);
    if file_end == file || file_end >= len {
        return None;
    }
    let function = file_end + 1;
    let function_end = scan_run(line, function, ByteClass::Name);
    if function_end == function || function_end >= len {
        return None;
    }
    let number = function_end + 1;
    let number_end = scan_run(line, number, ByteClass::Digit);
    if number_end == number || len - number_end < 2 || line[number_end] != COLON
        || line[number_end + 1] != SPACE {
        return None;
    }
    let content = number_end + 2;
    let content_end = scan_run(line, content, ByteClass::Content);
    if len - content_end != 1 {
        return None;
    }
    Some(
        LogFrame {
            time: copy_range(line, time, time_end),
            channel: copy_range(line, channel, channel_end),
            level: copy_range(line, level, level_end),
            file: copy_range(line, file, file_end),
            function: copy_range(line, function, function_end),
            line: copy_range(line, number, number_end),
            content: copy_range(line, content, content_end),
        },
    )
}

} // verus!
