//! Reading a line from left to right finds exactly the frames that the
//! grammar describes.

use vstd::prelude::*;
use crate::frame::{
    are_escape_sequences, escapes_end, frame_line, frame_of, is_escape_sequence, is_letter,
    layout_of, padding, run_end, scanned, spells, ByteClass, FrameText, Layout, CLOSE_BRACKET,
    COLON, ESCAPE, GREATER_THAN, LESS_THAN, NEWLINE, OPEN_BRACKET, SPACE,
};

verus! {

/// A run ends inside the sequence, holds only bytes of its class, and stops
/// at the first byte outside it.
pub proof fn lemma_run_end_bounds(s: Seq<u8>, from: int, class: ByteClass)
    requires
        0 <= from <= s.len(),
    ensures
        from <= run_end(s, from, class) <= s.len(),
        forall|i: int| from <= i < run_end(s, from, class) ==> class.holds(#[trigger] s[i]),
        run_end(s, from, class) < s.len() ==> !class.holds(s[run_end(s, from, class)]),
    decreases s.len() - from,
{
    if from < s.len() && class.holds(s[from]) {
        lemma_run_end_bounds(s, from + 1, class);
    }
}

/// A stretch of bytes of one class that is followed by a byte outside the
/// class, or by nothing, is the run that starts where it starts.
pub proof fn lemma_run_end_is(s: Seq<u8>, from: int, to: int, class: ByteClass)
    requires
        0 <= from <= to <= s.len(),
        forall|i: int| from <= i < to ==> class.holds(#[trigger] s[i]),
        to < s.len() ==> !class.holds(s[to]),
    ensures
        run_end(s, from, class) == to,
    decreases to - from,
{
    if from < to {
        lemma_run_end_is(s, from + 1, to, class);
    }
}

/// The escape sequences that start at `from`, one element for each.
pub open spec fn escape_sequences(s: Seq<u8>, from: int) -> Seq<Seq<u8>>
    decreases s.len() - from,
{
    if 0 <= from < s.len() && s[from] == ESCAPE {
        let p = run_end(s, from + 2, ByteClass::Parameter);
        if from + 1 < s.len() && s[from + 1] == OPEN_BRACKET && from + 2 < p < s.len() && is_letter(
            s[p],
        ) {
            seq![s.subrange(from, p + 1)] + escape_sequences(s, p + 1)
        } else {
            Seq::empty()
        }
    } else {
        Seq::empty()
    }
}

/// Where the escape sequences at `from` end, the bytes up to there are
/// escape sequences laid end to end.
pub proof fn lemma_escape_sequences(s: Seq<u8>, from: int)
    requires
        0 <= from <= s.len(),
        escapes_end(s, from) is Some,
    ensures
        from <= escapes_end(s, from)->0 <= s.len(),
        are_escape_sequences(escape_sequences(s, from)),
        escape_sequences(s, from).flatten() == s.subrange(from, escapes_end(s, from)->0),
    decreases s.len() - from,
{
    if from < s.len() && s[from] == ESCAPE {
        let p = run_end(s, from + 2, ByteClass::Parameter);
        lemma_run_end_bounds(s, from + 2, ByteClass::Parameter);
        lemma_escape_sequences(s, p + 1);
        let end = escapes_end(s, from)->0;
        let first = s.subrange(from, p + 1);
        let rest = escape_sequences(s, p + 1);
        let all = escape_sequences(s, from);
        assert(all == seq![first] + rest);
        assert(all.first() == first);
        assert(all.drop_first() =~= rest);
        assert(is_escape_sequence(first)) by {
            assert forall|k: int| 2 <= k < first.len() - 1 implies ByteClass::Parameter.holds(
                #[trigger] first[k],
            ) by {
                assert(first[k] == s[from + k]);
            }
        }
        assert forall|i: int| 0 <= i < all.len() implies is_escape_sequence(#[trigger] all[i]) by {
            if i > 0 {
                assert(all[i] == rest[i - 1]);
            }
        }
        assert(all.flatten() =~= first + rest.flatten());
        assert(first + s.subrange(p + 1, end) =~= s.subrange(from, end));
    } else {
        assert(s.subrange(from, from) =~= Seq::<u8>::empty());
    }
}

/// Escape sequences laid end to end, and followed by something that is no
/// escape byte, end where the last of them ends.
pub proof fn lemma_escapes_end_is(s: Seq<u8>, from: int, escapes: Seq<Seq<u8>>)
    requires
        are_escape_sequences(escapes),
        0 <= from,
        from + escapes.flatten().len() <= s.len(),
        s.subrange(from, from + escapes.flatten().len()) == escapes.flatten(),
        from + escapes.flatten().len() < s.len() ==> s[from + escapes.flatten().len()] != ESCAPE,
    ensures
        escapes_end(s, from) == Some(from + escapes.flatten().len()),
    decreases escapes.len(),
{
    let flat = escapes.flatten();
    if escapes.len() > 0 {
        let first = escapes.first();
        let rest = escapes.drop_first();
        let rest_flat = rest.flatten();
        assert(flat == first + rest_flat);
        assert(is_escape_sequence(first));
        assert forall|k: int| 0 <= k < flat.len() implies s[from + k] == #[trigger] flat[k] by {
            assert(s.subrange(from, from + flat.len())[k] == s[from + k]);
        }
        assert forall|k: int| 0 <= k < first.len() implies s[from + k] == #[trigger] first[k] by {
            assert(flat[k] == first[k]);
        }
        let last = from + first.len() - 1;
        assert(s[from] == first[0]);
        assert(s[from + 1] == first[1]);
        assert(s[last] == first[first.len() - 1]);
        assert forall|i: int| from + 2 <= i < last implies ByteClass::Parameter.holds(
            #[trigger] s[i],
        ) by {
            assert(s[from + (i - from)] == first[i - from]);
        }
        lemma_run_end_is(s, from + 2, last, ByteClass::Parameter);
        let next = from + first.len();
        assert forall|i: int| 0 <= i < rest.len() implies is_escape_sequence(#[trigger] rest[i]) by {
            assert(rest[i] == escapes[i + 1]);
        }
        assert(s.subrange(next, next + rest_flat.len()) =~= rest_flat) by {
            assert forall|k: int| 0 <= k < rest_flat.len() implies s[next + k] == rest_flat[k] by {
                assert(flat[first.len() + k] == rest_flat[k]);
                assert(s[from + (first.len() + k)] == flat[first.len() + k]);
            }
        }
        lemma_escapes_end_is(s, next, rest);
    }
}

/// Where each field of `f` lies in a line that has `open` bytes before its
/// opening bracket and `pad` spaces behind it.
pub open spec fn layout_at(open: int, pad: nat, f: FrameText) -> Layout {
    let time = open + 1 + pad;
    let channel = time + f.time.len() + 2;
    let level = channel + f.channel.len() + 2;
    let file = level + f.level.len() + 2;
    let function = file + f.file.len() + 1;
    let number = function + f.function.len() + 1;
    let content = number + f.line.len() + 2;
    Layout {
        time: (time, time + f.time.len()),
        channel: (channel, channel + f.channel.len()),
        level: (level, level + f.level.len()),
        file: (file, file + f.file.len()),
        function: (function, function + f.function.len()),
        line: (number, number + f.line.len()),
        content: (content, content + f.content.len()),
    }
}

/// Whether `s` holds `piece` from index `at` on.
spec fn holds_at(s: Seq<u8>, at: int, piece: Seq<u8>) -> bool {
    0 <= at && at + piece.len() <= s.len() && s.subrange(at, at + piece.len()) == piece
}

/// Whether `s` begins with `p`.
spec fn begins_with(s: Seq<u8>, p: Seq<u8>) -> bool {
    holds_at(s, 0, p)
}

/// A sequence that begins with `p + piece` begins with `p` and holds
/// `piece` behind it.
proof fn lemma_piece(s: Seq<u8>, p: Seq<u8>, piece: Seq<u8>)
    requires
        begins_with(s, p + piece),
    ensures
        begins_with(s, p),
        holds_at(s, p.len() as int, piece),
{
    let whole = p + piece;
    assert forall|i: int| 0 <= i < whole.len() implies s[i] == #[trigger] whole[i] by {
        assert(s.subrange(0, whole.len() as int)[i] == s[i]);
    }
    assert(s.subrange(0, p.len() as int) =~= p) by {
        assert forall|i: int| 0 <= i < p.len() implies s[i] == p[i] by {
            assert(whole[i] == p[i]);
        }
    }
    assert(s.subrange(p.len() as int, (p.len() + piece.len()) as int) =~= piece) by {
        assert forall|i: int| 0 <= i < piece.len() implies s[p.len() + i] == piece[i] by {
            assert(whole[p.len() + i] == piece[i]);
        }
    }
}

/// Whether `s` holds the escape sequences, the fields of `f` and the
/// separators between them, each at its place.
spec fn laid_out(s: Seq<u8>, flat: Seq<u8>, pad: nat, f: FrameText) -> bool {
    let open = flat.len() as int;
    let layout = layout_at(open, pad, f);
    &&& begins_with(s, flat)
    &&& holds_at(s, open, seq![OPEN_BRACKET])
    &&& holds_at(s, open + 1, padding(pad))
    &&& holds_at(s, layout.time.0, f.time)
    &&& holds_at(s, layout.time.1, seq![CLOSE_BRACKET, SPACE])
    &&& holds_at(s, layout.channel.0, f.channel)
    &&& holds_at(s, layout.channel.1, seq![SPACE, LESS_THAN])
    &&& holds_at(s, layout.level.0, f.level)
    &&& holds_at(s, layout.level.1, seq![GREATER_THAN, SPACE])
    &&& holds_at(s, layout.file.0, f.file)
    &&& holds_at(s, layout.file.1, seq![COLON])
    &&& holds_at(s, layout.function.0, f.function)
    &&& holds_at(s, layout.function.1, seq![COLON])
    &&& holds_at(s, layout.line.0, f.line)
    &&& holds_at(s, layout.line.1, seq![COLON, SPACE])
    &&& holds_at(s, layout.content.0, f.content)
    &&& holds_at(s, layout.content.1, seq![NEWLINE])
    &&& s.len() == layout.content.1 + 1
}

/// The line that spells a frame holds each of its pieces at its place.
proof fn lemma_frame_line_laid_out(escapes: Seq<Seq<u8>>, pad: nat, f: FrameText)
    ensures
        laid_out(frame_line(escapes, pad, f), escapes.flatten(), pad, f),
{
    let s = frame_line(escapes, pad, f);
    let p0 = escapes.flatten();
    let p1 = p0 + seq![OPEN_BRACKET];
    let p2 = p1 + padding(pad);
    let p3 = p2 + f.time;
    let p4 = p3 + seq![CLOSE_BRACKET, SPACE];
    let p5 = p4 + f.channel;
    let p6 = p5 + seq![SPACE, LESS_THAN];
    let p7 = p6 + f.level;
    let p8 = p7 + seq![GREATER_THAN, SPACE];
    let p9 = p8 + f.file;
    let p10 = p9 + seq![COLON];
    let p11 = p10 + f.function;
    let p12 = p11 + seq![COLON];
    let p13 = p12 + f.line;
    let p14 = p13 + seq![COLON, SPACE];
    let p15 = p14 + f.content;
    assert(s == p15 + seq![NEWLINE]);
    assert(begins_with(s, p15 + seq![NEWLINE])) by {
        assert(s.subrange(0, s.len() as int) =~= s);
    }
    lemma_piece(s, p15, seq![NEWLINE]);
    lemma_piece(s, p14, f.content);
    lemma_piece(s, p13, seq![COLON, SPACE]);
    lemma_piece(s, p12, f.line);
    lemma_piece(s, p11, seq![COLON]);
    lemma_piece(s, p10, f.function);
    lemma_piece(s, p9, seq![COLON]);
    lemma_piece(s, p8, f.file);
    lemma_piece(s, p7, seq![GREATER_THAN, SPACE]);
    lemma_piece(s, p6, f.level);
    lemma_piece(s, p5, seq![SPACE, LESS_THAN]);
    lemma_piece(s, p4, f.channel);
    lemma_piece(s, p3, seq![CLOSE_BRACKET, SPACE]);
    lemma_piece(s, p2, f.time);
    lemma_piece(s, p1, padding(pad));
    lemma_piece(s, p0, seq![OPEN_BRACKET]);
}

/// The byte of `s` at `at` where `s` holds the one byte `b` there.
proof fn lemma_one_at(s: Seq<u8>, at: int, b: u8)
    requires
        holds_at(s, at, seq![b]),
    ensures
        0 <= at < s.len(),
        s[at] == b,
{
    assert(s.subrange(at, at + 1)[0] == s[at]);
}

/// The bytes of `s` at `at` and behind it where `s` holds the two bytes
/// `a`, `b` there.
proof fn lemma_two_at(s: Seq<u8>, at: int, a: u8, b: u8)
    requires
        holds_at(s, at, seq![a, b]),
    ensures
        0 <= at,
        at + 1 < s.len(),
        s[at] == a,
        s[at + 1] == b,
{
    assert(s.subrange(at, at + 2)[0] == s[at]);
    assert(s.subrange(at, at + 2)[1] == s[at + 1]);
}

/// Reading a sequence that holds the pieces of a frame, each at its place,
/// finds that frame.
proof fn lemma_laid_out_scans(s: Seq<u8>, escapes: Seq<Seq<u8>>, pad: nat, f: FrameText)
    requires
        are_escape_sequences(escapes),
        f.well_formed(),
        laid_out(s, escapes.flatten(), pad, f),
    ensures
        scanned(s) == Some(f),
{
    let open = escapes.flatten().len() as int;
    let layout = layout_at(open, pad, f);
    lemma_one_at(s, open, OPEN_BRACKET);
    lemma_two_at(s, layout.time.1, CLOSE_BRACKET, SPACE);
    lemma_two_at(s, layout.channel.1, SPACE, LESS_THAN);
    lemma_two_at(s, layout.level.1, GREATER_THAN, SPACE);
    lemma_one_at(s, layout.file.1, COLON);
    lemma_one_at(s, layout.function.1, COLON);
    lemma_two_at(s, layout.line.1, COLON, SPACE);
    lemma_one_at(s, layout.content.1, NEWLINE);
    lemma_escapes_end_is(s, 0, escapes);
    assert(s[layout.time.0] == f.time[0]) by {
        assert(s.subrange(layout.time.0, layout.time.1)[0] == s[layout.time.0]);
    }
    lemma_stretch_is_run(s, open + 1, layout.time.0, padding(pad), ByteClass::Padding);
    lemma_stretch_is_run(s, layout.time.0, layout.time.1, f.time, ByteClass::Time);
    lemma_stretch_is_run(s, layout.channel.0, layout.channel.1, f.channel, ByteClass::Channel);
    lemma_stretch_is_run(s, layout.level.0, layout.level.1, f.level, ByteClass::Letter);
    lemma_stretch_is_run(s, layout.file.0, layout.file.1, f.file, ByteClass::Name);
    lemma_stretch_is_run(s, layout.function.0, layout.function.1, f.function, ByteClass::Name);
    lemma_stretch_is_run(s, layout.line.0, layout.line.1, f.line, ByteClass::Digit);
    lemma_stretch_is_run(s, layout.content.0, layout.content.1, f.content, ByteClass::Content);
    assert(layout_of(s) == Some(layout));
    assert(layout.fields(s) == f);
}

/// Reading the line that spells a frame finds that frame.
pub proof fn lemma_frame_line_scans(escapes: Seq<Seq<u8>>, pad: nat, f: FrameText)
    requires
        are_escape_sequences(escapes),
        f.well_formed(),
    ensures
        scanned(frame_line(escapes, pad, f)) == Some(f),
{
    lemma_frame_line_laid_out(escapes, pad, f);
    lemma_laid_out_scans(frame_line(escapes, pad, f), escapes, pad, f);
}

/// A stretch of `s` that holds the bytes of `field`, all of one class, and
/// that is followed by a byte outside the class, is a run.
proof fn lemma_stretch_is_run(s: Seq<u8>, from: int, to: int, field: Seq<u8>, class: ByteClass)
    requires
        0 <= from <= to < s.len(),
        s.subrange(from, to) == field,
        class.holds_all(field),
        !class.holds(s[to]),
    ensures
        run_end(s, from, class) == to,
{
    assert forall|i: int| from <= i < to implies class.holds(#[trigger] s[i]) by {
        assert(field[i - from] == s[i]);
    }
    lemma_run_end_is(s, from, to, class);
}

/// A sequence that begins with `p` and holds `piece` behind it begins with
/// `p + piece`.
proof fn lemma_extend(s: Seq<u8>, p: Seq<u8>, piece: Seq<u8>)
    requires
        begins_with(s, p),
        holds_at(s, p.len() as int, piece),
    ensures
        begins_with(s, p + piece),
{
    let whole = p + piece;
    assert(s.subrange(0, whole.len() as int) =~= whole) by {
        assert forall|i: int| 0 <= i < whole.len() implies s[i] == whole[i] by {
            if i < p.len() {
                assert(s.subrange(0, p.len() as int)[i] == s[i]);
            } else {
                assert(s.subrange(p.len() as int, (p.len() + piece.len()) as int)[i - p.len()]
                    == s[i]);
            }
        }
    }
}

/// A sequence that holds the pieces of a frame, each at its place, is the
/// line that spells the frame.
proof fn lemma_laid_out_is_frame_line(s: Seq<u8>, escapes: Seq<Seq<u8>>, pad: nat, f: FrameText)
    requires
        laid_out(s, escapes.flatten(), pad, f),
    ensures
        s == frame_line(escapes, pad, f),
{
    let p0 = escapes.flatten();
    let p1 = p0 + seq![OPEN_BRACKET];
    let p2 = p1 + padding(pad);
    let p3 = p2 + f.time;
    let p4 = p3 + seq![CLOSE_BRACKET, SPACE];
    let p5 = p4 + f.channel;
    let p6 = p5 + seq![SPACE, LESS_THAN];
    let p7 = p6 + f.level;
    let p8 = p7 + seq![GREATER_THAN, SPACE];
    let p9 = p8 + f.file;
    let p10 = p9 + seq![COLON];
    let p11 = p10 + f.function;
    let p12 = p11 + seq![COLON];
    let p13 = p12 + f.line;
    let p14 = p13 + seq![COLON, SPACE];
    let p15 = p14 + f.content;
    let p16 = p15 + seq![NEWLINE];
    lemma_extend(s, p0, seq![OPEN_BRACKET]);
    lemma_extend(s, p1, padding(pad));
    lemma_extend(s, p2, f.time);
    lemma_extend(s, p3, seq![CLOSE_BRACKET, SPACE]);
    lemma_extend(s, p4, f.channel);
    lemma_extend(s, p5, seq![SPACE, LESS_THAN]);
    lemma_extend(s, p6, f.level);
    lemma_extend(s, p7, seq![GREATER_THAN, SPACE]);
    lemma_extend(s, p8, f.file);
    lemma_extend(s, p9, seq![COLON]);
    lemma_extend(s, p10, f.function);
    lemma_extend(s, p11, seq![COLON]);
    lemma_extend(s, p12, f.line);
    lemma_extend(s, p13, seq![COLON, SPACE]);
    lemma_extend(s, p14, f.content);
    lemma_extend(s, p15, seq![NEWLINE]);
    assert(s.subrange(0, s.len() as int) =~= s);
    assert(p16 == frame_line(escapes, pad, f));
}

/// What lies between two indices of `s` where every byte there is of
/// `class`.
proof fn lemma_run_holds_all(s: Seq<u8>, from: int, to: int, class: ByteClass)
    requires
        0 <= from <= to <= s.len(),
        forall|i: int| from <= i < to ==> class.holds(#[trigger] s[i]),
    ensures
        class.holds_all(s.subrange(from, to)),
        holds_at(s, from, s.subrange(from, to)),
{
    assert forall|i: int| 0 <= i < to - from implies class.holds(
        #[trigger] s.subrange(from, to)[i],
    ) by {
        assert(s.subrange(from, to)[i] == s[from + i]);
    }
}

/// What reading a line from left to right finds is a frame that the line
/// spells.
pub proof fn lemma_scanned_spells(s: Seq<u8>)
    requires
        scanned(s) is Some,
    ensures
        spells(s, scanned(s)->0),
{
    let layout = layout_of(s)->0;
    let f = layout.fields(s);
    let open = escapes_end(s, 0)->0;
    let escapes = escape_sequences(s, 0);
    lemma_escape_sequences(s, 0);
    let pad = (layout.time.0 - (open + 1)) as nat;
    lemma_run_end_bounds(s, open + 1, ByteClass::Padding);
    lemma_run_end_bounds(s, layout.time.0, ByteClass::Time);
    lemma_run_end_bounds(s, layout.channel.0, ByteClass::Channel);
    lemma_run_end_bounds(s, layout.level.0, ByteClass::Letter);
    lemma_run_end_bounds(s, layout.file.0, ByteClass::Name);
    lemma_run_end_bounds(s, layout.function.0, ByteClass::Name);
    lemma_run_end_bounds(s, layout.line.0, ByteClass::Digit);
    lemma_run_end_bounds(s, layout.content.0, ByteClass::Content);
    lemma_run_holds_all(s, open + 1, layout.time.0, ByteClass::Padding);
    lemma_run_holds_all(s, layout.time.0, layout.time.1, ByteClass::Time);
    lemma_run_holds_all(s, layout.channel.0, layout.channel.1, ByteClass::Channel);
    lemma_run_holds_all(s, layout.level.0, layout.level.1, ByteClass::Letter);
    lemma_run_holds_all(s, layout.file.0, layout.file.1, ByteClass::Name);
    lemma_run_holds_all(s, layout.function.0, layout.function.1, ByteClass::Name);
    lemma_run_holds_all(s, layout.line.0, layout.line.1, ByteClass::Digit);
    lemma_run_holds_all(s, layout.content.0, layout.content.1, ByteClass::Content);
    assert(f.well_formed());
    assert(layout == layout_at(open, pad, f));
    assert(s.subrange(open + 1, layout.time.0) =~= padding(pad));
    assert(s.subrange(open, open + 1) =~= seq![OPEN_BRACKET]);
    assert(s.subrange(layout.time.1, layout.time.1 + 2) =~= seq![CLOSE_BRACKET, SPACE]);
    assert(s.subrange(layout.channel.1, layout.channel.1 + 2) =~= seq![SPACE, LESS_THAN]);
    assert(s.subrange(layout.level.1, layout.level.1 + 2) =~= seq![GREATER_THAN, SPACE]);
    assert(s.subrange(layout.file.1, layout.file.1 + 1) =~= seq![COLON]);
    assert(s.subrange(layout.function.1, layout.function.1 + 1) =~= seq![COLON]);
    assert(s.subrange(layout.line.1, layout.line.1 + 2) =~= seq![COLON, SPACE]);
    assert(s.subrange(layout.content.1, layout.content.1 + 1) =~= seq![NEWLINE]);
    assert(laid_out(s, escapes.flatten(), pad, f));
    lemma_laid_out_is_frame_line(s, escapes, pad, f);
}

/// A line spells at most one frame, and it is the one that reading from
/// left to right finds.
pub proof fn lemma_frame_of_is_scanned(s: Seq<u8>)
    ensures
        frame_of(s) == scanned(s),
        forall|f: FrameText| spells(s, f) ==> scanned(s) == Some(f),
{
    assert forall|f: FrameText| spells(s, f) implies scanned(s) == Some(f) by {
        let (escapes, pad) = choose|escapes: Seq<Seq<u8>>, pad: nat|
            are_escape_sequences(escapes) && s == #[trigger] frame_line(escapes, pad, f);
        lemma_frame_line_scans(escapes, pad, f);
    }
    if scanned(s) is Some {
        lemma_scanned_spells(s);
    }
}

} // verus!
