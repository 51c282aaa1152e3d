//! Highlighting of marked sentences in a description.
//!
//! A `#` in a description starts a highlighted run. The run extends to the
//! first `.`, `!` or `?` at or after the marker, that character included, or
//! to the end of the text where none follows. Everything else is plain.

use crate::text::{chars_of, text_between};
use vstd::prelude::*;

verus! {

/// How a segment of a description is to be shown.
#[derive(Clone, Copy, Debug, PartialEq, Eq, Structural)]
pub enum Emphasis {
    Plain,
    Accent,
}

/// A piece of a description with its emphasis.
#[derive(Clone, Debug, PartialEq, Eq)]
pub struct Segment {
    pub text: String,
    pub emphasis: Emphasis,
}

/// The mathematical value of a [`Segment`].
pub ghost struct SegmentModel {
    pub text: Seq<char>,
    pub emphasis: Emphasis,
}

impl View for Segment {
    type V = SegmentModel;

    open spec fn view(&self) -> SegmentModel {
        SegmentModel { text: self.text@, emphasis: self.emphasis }
    }
}

impl DeepView for Segment {
    type V = SegmentModel;

    open spec fn deep_view(&self) -> SegmentModel {
        self@
    }
}

/// The character that starts a highlighted run.
pub open spec fn is_marker(c: char) -> bool {
    c == '#'
}

/// The characters that end a sentence, and with it a highlighted run.
pub open spec fn is_terminator(c: char) -> bool {
    c == '.' || c == '!' || c == '?'
}

/// The least index at or after `from` that holds a marker, or the length of
/// `s` where there is none.
pub open spec fn marker_from(s: Seq<char>, from: int) -> int
    decreases s.len() - from,
{
    if from < 0 || from >= s.len() {
        s.len() as int
    } else if is_marker(s[from]) {
        from
    } else {
        marker_from(s, from + 1)
    }
}

/// One past the least index at or after `from` that holds a terminator, or
/// the length of `s` where there is none.
pub open spec fn sentence_end_from(s: Seq<char>, from: int) -> int
    decreases s.len() - from,
{
    if from < 0 || from >= s.len() {
        s.len() as int
    } else if is_terminator(s[from]) {
        from + 1
    } else {
        sentence_end_from(s, from + 1)
    }
}

/// Where the segment that starts at `cursor` ends: a highlighted run at its
/// sentence end, plain text at the next marker.
pub open spec fn segment_end(s: Seq<char>, cursor: int) -> int {
    if 0 <= cursor < s.len() && is_marker(s[cursor]) {
        sentence_end_from(s, cursor)
    } else {
        marker_from(s, cursor)
    }
}

/// The segment that starts at `cursor`.
pub open spec fn segment_at(s: Seq<char>, cursor: int) -> SegmentModel
    recommends
        0 <= cursor < s.len(),
{
    SegmentModel {
        text: s.subrange(cursor, segment_end(s, cursor)),
        emphasis: if is_marker(s[cursor]) {
            Emphasis::Accent
        } else {
            Emphasis::Plain
        },
    }
}

/// The segments of `s` from `cursor` on.
pub open spec fn segments_from(s: Seq<char>, cursor: int) -> Seq<SegmentModel>
    decreases s.len() - cursor,
{
    if cursor < 0 || cursor >= s.len() {
        Seq::empty()
    } else {
        proof {
            lemma_segment_end_bounds(s, cursor);
        }
        seq![segment_at(s, cursor)] + segments_from(s, segment_end(s, cursor))
    }
}

/// The segments of a description: plain text and highlighted runs in turn,
/// none of them empty.
pub open spec fn segments(s: Seq<char>) -> Seq<SegmentModel> {
    segments_from(s, 0)
}

/// The texts of the segments, joined in order.
pub open spec fn joined(segs: Seq<SegmentModel>) -> Seq<char>
    decreases segs.len(),
{
    if segs.len() == 0 {
        Seq::empty()
    } else {
        segs[0].text + joined(segs.skip(1))
    }
}

/// The marker search stops inside the text, at a marker or at the end, and
/// passes no marker on its way.
pub proof fn lemma_marker_from(s: Seq<char>, from: int)
    requires
        0 <= from <= s.len(),
    ensures
        from <= marker_from(s, from) <= s.len(),
        marker_from(s, from) < s.len() ==> is_marker(s[marker_from(s, from)]),
        forall|i: int| from <= i < marker_from(s, from) ==> !is_marker(#[trigger] s[i]),
    decreases s.len() - from,
{
    if from < s.len() && !is_marker(s[from]) {
        lemma_marker_from(s, from + 1);
    }
}

/// The sentence search stops inside the text, just after the first
/// terminator or at the end.
pub proof fn lemma_sentence_end_from(s: Seq<char>, from: int)
    requires
        0 <= from < s.len(),
    ensures
        from < sentence_end_from(s, from) <= s.len(),
        is_terminator(s[sentence_end_from(s, from) - 1]) || sentence_end_from(s, from) == s.len(),
        forall|i: int|
            from <= i < sentence_end_from(s, from) - 1 ==> !is_terminator(#[trigger] s[i]),
    decreases s.len() - from,
{
    if !is_terminator(s[from]) {
        if from + 1 < s.len() {
            lemma_sentence_end_from(s, from + 1);
        } else {
            assert(sentence_end_from(s, from + 1) == s.len());
        }
    }
}

/// A segment is never empty and never runs past the end of the text.
pub proof fn lemma_segment_end_bounds(s: Seq<char>, cursor: int)
    requires
        0 <= cursor < s.len(),
    ensures
        cursor < segment_end(s, cursor) <= s.len(),
{
    if is_marker(s[cursor]) {
        lemma_sentence_end_from(s, cursor);
    } else {
        lemma_marker_from(s, cursor + 1);
    }
}

/// Joining the segments from `cursor` on gives back the text from `cursor`
/// on.
pub proof fn lemma_joined_from(s: Seq<char>, cursor: int)
    requires
        0 <= cursor <= s.len(),
    ensures
        joined(segments_from(s, cursor)) == s.skip(cursor),
    decreases s.len() - cursor,
{
    if cursor < s.len() {
        let end = segment_end(s, cursor);
        lemma_segment_end_bounds(s, cursor);
        lemma_joined_from(s, end);
        assert(segments_from(s, cursor).skip(1) =~= segments_from(s, end));
    }
}

/// Nothing is lost: the texts of the segments of a description, joined in
/// order, are the description.
pub proof fn lemma_segments_lossless(s: Seq<char>)
    ensures
        joined(segments(s)) == s,
{
    lemma_joined_from(s, 0);
}

/// A description without a marker, unless it is empty, is one plain segment
/// that holds all of it.
pub proof fn lemma_unmarked_is_plain(s: Seq<char>)
    requires
        s.len() > 0,
        forall|i: int| 0 <= i < s.len() ==> !is_marker(#[trigger] s[i]),
    ensures
        segments(s) == seq![SegmentModel { text: s, emphasis: Emphasis::Plain }],
{
    lemma_marker_from(s, 0);
    assert(s.subrange(0, s.len() as int) =~= s);
    assert(segments_from(s, s.len() as int) =~= Seq::<SegmentModel>::empty());
}

/// An empty description has no segments.
pub proof fn lemma_empty_has_no_segments()
    ensures
        segments(Seq::<char>::empty()) == Seq::<SegmentModel>::empty(),
{
}

/// The `k`-th of the segments from `cursor` on is the segment found `k`
/// steps after `cursor`.
proof fn lemma_segments_index(s: Seq<char>, cursor: int, k: int)
    requires
        0 <= cursor <= s.len(),
        0 <= k < segments_from(s, cursor).len(),
    ensures
        exists|at: int|
            cursor <= at < s.len() && #[trigger] segment_at(s, at) == segments_from(s, cursor)[k]
                && segments_from(s, at) == segments_from(s, cursor).skip(k),
    decreases k,
{
    lemma_segment_end_bounds(s, cursor);
    if k > 0 {
        let end = segment_end(s, cursor);
        let rest = segments_from(s, end);
        assert(segments_from(s, cursor).skip(1) =~= rest);
        lemma_segments_index(s, end, k - 1);
        assert(rest.skip(k - 1) =~= segments_from(s, cursor).skip(k));
    }
}

/// What a highlighted run looks like: it begins with a marker, holds no
/// terminator before its last character, and ends with a terminator unless
/// it is the last segment.
pub open spec fn is_highlighted_run(segs: Seq<SegmentModel>, k: int) -> bool {
    let text = segs[k].text;
    &&& text.len() > 0
    &&& is_marker(text[0])
    &&& forall|i: int| 0 <= i < text.len() - 1 ==> !is_terminator(#[trigger] text[i])
    &&& is_terminator(text.last()) || k == segs.len() - 1
}

/// What a plain segment looks like: it is not empty, holds no marker, and
/// what follows it, if anything, is a highlighted run.
pub open spec fn is_plain_text(segs: Seq<SegmentModel>, k: int) -> bool {
    let text = segs[k].text;
    &&& text.len() > 0
    &&& forall|i: int| 0 <= i < text.len() ==> !is_marker(#[trigger] text[i])
    &&& k == segs.len() - 1 || segs[k + 1].emphasis == Emphasis::Accent
}

/// Every segment of a description is a highlighted run or plain text, as
/// its emphasis says.
pub proof fn lemma_segment_shape(s: Seq<char>, k: int)
    requires
        0 <= k < segments(s).len(),
    ensures
        segments(s)[k].emphasis == Emphasis::Accent ==> is_highlighted_run(segments(s), k),
        segments(s)[k].emphasis == Emphasis::Plain ==> is_plain_text(segments(s), k),
{
    let segs = segments(s);
    lemma_segments_index(s, 0, k);
    let at = choose|at: int|
        0 <= at < s.len() && #[trigger] segment_at(s, at) == segs[k] && segments_from(s, at)
            == segs.skip(k);
    let end = segment_end(s, at);
    let text = segs[k].text;
    lemma_segment_end_bounds(s, at);
    assert(segments_from(s, at).skip(1) =~= segments_from(s, end));
    if is_marker(s[at]) {
        lemma_sentence_end_from(s, at);
        assert forall|i: int| 0 <= i < text.len() - 1 implies !is_terminator(
            #[trigger] text[i],
        ) by {
            assert(text[i] == s[at + i]);
        }
    } else {
        lemma_marker_from(s, at);
        assert forall|i: int| 0 <= i < text.len() implies !is_marker(#[trigger] text[i]) by {
            assert(text[i] == s[at + i]);
        }
        if end < s.len() {
            lemma_segment_end_bounds(s, end);
            assert(segs.skip(k)[1] == segs[k + 1]);
            assert(segments_from(s, end)[0] == segment_at(s, end));
        }
    }
}

/// Finds the next marker at or after `from`.
fn next_marker(chars: &Vec<char>, from: usize) -> (at: usize)
    requires
        from <= chars.len(),
    ensures
        at == marker_from(chars@, from as int),
        from <= at <= chars.len(),
{
    let mut at = from;
    while at < chars.len() && chars[at] != '#'
        invariant
            from <= at <= chars.len(),
            marker_from(chars@, from as int) == marker_from(chars@, at as int),
        decreases chars.len() - at,
    {
        at = at + 1;
    }
    at
}

/// Finds the end of the sentence that holds `from`.
fn sentence_end(chars: &Vec<char>, from: usize) -> (end: usize)
    requires
        from < chars.len(),
    ensures
        end == sentence_end_from(chars@, from as int),
        from < end <= chars.len(),
{
    let mut at = from;
    while at < chars.len()
        invariant
            from <= at <= chars.len(),
            sentence_end_from(chars@, from as int) == sentence_end_from(chars@, at as int),
        decreases chars.len() - at,
    {
        let c = chars[at];
        if c == '.' || c == '!' || c == '?' {
            return at + 1;
        }
        at = at + 1;
    }
    proof {
        lemma_sentence_end_from(chars@, from as int);
    }
    at
}

/// Splits a description into its plain and highlighted segments.
pub fn highlight(description: &str) -> (segs: Vec<Segment>)
    ensures
        segs.deep_view() == segments(description@),
{
    let chars = chars_of(description);
    let mut segs: Vec<Segment> = Vec::new();
    let mut cursor: usize = 0;
    while cursor < chars.len()
        invariant
            cursor <= chars.len(),
            chars@ == description@,
            segs.deep_view() + segments_from(chars@, cursor as int) == segments(chars@),
        decreases chars.len() - cursor,
    {
        let marked = chars[cursor] == '#';
        let end = if marked {
            sentence_end(&chars, cursor)
        } else {
            next_marker(&chars, cursor)
        };
        let emphasis = if marked {
            Emphasis::Accent
        } else {
            Emphasis::Plain
        };
        let segment = Segment { text: text_between(&chars, cursor, end), emphasis };
        proof {
            lemma_segment_end_bounds(chars@, cursor as int);
            assert(segs.deep_view().push(segment@) + segments_from(chars@, end as int)
                =~= segs.deep_view() + segments_from(chars@, cursor as int));
        }
        segs.push(segment);
        cursor = end;
    }
    segs
}

} // verus!
