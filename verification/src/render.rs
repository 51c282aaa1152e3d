//! Rendering of a tree of decoded fields as indented lines.
//!
//! Each field gives one line: its bit position or range, its name and its
//! value. A field with a description gives a second line below it, with the
//! marked sentences of the description highlighted. The lines of a field's
//! subfields follow, two blanks further in.

use crate::field::{lemma_subfields_view, renderable, Field, FieldModel};
use crate::highlight::{highlight, segments, Emphasis, Segment, SegmentModel};
use crate::line::{span, Line, Span, SpanModel, Style};
use crate::numeral::{digits, lemma_padded_len, padded, push_numeral, Radix};
use crate::text::{push_repeated, spaces};
use vstd::arithmetic::power2::pow2;
use vstd::prelude::*;
use vstd::string::StringExecFns;

verus! {

/// The blanks in front of a line at the given nesting level.
pub open spec fn indentation(level: nat) -> Seq<char> {
    spaces(2 * level)
}

/// The token for a one-bit field: `true` for any value but zero, `false`
/// for zero, each in its own style.
pub open spec fn flag_span(value: nat) -> SpanModel {
    if value != 0 {
        span("true"@, Style::Positive)
    } else {
        span("false"@, Style::Negative)
    }
}

/// The bit range of a field: its lowest and its highest bit, each with at
/// least two decimal digits.
pub open spec fn range_text(start: nat, width: nat) -> Seq<char>
    recommends
        width >= 1,
{
    padded(start, 10, 2) + ".."@ + padded((start + width - 1) as nat, 10, 2)
}

/// The number of hexadecimal digits that hold `width` bits.
pub open spec fn hex_digits(width: nat) -> nat {
    (width + 3) / 4
}

/// The value of a field in hexadecimal, with as many digits as its width
/// takes.
pub open spec fn hex_text(value: nat, width: nat) -> Seq<char> {
    "0x"@ + padded(value, 16, hex_digits(width))
}

/// The value of a field in binary, one digit for each bit of its width.
pub open spec fn binary_text(value: nat, width: nat) -> Seq<char> {
    "0b"@ + padded(value, 2, width)
}

/// The long name of a field in brackets, where it has one and it is asked
/// for.
pub open spec fn long_name_spans(field: FieldModel, verbose: bool) -> Seq<SpanModel> {
    if verbose && field.long_name is Some {
        seq![span(" ("@ + field.long_name->0 + ")"@, Style::Muted)]
    } else {
        Seq::empty()
    }
}

/// The line for a field: a flag where it is one bit wide, else a range with
/// the value in hexadecimal and in binary.
pub open spec fn field_line(field: FieldModel, verbose: bool, level: nat) -> Seq<SpanModel> {
    if field.width == 1 {
        seq![
            span(indentation(level), Style::Plain),
            span(padded(field.start, 10, 2), Style::Muted),
            span("     "@, Style::Plain),
            span(field.name, Style::Label),
            span(": "@, Style::Plain),
            flag_span(field.value),
        ] + long_name_spans(field, verbose)
    } else {
        seq![
            span(indentation(level), Style::Plain),
            span(range_text(field.start, field.width), Style::Muted),
            span(" "@, Style::Plain),
            span(field.name, Style::Label),
            span(": "@, Style::Plain),
            span(hex_text(field.value, field.width), Style::Positive),
            span(" "@, Style::Plain),
            span(binary_text(field.value, field.width), Style::Muted),
        ] + long_name_spans(field, verbose)
    }
}

/// The style in which a segment of a description is shown.
pub open spec fn segment_span(segment: SegmentModel) -> SpanModel {
    match segment.emphasis {
        Emphasis::Plain => span(segment.text, Style::Muted),
        Emphasis::Accent => span(segment.text, Style::Accent),
    }
}

/// The spans of the segments, in order.
pub open spec fn segment_spans(segs: Seq<SegmentModel>) -> Seq<SpanModel> {
    Seq::new(segs.len(), |i: int| segment_span(segs[i]))
}

/// The line for a description: two blanks further in than its field, the
/// description behind a leading `# `, highlighted.
pub open spec fn description_line(description: Seq<char>, level: nat) -> Seq<SpanModel> {
    seq![span(indentation(level) + spaces(2), Style::Plain)] + segment_spans(
        segments("# "@ + description),
    )
}

/// The lines of one field, without those of its subfields.
pub open spec fn field_lines(field: FieldModel, verbose: bool, level: nat) -> Seq<
    Seq<SpanModel>,
> {
    match field.description {
        Some(description) => seq![
            field_line(field, verbose, level),
            description_line(description, level),
        ],
        None => seq![field_line(field, verbose, level)],
    }
}

/// The lines of a sequence of fields at the given nesting level: for each
/// field in order its own lines, then those of its subfields one level
/// deeper.
pub open spec fn tree_lines(fields: Seq<FieldModel>, verbose: bool, level: nat) -> Seq<
    Seq<SpanModel>,
>
    decreases fields,
{
    if fields.len() == 0 {
        Seq::empty()
    } else {
        tree_lines(fields.drop_last(), verbose, level) + field_lines(
            fields.last(),
            verbose,
            level,
        ) + tree_lines(fields.last().subfields, verbose, level + 1)
    }
}

/// The flag of a one-bit field depends on nothing but whether its value is
/// zero: two values give the same token, and the same text, exactly when
/// both are zero or neither is. The token stands in the field's line after
/// the name.
pub proof fn lemma_flag_by_nonzero(a: FieldModel, b: FieldModel, verbose: bool, level: nat)
    requires
        a.width == 1,
        b.width == 1,
    ensures
        field_line(a, verbose, level)[5] == flag_span(a.value),
        field_line(b, verbose, level)[5] == flag_span(b.value),
        flag_span(a.value) == flag_span(b.value) <==> ((a.value != 0) == (b.value != 0)),
        flag_span(a.value).text == flag_span(b.value).text <==> ((a.value != 0) == (b.value
            != 0)),
{
    reveal_strlit("true");
    reveal_strlit("false");
    assert("false"@.len() == 5);
}

/// Every digit of a binary numeral is `0` or `1`.
pub proof fn lemma_binary_digits(value: nat, min_digits: nat, i: int)
    requires
        0 <= i < padded(value, 2, min_digits).len(),
    ensures
        padded(value, 2, min_digits)[i] == '0' || padded(value, 2, min_digits)[i] == '1',
{
    let d = digits(value, 2);
    if d.len() >= min_digits {
        lemma_digits_are_bits(value, i);
    } else if i >= min_digits - d.len() {
        lemma_digits_are_bits(value, i - (min_digits - d.len()));
    }
}

/// Every digit of a binary numeral without padding is `0` or `1`.
proof fn lemma_digits_are_bits(value: nat, i: int)
    requires
        0 <= i < digits(value, 2).len(),
    ensures
        digits(value, 2)[i] == '0' || digits(value, 2)[i] == '1',
    decreases value,
{
    if value >= 2 && i < digits(value, 2).len() - 1 {
        lemma_digits_are_bits(value / 2, i);
    }
}

/// The binary rendering of a field whose value fits its width has exactly
/// one digit for each bit of the width, whatever the value: `0b`, then
/// `width` characters.
pub proof fn lemma_binary_text_width(value: nat, width: nat)
    requires
        width >= 1,
        value < pow2(width),
    ensures
        binary_text(value, width) == "0b"@ + padded(value, 2, width),
        padded(value, 2, width).len() == width,
        binary_text(value, width).len() == width + 2,
{
    lemma_padded_len(value, 2, width);
    reveal_strlit("0b");
}

/// The binary rendering stands last in the line of a field that is wider
/// than one bit, before the long name.
pub proof fn lemma_binary_text_place(field: FieldModel, verbose: bool, level: nat)
    requires
        field.width != 1,
    ensures
        field_line(field, verbose, level)[7] == span(
            binary_text(field.value, field.width),
            Style::Muted,
        ),
{
}

/// Each level of nesting adds two blanks: the indentation at a level is
/// twice as many blanks as the level, and so grows with it.
pub proof fn lemma_indentation_grows(level: nat, deeper: nat)
    requires
        level < deeper,
    ensures
        indentation(level).len() == 2 * level,
        indentation(level + 1) == indentation(level) + spaces(2),
        indentation(level).len() < indentation(deeper).len(),
{
}

/// Every line begins with its indentation: that of its level for the line
/// of a field, two blanks more for the line of a description.
pub proof fn lemma_lines_begin_indented(field: FieldModel, verbose: bool, level: nat)
    ensures
        field_lines(field, verbose, level)[0][0] == span(indentation(level), Style::Plain),
        field.description is Some ==> field_lines(field, verbose, level)[1][0] == span(
            indentation(level) + spaces(2),
            Style::Plain,
        ),
{
}

/// The lines of two sequences of fields, one after the other, are the lines
/// of the first followed by the lines of the second.
pub proof fn lemma_tree_lines_concat(
    front: Seq<FieldModel>,
    back: Seq<FieldModel>,
    verbose: bool,
    level: nat,
)
    ensures
        tree_lines(front + back, verbose, level) == tree_lines(front, verbose, level) + tree_lines(
            back,
            verbose,
            level,
        ),
    decreases back.len(),
{
    if back.len() == 0 {
        assert(front + back =~= front);
    } else {
        assert((front + back).drop_last() =~= front + back.drop_last());
        lemma_tree_lines_concat(front, back.drop_last(), verbose, level);
    }
}

/// The order of the fields is kept, and nesting goes one level deeper at a
/// time: the lines of a sequence of fields are the lines of the fields
/// before the `i`-th, the `i`-th field's own lines, the lines of its
/// subfields at the next level, and the lines of the fields after it.
pub proof fn lemma_subfields_one_level_deeper(
    fields: Seq<FieldModel>,
    verbose: bool,
    level: nat,
    i: int,
)
    requires
        0 <= i < fields.len(),
    ensures
        tree_lines(fields, verbose, level) == tree_lines(fields.take(i), verbose, level)
            + field_lines(fields[i], verbose, level) + tree_lines(
            fields[i].subfields,
            verbose,
            level + 1,
        ) + tree_lines(fields.skip(i + 1), verbose, level),
{
    let upto = fields.take(i + 1);
    assert(upto.drop_last() =~= fields.take(i));
    assert(upto + fields.skip(i + 1) =~= fields);
    lemma_tree_lines_concat(upto, fields.skip(i + 1), verbose, level);
}

/// The token for the value of a one-bit field.
fn flag(value: u64) -> (s: Span)
    ensures
        s@ == flag_span(value as nat),
{
    if value != 0 {
        Span::new("true", Style::Positive)
    } else {
        Span::new("false", Style::Negative)
    }
}

/// The lowest and the highest bit of a field.
fn range(start: usize, width: usize) -> (text: String)
    requires
        width >= 1,
    ensures
        text@ == range_text(start as nat, width as nat),
{
    let mut text = String::new();
    push_numeral(&mut text, start as u128, Radix::Decimal, 2);
    text.append("..");
    push_numeral(&mut text, start as u128 + width as u128 - 1, Radix::Decimal, 2);
    text
}

/// The value of a field in hexadecimal.
fn hex(value: u64, width: usize) -> (text: String)
    ensures
        text@ == hex_text(value as nat, width as nat),
{
    let digits = if width % 4 == 0 {
        width / 4
    } else {
        width / 4 + 1
    };
    let mut text = "0x".to_owned();
    push_numeral(&mut text, value as u128, Radix::Hex, digits);
    text
}

/// The value of a field in binary.
fn binary(value: u64, width: usize) -> (text: String)
    ensures
        text@ == binary_text(value as nat, width as nat),
{
    let mut text = "0b".to_owned();
    push_numeral(&mut text, value as u128, Radix::Binary, width);
    text
}

/// Appends the long name of the field, where it is to be shown.
fn push_long_name(spans: &mut Vec<Span>, field: &Field, verbose: bool)
    ensures
        final(spans).deep_view() == old(spans).deep_view() + long_name_spans(field@, verbose),
{
    if verbose {
        if let Some(long_name) = &field.long_name {
            let mut text = " (".to_owned();
            text.append(long_name.as_str());
            text.append(")");
            spans.push(Span { text, style: Style::Muted });
        }
    }
}

/// The line for a field behind the given indentation.
fn render_field_line(
    field: &Field,
    verbose: bool,
    indent: &str,
    Ghost(level): Ghost<nat>,
) -> (line: Line)
    requires
        field.width >= 1,
        indent@ == indentation(level),
    ensures
        line@ == field_line(field@, verbose, level),
{
    let mut spans: Vec<Span> = Vec::new();
    spans.push(Span::new(indent, Style::Plain));
    if field.width == 1 {
        let mut position = String::new();
        push_numeral(&mut position, field.start as u128, Radix::Decimal, 2);
        spans.push(Span { text: position, style: Style::Muted });
        spans.push(Span::new("     ", Style::Plain));
        spans.push(Span::new(field.name.as_str(), Style::Label));
        spans.push(Span::new(": ", Style::Plain));
        spans.push(flag(field.value));
    } else {
        spans.push(Span { text: range(field.start, field.width), style: Style::Muted });
        spans.push(Span::new(" ", Style::Plain));
        spans.push(Span::new(field.name.as_str(), Style::Label));
        spans.push(Span::new(": ", Style::Plain));
        spans.push(Span { text: hex(field.value, field.width), style: Style::Positive });
        spans.push(Span::new(" ", Style::Plain));
        spans.push(Span { text: binary(field.value, field.width), style: Style::Muted });
    }
    push_long_name(&mut spans, field, verbose);
    Line { spans }
}

/// The span for a segment of a description.
fn styled(segment: &Segment) -> (s: Span)
    ensures
        s@ == segment_span(segment@),
{
    let style = match segment.emphasis {
        Emphasis::Plain => Style::Muted,
        Emphasis::Accent => Style::Accent,
    };
    Span::new(segment.text.as_str(), style)
}

/// The line for the description of a field that stands behind the given
/// indentation.
fn render_description_line(
    description: &str,
    indent: &str,
    Ghost(level): Ghost<nat>,
) -> (line: Line)
    requires
        indent@ == indentation(level),
    ensures
        line@ == description_line(description@, level),
{
    let mut lead = indent.to_owned();
    push_repeated(&mut lead, ' ', 2);
    let mut marked = "# ".to_owned();
    marked.append(description);
    let segs = highlight(marked.as_str());
    let mut spans: Vec<Span> = Vec::new();
    spans.push(Span { text: lead, style: Style::Plain });
    let ghost head = spans.deep_view();
    let mut i: usize = 0;
    while i < segs.len()
        invariant
            i <= segs.len(),
            spans.deep_view() == head + segment_spans(segs.deep_view().take(i as int)),
        decreases segs.len() - i,
    {
        let added = styled(&segs[i]);
        let ghost before = spans.deep_view();
        spans.push(added);
        proof {
            let done = segs.deep_view().take(i as int);
            let more = segs.deep_view().take(i + 1);
            assert(segment_spans(more) =~= segment_spans(done).push(added@));
            assert(before.push(added@) =~= head + segment_spans(done).push(added@));
        }
        i = i + 1;
    }
    Line { spans }
}

/// Appends to `out` the lines of the fields and of the fields nested in
/// them. `indent` is the indentation of the level.
fn render_into(
    out: &mut Vec<Line>,
    fields: &Vec<Field>,
    verbose: bool,
    indent: &str,
    Ghost(level): Ghost<nat>,
)
    requires
        renderable(fields.deep_view()),
        indent@ == indentation(level),
    ensures
        final(out).deep_view() == old(out).deep_view() + tree_lines(
            fields.deep_view(),
            verbose,
            level,
        ),
    decreases fields,
{
    let mut deeper = indent.to_owned();
    push_repeated(&mut deeper, ' ', 2);
    let mut i: usize = 0;
    while i < fields.len()
        invariant
            i <= fields.len(),
            renderable(fields.deep_view()),
            indent@ == indentation(level),
            deeper@ == indentation(level + 1),
            out.deep_view() == old(out).deep_view() + tree_lines(
                fields.deep_view().take(i as int),
                verbose,
                level,
            ),
        decreases fields.len() - i,
    {
        let field = &fields[i];
        let ghost models = fields.deep_view();
        proof {
            lemma_subfields_view(field);
            assert(models.take(i + 1).drop_last() =~= models.take(i as int));
            assert(models.take(i + 1).last() == field@);
        }
        let ghost start = out.deep_view();
        let own = render_field_line(field, verbose, indent, Ghost(level));
        out.push(own);
        assert(out.deep_view() =~= start.push(own@));
        if let Some(description) = &field.description {
            let below = render_description_line(description.as_str(), indent, Ghost(level));
            out.push(below);
            assert(out.deep_view() =~= start.push(own@).push(below@));
        }
        render_into(out, &field.subfields, verbose, deeper.as_str(), Ghost(level + 1));
        i = i + 1;
    }
    assert(fields.deep_view().take(i as int) =~= fields.deep_view());
}

/// Renders the fields, and the fields nested in them, as lines: the fields
/// in the order given, each followed by its subfields one level deeper.
pub fn render_fields(fields: &Vec<Field>, verbose: bool, level: usize) -> (lines: Vec<Line>)
    requires
        renderable(fields.deep_view()),
    ensures
        lines.deep_view() == tree_lines(fields.deep_view(), verbose, level as nat),
{
    let mut indent = String::new();
    let mut depth: usize = 0;
    while depth < level
        invariant
            depth <= level,
            indent@ == indentation(depth as nat),
        decreases level - depth,
    {
        push_repeated(&mut indent, ' ', 2);
        depth = depth + 1;
    }
    let mut lines: Vec<Line> = Vec::new();
    render_into(&mut lines, fields, verbose, indent.as_str(), Ghost(level as nat));
    lines
}

} // verus!
