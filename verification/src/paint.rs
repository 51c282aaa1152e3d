//! Painting of styled lines for a terminal, done by the `colored` crate.
//!
//! `colored` decides from the terminal and from environment variables
//! whether it emits colour codes at all, and which. Whatever it decides, it
//! writes the text it was given, alone or between a colour code and the
//! code that ends the colour, and it changes the text only where the text
//! itself holds that code. So of a painted text this much is stated: a text
//! without an escape character stands whole in it. Plain spans are not
//! handed to `colored` and stay as they are.

use crate::line::{plain_text, Line, SpanModel, Style};
use vstd::prelude::*;
use vstd::string::StringExecFns;

verus! {

/// Whether the text holds the escape character, with which every colour
/// code begins.
pub open spec fn has_escape(text: Seq<char>) -> bool {
    text.contains('\u{1b}')
}

/// Whether `text` stands whole in `painted`, with anything before and after
/// it.
pub open spec fn framed(painted: Seq<char>, text: Seq<char>) -> bool {
    exists|before: Seq<char>, after: Seq<char>| painted == #[trigger] (before + text + after)
}

/// Calls `colored::Colorize::white` on a text and formats the result with
/// the `Display` that `colored` gives it. A text without an escape
/// character stands whole in what comes back.
#[verifier::external_body]
fn shown_white(text: &str) -> (painted: String)
    ensures
        !has_escape(text@) ==> framed(painted@, text@),
{
    colored::Colorize::white(text).to_string()
}

/// Calls `colored::Colorize::cyan` and then `colored::Colorize::bold` on a
/// text and formats the result with the `Display` that `colored` gives it.
/// A text without an escape character stands whole in what comes back.
#[verifier::external_body]
fn shown_bold_cyan(text: &str) -> (painted: String)
    ensures
        !has_escape(text@) ==> framed(painted@, text@),
{
    colored::Colorize::bold(colored::Colorize::cyan(text)).to_string()
}

/// Calls `colored::Colorize::green` and then `colored::Colorize::bold` on a
/// text and formats the result with the `Display` that `colored` gives it.
/// A text without an escape character stands whole in what comes back.
#[verifier::external_body]
fn shown_bold_green(text: &str) -> (painted: String)
    ensures
        !has_escape(text@) ==> framed(painted@, text@),
{
    colored::Colorize::bold(colored::Colorize::green(text)).to_string()
}

/// Calls `colored::Colorize::red` and then `colored::Colorize::bold` on a
/// text and formats the result with the `Display` that `colored` gives it.
/// A text without an escape character stands whole in what comes back.
#[verifier::external_body]
fn shown_bold_red(text: &str) -> (painted: String)
    ensures
        !has_escape(text@) ==> framed(painted@, text@),
{
    colored::Colorize::bold(colored::Colorize::red(text)).to_string()
}

/// Calls `colored::Colorize::yellow` and then `colored::Colorize::bold` on
/// a text and formats the result with the `Display` that `colored` gives
/// it. A text without an escape character stands whole in what comes back.
#[verifier::external_body]
fn shown_bold_yellow(text: &str) -> (painted: String)
    ensures
        !has_escape(text@) ==> framed(painted@, text@),
{
    colored::Colorize::bold(colored::Colorize::yellow(text)).to_string()
}

/// Calls `colored::Colorize::truecolor`, with the three parts of the
/// colour, and then `colored::Colorize::bold` on a text and formats the
/// result with the `Display` that `colored` gives it. A text without an
/// escape character stands whole in what comes back.
#[verifier::external_body]
fn shown_bold_truecolor(text: &str, r: u8, g: u8, b: u8) -> (painted: String)
    ensures
        !has_escape(text@) ==> framed(painted@, text@),
{
    colored::Colorize::bold(colored::Colorize::truecolor(text, r, g, b)).to_string()
}

/// The text in the colours of its style. A plain text is returned as it
/// is. Any other is handed to `colored`, which chooses the colour codes:
/// unless the text holds an escape character, it stands whole in the
/// result.
pub fn paint(text: &str, style: Style) -> (painted: String)
    ensures
        style == Style::Plain ==> painted@ == text@,
        !has_escape(text@) ==> framed(painted@, text@),
{
    match style {
        Style::Plain => {
            let painted = text.to_owned();
            assert(painted@ =~= Seq::<char>::empty() + text@ + Seq::<char>::empty());
            painted
        },
        Style::Muted => shown_white(text),
        Style::Label => shown_bold_cyan(text),
        Style::Positive => shown_bold_green(text),
        Style::Negative => shown_bold_red(text),
        Style::Heading => shown_bold_yellow(text),
        Style::Accent => shown_bold_truecolor(text, 255, 140, 0),
    }
}

/// The texts, joined in order.
pub open spec fn concatenated(parts: Seq<Seq<char>>) -> Seq<char>
    decreases parts.len(),
{
    if parts.len() == 0 {
        Seq::empty()
    } else {
        concatenated(parts.drop_last()) + parts.last()
    }
}

/// Whether `part` can be the painted text of `span`: the text itself for a
/// plain span, and for every span a text in which the span's text stands
/// whole, unless that holds an escape character.
pub open spec fn paints_span(part: Seq<char>, span: SpanModel) -> bool {
    &&& span.style == Style::Plain ==> part == span.text
    &&& !has_escape(span.text) ==> framed(part, span.text)
}

/// Whether `parts` can be the painted spans of `line`: one part for each
/// span, in order.
pub open spec fn paints(parts: Seq<Seq<char>>, line: Seq<SpanModel>) -> bool {
    &&& parts.len() == line.len()
    &&& forall|i: int| 0 <= i < line.len() ==> paints_span(parts[i], #[trigger] line[i])
}

/// Paints each span of a line.
pub fn paint_spans(line: &Line) -> (parts: Vec<String>)
    ensures
        paints(parts.deep_view(), line@),
{
    let mut parts: Vec<String> = Vec::new();
    let mut i: usize = 0;
    while i < line.spans.len()
        invariant
            i <= line.spans.len(),
            paints(parts.deep_view(), line@.take(i as int)),
        decreases line.spans.len() - i,
    {
        let part = paint(line.spans[i].text.as_str(), line.spans[i].style);
        parts.push(part);
        i = i + 1;
    }
    assert(line@.take(i as int) =~= line@);
    parts
}

/// Joins painted spans into the text of a line.
pub fn assemble(parts: &Vec<String>) -> (text: String)
    ensures
        text@ == concatenated(parts.deep_view()),
{
    let mut text = String::new();
    let mut i: usize = 0;
    while i < parts.len()
        invariant
            i <= parts.len(),
            text@ == concatenated(parts.deep_view().take(i as int)),
        decreases parts.len() - i,
    {
        assert(parts.deep_view().take(i + 1).drop_last() =~= parts.deep_view().take(i as int));
        text.append(parts[i].as_str());
        i = i + 1;
    }
    assert(parts.deep_view().take(i as int) =~= parts.deep_view());
    text
}

/// A line whose spans are all plain is painted as its plain text.
pub proof fn lemma_plain_line(parts: Seq<Seq<char>>, line: Seq<SpanModel>)
    requires
        paints(parts, line),
        all_plain(line),
    ensures
        concatenated(parts) == plain_text(line),
    decreases line.len(),
{
    if line.len() > 0 {
        lemma_plain_line(parts.drop_last(), line.drop_last());
    }
}

/// Whether every span of the line is plain.
pub open spec fn all_plain(line: Seq<SpanModel>) -> bool {
    forall|i: int| 0 <= i < line.len() ==> (#[trigger] line[i]).style == Style::Plain
}

/// The text of a line as it goes to the terminal: its painted spans,
/// joined in order, each holding the text of its span. A line of plain
/// spans alone is its plain text.
pub fn paint_line(line: &Line) -> (text: String)
    ensures
        exists|parts: Seq<Seq<char>>| #[trigger] paints(parts, line@) && text@ == concatenated(parts),
        all_plain(line@) ==> text@ == plain_text(line@),
{
    let parts = paint_spans(line);
    proof {
        if all_plain(line@) {
            lemma_plain_line(parts.deep_view(), line@);
        }
    }
    assemble(&parts)
}

} // verus!
