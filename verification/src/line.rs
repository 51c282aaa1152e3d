//! Lines of styled text.
//!
//! A line is a sequence of spans, each a text with the role it plays. What a
//! role looks like on a terminal is decided where the line is painted.

use vstd::prelude::*;
use vstd::string::StringExecFns;

verus! {

/// The role of a span, which decides how it is shown.
#[derive(Clone, Copy, Debug, PartialEq, Eq, Structural)]
pub enum Style {
    /// Indentation, separators and punctuation: shown as they are.
    Plain,
    /// Bit positions, binary digits, long names and unmarked description text.
    Muted,
    /// Names of registers and fields.
    Label,
    /// A set flag, and the value of a field in hexadecimal.
    Positive,
    /// A clear flag.
    Negative,
    /// The register value in a heading.
    Heading,
    /// A highlighted run of a description.
    Accent,
}

/// A text and its style.
#[derive(Clone, Debug, PartialEq, Eq)]
pub struct Span {
    pub text: String,
    pub style: Style,
}

/// The mathematical value of a [`Span`].
pub ghost struct SpanModel {
    pub text: Seq<char>,
    pub style: Style,
}

impl View for Span {
    type V = SpanModel;

    open spec fn view(&self) -> SpanModel {
        SpanModel { text: self.text@, style: self.style }
    }
}

impl DeepView for Span {
    type V = SpanModel;

    open spec fn deep_view(&self) -> SpanModel {
        self@
    }
}

/// One line of output.
#[derive(Clone, Debug, PartialEq, Eq)]
pub struct Line {
    pub spans: Vec<Span>,
}

impl View for Line {
    type V = Seq<SpanModel>;

    open spec fn view(&self) -> Seq<SpanModel> {
        self.spans.deep_view()
    }
}

impl DeepView for Line {
    type V = Seq<SpanModel>;

    open spec fn deep_view(&self) -> Seq<SpanModel> {
        self@
    }
}

/// The span that holds `text` in the given style.
pub open spec fn span(text: Seq<char>, style: Style) -> SpanModel {
    SpanModel { text, style }
}

/// The texts of the spans, joined in order: the line without its styles.
pub open spec fn plain_text(spans: Seq<SpanModel>) -> Seq<char>
    decreases spans.len(),
{
    if spans.len() == 0 {
        Seq::empty()
    } else {
        plain_text(spans.drop_last()) + spans.last().text
    }
}

impl Span {
    /// A span that holds a copy of `text`.
    pub fn new(text: &str, style: Style) -> (s: Span)
        ensures
            s@ == span(text@, style),
    {
        Span { text: text.to_owned(), style }
    }
}

impl Line {
    /// The line without its styles.
    pub fn plain_text(&self) -> (text: String)
        ensures
            text@ == plain_text(self@),
    {
        let mut text = String::new();
        let mut i: usize = 0;
        while i < self.spans.len()
            invariant
                i <= self.spans.len(),
                text@ == plain_text(self@.take(i as int)),
            decreases self.spans.len() - i,
        {
            assert(self@.take(i + 1).drop_last() =~= self@.take(i as int));
            text.append(self.spans[i].text.as_str());
            i = i + 1;
        }
        assert(self@.take(i as int) =~= self@);
        text
    }
}

} // verus!
