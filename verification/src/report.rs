//! The whole of one run: read the value, decode it, render the fields.
//!
//! The heading is written when the value has been read and before it is
//! decoded. A value that cannot be read gives no line at all; a value that
//! cannot be decoded gives the heading alone.

use crate::args::{Args, ArgsModel, Mode};
use crate::decode::{
    decode_value, decoded_model, decoding, parse_number, parsed_number, DecodeFault,
};
use crate::field::{is_renderable, renderable, Field, FieldModel};
use crate::line::{span, Line, Span, SpanModel, Style};
use crate::numeral::{padded, push_numeral, Radix};
use crate::render::{render_fields, tree_lines};
use vstd::prelude::*;

verus! {

/// Why a run ended without the fields.
#[derive(Clone, Copy, Debug, PartialEq, Eq, Structural)]
pub enum Failure {
    /// The value is not a number that the decoder reads.
    Parse,
    /// The value is not a valid encoding of the register.
    Decode(DecodeFault),
    /// The decoder returned a field that occupies no bits.
    Malformed,
}

/// What a run writes, and why it ended early if it did.
#[derive(Debug, PartialEq, Eq)]
pub struct Report {
    /// The lines written, in order.
    pub lines: Vec<Line>,
    /// Why the run ended before the fields were written, where it did.
    pub failure: Option<Failure>,
}

/// The mathematical value of a [`Report`].
pub ghost struct ReportModel {
    pub lines: Seq<Seq<SpanModel>>,
    pub failure: Option<Failure>,
}

impl View for Report {
    type V = ReportModel;

    open spec fn view(&self) -> ReportModel {
        ReportModel { lines: self.lines.deep_view(), failure: self.failure }
    }
}

/// The name of a register in the heading.
pub open spec fn title(mode: Mode) -> Seq<char> {
    match mode {
        Mode::Esr => "ESR"@,
        Mode::Midr => "MIDR"@,
        Mode::Smccc => "SMC ID"@,
    }
}

/// The number of hexadecimal digits of the value in the heading: 32 for the
/// two registers, 16 for a function ID.
pub open spec fn heading_digits(mode: Mode) -> nat {
    match mode {
        Mode::Esr => 32,
        Mode::Midr => 32,
        Mode::Smccc => 16,
    }
}

/// The heading: the register's name, the value in hexadecimal, a colon.
pub open spec fn heading(mode: Mode, value: u64) -> Seq<SpanModel> {
    seq![
        span(title(mode), Style::Label),
        span(" "@, Style::Plain),
        span("0x"@ + padded(value as nat, 16, heading_digits(mode)), Style::Heading),
        span(":"@, Style::Plain),
    ]
}

/// What a run writes once the value is decoded: the heading, then the
/// fields; the heading alone where the decoder refused the value or
/// returned a field without bits.
pub open spec fn decoded_report(
    mode: Mode,
    verbose: bool,
    value: u64,
    decoded: Result<Seq<FieldModel>, DecodeFault>,
) -> ReportModel {
    match decoded {
        Ok(fields) => if renderable(fields) {
            ReportModel {
                lines: seq![heading(mode, value)] + tree_lines(fields, verbose, 0),
                failure: None,
            }
        } else {
            ReportModel { lines: seq![heading(mode, value)], failure: Some(Failure::Malformed) }
        },
        Err(fault) => ReportModel {
            lines: seq![heading(mode, value)],
            failure: Some(Failure::Decode(fault)),
        },
    }
}

/// What a run writes for a value of the given register.
pub open spec fn value_report(mode: Mode, verbose: bool, value: u64) -> ReportModel {
    decoded_report(mode, verbose, value, decoding(mode, value))
}

/// What a run writes for a command line.
pub open spec fn args_report(args: ArgsModel) -> ReportModel {
    match parsed_number(args.value) {
        Some(value) => value_report(args.mode, args.verbose, value),
        None => ReportModel { lines: Seq::empty(), failure: Some(Failure::Parse) },
    }
}

/// The heading for a value of the given register.
pub fn heading_line(mode: Mode, value: u64) -> (line: Line)
    ensures
        line@ == heading(mode, value),
{
    let (name, digits): (&str, usize) = match mode {
        Mode::Esr => ("ESR", 32),
        Mode::Midr => ("MIDR", 32),
        Mode::Smccc => ("SMC ID", 16),
    };
    let mut number = "0x".to_owned();
    push_numeral(&mut number, value as u128, Radix::Hex, digits);
    let mut spans: Vec<Span> = Vec::new();
    spans.push(Span::new(name, Style::Label));
    spans.push(Span::new(" ", Style::Plain));
    spans.push(Span { text: number, style: Style::Heading });
    spans.push(Span::new(":", Style::Plain));
    Line { spans }
}

/// Writes the report for a value and what the decoder returned for it.
pub fn report_decoded(
    mode: Mode,
    verbose: bool,
    value: u64,
    decoded: Result<Vec<Field>, DecodeFault>,
) -> (report: Report)
    ensures
        report@ == decoded_report(mode, verbose, value, decoded_model(decoded)),
{
    let mut lines: Vec<Line> = Vec::new();
    lines.push(heading_line(mode, value));
    assert(lines.deep_view() =~= seq![heading(mode, value)]);
    match decoded {
        Ok(fields) => {
            if is_renderable(&fields) {
                let mut body = render_fields(&fields, verbose, 0);
                let ghost head = lines.deep_view();
                let ghost tail = body.deep_view();
                lines.append(&mut body);
                assert(lines.deep_view() =~= head + tail);
                Report { lines, failure: None }
            } else {
                Report { lines, failure: Some(Failure::Malformed) }
            }
        },
        Err(fault) => Report { lines, failure: Some(Failure::Decode(fault)) },
    }
}

/// Decodes a value as the given register and writes the report.
pub fn report_value(mode: Mode, verbose: bool, value: u64) -> (report: Report)
    ensures
        report@ == value_report(mode, verbose, value),
{
    report_decoded(mode, verbose, value, decode_value(mode, value))
}

/// Does what the command line asks for: reads the value, decodes it as the
/// register named, and writes the report.
pub fn report(args: &Args) -> (report: Report)
    ensures
        report@ == args_report(args@),
{
    match parse_number(args.value.as_str()) {
        Some(value) => report_value(args.mode, args.verbose, value),
        None => {
            let lines: Vec<Line> = Vec::new();
            assert(lines.deep_view() =~= Seq::<Seq<SpanModel>>::empty());
            Report { lines, failure: Some(Failure::Parse) }
        },
    }
}

} // verus!
