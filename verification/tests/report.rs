use sysreg_view::args::{Args, Mode};
use sysreg_view::decode::{decode_value, DecodeFault};
use sysreg_view::field::Field;
use sysreg_view::line::{Line, Span, Style};
use sysreg_view::render::render_fields;
use sysreg_view::report::{heading_line, report, report_decoded, report_value, Failure, Report};

fn args(verbose: bool, mode: Mode, value: &str) -> Args {
    Args { verbose, mode, value: value.to_string() }
}

fn span(text: &str, style: Style) -> Span {
    Span { text: text.to_string(), style }
}

fn texts(lines: &[Line]) -> Vec<String> {
    lines.iter().map(|line| line.plain_text()).collect()
}

fn copied(raw: &aarch64_esr_decoder::FieldInfo) -> Field {
    Field {
        name: raw.name.to_string(),
        long_name: raw.long_name.map(|name| name.to_string()),
        start: raw.start,
        width: raw.width,
        value: raw.value,
        description: raw.description.clone(),
        subfields: raw.subfields.iter().map(copied).collect(),
    }
}

fn fault(raw: aarch64_esr_decoder::DecodeError) -> DecodeFault {
    match raw {
        aarch64_esr_decoder::DecodeError::InvalidRes0 { res0 } => DecodeFault::InvalidRes0 { res0 },
        aarch64_esr_decoder::DecodeError::InvalidEc { ec } => DecodeFault::InvalidEc { ec },
        aarch64_esr_decoder::DecodeError::InvalidFsc { fsc } => DecodeFault::InvalidFsc { fsc },
        aarch64_esr_decoder::DecodeError::InvalidSet { set } => DecodeFault::InvalidSet { set },
        aarch64_esr_decoder::DecodeError::InvalidAet { aet } => DecodeFault::InvalidAet { aet },
        aarch64_esr_decoder::DecodeError::InvalidAm { am } => DecodeFault::InvalidAm { am },
        aarch64_esr_decoder::DecodeError::InvalidLd64bIss { iss } => DecodeFault::InvalidLd64bIss { iss },
    }
}

fn mapped(
    raw: Result<Vec<aarch64_esr_decoder::FieldInfo>, aarch64_esr_decoder::DecodeError>,
) -> Result<Vec<Field>, DecodeFault> {
    match raw {
        Ok(fields) => Ok(fields.iter().map(copied).collect()),
        Err(error) => Err(fault(error)),
    }
}

fn decoder_report(
    title: &str,
    digits: usize,
    value: u64,
    raw: Result<Vec<aarch64_esr_decoder::FieldInfo>, aarch64_esr_decoder::DecodeError>,
    verbose: bool,
) -> (Vec<String>, Option<Failure>) {
    let mut lines = vec![format!("{} {:#02$x}:", title, value, digits + 2)];
    match raw {
        Ok(fields) => {
            decoder_text(&fields, verbose, 0, &mut lines);
            (lines, None)
        }
        Err(error) => (lines, Some(Failure::Decode(fault(error)))),
    }
}

fn sweep() -> Vec<u64> {
    let mut values = Vec::new();
    for class in 0..64u64 {
        for iss in [0u64, 1, 2, 3, 0x10, 0x22, 0x50, 0x810, 0x1000, 0x1e10, 0x0100_0000, 0x0152_3050, 0x01ff_ffff] {
            values.push((class << 26) | (1 << 25) | iss);
            values.push((class << 26) | iss);
        }
    }
    values.push(1 << 40);
    values.push(u64::MAX);
    values
}

fn decoder_text(fields: &[aarch64_esr_decoder::FieldInfo], verbose: bool, level: usize, out: &mut Vec<String>) {
    let indentation = " ".repeat(level * 2);
    for field in fields {
        let verbose_name = match field.long_name {
            Some(long_name) if verbose => format!(" ({long_name})"),
            _ => String::new(),
        };
        if field.width == 1 {
            let flag = if field.value != 0 { "true" } else { "false" };
            out.push(format!("{}{:02}     {}: {}{}", indentation, field.start, field.name, flag, verbose_name));
        } else {
            out.push(format!(
                "{}{:02}..{:02} {}: {} {}{}",
                indentation,
                field.start,
                field.start + field.width - 1,
                field.name,
                field.value_string(),
                field.value_binary_string(),
                verbose_name,
            ));
        }
        if let Some(description) = &field.description {
            out.push(format!("{indentation}  # {description}"));
        }
        decoder_text(&field.subfields, verbose, level + 1, out);
    }
}

const ESR_VALUES: [u64; 7] =
    [0x9600_0050, 0x9752_3050, 0x8200_1e10, 0x1f30_0000, 0x2a00_0002, 0x0200_0000, 0x5e00_0000];

const MIDR_VALUES: [u64; 4] = [0x410f_d083, 0x0000_0000, 0x510f_8000, 0xffff_ffff];

const SMCCC_VALUES: [u64; 8] =
    [0x8400_0001, 0xc400_0061, 0x0000_0000, 0x0200_0000, 0x8000_0000, 0xb000_0001, 0x8500_0020, 0xffff_ffff];

fn heading_of(text: &str) -> Option<String> {
    let written = report(&args(false, Mode::Smccc, text));
    match written.failure {
        Some(Failure::Parse) => {
            assert!(written.lines.is_empty());
            None
        }
        _ => Some(written.lines[0].plain_text()),
    }
}

fn heading_for(value: u64) -> Option<String> {
    Some(format!("SMC ID {value:#018x}:"))
}

#[test]
fn numbers_are_read_as_the_decoder_reads_them() {
    assert_eq!(heading_of("12345"), heading_for(12345));
    assert_eq!(heading_of("0x123abc"), heading_for(0x123abc));
    assert_eq!(heading_of("0"), heading_for(0));
    assert_eq!(heading_of("0xffffffffffffffff"), heading_for(u64::MAX));
    assert_eq!(heading_of("18446744073709551615"), heading_for(u64::MAX));
    assert_eq!(heading_of("0x10"), Some("SMC ID 0x0000000000000010:".to_string()));
    assert_eq!(heading_of("10"), Some("SMC ID 0x000000000000000a:".to_string()));
}

#[test]
fn what_is_no_number_is_refused() {
    assert_eq!(heading_of("123abc"), None);
    assert_eq!(heading_of(""), None);
    assert_eq!(heading_of("0x"), None);
    assert_eq!(heading_of("midr"), None);
    assert_eq!(heading_of("-1"), None);
    assert_eq!(heading_of("18446744073709551616"), None);
    assert_eq!(heading_of("0x10000000000000000"), None);
}

#[test]
fn numbers_agree_with_the_decoder() {
    for text in ["1", "0x1", "0X1", "+7", "0x+7", " 1", "1 ", "0b1", "007", "0x00ff", "ff", "１"] {
        let expected = aarch64_esr_decoder::parse_number(text).ok().and_then(heading_for);
        assert_eq!(heading_of(text), expected, "{text:?}");
    }
}

#[test]
fn esr_fields_are_the_decoder_s() {
    for value in ESR_VALUES {
        let expected: Vec<Field> = aarch64_esr_decoder::decode(value).unwrap().iter().map(copied).collect();
        assert_eq!(decode_value(Mode::Esr, value), Ok(expected), "{value:#x}");
    }
    for value in sweep() {
        assert_eq!(decode_value(Mode::Esr, value), mapped(aarch64_esr_decoder::decode(value)), "{value:#x}");
    }
}

#[test]
fn midr_fields_are_the_decoder_s() {
    for value in MIDR_VALUES {
        let expected: Vec<Field> = aarch64_esr_decoder::decode_midr(value).unwrap().iter().map(copied).collect();
        assert_eq!(decode_value(Mode::Midr, value), Ok(expected), "{value:#x}");
    }
    for value in sweep() {
        assert_eq!(decode_value(Mode::Midr, value), mapped(aarch64_esr_decoder::decode_midr(value)), "{value:#x}");
    }
}

#[test]
fn smccc_fields_are_the_decoder_s() {
    for value in SMCCC_VALUES {
        let expected: Vec<Field> = aarch64_esr_decoder::decode_smccc(value).unwrap().iter().map(copied).collect();
        assert_eq!(decode_value(Mode::Smccc, value), Ok(expected), "{value:#x}");
    }
    for value in sweep() {
        assert_eq!(decode_value(Mode::Smccc, value), mapped(aarch64_esr_decoder::decode_smccc(value)), "{value:#x}");
    }
}

#[test]
fn the_three_registers_are_decoded_differently() {
    let esr = decode_value(Mode::Esr, 0x0200_0000).unwrap();
    let midr = decode_value(Mode::Midr, 0x0200_0000).unwrap();
    let smccc = decode_value(Mode::Smccc, 0x0200_0000).unwrap();
    assert_eq!(esr[0].name, "RES0");
    assert_eq!(esr[2].name, "EC");
    assert_eq!(midr[1].name, "Implementer");
    assert_eq!(smccc[0].name, "Call Type");
}

#[test]
fn data_abort_fields() {
    let fields = decode_value(Mode::Esr, 0x9600_0050).unwrap();
    assert_eq!(fields.len(), 5);
    assert_eq!(
        fields[2],
        Field {
            name: "EC".to_string(),
            long_name: Some("Exception Class".to_string()),
            start: 26,
            width: 6,
            value: 0x25,
            description: Some("Data Abort taken without a change in Exception level".to_string()),
            subfields: vec![],
        }
    );
    assert_eq!(fields[4].name, "ISS");
    assert_eq!((fields[4].start, fields[4].width, fields[4].value), (0, 25, 0x50));
    assert!(!fields[4].subfields.is_empty());
}

#[test]
fn each_decode_error_is_carried_over() {
    assert_eq!(decode_value(Mode::Esr, 1 << 40), Err(DecodeFault::InvalidRes0 { res0: 8 }));
    assert_eq!(decode_value(Mode::Esr, 0x0800_0000), Err(DecodeFault::InvalidEc { ec: 2 }));
    assert_eq!(decode_value(Mode::Esr, 0x9600_0022), Err(DecodeFault::InvalidFsc { fsc: 0x22 }));
    assert_eq!(decode_value(Mode::Esr, 0x9600_0810), Err(DecodeFault::InvalidSet { set: 1 }));
    assert_eq!(decode_value(Mode::Esr, 0xbe00_1000), Err(DecodeFault::InvalidAet { aet: 4 }));
    assert_eq!(decode_value(Mode::Esr, 0x1a00_000a), Err(DecodeFault::InvalidAm { am: 5 }));
    assert_eq!(decode_value(Mode::Esr, 0x2a00_0003), Err(DecodeFault::InvalidLd64bIss { iss: 3 }));
    assert_eq!(decode_value(Mode::Midr, 1 << 32), Err(DecodeFault::InvalidRes0 { res0: 1 }));
}

#[test]
fn headings() {
    assert_eq!(
        heading_line(Mode::Esr, 0x9600_0050),
        Line {
            spans: vec![
                span("ESR", Style::Label),
                span(" ", Style::Plain),
                span("0x00000000000000000000000096000050", Style::Heading),
                span(":", Style::Plain),
            ]
        }
    );
    assert_eq!(heading_line(Mode::Midr, 0x410f_d083).plain_text(), "MIDR 0x000000000000000000000000410fd083:");
    assert_eq!(heading_line(Mode::Smccc, 0x8400_0001).plain_text(), "SMC ID 0x0000000084000001:");
    assert_eq!(heading_line(Mode::Smccc, u64::MAX).plain_text(), "SMC ID 0xffffffffffffffff:");
    assert_eq!(heading_line(Mode::Esr, 0).plain_text(), format!("ESR {:#034x}:", 0));
    assert_eq!(heading_line(Mode::Midr, u64::MAX).plain_text(), format!("MIDR {:#034x}:", u64::MAX));
    assert_eq!(heading_line(Mode::Smccc, 0x1f).plain_text(), format!("SMC ID {:#018x}:", 0x1f));
}

#[test]
fn a_value_that_is_no_number_gives_no_line() {
    assert_eq!(report(&args(false, Mode::Esr, "12ab")), Report { lines: vec![], failure: Some(Failure::Parse) });
    assert_eq!(report(&args(true, Mode::Midr, "midr")), Report { lines: vec![], failure: Some(Failure::Parse) });
    assert_eq!(report(&args(true, Mode::Smccc, "")), Report { lines: vec![], failure: Some(Failure::Parse) });
}

#[test]
fn a_value_that_cannot_be_decoded_gives_the_heading_alone() {
    assert_eq!(
        report(&args(false, Mode::Esr, "0x08000000")),
        Report {
            lines: vec![heading_line(Mode::Esr, 0x0800_0000)],
            failure: Some(Failure::Decode(DecodeFault::InvalidEc { ec: 2 })),
        }
    );
    assert_eq!(
        report_value(Mode::Midr, true, 1 << 32),
        Report {
            lines: vec![heading_line(Mode::Midr, 1 << 32)],
            failure: Some(Failure::Decode(DecodeFault::InvalidRes0 { res0: 1 })),
        }
    );
    assert_eq!(
        report_decoded(Mode::Smccc, false, 5, Err(DecodeFault::InvalidAm { am: 3 })),
        Report {
            lines: vec![heading_line(Mode::Smccc, 5)],
            failure: Some(Failure::Decode(DecodeFault::InvalidAm { am: 3 })),
        }
    );
}

#[test]
fn a_field_without_bits_gives_the_heading_alone() {
    let good = Field {
        name: "A".to_string(),
        long_name: None,
        start: 0,
        width: 4,
        value: 1,
        description: None,
        subfields: vec![],
    };
    let bad = Field {
        name: "B".to_string(),
        long_name: None,
        start: 4,
        width: 0,
        value: 0,
        description: None,
        subfields: vec![],
    };
    assert_eq!(
        report_decoded(Mode::Esr, false, 1, Ok(vec![good, bad])),
        Report { lines: vec![heading_line(Mode::Esr, 1)], failure: Some(Failure::Malformed) }
    );
}

#[test]
fn a_decoded_value_gives_the_heading_and_the_fields() {
    let fields = decode_value(Mode::Esr, 0x9600_0050).unwrap();
    for verbose in [false, true] {
        let mut lines = vec![heading_line(Mode::Esr, 0x9600_0050)];
        lines.extend(render_fields(&fields, verbose, 0));
        assert_eq!(report(&args(verbose, Mode::Esr, "0x96000050")), Report { lines, failure: None });
    }
    assert_eq!(report(&args(false, Mode::Esr, "2516582480")), report_value(Mode::Esr, false, 0x9600_0050));
}

#[test]
fn data_abort_report() {
    let written = report(&args(false, Mode::Esr, "0x96000050"));
    assert_eq!(written.failure, None);
    let text = texts(&written.lines);
    assert_eq!(text[0], "ESR 0x00000000000000000000000096000050:");
    assert_eq!(text[1], "37..63 RES0: 0x0000000 0b000000000000000000000000000");
    assert_eq!(text[2], "32..36 ISS2: 0x00 0b00000");
    assert_eq!(text[3], "26..31 EC: 0x25 0b100101");
    assert_eq!(text[4], "  # Data Abort taken without a change in Exception level");
    assert_eq!(text[5], "25     IL: true");
    assert_eq!(text[6], "  # 32-bit instruction trapped");
    assert_eq!(text[7], "00..24 ISS: 0x0000050 0b0000000000000000001010000");
    assert_eq!(text[8], "  24     ISV: false");
    assert_eq!(text[9], "    # No valid instruction syndrome");
}

#[test]
fn midr_report() {
    let written = report(&args(true, Mode::Midr, "0x410fd083"));
    assert_eq!(written.failure, None);
    assert_eq!(
        texts(&written.lines),
        vec![
            "MIDR 0x000000000000000000000000410fd083:",
            "32..63 RES0: 0x00000000 0b00000000000000000000000000000000 (Reserved)",
            "24..31 Implementer: 0x41 0b01000001",
            "  # Arm Limited",
            "20..23 Variant: 0x0 0b0000",
            "16..19 Architecture: 0xf 0b1111",
            "  # Architectural features are individually identified",
            "04..15 PartNum: 0xd08 0b110100001000 (Part number)",
            "00..03 Revision: 0x3 0b0011",
        ]
    );
}

#[test]
fn reports_read_as_the_decoder_s_own_text() {
    let mut values = sweep();
    values.extend(ESR_VALUES);
    values.extend(MIDR_VALUES);
    values.extend(SMCCC_VALUES);
    for verbose in [false, true] {
        for &value in &values {
            let written = report_value(Mode::Esr, verbose, value);
            let expected = decoder_report("ESR", 32, value, aarch64_esr_decoder::decode(value), verbose);
            assert_eq!((texts(&written.lines), written.failure), expected, "{value:#x}");
            let written = report_value(Mode::Midr, verbose, value);
            let expected = decoder_report("MIDR", 32, value, aarch64_esr_decoder::decode_midr(value), verbose);
            assert_eq!((texts(&written.lines), written.failure), expected, "{value:#x}");
            let written = report_value(Mode::Smccc, verbose, value);
            let expected = decoder_report("SMC ID", 16, value, aarch64_esr_decoder::decode_smccc(value), verbose);
            assert_eq!((texts(&written.lines), written.failure), expected, "{value:#x}");
        }
    }
}

#[test]
fn the_mode_decides_the_report() {
    let esr = report(&args(false, Mode::Esr, "0x02000000"));
    let midr = report(&args(false, Mode::Midr, "0x02000000"));
    let smccc = report(&args(false, Mode::Smccc, "0x02000000"));
    assert_eq!(esr.lines[0].plain_text(), "ESR 0x00000000000000000000000002000000:");
    assert_eq!(midr.lines[0].plain_text(), "MIDR 0x00000000000000000000000002000000:");
    assert_eq!(smccc.lines[0].plain_text(), "SMC ID 0x0000000002000000:");
    assert_ne!(esr.lines[1..], midr.lines[1..]);
    assert_ne!(midr.lines[1..], smccc.lines[1..]);
}
