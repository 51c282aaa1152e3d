use sysreg_view::line::{Line, Span, Style};
use sysreg_view::paint::{assemble, paint, paint_line, paint_spans};

const STYLES: [Style; 7] = [
    Style::Plain,
    Style::Muted,
    Style::Label,
    Style::Positive,
    Style::Negative,
    Style::Heading,
    Style::Accent,
];

fn span(text: &str, style: Style) -> Span {
    Span { text: text.to_string(), style }
}

fn sample() -> Line {
    Line {
        spans: vec![
            span("  ", Style::Plain),
            span("26..31", Style::Muted),
            span(" ", Style::Plain),
            span("EC", Style::Label),
            span(": ", Style::Plain),
            span("0x25", Style::Positive),
        ],
    }
}

fn without_colours() {
    colored::control::set_override(false);
    for style in STYLES {
        assert_eq!(paint("text", style), "text");
    }
    assert_eq!(paint_line(&sample()), "  26..31 EC: 0x25");
    assert_eq!(paint_line(&sample()), sample().plain_text());
}

fn with_colours() {
    colored::control::set_override(true);
    assert_eq!(paint("  as it is: ", Style::Plain), "  as it is: ");
    assert_eq!(paint("x", Style::Muted), "\u{1b}[37mx\u{1b}[0m");
    assert_eq!(paint("x", Style::Label), "\u{1b}[1;36mx\u{1b}[0m");
    assert_eq!(paint("x", Style::Positive), "\u{1b}[1;32mx\u{1b}[0m");
    assert_eq!(paint("x", Style::Negative), "\u{1b}[1;31mx\u{1b}[0m");
    assert_eq!(paint("x", Style::Heading), "\u{1b}[1;33mx\u{1b}[0m");
    let accent = paint("x", Style::Accent);
    assert!(accent.starts_with("\u{1b}[1;"));
    assert!(accent.ends_with("mx\u{1b}[0m"));
    for style in [Style::Plain, Style::Muted, Style::Label, Style::Positive, Style::Negative] {
        assert_ne!(paint("x", style), accent);
    }
    assert_eq!(
        paint_spans(&sample()),
        vec![
            "  ".to_string(),
            "\u{1b}[37m26..31\u{1b}[0m".to_string(),
            " ".to_string(),
            "\u{1b}[1;36mEC\u{1b}[0m".to_string(),
            ": ".to_string(),
            "\u{1b}[1;32m0x25\u{1b}[0m".to_string(),
        ]
    );
    assert_eq!(
        paint_line(&sample()),
        "  \u{1b}[37m26..31\u{1b}[0m \u{1b}[1;36mEC\u{1b}[0m: \u{1b}[1;32m0x25\u{1b}[0m"
    );
}

#[test]
fn colours_are_on_or_off_as_colored_is_told() {
    without_colours();
    with_colours();
    without_colours();
}

#[test]
fn plain_text_is_never_painted() {
    assert_eq!(paint("  as it is: ", Style::Plain), "  as it is: ");
    assert_eq!(paint("", Style::Plain), "");
    assert_eq!(paint("\u{1b}[0m", Style::Plain), "\u{1b}[0m");
}

#[test]
fn a_painted_text_holds_the_text() {
    for style in STYLES {
        for text in ["x", "26..31", " (Exception Class)", "# größe. 日本語", ""] {
            let painted = paint(text, style);
            assert!(painted.contains(text), "{painted:?} {text:?}");
            assert!(painted.len() >= text.len());
        }
    }
}

#[test]
fn a_painted_text_is_the_text_alone_or_between_codes() {
    for style in STYLES {
        let painted = paint("26..31", style);
        let at = painted.find("26..31").unwrap();
        let before = &painted[..at];
        let after = &painted[at + 6..];
        assert!(before.is_empty() || (before.starts_with("\u{1b}[") && before.ends_with('m')));
        assert!(after.is_empty() || after == "\u{1b}[0m");
        assert_eq!(before.is_empty(), after.is_empty());
    }
}

#[test]
fn painted_spans_are_one_for_each_span() {
    let line = sample();
    let parts = paint_spans(&line);
    assert_eq!(parts.len(), line.spans.len());
    for (part, span) in parts.iter().zip(line.spans.iter()) {
        assert!(part.contains(span.text.as_str()));
        if span.style == Style::Plain {
            assert_eq!(part, &span.text);
        }
    }
    assert_eq!(paint_spans(&Line { spans: vec![] }), Vec::<String>::new());
}

#[test]
fn a_painted_line_holds_the_texts_of_its_spans_in_order() {
    let line = sample();
    let painted = paint_line(&line);
    let mut from = 0;
    for span in &line.spans {
        let at = painted[from..].find(span.text.as_str()).unwrap();
        from += at + span.text.len();
    }
    assert!(painted.starts_with("  "));
    assert_eq!(paint_line(&Line { spans: vec![] }), "");
}

#[test]
fn a_line_of_plain_spans_is_its_plain_text() {
    let line = Line { spans: vec![span("  ", Style::Plain), span("a: b", Style::Plain)] };
    assert_eq!(paint_line(&line), "  a: b");
    assert_eq!(paint_line(&line), line.plain_text());
}

#[test]
fn assemble_joins_in_order() {
    assert_eq!(assemble(&vec!["ab".to_string(), "".to_string(), "c".to_string()]), "abc");
    assert_eq!(assemble(&vec![]), "");
}
