use sysreg_view::highlight::{highlight, Emphasis, Segment};

fn seg(text: &str, emphasis: Emphasis) -> Segment {
    Segment { text: text.to_string(), emphasis }
}

fn rejoined(text: &str) -> String {
    highlight(text).iter().map(|segment| segment.text.as_str()).collect()
}

#[test]
fn marked_sentence_then_plain_text() {
    assert_eq!(
        highlight("# warn this. more text"),
        vec![seg("# warn this.", Emphasis::Accent), seg(" more text", Emphasis::Plain)]
    );
}

#[test]
fn marker_without_terminator_runs_to_the_end() {
    assert_eq!(highlight("a #b#c"), vec![seg("a ", Emphasis::Plain), seg("#b#c", Emphasis::Accent)]);
}

#[test]
fn no_marker_is_one_plain_segment() {
    assert_eq!(highlight("nothing to see. really!"), vec![seg("nothing to see. really!", Emphasis::Plain)]);
    assert_eq!(highlight("."), vec![seg(".", Emphasis::Plain)]);
}

#[test]
fn empty_description_has_no_segments() {
    assert_eq!(highlight(""), Vec::<Segment>::new());
}

#[test]
fn lone_marker() {
    assert_eq!(highlight("#"), vec![seg("#", Emphasis::Accent)]);
}

#[test]
fn first_terminator_of_any_kind_ends_the_run() {
    assert_eq!(highlight("#a?b.c!"), vec![seg("#a?", Emphasis::Accent), seg("b.c!", Emphasis::Plain)]);
    assert_eq!(highlight("#a!b?c."), vec![seg("#a!", Emphasis::Accent), seg("b?c.", Emphasis::Plain)]);
    assert_eq!(highlight("#a.b!c?"), vec![seg("#a.", Emphasis::Accent), seg("b!c?", Emphasis::Plain)]);
}

#[test]
fn terminator_before_the_marker_does_not_count() {
    assert_eq!(
        highlight("one. two #three four"),
        vec![seg("one. two ", Emphasis::Plain), seg("#three four", Emphasis::Accent)]
    );
}

#[test]
fn several_marked_sentences() {
    assert_eq!(
        highlight("x #a. y #b! z"),
        vec![
            seg("x ", Emphasis::Plain),
            seg("#a.", Emphasis::Accent),
            seg(" y ", Emphasis::Plain),
            seg("#b!", Emphasis::Accent),
            seg(" z", Emphasis::Plain),
        ]
    );
}

#[test]
fn marked_sentences_back_to_back() {
    assert_eq!(highlight("#a.#b."), vec![seg("#a.", Emphasis::Accent), seg("#b.", Emphasis::Accent)]);
}

#[test]
fn marker_inside_a_run_is_part_of_it() {
    assert_eq!(highlight("#a#b.c"), vec![seg("#a#b.", Emphasis::Accent), seg("c", Emphasis::Plain)]);
}

#[test]
fn terminator_at_the_end() {
    assert_eq!(highlight("see #this."), vec![seg("see ", Emphasis::Plain), seg("#this.", Emphasis::Accent)]);
}

#[test]
fn marker_followed_at_once_by_terminator() {
    assert_eq!(highlight("#."), vec![seg("#.", Emphasis::Accent)]);
    assert_eq!(highlight("#.#"), vec![seg("#.", Emphasis::Accent), seg("#", Emphasis::Accent)]);
}

#[test]
fn text_beyond_ascii_is_kept() {
    assert_eq!(
        highlight("größe #wärme… kälte. ende"),
        vec![
            seg("größe ", Emphasis::Plain),
            seg("#wärme… kälte.", Emphasis::Accent),
            seg(" ende", Emphasis::Plain),
        ]
    );
}

#[test]
fn segments_rejoin_to_the_description() {
    for text in [
        "",
        "#",
        ".",
        "plain",
        "# warn this. more text",
        "a #b#c",
        "x #a. y #b! z",
        "#a.#b.",
        "??#!!#..",
        "日本語 #テスト。 done. #again? yes",
        "trailing #",
    ] {
        assert_eq!(rejoined(text), text);
    }
}

#[test]
fn no_segment_is_empty() {
    for text in ["#a.#b.", "a #b#c", "x #a. y #b! z", "#.#.#", ".#"] {
        for segment in highlight(text) {
            assert!(!segment.text.is_empty());
        }
    }
}

#[test]
fn runs_begin_with_a_marker_and_plain_text_holds_none() {
    for text in ["x #a. y #b! z", "#a#b.c", "??#!!#..", "one. two #three four"] {
        for segment in highlight(text) {
            match segment.emphasis {
                Emphasis::Accent => assert!(segment.text.starts_with('#')),
                Emphasis::Plain => assert!(!segment.text.contains('#')),
            }
        }
    }
}
