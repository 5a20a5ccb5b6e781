use song_sequence_director::section::SectionState;
use song_sequence_director::wire::{
    parse_section_message, section_display_text, section_segments_to_string,
};

fn section(kind: Option<char>, ordinal: Option<usize>) -> SectionState {
    SectionState { kind, ordinal }
}

#[test]
fn serialize_kind_only() {
    let s = section_segments_to_string(&section(Some('C'), None));
    assert_eq!(s, "C");
}

#[test]
fn serialize_kind_and_ordinal() {
    let s = section_segments_to_string(&section(Some('V'), Some(3)));
    assert_eq!(s, "V3");
}

#[test]
fn serialize_empty() {
    let s = section_segments_to_string(&section(None, None));
    assert_eq!(s, "");
}

#[test]
fn serialize_multi_digit_ordinal() {
    assert_eq!(section_segments_to_string(&section(Some('W'), Some(10))), "W10");
    assert_eq!(section_segments_to_string(&section(Some('V'), Some(12345))), "V12345");
    assert_eq!(
        section_segments_to_string(&section(Some('B'), Some(usize::MAX))),
        format!("B{}", usize::MAX)
    );
}

#[test]
fn display_text_keeps_vertical_space() {
    assert_eq!(section_display_text(&section(None, None)), "\u{200b}");
    assert_eq!(section_display_text(&section(Some('C'), None)), "C");
    assert_eq!(section_display_text(&section(Some('V'), Some(2))), "V2");
}

#[test]
fn parse_kind_and_ordinal() {
    let p = parse_section_message("V3");
    assert_eq!(p.kind, Some('V'));
    assert_eq!(p.ordinal, Some(3));
}

#[test]
fn parse_kind_only() {
    let p = parse_section_message("C");
    assert_eq!(p.kind, Some('C'));
    assert_eq!(p.ordinal, None);
}

#[test]
fn parse_empty() {
    let p = parse_section_message("");
    assert_eq!(p.kind, None);
    assert_eq!(p.ordinal, None);
}

#[test]
fn parse_rejects_zero_and_junk_ordinals() {
    assert_eq!(parse_section_message("V0").ordinal, None);
    assert_eq!(parse_section_message("Vx").ordinal, None);
    assert_eq!(parse_section_message("V1x").ordinal, None);
    assert_eq!(parse_section_message("V-1").ordinal, None);
}

#[test]
fn parse_accepts_leading_zeros() {
    assert_eq!(parse_section_message("V03").ordinal, Some(3));
}

#[test]
fn parse_ordinal_at_machine_limits() {
    let max = format!("V{}", usize::MAX);
    assert_eq!(parse_section_message(&max).ordinal, Some(usize::MAX));
    let over = format!("V{}0", usize::MAX);
    assert_eq!(parse_section_message(&over).ordinal, None);
}

#[test]
fn parse_digit_kind() {
    let p = parse_section_message("42");
    assert_eq!(p.kind, Some('4'));
    assert_eq!(p.ordinal, Some(2));
}

#[test]
fn round_trip_concrete() {
    for state in [
        section(None, None),
        section(Some('C'), None),
        section(Some('V'), Some(3)),
        section(Some('B'), Some(12)),
        section(Some('X'), Some(usize::MAX)),
    ] {
        let wire = section_segments_to_string(&state);
        let back = parse_section_message(&wire);
        assert_eq!(back, state);
    }
}
