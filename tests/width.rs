use unicode_width::range_table::{is_well_formed, lookup, RangeKind};
use unicode_width::tables::WIDTH_RANGES;
use unicode_width::width::{char_width, class_width, classify, kind_class, str_width, WidthClass};
use unicode_width::{UnicodeWidthChar, UnicodeWidthStr, UNICODE_VERSION};

#[test]
fn test_str() {
    assert_eq!(UnicodeWidthStr::width("ｈｅｌｌｏ"), 10);
    assert_eq!("ｈｅｌｌｏ".width_cjk(), 10);
    assert_eq!(UnicodeWidthStr::width("\0\0\0\x01\x01"), 0);
    assert_eq!("\0\0\0\x01\x01".width_cjk(), 0);
    assert_eq!(UnicodeWidthStr::width(""), 0);
    assert_eq!("".width_cjk(), 0);
    assert_eq!(UnicodeWidthStr::width("\u{2081}\u{2082}\u{2083}\u{2084}"), 4);
    assert_eq!("\u{2081}\u{2082}\u{2083}\u{2084}".width_cjk(), 8);
}

#[test]
fn test_char() {
    assert_eq!(UnicodeWidthChar::width('ｈ'), Some(2));
    assert_eq!('ｈ'.width_cjk(), Some(2));
    assert_eq!(UnicodeWidthChar::width('\x00'), Some(0));
    assert_eq!('\x00'.width_cjk(), Some(0));
    assert_eq!(UnicodeWidthChar::width('\x01'), None);
    assert_eq!('\x01'.width_cjk(), None);
    assert_eq!(UnicodeWidthChar::width('\u{2081}'), Some(1));
    assert_eq!('\u{2081}'.width_cjk(), Some(2));
}

#[test]
fn nul_is_zero_width_in_both_contexts() {
    assert_eq!(char_width('\0', false), Some(0));
    assert_eq!(char_width('\0', true), Some(0));
    assert_eq!(classify('\0', true), WidthClass::Zero);
}

#[test]
fn control_characters_have_no_width() {
    for cp in (0x01u32..=0x1F).chain(0x7F..=0x9F) {
        let c = char::from_u32(cp).unwrap();
        assert_eq!(char_width(c, false), None);
        assert_eq!(char_width(c, true), None);
        assert_eq!(classify(c, false), WidthClass::Unprintable);
    }
    assert_eq!(char_width('\u{A0}', false), Some(1));
    assert_eq!(char_width(' ', false), Some(1));
    assert_eq!(char_width('~', true), Some(1));
}

#[test]
fn empty_string_has_zero_width() {
    assert_eq!(str_width("", false), 0);
    assert_eq!(str_width("", true), 0);
}

#[test]
fn str_width_is_sum_of_char_widths() {
    let samples = ["abc", "ｈｅｌｌｏ, world", "a\u{301}b", "\u{2081}x\x07中文", "\u{1F600}!"];
    for s in samples.iter() {
        for cjk in [false, true] {
            let expected: usize = s.chars().map(|c| char_width(c, cjk).unwrap_or(0)).sum();
            assert_eq!(str_width(s, cjk), expected);
        }
    }
}

#[test]
fn width_of_concatenation_is_sum() {
    let a = "ｈｉ\u{2081}";
    let b = "e\u{301}中";
    let ab = format!("{}{}", a, b);
    for cjk in [false, true] {
        assert_eq!(str_width(&ab, cjk), str_width(a, cjk) + str_width(b, cjk));
    }
}

#[test]
fn contexts_differ_only_on_ambiguous() {
    for cp in 0u32..0x3_0000 {
        if let Some(c) = char::from_u32(cp) {
            let narrow = char_width(c, false);
            let cjk = char_width(c, true);
            if narrow != cjk {
                assert_eq!((narrow, cjk), (Some(1), Some(2)));
                assert_eq!(lookup(&WIDTH_RANGES, cp), Some(RangeKind::Ambiguous));
            }
        }
    }
    assert_eq!(char_width('\u{B1}', false), Some(1));
    assert_eq!(char_width('\u{B1}', true), Some(2));
}

#[test]
fn repeated_lookups_agree() {
    for c in ['ｈ', '\u{2081}', '\x01', 'a', '\u{301}'] {
        for cjk in [false, true] {
            assert_eq!(char_width(c, cjk), char_width(c, cjk));
        }
    }
    assert_eq!(str_width("ｈｅｌｌｏ", true), str_width("ｈｅｌｌｏ", true));
}

#[test]
fn wide_zero_and_narrow_characters() {
    assert_eq!(char_width('中', false), Some(2));
    assert_eq!(char_width('\u{1F600}', false), Some(2));
    assert_eq!(char_width('\u{301}', false), Some(0));
    assert_eq!(char_width('\u{200B}', true), Some(0));
    assert_eq!(char_width('\u{1160}', false), Some(0));
    assert_eq!(char_width('\u{AD}', false), Some(1));
    assert_eq!(char_width('a', true), Some(1));
    assert_eq!(char_width('\u{10FFFF}', false), Some(1));
    assert_eq!(str_width("中文 abc", false), 8);
}

#[test]
fn lookup_on_a_small_table() {
    let table: [(u32, u32, RangeKind); 3] = [
        (0x10, 0x1F, RangeKind::Zero),
        (0x30, 0x30, RangeKind::Wide),
        (0x40, 0x4F, RangeKind::Ambiguous),
    ];
    assert_eq!(lookup(&table, 0x0F), None);
    assert_eq!(lookup(&table, 0x10), Some(RangeKind::Zero));
    assert_eq!(lookup(&table, 0x1F), Some(RangeKind::Zero));
    assert_eq!(lookup(&table, 0x20), None);
    assert_eq!(lookup(&table, 0x30), Some(RangeKind::Wide));
    assert_eq!(lookup(&table, 0x4F), Some(RangeKind::Ambiguous));
    assert_eq!(lookup(&table, 0x50), None);
    assert_eq!(lookup(&[], 0x10), None);
}

#[test]
fn built_in_table_is_ordered() {
    for i in 0..WIDTH_RANGES.len() {
        assert!(WIDTH_RANGES[i].0 <= WIDTH_RANGES[i].1);
        if i + 1 < WIDTH_RANGES.len() {
            assert!(WIDTH_RANGES[i].1 < WIDTH_RANGES[i + 1].0);
        }
    }
}

#[test]
fn kinds_and_classes() {
    assert_eq!(kind_class(RangeKind::Zero, true), WidthClass::Zero);
    assert_eq!(kind_class(RangeKind::Narrow, true), WidthClass::One);
    assert_eq!(kind_class(RangeKind::Wide, false), WidthClass::Two);
    assert_eq!(kind_class(RangeKind::Ambiguous, false), WidthClass::One);
    assert_eq!(kind_class(RangeKind::Ambiguous, true), WidthClass::Two);
    assert_eq!(class_width(WidthClass::Zero), Some(0));
    assert_eq!(class_width(WidthClass::One), Some(1));
    assert_eq!(class_width(WidthClass::Two), Some(2));
    assert_eq!(class_width(WidthClass::Unprintable), None);
}

#[test]
fn unicode_version_is_exposed() {
    assert_eq!(UNICODE_VERSION, (14, 0, 0));
}

#[test]
fn well_formed_tables_are_recognised() {
    assert!(is_well_formed(&[]));
    assert!(is_well_formed(&WIDTH_RANGES));
    assert!(is_well_formed(&[(0x10, 0x1F, RangeKind::Zero), (0x20, 0x20, RangeKind::Wide)]));
    assert!(!is_well_formed(&[(0x20, 0x1F, RangeKind::Zero)]));
    assert!(!is_well_formed(&[(0x10, 0x1F, RangeKind::Zero), (0x1F, 0x2F, RangeKind::Wide)]));
    assert!(!is_well_formed(&[(0x30, 0x3F, RangeKind::Zero), (0x10, 0x1F, RangeKind::Wide)]));
}
