use beatmap_downloader::text::{
    chars_of, find_from, matches_at, same_text, u32_to_decimal, u64_to_decimal,
};

#[test]
fn decimal_of_small_numbers() {
    assert_eq!(u32_to_decimal(0), "0");
    assert_eq!(u32_to_decimal(7), "7");
    assert_eq!(u32_to_decimal(10), "10");
    assert_eq!(u32_to_decimal(1234567890), "1234567890");
    assert_eq!(u32_to_decimal(u32::MAX), "4294967295");
}

#[test]
fn decimal_agrees_with_std() {
    let mut n: u64 = 0;
    while n < 2000 {
        assert_eq!(u64_to_decimal(n), n.to_string());
        n += 1;
    }
    for n in [u64::MAX, u64::MAX - 1, 1 << 32, 999_999_999_999, 1_000_000_000_000] {
        assert_eq!(u64_to_decimal(n), n.to_string());
    }
}

#[test]
fn chars_of_keeps_every_character() {
    assert_eq!(chars_of(""), Vec::<char>::new());
    assert_eq!(chars_of("aé日"), vec!['a', 'é', '日']);
}

#[test]
fn find_from_gives_first_occurrence() {
    let hay = chars_of("abcabcabc");
    let needle = chars_of("bc");
    assert_eq!(find_from(&hay, &needle, 0), Some(1));
    assert_eq!(find_from(&hay, &needle, 1), Some(1));
    assert_eq!(find_from(&hay, &needle, 2), Some(4));
    assert_eq!(find_from(&hay, &needle, 8), None);
    assert_eq!(find_from(&hay, &needle, 100), None);
    assert_eq!(find_from(&hay, &chars_of("x"), 0), None);
    assert_eq!(find_from(&hay, &chars_of("abcabcabcd"), 0), None);
}

#[test]
fn find_from_with_empty_needle() {
    let hay = chars_of("ab");
    let empty = chars_of("");
    assert_eq!(find_from(&hay, &empty, 0), Some(0));
    assert_eq!(find_from(&hay, &empty, 2), Some(2));
    assert_eq!(find_from(&hay, &empty, 3), None);
}

#[test]
fn matches_at_checks_bounds() {
    let hay = chars_of("hello");
    assert!(matches_at(&hay, &chars_of("llo"), 2));
    assert!(!matches_at(&hay, &chars_of("llo"), 3));
    assert!(!matches_at(&hay, &chars_of("llo"), 9));
    assert!(matches_at(&hay, &chars_of(""), 5));
    assert!(!matches_at(&hay, &chars_of(""), 6));
}

#[test]
fn same_text_compares_by_characters() {
    assert!(same_text("", ""));
    assert!(same_text("osu", "osu"));
    assert!(!same_text("osu", "osu_api"));
    assert!(!same_text("osu", "osU"));
    assert!(!same_text("a", ""));
}
