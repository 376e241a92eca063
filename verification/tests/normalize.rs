use nyaa::conv::{add_protocol, normalize_size, parse_count, shorten_number, to_bytes};
use nyaa::strutil::{digits_only, find_char, nth_segment, parse_u64, rfind_char, str_eq, to_lower, u64_to_dec};

#[test]
fn comma_grouped_size_moves_one_unit_up() {
    assert_eq!(normalize_size("1,015 KB"), "1.01 MB");
    assert_eq!(normalize_size("1,200 KB"), "1.20 MB");
    assert_eq!(normalize_size("2,5 GB"), "2.00 TB");
    assert_eq!(normalize_size("1,000 B"), "1.00 kB");
    assert_eq!(normalize_size("3,333 MB"), "3.33 GB");
}

#[test]
fn plain_sizes_stay_unchanged() {
    assert_eq!(normalize_size("500 MB"), "500 MB");
    assert_eq!(normalize_size("0 MB"), "0 MB");
    assert_eq!(normalize_size(""), "");
    // A comma without a space after it leaves the string as it was.
    assert_eq!(normalize_size("1,015KB"), "1,015KB");
}

#[test]
fn unknown_unit_after_comma_is_marked() {
    assert_eq!(normalize_size("1,015 XB"), "1.01 ??");
}

#[test]
fn size_strings_read_back_into_bytes() {
    assert_eq!(to_bytes("500 MB"), 500 * 1024 * 1024);
    assert_eq!(to_bytes("1.01 MB"), 101 * 1024 * 1024 / 100);
    assert_eq!(to_bytes("2 kB"), 2048);
    assert_eq!(to_bytes("3 B"), 3);
    assert_eq!(to_bytes("1.5 GB"), 150 * 1024 * 1024 * 1024 / 100);
    assert_eq!(to_bytes("junk"), 0);
    assert_eq!(to_bytes(""), 0);
}

#[test]
fn counts_shorten_only_from_ten_thousand() {
    assert_eq!(shorten_number(0), "0");
    assert_eq!(shorten_number(9999), "9999");
    assert_eq!(shorten_number(10000), "10K");
    assert_eq!(shorten_number(15500), "15K");
}

#[test]
fn missing_or_garbled_counts_read_as_zero() {
    assert_eq!(parse_count("10"), 10);
    assert_eq!(parse_count("1,234"), 1234);
    assert_eq!(parse_count("-"), 0);
    assert_eq!(parse_count(""), 0);
    assert_eq!(parse_count("0"), 0);
}

#[test]
fn protocol_is_added_only_when_missing() {
    assert_eq!(add_protocol("torrentgalaxy.to/".to_string(), true), "https://torrentgalaxy.to/");
    assert_eq!(add_protocol("torrentgalaxy.to/".to_string(), false), "http://torrentgalaxy.to/");
    assert_eq!(
        add_protocol("https://torrentgalaxy.to/".to_string(), true),
        "https://torrentgalaxy.to/"
    );
    assert_eq!(add_protocol("http://x.y/".to_string(), true), "http://x.y/");
}

#[test]
fn decimal_rendering_and_parsing_agree() {
    assert_eq!(u64_to_dec(0), "0");
    assert_eq!(u64_to_dec(7), "7");
    assert_eq!(u64_to_dec(12345), "12345");
    assert_eq!(u64_to_dec(u64::MAX), u64::MAX.to_string());
    assert_eq!(parse_u64("12345"), Some(12345));
    assert_eq!(parse_u64(""), None);
    assert_eq!(parse_u64("12a"), None);
    assert_eq!(parse_u64("18446744073709551615"), Some(u64::MAX));
    assert_eq!(parse_u64("18446744073709551616"), None);
}

#[test]
fn searching_and_splitting_strings() {
    assert_eq!(find_char("a,b", ','), Some(1));
    assert_eq!(find_char("ab", ','), None);
    assert_eq!(rfind_char("a=b=c", '='), Some(3));
    assert_eq!(digits_only("1,234 x5"), "12345");
    assert_eq!(to_lower("KB"), "kb");
    assert!(str_eq("abc", "abc"));
    assert!(!str_eq("abc", "abd"));
    let link = "https://host/torrent/100/name";
    assert_eq!(nth_segment(link, '/', 4).as_deref(), Some("100"));
    assert_eq!(nth_segment(link, '/', 9), None);
    assert_eq!(nth_segment("abc", '/', 0).as_deref(), Some("abc"));
}
