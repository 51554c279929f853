use vortex_launcher::proton::Placed;
use vortex_launcher::proton::Build;
use vortex_launcher::config::ProtonSource;
use vortex_launcher::sort::sort;
use vortex_launcher::text::{
    decimal_text, ends_with, fits, is_white_space, lines, lowercase, ordered, parse_number,
    same_ignoring_case, split, trim, trim_end, words, Class,
};

#[test]
fn white_space_is_what_unicode_says() {
    for n in 0..=0x10ffffu32 {
        if let Some(c) = char::from_u32(n) {
            assert_eq!(is_white_space(c), c.is_whitespace(), "{n:x}");
        }
    }
}

const SAMPLES: [&str; 14] = [
    "",
    " ",
    "a",
    "  a b  ",
    "a\nb",
    "a\r\nb\r\n",
    "\n\na",
    "a\rb\r",
    "x=y;z",
    ";;",
    "\u{3000}é ü\u{a0}",
    "ÄÖ aBC",
    "1.2.3",
    "tail\n",
];

#[test]
fn pieces_are_those_of_the_standard_library() {
    for s in SAMPLES {
        assert_eq!(trim(s, Class::Space), s.trim());
        assert_eq!(trim_end(s, Class::LineEnd), s.trim_end_matches(['\r', '\n']));
        assert_eq!(words(s), s.split_whitespace().collect::<Vec<_>>());
        assert_eq!(lines(s), s.lines().collect::<Vec<_>>());
        assert_eq!(split(s, ';'), s.split(';').collect::<Vec<_>>());
        assert_eq!(lowercase(s), s.to_ascii_lowercase());
        assert_eq!(ends_with(s, "b"), s.ends_with('b'));
        assert_eq!(fits(s, 4), s.len() <= 4);
        for t in SAMPLES {
            assert_eq!(ordered(s, t), s <= t);
            assert_eq!(same_ignoring_case(s, t), s.eq_ignore_ascii_case(t));
        }
    }
}

#[test]
fn numbers_are_read_and_written() {
    for n in [0, 1, 9, 10, 99, 100, 1234567890, u64::MAX] {
        assert_eq!(decimal_text(n), n.to_string());
        assert_eq!(parse_number(&n.to_string(), u64::MAX), Some(n));
    }
    for s in ["", "+", "-1", "1 ", "1_0", "+5", "007", "18446744073709551616", "٣"] {
        assert_eq!(parse_number(s, u64::MAX), s.parse::<u64>().ok(), "{s}");
        assert_eq!(
            parse_number(s, u32::MAX as u64),
            s.parse::<u32>().ok().map(u64::from)
        );
    }
}

#[test]
fn sorting_keeps_equals_as_they_were() {
    let placed = |runs: bool, name: &str, dir: &str| Placed {
        runs,
        build: Build {
            name: name.into(),
            dir: dir.into(),
            source: ProtonSource::System,
            needs_glibc: None,
        },
    };
    let sorted = sort(vec![
        placed(false, "a", "1"),
        placed(true, "b", "2"),
        placed(true, "a", "3"),
        placed(true, "b", "4"),
        placed(true, "a", "5"),
    ]);
    let dirs: Vec<&str> = sorted.iter().map(|p| p.build.dir.as_str()).collect();
    assert_eq!(dirs, ["3", "5", "2", "4", "1"]);
}
