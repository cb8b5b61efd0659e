use zfetch::system_info::{MemoryInfo, Sources, SystemInfo};
use zfetch::text::{
    chars_of, push_right_justified, split_exec, str_contains, string_of, trim_exec, words_exec,
    CharClass,
};

const SAMPLES: [&str; 14] = [
    "",
    "a",
    "=",
    "a=b",
    "PRETTY_NAME=\"Arch Linux\"",
    "/usr/bin/zsh",
    "//",
    "\"\"quoted\"\"",
    "  leading and trailing  ",
    "a:b:c:",
    "Linux version 6.1.0 (x@y) #1 SMP",
    "tab\tseparated\twords",
    "é=ü/ö\"ä",
    " \u{a0}\u{2003}mixed\u{3000}space ",
];

fn text_of(parts: Vec<Vec<char>>) -> Vec<String> {
    parts.iter().map(|part| string_of(part)).collect()
}

/// A sequence of numbers that looks random and is the same on every run.
fn numbers(count: usize) -> Vec<u64> {
    let mut state: u64 = 0x9E37_79B9_7F4A_7C15;
    let mut out = Vec::new();
    for _ in 0..count {
        state ^= state << 13;
        state ^= state >> 7;
        state ^= state << 17;
        out.push(state);
    }
    out
}

#[test]
fn split_agrees_with_the_standard_library() {
    for sample in SAMPLES {
        for sep in ['=', '/', '"', ':', ' '] {
            let expected: Vec<String> = sample.split(sep).map(|part| part.to_string()).collect();
            assert_eq!(text_of(split_exec(&chars_of(sample), CharClass::Exactly(sep))), expected);
        }
    }
}

#[test]
fn words_agree_with_the_standard_library() {
    for sample in SAMPLES {
        let expected: Vec<String> = sample.split_whitespace().map(|w| w.to_string()).collect();
        assert_eq!(text_of(words_exec(&chars_of(sample))), expected);
    }
}

#[test]
fn trimming_a_character_agrees_with_the_standard_library() {
    for sample in SAMPLES {
        for c in ['"', ' ', '/', 'a'] {
            assert_eq!(trim_exec(&chars_of(sample), CharClass::Exactly(c)), sample.trim_matches(c));
        }
    }
}

#[test]
fn search_agrees_with_the_standard_library() {
    for hay in SAMPLES {
        for needle in ["", "a", "=", "in", "Linux", "  ", "\"\"", "ü/ö", "zsh", "c:"] {
            assert_eq!(str_contains(hay, needle), hay.contains(needle));
        }
    }
}

#[test]
fn justification_agrees_with_the_standard_library() {
    for sample in SAMPLES {
        for width in [0usize, 1, 5, 20, 40] {
            let mut out = String::new();
            push_right_justified(&mut out, sample, width);
            assert_eq!(out, format!("{:>width$}", sample, width = width));
        }
    }
}

#[test]
fn uptime_agrees_with_its_formula() {
    let mut info = SystemInfo::new(&Sources::unavailable());
    let mut cases = numbers(200);
    cases.extend(numbers(200).iter().map(|n| n % 1_000_000));
    cases.extend([0, 59, 60, 3599, 3600, 86399, 86400, 90000, u64::MAX]);
    for seconds in cases {
        let days = seconds / 86400;
        let hours = (seconds % 86400) / 3600;
        let minutes = (seconds % 3600) / 60;
        let expected = if days > 0 {
            format!("{} days, {} hours, {} minutes", days, hours, minutes)
        } else if hours > 0 {
            format!("{} hours, {} minutes", hours, minutes)
        } else {
            format!("{} minutes", minutes)
        };
        info.uptime = seconds;
        assert_eq!(info.format_uptime(), expected);
    }
}

#[test]
fn gibibytes_agree_with_floating_point_formatting() {
    let mut info = SystemInfo::new(&Sources::unavailable());
    let mut cases: Vec<u64> = numbers(2000).iter().map(|n| n >> 11).collect();
    cases.extend(numbers(2000).iter().map(|n| n >> 30));
    for k in 0u64..200 {
        cases.push(k * 53_687_091);
        cases.push(k * 53_687_091 + 1);
        cases.push(k * 268_435_456);
        cases.push(k * 107_374_182 + 21);
    }
    for bytes in cases {
        info.memory_info = MemoryInfo { total: bytes.max(1), used: bytes, available: 0 };
        let text = info.format_memory();
        let expected = format!("{:.1} GB / ", bytes as f64 / 1_073_741_824.0);
        assert!(text.starts_with(&expected), "{} gives {}, not {}", bytes, text, expected);
    }
}

#[test]
fn percentage_is_nearest_to_the_share() {
    let mut info = SystemInfo::new(&Sources::unavailable());
    let totals = numbers(300);
    let useds = numbers(600);
    for i in 0..300 {
        let total = (totals[i] >> 20).max(1);
        let used = useds[300 + i] % (total + 1);
        info.memory_info = MemoryInfo { total, used, available: total - used };
        let text = info.format_memory();
        let shown: u128 = text[text.find('(').unwrap() + 1..text.len() - 2].parse().unwrap();
        let exact = used as u128 * 100;
        let below = shown * total as u128;
        assert!(exact * 2 < below * 2 + total as u128 + 1);
        assert!(below * 2 <= exact * 2 + total as u128);
    }
}
