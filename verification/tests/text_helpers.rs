use wthiromc::collector::persistence::split_lines;
use wthiromc::text::{chars_of, contains_chars, find_char, replace_all, string_of, trim_chars};

const SAMPLES: [&str; 12] = [
    "",
    "\n",
    "a",
    "a\n",
    "a\r\nb",
    "a\rb\n\nc\r",
    "\r\n\r\n",
    "  x  ",
    "\u{85}\u{a0}y\u{2028}",
    "{k}{k}{kk}",
    "aaaa",
    "t\u{3000}\u{200a}",
];

#[test]
fn lines_agree_with_str_lines() {
    for s in SAMPLES {
        let ours: Vec<String> = split_lines(&chars_of(s)).iter().map(|l| string_of(l)).collect();
        let std: Vec<String> = s.lines().map(|l| l.to_string()).collect();
        assert_eq!(ours, std, "lines of {s:?}");
    }
}

#[test]
fn trim_agrees_with_str_trim() {
    for s in SAMPLES {
        assert_eq!(string_of(&trim_chars(&chars_of(s))), s.trim(), "trim of {s:?}");
    }
}

#[test]
fn replace_agrees_with_str_replace() {
    for s in SAMPLES {
        for (pat, rep) in [("{k}", "1"), ("a", "aa"), ("aa", "b"), ("\n", "")] {
            let ours = replace_all(&chars_of(s), &chars_of(pat), &chars_of(rep));
            assert_eq!(string_of(&ours), s.replace(pat, rep), "replace in {s:?}");
        }
    }
}

#[test]
fn search_agrees_with_str_search() {
    for s in SAMPLES {
        for pat in ["", "a", "\r\n", "{kk}", "x "] {
            assert_eq!(contains_chars(&chars_of(s), &chars_of(pat)), s.contains(pat));
        }
        let found = find_char(&chars_of(s), '\n');
        let expected = s.chars().position(|c| c == '\n');
        assert_eq!(found, expected);
    }
}
