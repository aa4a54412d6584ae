use fas::episodes::{is_wanted, keep_wanted};
use fas::text::{
    chars_of, concat_all, decimal, join, join_all, numeric_part, parse_number, replace, same_text,
    split, trim,
};
use fas::Episode;

#[test]
fn parse_number_reads_decimal_digits() {
    assert_eq!(parse_number("0"), Some(0));
    assert_eq!(parse_number("1090"), Some(1090));
    assert_eq!(parse_number("007"), Some(7));
    assert_eq!(parse_number("+5"), Some(5));
}

#[test]
fn parse_number_refuses_what_is_no_number() {
    assert_eq!(parse_number(""), None);
    assert_eq!(parse_number("+"), None);
    assert_eq!(parse_number("-1"), None);
    assert_eq!(parse_number("12a"), None);
    assert_eq!(parse_number("1.5"), None);
    assert_eq!(parse_number(" 1"), None);
    assert_eq!(parse_number("++1"), None);
    assert_eq!(parse_number("\u{0661}"), None);
}

#[test]
fn parse_number_agrees_with_std_at_the_limit() {
    let max = usize::MAX.to_string();
    assert_eq!(parse_number(&max), Some(usize::MAX));
    let over = format!("{}0", max);
    assert_eq!(parse_number(&over), None);
    let next = (usize::MAX as u128 + 1).to_string();
    assert_eq!(parse_number(&next), None);
    for text in ["18446744073709551615", "18446744073709551616", "99999999999999999999"] {
        assert_eq!(parse_number(text), text.parse::<usize>().ok());
    }
}

#[test]
fn decimal_writes_numbers_as_std_does() {
    for n in [0u128, 1, 9, 10, 11, 99, 100, 120, 360, 76414, u64::MAX as u128, u128::MAX] {
        assert_eq!(decimal(n), n.to_string());
    }
}

#[test]
fn decimal_and_parse_number_round_trip() {
    for n in [0usize, 7, 10, 1090, 123456789] {
        assert_eq!(parse_number(&decimal(n as u128)), Some(n));
    }
}

#[test]
fn trim_removes_white_space_at_both_ends_only() {
    assert_eq!(trim("  In corso \n"), "In corso");
    assert_eq!(trim("Toei Animation"), "Toei Animation");
    assert_eq!(trim(" \t\n"), "");
    assert_eq!(trim(""), "");
    assert_eq!(trim("\u{00a0}x\u{3000}"), "x");
    for text in [" a b ", "a", "  ", "\u{2003}é \u{2003}"] {
        assert_eq!(trim(text), text.trim());
    }
}

#[test]
fn numeric_part_keeps_the_numeric_characters() {
    assert_eq!(numeric_part("/anime/12-one-piece"), "12");
    assert_eq!(numeric_part("/anime/4321-86-eighty-six"), "432186");
    assert_eq!(numeric_part("none"), "");
    assert_eq!(numeric_part("a\u{0661}b\u{00bd}"), "\u{0661}\u{00bd}");
}

#[test]
fn join_and_concat_all_put_texts_together() {
    assert_eq!(join("https://animeworld.so", "/play/x"), "https://animeworld.so/play/x");
    assert_eq!(join("", ""), "");
    assert_eq!(concat_all(&vec!["a".to_string(), "".to_string(), "bc".to_string()]), "abc");
    assert_eq!(concat_all(&Vec::new()), "");
}

#[test]
fn same_text_compares_character_by_character() {
    assert!(same_text("In corso", "In corso"));
    assert!(!same_text("In corso", "In Corso"));
    assert!(!same_text("In corso", "In corso "));
}

#[test]
fn is_wanted_includes_both_ends() {
    let range = Some(1090..=1092);
    assert!(!is_wanted(&range, 1089));
    assert!(is_wanted(&range, 1090));
    assert!(is_wanted(&range, 1091));
    assert!(is_wanted(&range, 1092));
    assert!(!is_wanted(&range, 1093));
    assert!(is_wanted(&None, 0));
    assert!(is_wanted(&None, usize::MAX));
    assert!(!is_wanted(&Some(5..=4), 4));
    assert!(!is_wanted(&Some(5..=4), 5));
}

#[test]
fn keep_wanted_filters_by_number_and_keeps_order() {
    let episodes = vec![
        Episode::new(3, "c".to_string()),
        Episode::new(1, "a".to_string()),
        Episode::new(2, "b".to_string()),
        Episode::new(3, "c2".to_string()),
        Episode::new(4, "d".to_string()),
    ];
    let kept = keep_wanted(&episodes, &Some(2..=3));
    let ids: Vec<&str> = kept.iter().map(|e| e.get_episode_id().as_str()).collect();
    assert_eq!(ids, vec!["c", "b", "c2"]);
    let numbers: Vec<usize> = kept.iter().map(|e| e.get_number()).collect();
    assert_eq!(numbers, vec![3, 2, 3]);
}

#[test]
fn keep_wanted_without_range_keeps_everything() {
    let episodes = vec![
        Episode::new(3, "c".to_string()),
        Episode::new(1, "a".to_string()),
        Episode::new(3, "c".to_string()),
    ];
    let kept = keep_wanted(&episodes, &None);
    let pairs: Vec<(usize, &str)> =
        kept.iter().map(|e| (e.get_number(), e.get_episode_id().as_str())).collect();
    assert_eq!(pairs, vec![(3, "c"), (1, "a"), (3, "c")]);
    assert!(keep_wanted(&Vec::new(), &None).is_empty());
}

#[test]
fn chars_of_lists_the_characters() {
    assert_eq!(chars_of("aé\u{3042}"), vec!['a', 'é', '\u{3042}']);
    assert!(chars_of("").is_empty());
}

#[test]
fn split_cuts_at_each_separator() {
    assert_eq!(split("Azione, Avventura", ","), vec!["Azione".to_string(), " Avventura".to_string()]);
    assert_eq!(
        split("{id:1},{id:2},{id:3}", "},{"),
        vec!["{id:1".to_string(), "id:2".to_string(), "id:3}".to_string()]
    );
    assert_eq!(split("", ","), vec!["".to_string()]);
    assert_eq!(split("abc", ","), vec!["abc".to_string()]);
    assert_eq!(split(",", ","), vec!["".to_string(), "".to_string()]);
    assert_eq!(split("aaa", "aa"), vec!["".to_string(), "a".to_string()]);
    assert_eq!(split("abc", ""), vec!["abc".to_string()]);
}

#[test]
fn split_agrees_with_std_for_a_separator_that_is_not_empty() {
    let texts = ["", "a", ",", ",,", "a,b", "a,,b,", ",a", "aaaa", "abab", "é,ü", "},{},{"];
    let separators = [",", "a", "aa", "ab", "},{", "é", "abc"];
    for text in texts {
        for separator in separators {
            let expected: Vec<String> = text.split(separator).map(|p| p.to_string()).collect();
            assert_eq!(split(text, separator), expected);
        }
    }
}

#[test]
fn replace_agrees_with_std_for_a_pattern_that_is_not_empty() {
    assert_eq!(replace("episodes:[{id:1}", "episodes:[", ""), "{id:1}");
    assert_eq!(replace("abc", "episodes:[", ""), "abc");
    assert_eq!(replace("abc", "", "x"), "abc");
    let texts = ["", "a", "aaa", "abab", "a,b,,c", "xépisodesé"];
    for text in texts {
        for from in ["a", "aa", "ab", ",", "é"] {
            for to in ["", "x", "aa"] {
                assert_eq!(replace(text, from, to), text.replace(from, to));
            }
        }
    }
}

#[test]
fn join_all_puts_the_separator_between_texts() {
    assert_eq!(join_all(&vec!["a".to_string(), "b".to_string(), "".to_string()], ", "), "a, b, ");
    assert_eq!(join_all(&vec!["a".to_string()], ", "), "a");
    assert_eq!(join_all(&Vec::new(), ", "), "");
    for text in ["", "a,b", ",a,,b,"] {
        assert_eq!(join_all(&split(text, ","), ","), text);
    }
}
