use game_handler::date::Date;
use game_handler::format::{
    duration_to_string, game_file_name, make_path_proof, parse_isize, signed_to_string,
    unsigned_to_string,
};
use game_handler::order::{insert_sorted, sorted_unique, text_before};
use game_handler::paths::{after_last, file_stem, find_last, join_path};
use game_handler::screens::{GridStatus, ThemeType};
use game_handler::text::{copy_texts, from_chars, join_texts, same_text, to_chars};

fn text(s: &str) -> String {
    s.to_string()
}

fn texts(items: &[&str]) -> Vec<String> {
    items.iter().map(|s| s.to_string()).collect()
}

#[test]
fn numbers_are_written_in_decimal() {
    assert_eq!(unsigned_to_string(0), "0");
    assert_eq!(unsigned_to_string(7), "7");
    assert_eq!(unsigned_to_string(10), "10");
    assert_eq!(unsigned_to_string(1234567890), "1234567890");
    assert_eq!(unsigned_to_string(u64::MAX), "18446744073709551615");
    assert_eq!(signed_to_string(0), "0");
    assert_eq!(signed_to_string(-1), "-1");
    assert_eq!(signed_to_string(305), "305");
    assert_eq!(signed_to_string(i64::MIN), "-9223372036854775808");
    assert_eq!(signed_to_string(i64::MAX), "9223372036854775807");
}

#[test]
fn play_time_is_given_in_hours_and_minutes() {
    assert_eq!(duration_to_string(0), "0 hours 0 minutes");
    assert_eq!(duration_to_string(59), "0 hours 0 minutes");
    assert_eq!(duration_to_string(60), "0 hours 1 minutes");
    assert_eq!(duration_to_string(3599), "0 hours 59 minutes");
    assert_eq!(duration_to_string(3600), "1 hours 0 minutes");
    assert_eq!(duration_to_string(3 * 3600 + 25 * 60 + 59), "3 hours 25 minutes");
    assert_eq!(duration_to_string(100 * 3600 + 60), "100 hours 1 minutes");
    assert_eq!(duration_to_string(u64::MAX), "5124095576030431 hours 0 minutes");
}

#[test]
fn names_are_made_fit_for_file_names() {
    assert_eq!(make_path_proof(text("Half-Life 2: Episode One")), "halflife_2_episode_one");
    assert_eq!(make_path_proof(text("  spaced\tout\n")), "__spaced_out_");
    assert_eq!(make_path_proof(text("ÉCOLE école 42")), "cole_cole_42");
    assert_eq!(make_path_proof(text("UPPER lower 0123456789")), "upper_lower_0123456789");
    assert_eq!(make_path_proof(text("a\u{a0}b\u{2003}c\u{3000}d\u{85}e")), "a_b_c_d_e");
    assert_eq!(make_path_proof(text("a\u{200b}b_c-d.e/f")), "abcdef");
    assert_eq!(make_path_proof(text("@[`{")), "");
    assert_eq!(make_path_proof(String::new()), "");
}

#[test]
fn dates_are_worded_as_far_as_they_are_known() {
    assert_eq!(Date::new(Some(1998), Some(11), Some(19)).to_string(), "19 November 1998");
    assert_eq!(Date::new(Some(2004), Some(1), None).to_string(), "January 2004");
    assert_eq!(Date::new(Some(2020), None, None).to_string(), "2020");
    assert_eq!(Date::new(Some(2020), None, Some(3)).to_string(), "2020");
    assert_eq!(Date::new(None, Some(5), Some(3)).to_string(), "Unknown");
    assert_eq!(Date::new(None, None, None).to_string(), "Unknown");
    assert_eq!(Date::new(Some(-44), Some(3), Some(15)).to_string(), "15 March -44");
    assert_eq!(Date::new(Some(1), Some(0), Some(1)).to_string(), "1 Invalid 1");
    assert_eq!(Date::new(Some(1), Some(13), None).to_string(), "Invalid 1");
    assert_eq!(Date::new(Some(0), Some(12), Some(255)).to_string(), "255 December 0");
    let names = [
        "January",
        "February",
        "March",
        "April",
        "May",
        "June",
        "July",
        "August",
        "September",
        "October",
        "November",
        "December",
    ];
    for (i, name) in names.iter().enumerate() {
        let date = Date { year: Some(2000), month: Some(i as u8 + 1), day: None };
        assert_eq!(date.to_string(), format!("{} 2000", name));
    }
}

#[test]
fn screens_are_numbered_in_their_order() {
    assert_eq!(GridStatus::try_from(0), Ok(GridStatus::GamesGrid));
    assert_eq!(GridStatus::try_from(1), Ok(GridStatus::GlobalSettings));
    assert_eq!(GridStatus::try_from(2), Ok(GridStatus::AddGame));
    assert_eq!(GridStatus::try_from(3), Ok(GridStatus::GamesSettings));
    assert_eq!(GridStatus::try_from(4), Ok(GridStatus::Logs));
    assert_eq!(GridStatus::try_from(5), Err(()));
    assert_eq!(GridStatus::try_from(usize::MAX), Err(()));
    for n in 0..5 {
        assert_eq!(GridStatus::try_from(n).unwrap().index(), n);
    }
    assert_ne!(ThemeType::Light, ThemeType::Dark);
}

#[test]
fn output_on_screen_is_polled_faster() {
    assert_eq!(GridStatus::Logs.poll_interval_ms(), 17);
    assert_eq!(GridStatus::GamesGrid.poll_interval_ms(), 1000);
    assert_eq!(GridStatus::GlobalSettings.poll_interval_ms(), 1000);
    assert_eq!(GridStatus::AddGame.poll_interval_ms(), 1000);
    assert_eq!(GridStatus::GamesSettings.poll_interval_ms(), 1000);
}

#[test]
fn texts_are_ordered_by_code_point() {
    assert!(text_before("a", "b"));
    assert!(!text_before("b", "a"));
    assert!(!text_before("a", "a"));
    assert!(text_before("", "a"));
    assert!(!text_before("a", ""));
    assert!(!text_before("", ""));
    assert!(text_before("a", "ab"));
    assert!(!text_before("ab", "a"));
    assert!(text_before("B", "a"));
    assert!(text_before("abc", "abd"));
    assert!(text_before("z", "é"));
    assert!(text_before("é", "日本"));
    assert!(text_before("日本", "😀"));
    let samples = ["", "a", "ab", "B", "é", "z", "日本", "😀", "a\u{0}", "\u{ffff}", "\u{10000}"];
    for x in samples {
        for y in samples {
            assert_eq!(text_before(x, y), x < y, "{:?} against {:?}", x, y);
        }
    }
}

#[test]
fn a_sorted_list_takes_each_text_once() {
    let mut list: Vec<String> = Vec::new();
    for name in ["m", "c", "x", "c", "a", "m", "z", "a"] {
        insert_sorted(&mut list, text(name));
    }
    assert_eq!(list, texts(&["a", "c", "m", "x", "z"]));
    assert_eq!(sorted_unique(&texts(&["b", "a", "b", "", "a", "C"])), texts(&["", "C", "a", "b"]));
    assert!(sorted_unique(&Vec::new()).is_empty());
    let mut expected = texts(&["delta", "alpha", "charlie", "bravo", "alpha", "echo", "bravo"]);
    let got = sorted_unique(&expected);
    expected.sort();
    expected.dedup();
    assert_eq!(got, expected);
}

#[test]
fn paths_are_joined_with_one_separator() {
    assert_eq!(join_path("/a", "b"), "/a/b");
    assert_eq!(join_path("/a/", "b"), "/a/b");
    assert_eq!(join_path("", "b"), "b");
    assert_eq!(join_path("/a", ""), "/a/");
    assert_eq!(join_path("/a", "/b"), "/b");
    assert_eq!(join_path("a/b", "c/d"), "a/b/c/d");
    assert_eq!(join_path("/", "x"), "/x");
    for (base, name) in [("/a", "b"), ("/a/", "b"), ("", "b"), ("/a", ""), ("/a", "/b"), ("x", "y")] {
        let expected = std::path::Path::new(base).join(name);
        assert_eq!(join_path(base, name), expected.to_str().unwrap());
    }
}

#[test]
fn a_stem_ends_before_the_last_dot() {
    assert_eq!(file_stem("d3d11.dll"), "d3d11");
    assert_eq!(file_stem("archive.tar.gz"), "archive.tar");
    assert_eq!(file_stem("noext"), "noext");
    assert_eq!(file_stem(".hidden"), ".hidden");
    assert_eq!(file_stem(".hidden.txt"), ".hidden");
    assert_eq!(file_stem("trailing."), "trailing");
    assert_eq!(file_stem(".."), "..");
    assert_eq!(file_stem("..."), "..");
    assert_eq!(file_stem("."), ".");
    assert_eq!(file_stem(""), "");
    assert_eq!(file_stem("é.dll"), "é");
    for name in ["d3d11.dll", "archive.tar.gz", "noext", ".hidden", ".hidden.txt", "trailing.", "a.b.c"] {
        let expected = std::path::Path::new(name).with_extension("");
        assert_eq!(file_stem(name), expected.file_name().unwrap().to_str().unwrap());
    }
}

#[test]
fn the_last_part_follows_the_last_colon() {
    assert_eq!(after_last("wine:path_to_wine", ':'), "path_to_wine");
    assert_eq!(after_last("launcher:launcher", ':'), "launcher");
    assert_eq!(after_last("metadata", ':'), "metadata");
    assert_eq!(after_last("a:b:c", ':'), "c");
    assert_eq!(after_last("tail:", ':'), "");
    assert_eq!(after_last(":", ':'), "");
    assert_eq!(after_last("", ':'), "");
    assert_eq!(after_last("é:è", ':'), "è");
    assert_eq!(find_last(&vec!['a', ':', 'b', ':'], ':'), Some(3));
    assert_eq!(find_last(&vec!['a', 'b'], ':'), None);
    assert_eq!(find_last(&Vec::new(), ':'), None);
}

#[test]
fn texts_are_taken_apart_and_put_together() {
    assert_eq!(to_chars("héllo"), vec!['h', 'é', 'l', 'l', 'o']);
    assert!(to_chars("").is_empty());
    assert_eq!(from_chars(&vec!['h', 'é', 'l', 'l', 'o']), "héllo");
    assert_eq!(from_chars(&Vec::new()), "");
    assert_eq!(from_chars(&to_chars("日本語 😀")), "日本語 😀");
    assert!(same_text("abc", "abc"));
    assert!(!same_text("abc", "abd"));
    assert!(!same_text("abc", "ab"));
    assert!(same_text("", ""));
    assert_eq!(copy_texts(&texts(&["a", "", "b"])), texts(&["a", "", "b"]));
    assert_eq!(join_texts(&texts(&["a", "b", "c"]), ","), "a,b,c");
    assert_eq!(join_texts(&texts(&["a"]), ","), "a");
    assert_eq!(join_texts(&Vec::new(), ","), "");
    assert_eq!(join_texts(&texts(&["", ""]), ";"), ";");
    assert_eq!(join_texts(&texts(&["a", "b"]), ""), "ab");
    assert_eq!(join_texts(&texts(&["a", "b"]), ", "), "a, b");
}

#[test]
fn whole_numbers_are_read_from_text() {
    assert_eq!(parse_isize("0"), Some(0));
    assert_eq!(parse_isize("1998"), Some(1998));
    assert_eq!(parse_isize("+7"), Some(7));
    assert_eq!(parse_isize("-7"), Some(-7));
    assert_eq!(parse_isize("-0"), Some(0));
    assert_eq!(parse_isize("007"), Some(7));
    assert_eq!(parse_isize(""), None);
    assert_eq!(parse_isize("+"), None);
    assert_eq!(parse_isize("-"), None);
    assert_eq!(parse_isize("12a"), None);
    assert_eq!(parse_isize("9223372036854775807"), Some(isize::MAX));
    assert_eq!(parse_isize("-9223372036854775808"), Some(isize::MIN));
    assert_eq!(parse_isize("9223372036854775808"), None);
    assert_eq!(parse_isize("-9223372036854775809"), None);
    let samples = [
        "",
        "+",
        "-",
        "0",
        "+0",
        "-0",
        "00",
        "007",
        "-007",
        "42",
        "+42",
        "-42",
        "--1",
        "+-1",
        "-+1",
        "1-",
        "1+1",
        " 1",
        "1 ",
        "1_000",
        "1e3",
        "1.0",
        "0x10",
        "a",
        "٣",
        "１２",
        "9223372036854775806",
        "9223372036854775807",
        "9223372036854775808",
        "+9223372036854775807",
        "+9223372036854775808",
        "-9223372036854775807",
        "-9223372036854775808",
        "-9223372036854775809",
        "18446744073709551615",
        "18446744073709551616",
        "99999999999999999999999999999999999999999999999999",
        "-99999999999999999999999999999999999999999999999999",
        "00000000000000000000000000000000000000000000000001",
        "340282366920938463463374607431768211456",
        "9999999999999999999x",
        "99999999999999999999999999999x9",
    ];
    for text in samples {
        assert_eq!(parse_isize(text), text.parse::<isize>().ok(), "reading {:?}", text);
    }
}

#[test]
fn a_new_game_gets_a_file_of_its_own() {
    assert_eq!(game_file_name(0, text("Half-Life 2")), "0halflife_2.toml");
    assert_eq!(game_file_name(65535, text("Tetris")), "65535tetris.toml");
    assert_eq!(game_file_name(42, String::new()), "42.toml");
    assert_eq!(game_file_name(7, text("../../etc/passwd")), "7etcpasswd.toml");
}
