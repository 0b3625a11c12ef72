use nextui_updater::files::{current_sha, font_path, settings_path, version_path};
use nextui_updater::text::{characters, concat3, contains, nth_line, same_text, starts_with};

#[test]
fn finds_a_substring_wherever_it_stands() {
    assert!(contains("NextUI-20250401-0-base.zip", "base"));
    assert!(contains("base", "base"));
    assert!(contains("xbas-base", "base"));
    assert!(contains("anything", ""));
    assert!(contains("", ""));
    assert!(contains("grüße-all", "ße-a"));
    assert!(!contains("NextUI-20250401-0-all.zip", "base"));
    assert!(!contains("bas", "base"));
    assert!(!contains("", "base"));
    assert!(!contains("BASE", "base"));
}

#[test]
fn agrees_with_the_standard_library_on_substrings() {
    let texts = ["", "a", "aa", "ab", "aba", "abab", "baab", "font=1", "font=11\nx"];
    for text in texts {
        for pattern in texts {
            assert_eq!(contains(text, pattern), text.contains(pattern));
            assert_eq!(starts_with(text, pattern), text.starts_with(pattern));
            assert_eq!(same_text(text, pattern), text == pattern);
        }
    }
}

#[test]
fn agrees_with_the_standard_library_on_lines() {
    let texts = [
        "", "\n", "\r\n", "a", "a\r", "a\n", "a\r\n", "a\nb", "a\n\nb", "\na", "a\r\nb\r\nc",
        "a\n\r\nb", "a\r\rb\n", "a\nb\r", "zeile ä\nzeile ö\n",
    ];
    for text in texts {
        for number in 0..5 {
            assert_eq!(nth_line(text, number).as_deref(), text.lines().nth(number));
        }
    }
}

#[test]
fn splits_and_joins_characters() {
    assert_eq!(characters("aé✓"), vec!['a', 'é', '✓']);
    assert_eq!(concat3("a", "", "b"), "ab");
}

#[test]
fn reads_the_installed_version_from_the_second_line() {
    assert_eq!(current_sha("20250401\nabc1234\n"), Some("abc1234".to_string()));
    assert_eq!(current_sha("20250401\r\nabc1234\r\n"), Some("abc1234".to_string()));
    assert_eq!(current_sha("20250401\nabc1234\nmore\n"), Some("abc1234".to_string()));
    assert_eq!(current_sha("20250401\n"), None);
    assert_eq!(current_sha(""), None);
}

#[test]
fn chooses_the_font_that_the_settings_ask_for() {
    let first = "/mnt/SDCARD/.system/res/BPreplayBold-unhinted.otf";
    let second = "/mnt/SDCARD/.system/res/chillroundm.ttf";
    assert_eq!(font_path(None), first);
    assert_eq!(font_path(Some("color1=0xffffff\nfont=0\n")), first);
    assert_eq!(font_path(Some("color1=0xffffff\nfont=1\n")), second);
}

#[test]
fn names_the_files_on_the_card() {
    assert_eq!(version_path(), "/mnt/SDCARD/.system/version.txt");
    assert_eq!(settings_path(), "/mnt/SDCARD/.userdata/shared/minuisettings.txt");
}
