use xees::probe::probe_reports_locked;
use xees::probe::should_deactivate;
use xees::text::str_contains;
use xees::text::str_eq;

#[test]
fn locked_report_line_means_locked() {
    let line = "XScreenSaver 5.40: screen locked since Tue Dec  4 11:38:46 2018 (hack #212)";
    assert!(probe_reports_locked(line));
}

#[test]
fn non_blanked_report_line_means_unlocked() {
    let line = "XScreenSaver 5.40: screen non-blanked since Tue Dec  4 11:15:28 2018 (hack #154)";
    assert!(!probe_reports_locked(line));
}

#[test]
fn empty_output_means_unlocked() {
    assert!(!probe_reports_locked(""));
}

#[test]
fn bare_phrase_means_locked() {
    assert!(probe_reports_locked("screen locked"));
}

#[test]
fn phrase_split_across_words_means_unlocked() {
    assert!(!probe_reports_locked("screen is locked"));
    assert!(!probe_reports_locked("screenlocked"));
}

#[test]
fn locked_screen_is_left_alone() {
    assert!(!should_deactivate(true));
}

#[test]
fn unlocked_screen_gets_the_deactivate_action() {
    assert!(should_deactivate(false));
}

#[test]
fn str_contains_finds_substrings() {
    assert!(str_contains("abcdef", "cde"));
    assert!(str_contains("abcdef", ""));
    assert!(str_contains("abcdef", "abcdef"));
    assert!(!str_contains("abcdef", "abcdefg"));
    assert!(!str_contains("abcdef", "ce"));
    assert!(str_contains("aaab", "aab"));
}

#[test]
fn str_contains_handles_non_ascii_text() {
    assert!(str_contains("écran verrouillé", "verrouillé"));
    assert!(!str_contains("écran verrouillé", "screen locked"));
}

#[test]
fn str_eq_compares_characters() {
    assert!(str_eq("enable", "enable"));
    assert!(!str_eq("enable", "enabled"));
    assert!(!str_eq("enable", "Enable"));
    assert!(str_eq("", ""));
}
