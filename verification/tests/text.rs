use sonos_gateway::text::chars_of;
use sonos_gateway::text::find;
use sonos_gateway::text::same_text;

fn chars(s: &str) -> Vec<char> {
    s.chars().collect()
}

#[test]
fn characters_come_out_in_order() {
    assert_eq!(chars_of(""), Vec::<char>::new());
    assert_eq!(chars_of("a/b"), vec!['a', '/', 'b']);
    assert_eq!(chars_of("K\u{fc}che"), vec!['K', '\u{fc}', 'c', 'h', 'e']);
}

#[test]
fn texts_are_compared_by_their_characters() {
    assert!(same_text("PLAYING", "PLAYING"));
    assert!(same_text("", ""));
    assert!(!same_text("PLAYING", "PLAYIN"));
    assert!(!same_text("PLAYING", "playing"));
    assert!(!same_text("PLAYING", "PLAYINGS"));
    assert!(same_text("K\u{fc}che", "K\u{fc}che"));
    assert!(!same_text("K\u{fc}che", "Kuche"));
}

#[test]
fn the_first_occurrence_is_found() {
    let s = chars("a/audio/b/audio/c");
    let pat = chars("/audio/");
    assert_eq!(find(&s, &pat, 0), Some(1));
    assert_eq!(find(&s, &pat, 1), Some(1));
    assert_eq!(find(&s, &pat, 2), Some(9));
    assert_eq!(find(&s, &pat, 8), Some(9));
    assert_eq!(find(&s, &pat, 10), None);
    assert_eq!(find(&s, &pat, 100), None);
}

#[test]
fn a_pattern_at_the_very_end_is_found() {
    let s = chars("xx/audio/");
    let pat = chars("/audio/");
    assert_eq!(find(&s, &pat, 0), Some(2));
    assert_eq!(find(&s, &pat, 2), Some(2));
    assert_eq!(find(&s, &pat, 3), None);
}

#[test]
fn a_pattern_longer_than_the_text_is_not_found() {
    let s = chars("/audio");
    let pat = chars("/audio/");
    assert_eq!(find(&s, &pat, 0), None);
}

#[test]
fn the_empty_pattern_stands_everywhere() {
    let s = chars("ab");
    let pat = chars("");
    assert_eq!(find(&s, &pat, 0), Some(0));
    assert_eq!(find(&s, &pat, 2), Some(2));
    assert_eq!(find(&s, &pat, 3), None);
}

#[test]
fn occurrences_may_overlap_the_start_of_a_failed_match() {
    let s = chars("aaab");
    let pat = chars("aab");
    assert_eq!(find(&s, &pat, 0), Some(1));
}
