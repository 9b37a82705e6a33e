//! The blacklist of window titles.

use screen_edge::blacklist::{default_blacklist, in_blacklist, Blacklist};

const DEFAULT_TITLE: &str = "PUBG\u{ff1a}\u{7edd}\u{5730}\u{6c42}\u{751f} ";

#[test]
fn the_default_blacklist_holds_one_title() {
    let blacklist = default_blacklist();
    assert_eq!(blacklist.len(), 1);
    assert!(blacklist.contains(DEFAULT_TITLE));
    assert!(in_blacklist(&blacklist, Some(DEFAULT_TITLE)));
}

#[test]
fn a_title_has_to_match_exactly() {
    let blacklist = default_blacklist();
    assert!(!in_blacklist(&blacklist, Some(DEFAULT_TITLE.trim_end())));
    assert!(!in_blacklist(&blacklist, Some("PUBG")));
    assert!(!in_blacklist(&blacklist, Some("")));
    assert!(!in_blacklist(&blacklist, Some("pubg\u{ff1a}\u{7edd}\u{5730}\u{6c42}\u{751f} ")));
    assert!(!in_blacklist(&blacklist, Some("PUBG:\u{7edd}\u{5730}\u{6c42}\u{751f} ")));
}

#[test]
fn an_unknown_window_is_not_blacklisted() {
    assert!(!in_blacklist(&default_blacklist(), None));
    assert!(!in_blacklist(&Blacklist::new(), None));
}

#[test]
fn an_empty_blacklist_blocks_nothing() {
    let blacklist = Blacklist::new();
    assert_eq!(blacklist.len(), 0);
    assert!(!in_blacklist(&blacklist, Some(DEFAULT_TITLE)));
    assert!(!in_blacklist(&blacklist, Some("")));
}

#[test]
fn added_titles_are_blacklisted() {
    let mut blacklist = Blacklist::new();
    blacklist.add("Editor");
    blacklist.add("");
    blacklist.add("Game \u{2014} Level 1");
    assert_eq!(blacklist.len(), 3);
    assert!(in_blacklist(&blacklist, Some("Editor")));
    assert!(in_blacklist(&blacklist, Some("")));
    assert!(in_blacklist(&blacklist, Some("Game \u{2014} Level 1")));
    assert!(!in_blacklist(&blacklist, Some("editor")));
    assert!(!in_blacklist(&blacklist, Some("Editor ")));
    assert!(!in_blacklist(&blacklist, Some("Game - Level 1")));
}
