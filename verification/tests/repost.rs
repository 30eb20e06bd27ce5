use tweetboat::cache::{CacheEntry, SeenCache};
use tweetboat::repost::{
    add_repost_count, add_repost_counts, check_repost, find_urls, record_urls, repost_note,
    urls_from, URL_GROUP, URL_REGEX,
};
use tweetboat::text::{chars_of, contains_text, decimal_text, find_char, part_of};

const LINK: &str = "[`Tweet`](https://vxtwitter.com/a) ";
const URL: &str = "https://vxtwitter.com/a";

#[test]
fn decimal_text_writes_numbers() {
    assert_eq!(decimal_text(0), "0");
    assert_eq!(decimal_text(7), "7");
    assert_eq!(decimal_text(10), "10");
    assert_eq!(decimal_text(1234567890), "1234567890");
    assert_eq!(decimal_text(usize::MAX), usize::MAX.to_string());
}

#[test]
fn text_helpers_work_on_characters() {
    assert_eq!(chars_of("aé?"), vec!['a', 'é', '?']);
    assert_eq!(chars_of(""), Vec::<char>::new());
    let chars = chars_of("a&b&c");
    assert_eq!(find_char(&chars, '&', 0, 5), 1);
    assert_eq!(find_char(&chars, '&', 2, 5), 3);
    assert_eq!(find_char(&chars, '&', 4, 5), 5);
    assert_eq!(find_char(&chars, '&', 0, 1), 1);
    assert_eq!(find_char(&chars, 'x', 0, 5), 5);
    assert_eq!(part_of("aé?b", 1, 3), "é?");
    assert_eq!(part_of("aé?b", 2, 2), "");
    let list = vec!["s".to_string(), "t".to_string()];
    assert!(contains_text(&list, &"t".to_string()));
    assert!(!contains_text(&list, &"u".to_string()));
    assert!(!contains_text(&Vec::new(), &"u".to_string()));
}

#[test]
fn url_pattern_names_its_group() {
    assert_eq!(URL_REGEX, "\\[`\\w+`\\]\\((?P<url>.+)\\)");
    assert_eq!(URL_GROUP, "url");
}

#[test]
fn find_urls_gives_the_addresses() {
    assert_eq!(find_urls(LINK), vec![URL.to_string()]);
    assert_eq!(find_urls("no link"), Vec::<String>::new());
    assert_eq!(find_urls(""), Vec::<String>::new());
    assert_eq!(
        find_urls("[`A`](one)\n[`B`](two)"),
        vec!["one".to_string(), "two".to_string()]
    );
    // a line is searched to its last closing bracket
    assert_eq!(find_urls("[`A`](one) [`B`](two)"), vec!["one) [`B`](two".to_string()]);
}

#[test]
fn urls_from_leaves_out_what_is_missing() {
    assert_eq!(
        urls_from(&vec![Some("a".to_string()), None, Some("b".to_string()), None]),
        vec!["a".to_string(), "b".to_string()]
    );
    assert_eq!(urls_from(&vec![None]), Vec::<String>::new());
}

#[test]
fn repost_note_names_the_count() {
    assert_eq!(repost_note("[`T`](u)", 3), "[`T`](u) Posted 3 time(s) ");
    assert_eq!(repost_note("", 12), " Posted 12 time(s) ");
}

#[test]
fn add_repost_count_marks_the_first_link() {
    assert_eq!(
        add_repost_count(LINK, 3),
        "[`Tweet`](https://vxtwitter.com/a) Posted 3 time(s)  "
    );
    assert_eq!(
        add_repost_count("x [`A`](one)\n[`B`](two)", 10),
        "x [`A`](one) Posted 10 time(s) \n[`B`](two)"
    );
    assert_eq!(add_repost_count("no link", 3), "no link");
}

#[test]
fn first_sighting_is_remembered_without_a_note() {
    let mut seen = SeenCache::with_capacity(3);
    assert_eq!(add_repost_counts(&mut seen, 100, LINK), None);
    assert_eq!(seen.get_entry(100), Some(&CacheEntry::Filled(URL.to_string())));
    assert_eq!(check_repost(&seen, URL), 1);
    assert_eq!(seen.len(), 1);
}

#[test]
fn later_sightings_are_counted() {
    let mut seen = SeenCache::with_capacity(3);
    assert_eq!(add_repost_counts(&mut seen, 100, LINK), None);
    assert_eq!(
        add_repost_counts(&mut seen, 101, LINK),
        Some("[`Tweet`](https://vxtwitter.com/a) Posted 1 time(s)  ".to_string())
    );
    assert_eq!(
        add_repost_counts(&mut seen, 102, LINK),
        Some("[`Tweet`](https://vxtwitter.com/a) Posted 2 time(s)  ".to_string())
    );
    assert_eq!(check_repost(&seen, URL), 3);
}

#[test]
fn known_reply_keeps_its_text() {
    let mut seen = SeenCache::with_capacity(3);
    assert_eq!(add_repost_counts(&mut seen, 100, LINK), None);
    assert_eq!(add_repost_counts(&mut seen, 100, LINK), Some(LINK.to_string()));
    assert_eq!(add_repost_counts(&mut seen, 100, "other"), Some("other".to_string()));
    assert_eq!(check_repost(&seen, URL), 1);
    assert_eq!(seen.len(), 1);
}

#[test]
fn text_without_link_leaves_the_cache_alone() {
    let mut seen = SeenCache::with_capacity(3);
    assert_eq!(add_repost_counts(&mut seen, 100, "no link"), None);
    assert_eq!(seen.len(), 0);
    assert_eq!(seen.get_entry(100), None);
}

#[test]
fn only_the_first_address_of_a_reply_is_remembered() {
    let mut seen = SeenCache::with_capacity(3);
    let urls = vec!["one".to_string(), "two".to_string()];
    assert_eq!(record_urls(&mut seen, 100, "[`A`](one)\n[`B`](two)", &urls), None);
    assert_eq!(seen.get_entry(100), Some(&CacheEntry::Filled("one".to_string())));
    assert_eq!(check_repost(&seen, "one"), 1);
    assert_eq!(check_repost(&seen, "two"), 0);
    assert_eq!(seen.len(), 1);
}

#[test]
fn seen_cache_without_room_remembers_nothing() {
    let mut seen = SeenCache::with_capacity(0);
    assert_eq!(add_repost_counts(&mut seen, 100, LINK), None);
    assert_eq!(add_repost_counts(&mut seen, 101, LINK), None);
    assert_eq!(seen.len(), 0);
}

#[test]
fn full_seen_cache_forgets_the_oldest_reply() {
    let mut seen = SeenCache::with_capacity(2);
    assert_eq!(add_repost_counts(&mut seen, 1, LINK), None);
    assert_eq!(add_repost_counts(&mut seen, 2, "[`A`](other)"), None);
    assert_eq!(add_repost_counts(&mut seen, 3, "[`A`](third)"), None);
    assert_eq!(seen.get_entry(1), None);
    assert_eq!(check_repost(&seen, URL), 0);
    assert_eq!(add_repost_counts(&mut seen, 4, LINK), None);
}
