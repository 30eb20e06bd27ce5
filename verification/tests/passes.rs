use tweetboat::fix::{fix, link_text, tweet_paths};
use tweetboat::pass::{
    classify_spoiler, filter_query, links_from, pass_regex, split_query, Pass, SpoilerTags,
};
use tweetboat::pattern::{fault, CompileError, LinkCapture, LinkPattern, PatternError};

fn names(list: &[&str]) -> Vec<String> {
    list.iter().map(|name| name.to_string()).collect()
}

fn tweet_pass(keep_query: Option<Vec<String>>) -> Pass {
    Pass::new("Tweet", "https://(?:x|twitter)\\.com", "https://vxtwitter.com", keep_query).unwrap()
}

#[test]
fn extract() {
    let link_regex =
        LinkPattern::new("(?:^|\\s)(\\|\\||)https://(?:x|twitter)\\.com(/\\S+)(\\s?\\|\\||)")
            .unwrap();

    let found = tweet_paths(
        "https://x.com/normal/x/link
                https://twitter.com/twitter/link
                ||https://twitter.com/a-spoiler||
                not even a link
                ||https://twitter.com/spoiler/with/space ||
                <https://twitter.com/embed-suppressed-link>",
        &link_regex,
    );
    assert_eq!(
        found.iter().map(|(path, tags)| (path.as_str(), *tags)).collect::<Vec<_>>(),
        vec![
            ("/normal/x/link", SpoilerTags::Absent),
            ("/twitter/link", SpoilerTags::Absent),
            ("/a-spoiler", SpoilerTags::Spoiler),
            ("/spoiler/with/space", SpoilerTags::Spoiler),
        ],
    );
}

#[test]
fn standard_passes() {
    let passes = vec![
        tweet_pass(None),
        Pass::new("Instagram", "https://(?:www\\.)?instagram\\.com", "https://ddinstagram.com", None)
            .unwrap(),
        Pass::new("TikTok", "https://(?:www\\.)?tiktok\\.com", "https://vxtiktok.com", None)
            .unwrap(),
    ];
    let found: Vec<(String, String, SpoilerTags)> = passes
        .iter()
        .flat_map(|pass| {
            pass.extract(
                "
                These are just some random test urls.
                - https://x.com/rustbeltenjoyer/status/1776056709737320578
                - ||https://www.instagram.com/p/C5W2QwZrt-Z/ ||
                - https://www.tiktok.com/t/ZPRTX3AwH/
            ",
            )
        })
        .collect();
    let mut extracted = found.iter().map(|(path, _query, tags)| (path.as_str(), *tags));

    // NOTE: emitted items are in order of extractor, not appearance

    assert_eq!(
        extracted.next(),
        Some(("/rustbeltenjoyer/status/1776056709737320578", SpoilerTags::Absent))
    );
    assert_eq!(extracted.next(), Some(("/p/C5W2QwZrt-Z/", SpoilerTags::Spoiler)));
    assert_eq!(extracted.next(), Some(("/t/ZPRTX3AwH/", SpoilerTags::Absent)));

    assert!(extracted.next().is_none());
    assert!(found.iter().all(|(_path, query, _tags)| query.is_empty()));
}

#[test]
fn spoiler_tags_follow_the_two_sides() {
    assert_eq!(classify_spoiler(false, false), SpoilerTags::Absent);
    assert_eq!(classify_spoiler(true, true), SpoilerTags::Spoiler);
    assert_eq!(classify_spoiler(true, false), SpoilerTags::Mismatched);
    assert_eq!(classify_spoiler(false, true), SpoilerTags::Mismatched);
}

#[test]
fn query_is_cut_at_the_first_question_mark() {
    assert_eq!(split_query("/a/b?s=20&t=x"), ("/a/b".to_string(), "s=20&t=x".to_string()));
    assert_eq!(split_query("/a/b"), ("/a/b".to_string(), String::new()));
    assert_eq!(split_query("/a?b?c"), ("/a".to_string(), "b?c".to_string()));
    assert_eq!(split_query("/a?"), ("/a".to_string(), String::new()));
    assert_eq!(split_query("?x"), (String::new(), "x".to_string()));
    assert_eq!(split_query(""), (String::new(), String::new()));
    assert_eq!(split_query("/é?ü=1"), ("/é".to_string(), "ü=1".to_string()));
}

#[test]
fn filter_query_keeps_the_named_parameters() {
    assert_eq!(filter_query("s=20&t=abc", &names(&["s"])), "?s=20");
    assert_eq!(filter_query("s=20&t=abc", &names(&["t"])), "?t=abc");
    assert_eq!(filter_query("s=20&t=abc", &names(&["t", "s"])), "?s=20&t=abc");
    assert_eq!(filter_query("s=20&t=abc", &names(&["u"])), "?");
    assert_eq!(filter_query("", &names(&["s"])), "?");
    assert_eq!(filter_query("s=20", &names(&[])), "?");
}

#[test]
fn filter_query_takes_the_last_value_at_the_first_place() {
    assert_eq!(filter_query("a=1&b=2&a=3&c&d=4", &names(&["a", "d"])), "?a=3&d=4");
    assert_eq!(filter_query("a=1&b=2&a=3", &names(&["a", "b"])), "?a=3&b=2");
}

#[test]
fn filter_query_cuts_a_parameter_at_its_first_equals_sign() {
    assert_eq!(filter_query("k=v=w", &names(&["k"])), "?k=v=w");
    assert_eq!(filter_query("=v&k=", &names(&["", "k"])), "?=v&k=");
    assert_eq!(filter_query("k&&k=1&", &names(&["k"])), "?k=1");
    assert_eq!(filter_query("ü=é&k=1", &names(&["ü"])), "?ü=é");
}

#[test]
fn links_are_made_from_the_three_groups() {
    let capture = |open: &str, path: &str, close: &str| LinkCapture {
        open: open.to_string(),
        path: path.to_string(),
        close: close.to_string(),
    };
    let found = vec![
        capture("", "/a?x=1", ""),
        capture("||", "/b", " ||"),
        capture("||", "/c", ""),
        capture("", "/d", "||"),
    ];
    assert_eq!(
        links_from(&found),
        vec![
            ("/a".to_string(), "x=1".to_string(), SpoilerTags::Absent),
            ("/b".to_string(), String::new(), SpoilerTags::Spoiler),
            ("/c".to_string(), String::new(), SpoilerTags::Mismatched),
            ("/d".to_string(), String::new(), SpoilerTags::Mismatched),
        ]
    );
    assert_eq!(links_from(&Vec::new()), Vec::new());
}

#[test]
fn extract_splits_path_and_query() {
    let pass = tweet_pass(None);
    assert_eq!(
        pass.extract("see https://x.com/a/b?s=20&t=abc and ||https://twitter.com/c ||"),
        vec![
            ("/a/b".to_string(), "s=20&t=abc".to_string(), SpoilerTags::Absent),
            ("/c".to_string(), String::new(), SpoilerTags::Spoiler),
        ]
    );
    assert_eq!(pass.extract("no link here"), Vec::new());
    assert_eq!(pass.extract("<https://x.com/a>"), Vec::new());
}

#[test]
fn extract_leaves_a_closing_tag_without_space_in_the_query() {
    let pass = tweet_pass(None);
    assert_eq!(
        pass.extract("||https://x.com/a/b?s=20||"),
        vec![("/a/b".to_string(), "s=20||".to_string(), SpoilerTags::Mismatched)]
    );
}

#[test]
fn apply_writes_masked_links() {
    let content = "https://x.com/a/b?s=20 and ||https://twitter.com/c ||";
    assert_eq!(
        tweet_pass(None).apply(content),
        Some(
            "[`Tweet`](https://vxtwitter.com/a/b?s=20) ||[`Tweet`](https://vxtwitter.com/c?) || "
                .to_string()
        )
    );
    assert_eq!(
        tweet_pass(Some(names(&["s"]))).apply(content),
        Some(
            "[`Tweet`](https://vxtwitter.com/a/b?s=20) ||[`Tweet`](https://vxtwitter.com/c?) || "
                .to_string()
        )
    );
    assert_eq!(
        tweet_pass(Some(names(&["t"]))).apply(content),
        Some(
            "[`Tweet`](https://vxtwitter.com/a/b?) ||[`Tweet`](https://vxtwitter.com/c?) || "
                .to_string()
        )
    );
    assert_eq!(
        tweet_pass(Some(Vec::new())).apply(content),
        Some(
            "[`Tweet`](https://vxtwitter.com/a/b) ||[`Tweet`](https://vxtwitter.com/c) || "
                .to_string()
        )
    );
    assert_eq!(tweet_pass(None).apply("nothing to see"), None);
    assert_eq!(tweet_pass(None).apply(""), None);
}

#[test]
fn apply_spoilers_a_link_with_one_tag() {
    assert_eq!(
        tweet_pass(Some(Vec::new())).apply("||https://x.com/a"),
        Some("||[`Tweet`](https://vxtwitter.com/a) || ".to_string())
    );
}

#[test]
fn query_string_follows_the_list_of_names() {
    assert_eq!(tweet_pass(None).query_string("a=1&b=2"), "?a=1&b=2");
    assert_eq!(tweet_pass(None).query_string(""), "?");
    assert_eq!(tweet_pass(Some(Vec::new())).query_string("a=1&b=2"), "");
    assert_eq!(tweet_pass(Some(names(&["b"]))).query_string("a=1&b=2"), "?b=2");
}

#[test]
fn render_of_no_links_is_nothing() {
    assert_eq!(tweet_pass(None).render(&Vec::new()), None);
    assert_eq!(
        tweet_pass(None).render(&vec![("/p".to_string(), "q".to_string(), SpoilerTags::Mismatched)]),
        Some("||[`Tweet`](https://vxtwitter.com/p?q) || ".to_string())
    );
}

#[test]
fn apply_all_joins_the_passes_in_their_order() {
    let passes = vec![
        Pass::new("Insta", "https://(?:www\\.)?instagram\\.com", "https://dd.example", Some(Vec::new()))
            .unwrap(),
        tweet_pass(Some(Vec::new())),
    ];
    let content = "https://x.com/one https://www.instagram.com/p/two/ https://example.com/three";
    assert_eq!(
        Pass::apply_all(&passes, content),
        Some("[`Insta`](https://dd.example/p/two/) [`Tweet`](https://vxtwitter.com/one) ".to_string())
    );
    assert_eq!(
        Pass::apply_all(&passes, "https://x.com/one"),
        Some("[`Tweet`](https://vxtwitter.com/one) ".to_string())
    );
    assert_eq!(Pass::apply_all(&passes, "https://example.com/three"), None);
    assert_eq!(Pass::apply_all(&[], "https://x.com/one"), None);
}

#[test]
fn pass_regex_pads_the_core() {
    let pattern = pass_regex("https://(?:x|twitter)\\.com").unwrap();
    assert_eq!(
        pattern.as_str(),
        "(?:^|\\s)(\\|\\||)https://(?:x|twitter)\\.com(/\\S+)(\\s?\\|\\||)"
    );
    let pass = tweet_pass(None);
    assert_eq!(pass.label, "Tweet");
    assert_eq!(pass.stem, "https://vxtwitter.com");
    assert_eq!(pass.keep_query, None);
    assert_eq!(pass.regex.as_str(), pattern.as_str());
}

#[test]
fn pattern_that_does_not_compile_is_refused() {
    assert!(matches!(
        pass_regex("https://(x").err(),
        Some(PatternError::Refused(CompileError::Syntax(_)))
    ));
    assert!(matches!(
        LinkPattern::new("(a").err(),
        Some(PatternError::Refused(CompileError::Syntax(_)))
    ));
    assert!(matches!(
        LinkPattern::new("(a)(b)(\\w{1000}){1000}").err(),
        Some(PatternError::Refused(CompileError::CompiledTooBig(_)))
    ));
    assert!(Pass::new("L", "(", "S", None).is_err());
}

#[test]
fn pattern_without_three_groups_is_refused() {
    assert_eq!(pass_regex("https://(x|twitter)\\.com").err(), Some(PatternError::Groups));
    assert_eq!(LinkPattern::new("(a)|b").err(), Some(PatternError::Groups));
    assert_eq!(LinkPattern::new("a").err(), Some(PatternError::Groups));
    assert_eq!(LinkPattern::new("(a)(b)").err(), Some(PatternError::Groups));
    assert!(LinkPattern::new("(a)(b)(c)").is_ok());
}

#[test]
fn fault_follows_the_outcome() {
    assert_eq!(fault(Ok(Some(4))), None);
    assert_eq!(fault(Ok(Some(3))), Some(PatternError::Groups));
    assert_eq!(fault(Ok(Some(5))), Some(PatternError::Groups));
    assert_eq!(fault(Ok(None)), Some(PatternError::Groups));
    assert_eq!(
        fault(Err(CompileError::Unknown)),
        Some(PatternError::Refused(CompileError::Unknown))
    );
    assert_eq!(
        fault(Err(CompileError::Syntax("bad".to_string()))),
        Some(PatternError::Refused(CompileError::Syntax("bad".to_string())))
    );
    assert_eq!(
        fault(Err(CompileError::CompiledTooBig(7))),
        Some(PatternError::Refused(CompileError::CompiledTooBig(7)))
    );
}

#[test]
fn errors_are_put_in_words() {
    assert_eq!(PatternError::Groups.describe(), "the pattern must not hold groups of its own");
    assert_eq!(
        PatternError::Refused(CompileError::Unknown).describe(),
        "the pattern was refused"
    );
    assert_eq!(
        PatternError::Refused(CompileError::CompiledTooBig(1024)).describe(),
        "Compiled regex exceeds size limit of 1024 bytes."
    );
    assert_eq!(PatternError::Refused(CompileError::Syntax("bad".to_string())).describe(), "bad");
    let error = LinkPattern::new("(a").err().unwrap();
    assert!(error.describe().contains("unclosed group"));
}

#[test]
fn captures_give_the_three_groups() {
    let pattern = LinkPattern::new("(a*)(b+)(c?)").unwrap();
    assert_eq!(
        pattern.captures("aab bc"),
        vec![
            LinkCapture { open: "aa".to_string(), path: "b".to_string(), close: String::new() },
            LinkCapture { open: String::new(), path: "b".to_string(), close: "c".to_string() },
        ]
    );
}

#[test]
fn fix_numbers_the_links() {
    let link_regex = pass_regex("https://(?:x|twitter)\\.com").unwrap();
    assert_eq!(
        fix("https://twitter.com/one and ||https://x.com/two||", &link_regex),
        Some(
            "[`Tweet #1`](https://vxtwitter.com/one)||[`Tweet #2`](https://vxtwitter.com/two)|| "
                .to_string()
        )
    );
    assert_eq!(
        fix("https://twitter.com/one ||https://x.com/two||", &link_regex),
        Some("||[`Tweet #1`](https://vxtwitter.com/one)|| ".to_string())
    );
    assert_eq!(
        fix("||https://x.com/two", &link_regex),
        Some("||[`Tweet #1`](https://vxtwitter.com/two)|| ".to_string())
    );
    assert_eq!(fix("no link", &link_regex), None);
    assert_eq!(fix("", &link_regex), None);
}

#[test]
fn fix_writes_numbers_of_two_digits() {
    let paths: Vec<(String, SpoilerTags)> =
        (0..12).map(|n| (format!("/{n}"), SpoilerTags::Absent)).collect();
    let text = link_text(&paths).unwrap();
    assert!(text.starts_with("[`Tweet #1`](https://vxtwitter.com/0)[`Tweet #2`]"));
    assert!(text.contains("[`Tweet #10`](https://vxtwitter.com/9)"));
    assert!(text.ends_with("[`Tweet #12`](https://vxtwitter.com/11)"));
    assert_eq!(link_text(&Vec::new()), None);
}
