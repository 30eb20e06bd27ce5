use crate::pass::{classify_spoiler, optional_text, spoiler_of, unless_empty, SpoilerTags};
use crate::pattern::{captures_view, pattern_link_captures, LinkCapture, LinkPattern};
use crate::text::{chars_of, decimal, decimal_text, part_of};
use vstd::prelude::*;

verus! {

/// What stands in place of `https://twitter.com` in a rewritten link.
pub const REPLACEMENT_STEM: &'static str = "https://vxtwitter.com";

/// `path` ends with a spoiler tag.
pub open spec fn ends_with_tag(path: Seq<char>) -> bool {
    path.len() >= 2 && path[path.len() - 1] == '|' && path[path.len() - 2] == '|'
}

/// The path and the spoiler tags of one match. A path takes in every
/// character up to the next space, so a closing tag that follows the link
/// directly is found at the end of the path: it is cut off there and counts
/// as the closing tag.
pub open spec fn tweet_path_of(capture: (Seq<char>, Seq<char>, Seq<char>)) -> (
    Seq<char>,
    SpoilerTags,
) {
    if capture.2.len() == 0 && ends_with_tag(capture.1) {
        (capture.1.take(capture.1.len() - 2), spoiler_of(capture.0.len() > 0, true))
    } else {
        (capture.1, spoiler_of(capture.0.len() > 0, capture.2.len() > 0))
    }
}

/// The paths of a list of matches, in their order.
pub open spec fn tweet_paths_of(captures: Seq<(Seq<char>, Seq<char>, Seq<char>)>) -> Seq<
    (Seq<char>, SpoilerTags),
> {
    Seq::new(captures.len(), |i: int| tweet_path_of(captures[i]))
}

/// A list of paths, each string taken as its characters.
pub open spec fn paths_view(paths: Seq<(String, SpoilerTags)>) -> Seq<(Seq<char>, SpoilerTags)> {
    Seq::new(paths.len(), |i: int| (paths[i].0@, paths[i].1))
}

/// The masked link for the tweet with the number `number` and the path
/// `path`, between spoiler tags if the link had any.
pub open spec fn tweet_link(number: nat, path: Seq<char>, tags: SpoilerTags) -> Seq<char> {
    let link = "[`Tweet #"@ + decimal(number) + "`]("@ + REPLACEMENT_STEM@ + path + ")"@;
    if tags != SpoilerTags::Absent {
        "||"@ + link + "|| "@
    } else {
        link
    }
}

/// The masked links for a list of paths, numbered from one, one after
/// another.
pub open spec fn tweet_links(paths: Seq<(Seq<char>, SpoilerTags)>) -> Seq<char>
    decreases paths.len(),
{
    if paths.len() == 0 {
        Seq::empty()
    } else {
        tweet_links(paths.drop_last()) + tweet_link(paths.len(), paths.last().0, paths.last().1)
    }
}

/// The path and the spoiler tags of one match.
pub fn tweet_path(capture: &LinkCapture) -> (found: (String, SpoilerTags))
    ensures
        (found.0@, found.1) == tweet_path_of(capture@),
{
    let open: bool = !capture.open.as_str().is_empty();
    let close: bool = !capture.close.as_str().is_empty();
    let chars = chars_of(capture.path.as_str());
    let len: usize = chars.len();
    if !close && len >= 2 && chars[len - 1] == '|' && chars[len - 2] == '|' {
        let path = part_of(capture.path.as_str(), 0, len - 2);
        assert(path@ =~= capture@.1.take(len - 2));
        (path, classify_spoiler(open, true))
    } else {
        (capture.path.clone(), classify_spoiler(open, close))
    }
}

/// The paths of a list of matches, in their order.
pub fn paths_from(found: &Vec<LinkCapture>) -> (paths: Vec<(String, SpoilerTags)>)
    ensures
        paths_view(paths@) == tweet_paths_of(captures_view(found@)),
{
    let mut paths: Vec<(String, SpoilerTags)> = Vec::new();
    let ghost wanted = tweet_paths_of(captures_view(found@));
    let mut i: usize = 0;
    while i < found.len()
        invariant
            0 <= i <= found@.len(),
            wanted == tweet_paths_of(captures_view(found@)),
            paths@.len() == i,
            paths_view(paths@) == wanted.take(i as int),
        decreases found@.len() - i,
    {
        let ghost before = paths_view(paths@);
        let (path, tags) = tweet_path(&found[i]);
        paths.push((path, tags));
        proof {
            assert forall|j: int| 0 <= j < i implies paths_view(paths@)[j] == wanted[j] by {
                assert(before[j] == wanted.take(i as int)[j]);
            }
            assert(paths_view(paths@)[i as int] == tweet_path_of(found@[i as int]@));
            assert(paths_view(paths@) =~= wanted.take(i + 1));
        }
        i = i + 1;
    }
    assert(wanted.take(found@.len() as int) =~= wanted);
    paths
}

/// The paths of all links that `link_regex` finds in `content`, with their
/// spoiler tags: `https://twitter.com/path` gives `/path`.
pub fn tweet_paths(content: &str, link_regex: &LinkPattern) -> (paths: Vec<(String, SpoilerTags)>)
    ensures
        paths_view(paths@) == tweet_paths_of(pattern_link_captures(link_regex@, content@)),
{
    let found = link_regex.captures(content);
    paths_from(&found)
}

/// The masked link for the tweet with the number `number` and the path
/// `path`.
pub fn tweet_link_text(number: usize, path: &str, tags: SpoilerTags) -> (text: String)
    ensures
        text@ == tweet_link(number as nat, path@, tags),
{
    let spoil: bool = match tags {
        SpoilerTags::Absent => false,
        _ => true,
    };
    let mut link: String = String::from_str("[`Tweet #");
    link.append(decimal_text(number).as_str());
    link.append("`](");
    link.append(REPLACEMENT_STEM);
    link.append(path);
    link.append(")");
    if spoil {
        let mut text: String = String::from_str("||");
        text.append(link.as_str());
        text.append("|| ");
        text
    } else {
        link
    }
}

/// The masked links for a list of paths, numbered from one, or nothing
/// where the list is empty.
pub fn link_text(paths: &Vec<(String, SpoilerTags)>) -> (out: Option<String>)
    ensures
        optional_text(out) == unless_empty(tweet_links(paths_view(paths@))),
{
    let mut out: String = String::new();
    let ghost all = paths_view(paths@);
    let mut i: usize = 0;
    while i < paths.len()
        invariant
            0 <= i <= paths@.len(),
            all == paths_view(paths@),
            out@ == tweet_links(all.take(i as int)),
        decreases paths@.len() - i,
    {
        let text = tweet_link_text(i + 1, paths[i].0.as_str(), paths[i].1);
        out.append(text.as_str());
        proof {
            assert(all.take(i + 1).drop_last() =~= all.take(i as int));
            assert(all.take(i + 1).last() == all[i as int]);
        }
        i = i + 1;
    }
    assert(all.take(paths@.len() as int) =~= all);
    if out.as_str().is_empty() {
        None
    } else {
        Some(out)
    }
}

/// Puts every Twitter link of `content` into a masked link to the
/// replacement site, numbered from one. A link between spoiler tags gives a
/// masked link between spoiler tags. `None` where `content` holds no link.
pub fn fix(content: &str, link_regex: &LinkPattern) -> (out: Option<String>)
    ensures
        optional_text(out) == unless_empty(
            tweet_links(tweet_paths_of(pattern_link_captures(link_regex@, content@))),
        ),
{
    let paths = tweet_paths(content, link_regex);
    link_text(&paths)
}

} // verus!
