use crate::cache::{
    count_filled, has_key, lemma_place_of, make_room, place_of, with_state, CacheEntry, SeenCache,
};
use crate::pass::optional_text;
use crate::pattern::{
    named_captures, optional_texts, pattern_compiles, pattern_first_split,
    pattern_named_captures, replace_first,
};
use crate::text::{decimal, decimal_text};
use vstd::prelude::*;

verus! {

/// The pattern of a link as a pass writes it: a label between backticks and
/// square brackets, then the address between round brackets.
pub const URL_REGEX: &'static str = "\\[`\\w+`\\]\\((?P<url>.+)\\)";

/// The name of the group of `URL_REGEX` that holds the address.
pub const URL_GROUP: &'static str = "url";

/// The texts that are present in a list, in their order.
pub open spec fn present(list: Seq<Option<Seq<char>>>) -> Seq<Seq<char>>
    decreases list.len(),
{
    if list.len() == 0 {
        Seq::empty()
    } else {
        match list.last() {
            Some(text) => present(list.drop_last()).push(text),
            None => present(list.drop_last()),
        }
    }
}

/// The addresses of the rewritten links in `content`, in their order.
pub open spec fn urls_of(content: Seq<char>) -> Seq<Seq<char>> {
    if pattern_compiles(URL_REGEX@) {
        present(pattern_named_captures(URL_REGEX@, URL_GROUP@, content))
    } else {
        Seq::empty()
    }
}

/// A rewritten link with the note that it was posted `count` times.
pub open spec fn repost_note_text(whole: Seq<char>, count: nat) -> Seq<char> {
    whole + " Posted "@ + decimal(count) + " time(s) "@
}

/// `content` with the note that its first rewritten link was posted `count`
/// times; `content` itself where it holds no rewritten link.
pub open spec fn counted(content: Seq<char>, count: nat) -> Seq<char> {
    if pattern_compiles(URL_REGEX@) {
        match pattern_first_split(URL_REGEX@, content) {
            Some((before, whole, after)) => before + repost_note_text(whole, count) + after,
            None => content,
        }
    } else {
        content
    }
}

/// What one address does to the cache of seen texts and to the text of the
/// reply: the message is reserved, which fails if it is present once room
/// was made; a new reservation is filled with the address at once, and the
/// text becomes `content` with the count of the address, if the address was
/// seen before.
pub open spec fn repost_step(
    store: Seq<(u64, CacheEntry<Seq<char>>)>,
    capacity: nat,
    reply_id: u64,
    content: Seq<char>,
    text: Seq<char>,
    url: Seq<char>,
) -> (Seq<(u64, CacheEntry<Seq<char>>)>, Seq<char>) {
    let times = count_filled(store, url);
    let base = make_room(store, capacity);
    if capacity == 0 || has_key(base, reply_id) {
        (base, text)
    } else {
        let reserved = base.insert(place_of(base, reply_id), (reply_id, CacheEntry::Pending));
        (
            with_state(reserved, reply_id, CacheEntry::Filled(url)),
            if times == 0 {
                text
            } else {
                counted(content, times)
            },
        )
    }
}

/// What a list of addresses does to the cache and to the text, one address
/// after another.
pub open spec fn reposted(
    store: Seq<(u64, CacheEntry<Seq<char>>)>,
    capacity: nat,
    reply_id: u64,
    content: Seq<char>,
    urls: Seq<Seq<char>>,
) -> (Seq<(u64, CacheEntry<Seq<char>>)>, Seq<char>)
    decreases urls.len(),
{
    if urls.len() == 0 {
        (store, content)
    } else {
        let before = reposted(store, capacity, reply_id, content, urls.drop_last());
        repost_step(before.0, capacity, reply_id, content, before.1, urls.last())
    }
}

/// A list of strings, each taken as its characters.
pub open spec fn url_texts(urls: Seq<String>) -> Seq<Seq<char>> {
    Seq::new(urls.len(), |i: int| urls[i]@)
}

/// The note for one rewritten link: the link, then how often it was posted.
pub fn repost_note(whole: &str, count: usize) -> (note: String)
    ensures
        note@ == repost_note_text(whole@, count as nat),
{
    let mut note: String = String::from_str(whole);
    note.append(" Posted ");
    note.append(decimal_text(count).as_str());
    note.append(" time(s) ");
    note
}

/// The number of entries of `seen` that hold the address `embed_url`.
pub fn check_repost(seen: &SeenCache, embed_url: &str) -> (times: usize)
    ensures
        times == count_filled(seen@, embed_url@),
{
    seen.search_by_value(embed_url)
}

/// The texts that are present in a list, in their order.
pub fn urls_from(found: &Vec<Option<String>>) -> (urls: Vec<String>)
    ensures
        url_texts(urls@) == present(optional_texts(found@)),
{
    let mut urls: Vec<String> = Vec::new();
    let ghost all = optional_texts(found@);
    let mut i: usize = 0;
    while i < found.len()
        invariant
            0 <= i <= found@.len(),
            all == optional_texts(found@),
            url_texts(urls@) == present(all.take(i as int)),
        decreases found@.len() - i,
    {
        proof {
            assert(all.take(i + 1).drop_last() =~= all.take(i as int));
        }
        if let Some(text) = &found[i] {
            urls.push(text.clone());
        }
        i = i + 1;
    }
    assert(all.take(found@.len() as int) =~= all);
    urls
}

/// The addresses of the rewritten links in `content`, in their order.
pub fn find_urls(content: &str) -> (urls: Vec<String>)
    ensures
        url_texts(urls@) == urls_of(content@),
{
    match named_captures(URL_REGEX, URL_GROUP, content) {
        Ok(found) => urls_from(&found),
        Err(_) => {
            let urls: Vec<String> = Vec::new();
            urls
        },
    }
}

/// Adds to the first rewritten link of `content` the note that it was
/// posted `repost_count` times.
pub fn add_repost_count(content: &str, repost_count: usize) -> (text: String)
    ensures
        text@ == counted(content@, repost_count as nat),
{
    match replace_first(URL_REGEX, content, repost_count) {
        Ok(text) => text,
        Err(_) => String::from_str(content),
    }
}

/// Enters the addresses `urls` of the reply `reply_id` into `seen`, one
/// after another, and gives the text that the reply is to get, or `None`
/// where its text `content` stays.
pub fn record_urls(seen: &mut SeenCache, reply_id: u64, content: &str, urls: &Vec<String>) -> (out:
    Option<String>)
    requires
        old(seen).wf(),
    ensures
        final(seen).wf(),
        final(seen).capacity() == old(seen).capacity(),
        ({
            let after = reposted(
                old(seen)@,
                old(seen).capacity() as nat,
                reply_id,
                content@,
                url_texts(urls@),
            );
            &&& final(seen)@ == after.0
            &&& optional_text(out) == if after.1 == content@ {
                None
            } else {
                Some(after.1)
            }
        }),
{
    let mut new_content: String = String::from_str(content);
    let ghost all = url_texts(urls@);
    let ghost capacity = seen.capacity() as nat;
    let ghost start = seen@;
    let mut i: usize = 0;
    while i < urls.len()
        invariant
            0 <= i <= urls@.len(),
            all == url_texts(urls@),
            seen.wf(),
            seen.capacity() == capacity,
            (seen@, new_content@) == reposted(start, capacity, reply_id, content@, all.take(i as int)),
        decreases urls@.len() - i,
    {
        proof {
            assert(all.take(i + 1).drop_last() =~= all.take(i as int));
        }
        let url: &String = &urls[i];
        let ghost base = make_room(seen@, capacity);
        let times: usize = check_repost(seen, url.as_str());
        if let Some(token) = seen.file_pending(reply_id) {
            proof {
                lemma_place_of(base, reply_id, token.idx() as int);
            }
            if times != 0 {
                new_content = add_repost_count(content, times);
            }
            seen.insert(token, url.clone());
        }
        i = i + 1;
    }
    assert(all.take(urls@.len() as int) =~= all);
    if new_content == String::from_str(content) {
        None
    } else {
        Some(new_content)
    }
}

/// What a reply does to the cache of seen texts, and the text that the
/// reply is to get: a reply that the cache knows changes nothing and keeps
/// its text `content`; another one enters its addresses, and gets a new text
/// only if that differs from `content`.
pub open spec fn repost_counts(
    store: Seq<(u64, CacheEntry<Seq<char>>)>,
    capacity: nat,
    reply_id: u64,
    content: Seq<char>,
) -> (Seq<(u64, CacheEntry<Seq<char>>)>, Option<Seq<char>>) {
    if has_key(store, reply_id) {
        (store, Some(content))
    } else {
        let after = reposted(store, capacity, reply_id, content, urls_of(content));
        (
            after.0,
            if after.1 == content {
                None
            } else {
                Some(after.1)
            },
        )
    }
}

/// Notes in the text of a reply how often its link was posted before, and
/// remembers the link.
///
/// A reply that `seen` knows keeps its text: `Some(content)`. Otherwise the
/// addresses of the rewritten links in `content` are entered as
/// `record_urls` says: `None` where the text stays as it is, else the text
/// with the count.
pub fn add_repost_counts(seen: &mut SeenCache, reply_id: u64, content: &str) -> (out: Option<
    String,
>)
    requires
        old(seen).wf(),
    ensures
        final(seen).wf(),
        final(seen).capacity() == old(seen).capacity(),
        (final(seen)@, optional_text(out)) == repost_counts(
            old(seen)@,
            old(seen).capacity() as nat,
            reply_id,
            content@,
        ),
{
    if seen.get_entry(reply_id).is_some() {
        return Some(String::from_str(content));
    }
    let urls = find_urls(content);
    record_urls(seen, reply_id, content, &urls)
}

} // verus!
