use crate::text::{
    chars_of, contains_text, find_char, lemma_find_from, lemma_find_in_part, part_of,
    pieces_from, split, split_once,
};
use crate::pattern::{
    captures_view, link_pattern_ok, pattern_compiles, pattern_link_captures, LinkCapture,
    LinkPattern, PatternError,
};
use vstd::prelude::*;

verus! {

/// The spoiler tags found around a link.
#[derive(Clone, Copy, PartialEq, Eq, Debug, Structural)]
pub enum SpoilerTags {
    /// The link is not spoilered.
    Absent,
    /// The link stands between two `||` tags.
    Spoiler,
    /// The link has a tag on one side only.
    Mismatched,
}

/// The tags of a link, from whether an opening and a closing tag were found.
pub open spec fn spoiler_of(open: bool, close: bool) -> SpoilerTags {
    if open && close {
        SpoilerTags::Spoiler
    } else if !open && !close {
        SpoilerTags::Absent
    } else {
        SpoilerTags::Mismatched
    }
}

/// Tells the tags of a link from whether an opening and a closing tag were
/// found.
pub fn classify_spoiler(open: bool, close: bool) -> (tags: SpoilerTags)
    ensures
        tags == spoiler_of(open, close),
{
    if open && close {
        SpoilerTags::Spoiler
    } else if !open && !close {
        SpoilerTags::Absent
    } else {
        SpoilerTags::Mismatched
    }
}

/// The texts of a list of strings.
pub open spec fn texts(list: Seq<String>) -> Seq<Seq<char>> {
    Seq::new(list.len(), |i: int| list[i]@)
}

/// A list of pairs of strings, each string taken as its characters.
pub open spec fn pairs_view(pairs: Seq<(String, String)>) -> Seq<(Seq<char>, Seq<char>)> {
    Seq::new(pairs.len(), |i: int| (pairs[i].0@, pairs[i].1@))
}

/// The parameters among the pieces of a query string: each piece that holds
/// a `=` gives the name before its first `=` and the value after it; the
/// other pieces give nothing.
pub open spec fn pairs_of(pieces: Seq<Seq<char>>) -> Seq<(Seq<char>, Seq<char>)>
    decreases pieces.len(),
{
    if pieces.len() == 0 {
        Seq::empty()
    } else {
        let front = pairs_of(pieces.drop_last());
        match split_once(pieces.last(), '=') {
            Some(pair) => front.push(pair),
            None => front,
        }
    }
}

/// The place of the first parameter named `name` at or after `from`, or the
/// length of `pairs` where there is none.
pub open spec fn param_place(pairs: Seq<(Seq<char>, Seq<char>)>, name: Seq<char>, from: int) -> int
    decreases pairs.len() - from,
{
    if from < 0 || from >= pairs.len() {
        pairs.len() as int
    } else if pairs[from].0 == name {
        from
    } else {
        param_place(pairs, name, from + 1)
    }
}

/// `pairs` with one more parameter set: a name that is present takes the new
/// value at its place, a new name goes to the end.
pub open spec fn put(pairs: Seq<(Seq<char>, Seq<char>)>, pair: (Seq<char>, Seq<char>)) -> Seq<
    (Seq<char>, Seq<char>),
> {
    let at = param_place(pairs, pair.0, 0);
    if at < pairs.len() {
        pairs.update(at, pair)
    } else {
        pairs.push(pair)
    }
}

/// The parameters that `pairs` sets, one for each name: a name stands where
/// it first came, with the value that came last.
pub open spec fn settle(pairs: Seq<(Seq<char>, Seq<char>)>) -> Seq<(Seq<char>, Seq<char>)>
    decreases pairs.len(),
{
    if pairs.len() == 0 {
        Seq::empty()
    } else {
        put(settle(pairs.drop_last()), pairs.last())
    }
}

/// The parameters of `pairs` whose name is one of `keep`, in their order.
pub open spec fn kept(pairs: Seq<(Seq<char>, Seq<char>)>, keep: Seq<Seq<char>>) -> Seq<
    (Seq<char>, Seq<char>),
>
    decreases pairs.len(),
{
    if pairs.len() == 0 {
        Seq::empty()
    } else {
        let front = kept(pairs.drop_last(), keep);
        if keep.contains(pairs.last().0) {
            front.push(pairs.last())
        } else {
            front
        }
    }
}

/// The parameters written out as `name=value`, with `&` between them.
pub open spec fn joined(pairs: Seq<(Seq<char>, Seq<char>)>) -> Seq<char>
    decreases pairs.len(),
{
    if pairs.len() == 0 {
        Seq::empty()
    } else {
        let item = pairs.last().0 + "="@ + pairs.last().1;
        if pairs.len() == 1 {
            item
        } else {
            joined(pairs.drop_last()) + "&"@ + item
        }
    }
}

/// The query string that is left of `qs` when only the parameters named in
/// `keep` stay: a `?`, then the parameters that stay.
pub open spec fn filtered_query(qs: Seq<char>, keep: Seq<Seq<char>>) -> Seq<char> {
    "?"@ + joined(kept(settle(pairs_of(split(qs, '&'))), keep))
}

/// `param_place` stays between `from` and the length, points at the name
/// where it stays below the length, and passes no such name on its way.
pub proof fn lemma_param_place(pairs: Seq<(Seq<char>, Seq<char>)>, name: Seq<char>, from: int)
    requires
        0 <= from <= pairs.len(),
    ensures
        from <= param_place(pairs, name, from) <= pairs.len(),
        param_place(pairs, name, from) < pairs.len() ==> pairs[param_place(
            pairs,
            name,
            from,
        )].0 == name,
        forall|i: int| from <= i < param_place(pairs, name, from) ==> pairs[i].0 != name,
    decreases pairs.len() - from,
{
    if from < pairs.len() && pairs[from].0 != name {
        lemma_param_place(pairs, name, from + 1);
    }
}

/// Sets one parameter in a list that holds each name once.
fn put_param(settled: &mut Vec<(String, String)>, name: String, value: String)
    ensures
        pairs_view(final(settled)@) == put(pairs_view(old(settled)@), (name@, value@)),
{
    let ghost before = pairs_view(settled@);
    let mut at: usize = 0;
    while at < settled.len() && !(settled[at].0 == name)
        invariant
            0 <= at <= settled@.len(),
            before == pairs_view(settled@),
            param_place(before, name@, 0) == param_place(before, name@, at as int),
        decreases settled@.len() - at,
    {
        at = at + 1;
    }
    proof {
        lemma_param_place(before, name@, at as int);
    }
    if at < settled.len() {
        settled.set(at, (name, value));
    } else {
        settled.push((name, value));
    }
}

/// Removes every parameter from the query string `qs` but those named in
/// `keep`.
///
/// The query string is cut at every `&`; a piece counts as a parameter if it
/// holds a `=`. Of a name that comes more than once the last value counts,
/// at the place where the name first came. The result starts with `?`.
pub fn filter_query(qs: &str, keep: &Vec<String>) -> (query: String)
    ensures
        query@ == filtered_query(qs@, texts(keep@)),
{
    let chars = chars_of(qs);
    let len: usize = chars.len();
    let mut settled: Vec<(String, String)> = Vec::new();
    let ghost mut done: Seq<Seq<char>> = Seq::empty();
    let mut start: usize = 0;
    let mut more: bool = true;
    while more
        invariant
            chars@ == qs@,
            len == chars@.len(),
            more ==> start <= len,
            more ==> split(qs@, '&') == done + pieces_from(qs@, '&', start as int),
            !more ==> split(qs@, '&') == done,
            pairs_view(settled@) == settle(pairs_of(done)),
        decreases
                (if more {
                    len - start + 1
                } else {
                    0
                }),
    {
        let end: usize = find_char(&chars, '&', start, len);
        let eq: usize = find_char(&chars, '=', start, end);
        let ghost piece = qs@.subrange(start as int, end as int);
        proof {
            lemma_find_from(qs@, '&', start as int);
            lemma_find_in_part(qs@, '=', start as int, end as int, start as int);
            assert(done.push(piece).drop_last() =~= done);
        }
        if eq < end {
            let name = part_of(qs, start, eq);
            let value = part_of(qs, eq + 1, end);
            proof {
                assert(split_once(piece, '=') == Some((name@, value@)));
                let front = pairs_of(done);
                assert(front.push((name@, value@)).drop_last() =~= front);
            }
            put_param(&mut settled, name, value);
        }
        proof {
            done = done.push(piece);
        }
        if end < len {
            start = end + 1;
        } else {
            more = false;
        }
    }
    let mut query: String = String::from_str("?");
    let mut i: usize = 0;
    let mut empty: bool = true;
    let ghost all = pairs_view(settled@);
    let ghost names = texts(keep@);
    while i < settled.len()
        invariant
            0 <= i <= settled@.len(),
            all == pairs_view(settled@),
            names == texts(keep@),
            empty == (kept(all.take(i as int), names).len() == 0),
            query@ == "?"@ + joined(kept(all.take(i as int), names)),
        decreases settled@.len() - i,
    {
        let listed: bool = contains_text(keep, &settled[i].0);
        proof {
            assert(all.take(i + 1).drop_last() =~= all.take(i as int));
            let name = all[i as int].0;
            if listed {
                let k = choose|k: int| 0 <= k < keep@.len() && keep@[k]@ == settled@[i as int].0@;
                assert(names[k] == name);
            }
        }
        if listed {
            let ghost front = kept(all.take(i as int), names);
            let ghost next = front.push(all[i as int]);
            if !empty {
                query.append("&");
            }
            query.append(settled[i].0.as_str());
            query.append("=");
            query.append(settled[i].1.as_str());
            proof {
                assert(next.drop_last() =~= front);
            }
            empty = false;
        }
        i = i + 1;
    }
    assert(all.take(settled@.len() as int) =~= all);
    query
}

/// A link as it was found: its path, its query string, and its spoiler tags.
pub open spec fn link_of(capture: (Seq<char>, Seq<char>, Seq<char>)) -> (
    Seq<char>,
    Seq<char>,
    SpoilerTags,
) {
    let tags = spoiler_of(capture.0.len() > 0, capture.2.len() > 0);
    match split_once(capture.1, '?') {
        Some((path, query)) => (path, query, tags),
        None => (capture.1, Seq::empty(), tags),
    }
}

/// The links of a list of matches, in their order.
pub open spec fn links_of(captures: Seq<(Seq<char>, Seq<char>, Seq<char>)>) -> Seq<
    (Seq<char>, Seq<char>, SpoilerTags),
> {
    Seq::new(captures.len(), |i: int| link_of(captures[i]))
}

/// A list of links, each string taken as its characters.
pub open spec fn links_view(links: Seq<(String, String, SpoilerTags)>) -> Seq<
    (Seq<char>, Seq<char>, SpoilerTags),
> {
    Seq::new(links.len(), |i: int| (links[i].0@, links[i].1@, links[i].2))
}

/// The pattern of a pass, made from the part that names the site: in front
/// of it the start of the text or a space, and an opening spoiler tag or
/// nothing; behind it the path, and a closing spoiler tag or nothing.
pub open spec fn padded(core: Seq<char>) -> Seq<char> {
    "(?:^|\\s)"@ + "(\\|\\||)"@ + core + "(/\\S+)"@ + "(\\s?\\|\\||)"@
}

/// The query string that a rewritten link gets: all of `query` where no list
/// of names is set, the named parameters where the list holds names, and
/// nothing where the list is empty.
pub open spec fn query_text(keep: Option<Seq<Seq<char>>>, query: Seq<char>) -> Seq<char> {
    match keep {
        None => "?"@ + query,
        Some(names) => if names.len() > 0 {
            filtered_query(query, names)
        } else {
            Seq::empty()
        },
    }
}

/// One rewritten link: a masked link with the label of the pass, to the stem
/// of the pass with the path and query string of the link, between spoiler
/// tags if the link had any.
pub open spec fn rendered(pass: PassView, link: (Seq<char>, Seq<char>, SpoilerTags)) -> Seq<char> {
    let body = "[`"@ + pass.label + "`]("@ + pass.stem + link.0 + query_text(
        pass.keep_query,
        link.1,
    ) + ") "@;
    if link.2 != SpoilerTags::Absent {
        "||"@ + body + "|| "@
    } else {
        body
    }
}

/// The rewritten links of a list of links, one after another.
pub open spec fn rendered_all(pass: PassView, links: Seq<(Seq<char>, Seq<char>, SpoilerTags)>) -> Seq<
    char,
>
    decreases links.len(),
{
    if links.len() == 0 {
        Seq::empty()
    } else {
        rendered_all(pass, links.drop_last()) + rendered(pass, links.last())
    }
}

/// A text, unless it is empty.
pub open spec fn unless_empty(text: Seq<char>) -> Option<Seq<char>> {
    if text.len() > 0 {
        Some(text)
    } else {
        None
    }
}

/// What a pass makes of `content`: the rewritten links that its pattern
/// finds, or nothing where it finds none.
pub open spec fn applied(pass: PassView, content: Seq<char>) -> Option<Seq<char>> {
    unless_empty(rendered_all(pass, links_of(pattern_link_captures(pass.regex, content))))
}

/// What a list of passes makes of `content`: what each pass makes of it, one
/// after another, or nothing where no pass makes anything of it.
pub open spec fn applied_all(passes: Seq<PassView>, content: Seq<char>) -> Option<Seq<char>>
    decreases passes.len(),
{
    if passes.len() == 0 {
        None
    } else {
        let front = applied_all(passes.drop_last(), content);
        match applied(passes.last(), content) {
            None => front,
            Some(text) => match front {
                None => Some(text),
                Some(before) => Some(before + text),
            },
        }
    }
}

/// The text of an optional string.
pub open spec fn optional_text(text: Option<String>) -> Option<Seq<char>> {
    match text {
        Some(text) => Some(text@),
        None => None,
    }
}

/// A list of passes, each by its view.
pub open spec fn passes_view(passes: Seq<Pass>) -> Seq<PassView> {
    Seq::new(passes.len(), |i: int| passes[i]@)
}

/// One rule for rewriting links: which links it takes and where it sends
/// them.
pub struct Pass {
    /// The text that a rewritten link shows.
    pub label: String,
    /// The pattern that finds the links.
    pub regex: LinkPattern,
    /// What stands in place of the site in a rewritten link.
    pub stem: String,
    /// The names of the query parameters that a rewritten link keeps; all of
    /// the query string is kept where this is not set.
    pub keep_query: Option<Vec<String>>,
}

/// A pass by the texts that it holds.
pub struct PassView {
    pub label: Seq<char>,
    pub regex: Seq<char>,
    pub stem: Seq<char>,
    pub keep_query: Option<Seq<Seq<char>>>,
}

impl View for Pass {
    type V = PassView;

    open spec fn view(&self) -> PassView {
        PassView {
            label: self.label@,
            regex: self.regex@,
            stem: self.stem@,
            keep_query: match self.keep_query {
                Some(names) => Some(texts(names@)),
                None => None,
            },
        }
    }
}

/// Makes the pattern of a pass from the part that names the site, and
/// checks it.
pub fn pass_regex(core: &str) -> (pattern: Result<LinkPattern, PatternError>)
    ensures
        pattern is Ok <==> link_pattern_ok(padded(core@)),
        pattern matches Ok(checked) ==> checked@ == padded(core@),
        pattern matches Err(error) ==> (error is Groups <==> pattern_compiles(padded(core@))),
{
    let mut source: String = String::from_str("(?:^|\\s)");
    source.append("(\\|\\||)");
    source.append(core);
    source.append("(/\\S+)");
    source.append("(\\s?\\|\\||)");
    LinkPattern::new(source.as_str())
}

/// Cuts a path at its first `?`: the path proper and the query string. A
/// path without `?` has an empty query string.
pub fn split_query(path: &str) -> (parts: (String, String))
    ensures
        (parts.0@, parts.1@) == match split_once(path@, '?') {
            Some(pair) => pair,
            None => (path@, Seq::empty()),
        },
{
    let chars = chars_of(path);
    let len: usize = chars.len();
    let at: usize = find_char(&chars, '?', 0, len);
    proof {
        lemma_find_from(path@, '?', 0);
    }
    if at < len {
        let front = part_of(path, 0, at);
        let back = part_of(path, at + 1, len);
        (front, back)
    } else {
        (String::from_str(path), String::new())
    }
}

/// The links of a list of matches: for each match its path, its query
/// string, and its spoiler tags.
pub fn links_from(found: &Vec<LinkCapture>) -> (links: Vec<(String, String, SpoilerTags)>)
    ensures
        links_view(links@) == links_of(captures_view(found@)),
{
    let mut links: Vec<(String, String, SpoilerTags)> = Vec::new();
    let mut i: usize = 0;
    while i < found.len()
        invariant
            0 <= i <= found@.len(),
            links_view(links@) == links_of(captures_view(found@)).take(i as int),
        decreases found@.len() - i,
    {
        let capture = &found[i];
        let tags = classify_spoiler(
            !capture.open.as_str().is_empty(),
            !capture.close.as_str().is_empty(),
        );
        let (path, query) = split_query(capture.path.as_str());
        let ghost before = links_view(links@);
        let ghost wanted = links_of(captures_view(found@));
        assert(before.len() == i);
        links.push((path, query, tags));
        proof {
            assert forall|j: int| 0 <= j < i implies links_view(links@)[j] == wanted[j] by {
                assert(before[j] == wanted.take(i as int)[j]);
            }
            assert(links_view(links@)[i as int] == link_of(found@[i as int]@));
            assert(links_view(links@) =~= wanted.take(i + 1));
        }
        i = i + 1;
    }
    assert(links_of(captures_view(found@)).take(found@.len() as int) =~= links_of(
        captures_view(found@),
    ));
    links
}

impl Pass {
    /// A pass with the given label and stem for the links of the site that
    /// `core` names.
    pub fn new(label: &str, core: &str, stem: &str, keep_query: Option<Vec<String>>) -> (pass:
        Result<Pass, PatternError>)
        ensures
            pass is Ok <==> link_pattern_ok(padded(core@)),
            pass matches Ok(made) ==> made@ == (PassView {
                label: label@,
                regex: padded(core@),
                stem: stem@,
                keep_query: match keep_query {
                    Some(names) => Some(texts(names@)),
                    None => None,
                },
            }),
            pass matches Err(error) ==> (error is Groups <==> pattern_compiles(padded(core@))),
    {
        match pass_regex(core) {
            Ok(regex) => Ok(
                Pass {
                    label: String::from_str(label),
                    regex,
                    stem: String::from_str(stem),
                    keep_query,
                },
            ),
            Err(error) => Err(error),
        }
    }

    /// The links that the pass finds in `content`, in their order.
    pub fn extract(&self, content: &str) -> (links: Vec<(String, String, SpoilerTags)>)
        ensures
            links_view(links@) == links_of(pattern_link_captures(self@.regex, content@)),
    {
        let found = self.regex.captures(content);
        links_from(&found)
    }

    /// The query string that a rewritten link gets for the query string
    /// `query` of the link.
    pub fn query_string(&self, query: &str) -> (text: String)
        ensures
            text@ == query_text(self@.keep_query, query@),
    {
        match &self.keep_query {
            None => {
                let mut text = String::from_str("?");
                text.append(query);
                text
            },
            Some(keep) => {
                if keep.len() > 0 {
                    filter_query(query, keep)
                } else {
                    String::new()
                }
            },
        }
    }

    /// One rewritten link.
    pub fn render_link(&self, link: &(String, String, SpoilerTags)) -> (text: String)
        ensures
            text@ == rendered(self@, (link.0@, link.1@, link.2)),
    {
        let spoil: bool = match link.2 {
            SpoilerTags::Absent => false,
            _ => true,
        };
        let query = self.query_string(link.1.as_str());
        let mut body: String = String::from_str("[`");
        body.append(self.label.as_str());
        body.append("`](");
        body.append(self.stem.as_str());
        body.append(link.0.as_str());
        body.append(query.as_str());
        body.append(") ");
        if spoil {
            let mut text: String = String::from_str("||");
            text.append(body.as_str());
            text.append("|| ");
            text
        } else {
            body
        }
    }

    /// The rewritten links of `links`, one after another, or nothing where
    /// `links` is empty.
    pub fn render(&self, links: &Vec<(String, String, SpoilerTags)>) -> (out: Option<String>)
        ensures
            optional_text(out) == unless_empty(rendered_all(self@, links_view(links@))),
    {
        let mut out: String = String::new();
        let mut i: usize = 0;
        let ghost all = links_view(links@);
        while i < links.len()
            invariant
                0 <= i <= links@.len(),
                all == links_view(links@),
                out@ == rendered_all(self@, all.take(i as int)),
            decreases links@.len() - i,
        {
            let text = self.render_link(&links[i]);
            out.append(text.as_str());
            proof {
                assert(all.take(i + 1).drop_last() =~= all.take(i as int));
                assert(all.take(i + 1).last() == all[i as int]);
            }
            i = i + 1;
        }
        assert(all.take(links@.len() as int) =~= all);
        if out.as_str().is_empty() {
            None
        } else {
            Some(out)
        }
    }

    /// Rewrites the links that the pass finds in `content`. `None` where it
    /// finds none.
    pub fn apply(&self, content: &str) -> (out: Option<String>)
        ensures
            optional_text(out) == applied(self@, content@),
    {
        let links = self.extract(content);
        self.render(&links)
    }

    /// What each of `passes` makes of `content`, one after another. `None`
    /// where no pass finds a link.
    pub fn apply_all(passes: &[Pass], content: &str) -> (out: Option<String>)
        ensures
            optional_text(out) == applied_all(passes_view(passes@), content@),
    {
        let mut transformed: Option<String> = None;
        let mut i: usize = 0;
        let ghost all = passes_view(passes@);
        while i < passes.len()
            invariant
                0 <= i <= passes@.len(),
                all == passes_view(passes@),
                optional_text(transformed) == applied_all(all.take(i as int), content@),
            decreases passes@.len() - i,
        {
            proof {
                assert(all.take(i + 1).drop_last() =~= all.take(i as int));
            }
            match passes[i].apply(content) {
                Some(patched) => {
                    transformed = match transformed {
                        None => Some(patched),
                        Some(before) => Some(before.concat(patched.as_str())),
                    };
                },
                None => {},
            }
            i = i + 1;
        }
        assert(all.take(passes@.len() as int) =~= all);
        transformed
    }
}

} // verus!
