use crate::repost::{repost_note, repost_note_text};
use crate::text::{decimal, decimal_text};
use regex::{Captures, Regex};
use vstd::prelude::*;

verus! {

/// The error of `Regex::new`. Nothing is known of its inside; `error_of`
/// turns it into a `PatternError`.
#[verifier::external_type_specification]
#[verifier::external_body]
pub struct ExRegexError(regex::Error);

/// Why a pattern does not compile.
#[derive(Clone, PartialEq, Eq, Debug)]
pub enum CompileError {
    /// The pattern is not a regular expression; the text says why.
    Syntax(String),
    /// The compiled pattern would be larger than the given limit in bytes.
    CompiledTooBig(usize),
    /// The pattern was refused for a reason that has no name here.
    Unknown,
}

/// Why a pattern cannot serve as a link pattern.
#[derive(Clone, PartialEq, Eq, Debug)]
pub enum PatternError {
    /// The pattern does not compile.
    Refused(CompileError),
    /// The pattern compiles, but its matches do not all carry exactly three
    /// groups.
    Groups,
}

/// What `describe` says of an error.
pub open spec fn description(error: PatternError) -> Seq<char> {
    match error {
        PatternError::Refused(CompileError::Syntax(text)) => text@,
        PatternError::Refused(CompileError::CompiledTooBig(limit)) => {
            "Compiled regex exceeds size limit of "@ + decimal(limit as nat) + " bytes."@
        },
        PatternError::Refused(CompileError::Unknown) => "the pattern was refused"@,
        PatternError::Groups => "the pattern must not hold groups of its own"@,
    }
}

impl PatternError {
    /// The error in words.
    pub fn describe(&self) -> (text: String)
        ensures
            text@ == description(*self),
    {
        match self {
            PatternError::Refused(CompileError::Syntax(text)) => text.clone(),
            PatternError::Refused(CompileError::CompiledTooBig(limit)) => {
                let mut text = String::from_str("Compiled regex exceeds size limit of ");
                text.append(decimal_text(*limit).as_str());
                text.append(" bytes.");
                text
            },
            PatternError::Refused(CompileError::Unknown) => String::from_str(
                "the pattern was refused",
            ),
            PatternError::Groups => String::from_str("the pattern must not hold groups of its own"),
        }
    }
}

/// One match of a link pattern: the text of its three groups.
#[derive(Clone, PartialEq, Eq, Debug)]
pub struct LinkCapture {
    /// The opening spoiler tag, or nothing.
    pub open: String,
    /// The path of the link, with its query string.
    pub path: String,
    /// The closing spoiler tag, or nothing.
    pub close: String,
}

impl View for LinkCapture {
    type V = (Seq<char>, Seq<char>, Seq<char>);

    open spec fn view(&self) -> (Seq<char>, Seq<char>, Seq<char>) {
        (self.open@, self.path@, self.close@)
    }
}

/// A list of matches, each as the texts of its groups.
pub open spec fn captures_view(found: Seq<LinkCapture>) -> Seq<(Seq<char>, Seq<char>, Seq<char>)> {
    Seq::new(found.len(), |i: int| found[i]@)
}

/// A list of optional strings, each string taken as its characters.
pub open spec fn optional_texts(list: Seq<Option<String>>) -> Seq<Option<Seq<char>>> {
    Seq::new(
        list.len(),
        |i: int|
            match list[i] {
                Some(text) => Some(text@),
                None => None,
            },
    )
}

/// Whether `Regex::new` accepts `pattern`: the pattern is a regular
/// expression and compiles within the size limit that `Regex::new` sets.
pub uninterp spec fn pattern_compiles(pattern: Seq<char>) -> bool;

/// What `Regex::static_captures_len` gives for the compiled `pattern`: the
/// number of groups that every match has, the whole match counted, if that
/// number is the same for every match.
pub uninterp spec fn pattern_static_groups(pattern: Seq<char>) -> Option<usize>;

/// The matches that `Regex::captures_iter` finds for `pattern` in `content`,
/// in their order, each as the texts of its first, second and third group.
pub uninterp spec fn pattern_link_captures(pattern: Seq<char>, content: Seq<char>) -> Seq<
    (Seq<char>, Seq<char>, Seq<char>),
>;

/// For each match that `Regex::captures_iter` finds for `pattern` in
/// `content`, what `Captures::name` gives for the group `name`: the text of
/// the group, or `None` where the pattern has no group of that name or the
/// group took no part in the match.
pub uninterp spec fn pattern_named_captures(
    pattern: Seq<char>,
    name: Seq<char>,
    content: Seq<char>,
) -> Seq<Option<Seq<char>>>;

/// The first match of `pattern` in `content`, as `Regex::replace` finds it:
/// the text before the match, the match, and the text after it; `None` where
/// nothing matches.
pub uninterp spec fn pattern_first_split(pattern: Seq<char>, content: Seq<char>) -> Option<
    (Seq<char>, Seq<char>, Seq<char>),
>;

/// A pattern serves as a link pattern if it compiles and each of its matches
/// has three groups beside the whole match.
pub open spec fn link_pattern_ok(pattern: Seq<char>) -> bool {
    pattern_compiles(pattern) && pattern_static_groups(pattern) == Some(4usize)
}

/// Compiles `pattern` with `Regex::new` and asks the result for
/// `Regex::static_captures_len`. The error is the one of `Regex::new`.
#[verifier::external_body]
pub(crate) fn compile_outcome(pattern: &str) -> (outcome: Result<Option<usize>, regex::Error>)
    ensures
        outcome is Ok <==> pattern_compiles(pattern@),
        outcome matches Ok(groups) ==> groups == pattern_static_groups(pattern@),
{
    Regex::new(pattern).map(|regex| regex.static_captures_len())
}

/// Tells the variants of `regex::Error` apart. Nothing is claimed of the
/// result.
#[verifier::external_body]
pub(crate) fn error_of(error: regex::Error) -> CompileError {
    match error {
        regex::Error::Syntax(text) => CompileError::Syntax(text),
        regex::Error::CompiledTooBig(limit) => CompileError::CompiledTooBig(limit),
        _ => CompileError::Unknown,
    }
}

/// Runs `Regex::captures_iter` for `pattern` over `content` and takes the
/// three groups of each match with `Captures::extract`. Both panic on other
/// patterns than link patterns, which `requires` leaves out.
#[verifier::external_body]
pub(crate) fn link_captures(pattern: &str, content: &str) -> (found: Vec<LinkCapture>)
    requires
        link_pattern_ok(pattern@),
    ensures
        captures_view(found@) == pattern_link_captures(pattern@, content@),
{
    let regex = Regex::new(pattern).unwrap();
    regex.captures_iter(content).map(
        |capture| {
            let (_, [open, path, close]) = capture.extract();
            LinkCapture { open: open.to_owned(), path: path.to_owned(), close: close.to_owned() }
        },
    ).collect()
}

/// Runs `Regex::captures_iter` for `pattern` over `content` and asks each
/// match for the group `name` with `Captures::name`. The error is the one of
/// `Regex::new`.
#[verifier::external_body]
pub(crate) fn named_captures(pattern: &str, name: &str, content: &str) -> (outcome: Result<
    Vec<Option<String>>,
    regex::Error,
>)
    ensures
        outcome is Ok <==> pattern_compiles(pattern@),
        outcome matches Ok(found) ==> optional_texts(found@) == pattern_named_captures(
            pattern@,
            name@,
            content@,
        ),
{
    let regex = Regex::new(pattern)?;
    Ok(
        regex.captures_iter(content).map(
            |capture| capture.name(name).map(|group| group.as_str().to_owned()),
        ).collect(),
    )
}

/// Runs `Regex::replace` for `pattern` over `content`: the first match is
/// replaced by the repost note for the matched text and `count`, and a
/// text without a match comes back as it is. The error is the one of
/// `Regex::new`.
#[verifier::external_body]
pub(crate) fn replace_first(pattern: &str, content: &str, count: usize) -> (outcome: Result<
    String,
    regex::Error,
>)
    ensures
        outcome is Ok <==> pattern_compiles(pattern@),
        outcome matches Ok(text) ==> text@ == match pattern_first_split(pattern@, content@) {
            Some((before, whole, after)) => before + repost_note_text(whole, count as nat) + after,
            None => content@,
        },
{
    let regex = Regex::new(pattern)?;
    Ok(regex.replace(content, |found: &Captures| repost_note(&found[0], count)).into_owned())
}

/// What is wrong with a pattern, given how compiling it ended: nothing
/// where it compiled and every match has three groups beside the whole match.
pub open spec fn fault_of(outcome: Result<Option<usize>, CompileError>) -> Option<PatternError> {
    match outcome {
        Ok(groups) => if groups == Some(4usize) {
            None
        } else {
            Some(PatternError::Groups)
        },
        Err(error) => Some(PatternError::Refused(error)),
    }
}

/// Says what is wrong with a pattern, given how compiling it ended.
pub fn fault(outcome: Result<Option<usize>, CompileError>) -> (error: Option<PatternError>)
    ensures
        error == fault_of(outcome),
{
    match outcome {
        Ok(Some(groups)) => if groups == 4 {
            None
        } else {
            Some(PatternError::Groups)
        },
        Ok(None) => Some(PatternError::Groups),
        Err(error) => Some(PatternError::Refused(error)),
    }
}

/// A pattern that was checked to be a link pattern: a regular expression
/// whose every match has three groups, for the opening spoiler tag, the path
/// and the closing spoiler tag.
pub struct LinkPattern {
    source: String,
}

impl View for LinkPattern {
    type V = Seq<char>;

    closed spec fn view(&self) -> Seq<char> {
        self.source@
    }
}

impl LinkPattern {
    #[verifier::type_invariant]
    spec fn checked(self) -> bool {
        link_pattern_ok(self.source@)
    }

    /// Checks `source` and keeps it as a link pattern.
    pub fn new(source: &str) -> (pattern: Result<LinkPattern, PatternError>)
        ensures
            pattern is Ok <==> link_pattern_ok(source@),
            pattern matches Ok(checked) ==> checked@ == source@,
            pattern matches Err(error) ==> (error is Groups <==> pattern_compiles(source@)),
    {
        let outcome = match compile_outcome(source) {
            Ok(groups) => Ok(groups),
            Err(error) => Err(error_of(error)),
        };
        match fault(outcome) {
            None => Ok(LinkPattern { source: String::from_str(source) }),
            Some(error) => Err(error),
        }
    }

    /// The pattern as it was given.
    pub fn as_str(&self) -> (source: &str)
        ensures
            source@ == self@,
    {
        self.source.as_str()
    }

    /// The matches of the pattern in `content`, in their order.
    pub fn captures(&self, content: &str) -> (found: Vec<LinkCapture>)
        ensures
            captures_view(found@) == pattern_link_captures(self@, content@),
    {
        proof {
            use_type_invariant(self);
        }
        link_captures(self.source.as_str(), content)
    }
}

} // verus!
