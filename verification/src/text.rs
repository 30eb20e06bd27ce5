use vstd::prelude::*;

verus! {

/// The place of the first `c` in `s` at or after `from`, or the length of
/// `s` where there is none.
pub open spec fn find_from(s: Seq<char>, c: char, from: int) -> int
    decreases s.len() - from,
{
    if from < 0 || from >= s.len() {
        s.len() as int
    } else if s[from] == c {
        from
    } else {
        find_from(s, c, from + 1)
    }
}

/// `s` cut at its first `sep`: what stands before it and what stands after
/// it, or `None` where `s` holds no `sep`.
pub open spec fn split_once(s: Seq<char>, sep: char) -> Option<(Seq<char>, Seq<char>)> {
    let at = find_from(s, sep, 0);
    if at < s.len() {
        Some((s.take(at), s.skip(at + 1)))
    } else {
        None
    }
}

/// The pieces of `s` from `from` on, cut at every `sep`. The pieces hold no
/// `sep`; an empty rest is one empty piece.
pub open spec fn pieces_from(s: Seq<char>, sep: char, from: int) -> Seq<Seq<char>>
    decreases s.len() - from,
{
    if from < 0 || from > s.len() {
        Seq::empty()
    } else {
        let end = find_from(s, sep, from);
        if end >= s.len() {
            seq![s.subrange(from, s.len() as int)]
        } else {
            proof {
                lemma_find_from(s, sep, from);
            }
            seq![s.subrange(from, end)] + pieces_from(s, sep, end + 1)
        }
    }
}

/// The pieces of `s`, cut at every `sep`.
pub open spec fn split(s: Seq<char>, sep: char) -> Seq<Seq<char>> {
    pieces_from(s, sep, 0)
}

/// `find_from` stays between `from` and the length, points at a `c` where it
/// stays below the length, and passes no `c` on its way.
pub proof fn lemma_find_from(s: Seq<char>, c: char, from: int)
    requires
        0 <= from <= s.len(),
    ensures
        from <= find_from(s, c, from) <= s.len(),
        find_from(s, c, from) < s.len() ==> s[find_from(s, c, from)] == c,
        forall|i: int| from <= i < find_from(s, c, from) ==> s[i] != c,
    decreases s.len() - from,
{
    if from < s.len() && s[from] != c {
        lemma_find_from(s, c, from + 1);
    }
}

/// Looking for `c` in a part of `s` that ends before the next `c` of `s`,
/// or at it, finds what looking in `s` finds.
pub proof fn lemma_find_in_part(s: Seq<char>, c: char, from: int, end: int, start: int)
    requires
        0 <= from <= start <= end <= s.len(),
    ensures
        find_from(s.subrange(from, end), c, start - from) == if find_from(s, c, start) < end {
            find_from(s, c, start) - from
        } else {
            end - from
        },
    decreases end - start,
{
    let part = s.subrange(from, end);
    if start < end {
        if s[start] != c {
            lemma_find_in_part(s, c, from, end, start + 1);
        }
    } else {
        lemma_find_from(s, c, start);
    }
}

/// The characters of `s`, one by one.
pub fn chars_of(s: &str) -> (chars: Vec<char>)
    ensures
        chars@ == s@,
{
    let mut chars: Vec<char> = Vec::new();
    for c in it: s.chars()
        invariant
            it.seq() == s@,
            chars@ == s@.take(it.index() as int),
    {
        chars.push(c);
    }
    chars
}

/// The place of the first `c` in `chars` at or after `from` and before
/// `end`, or `end` where there is none.
pub fn find_char(chars: &Vec<char>, c: char, from: usize, end: usize) -> (at: usize)
    requires
        from <= end <= chars@.len(),
    ensures
        from <= at <= end,
        at == if find_from(chars@, c, from as int) < end {
            find_from(chars@, c, from as int)
        } else {
            end as int
        },
{
    let mut at: usize = from;
    while at < end && chars[at] != c
        invariant
            from <= at <= end <= chars@.len(),
            find_from(chars@, c, from as int) == find_from(chars@, c, at as int),
        decreases end - at,
    {
        at = at + 1;
    }
    proof {
        lemma_find_from(chars@, c, at as int);
    }
    at
}

/// The part of `s` from the character at `from` up to the one at `to`, as a
/// string of its own.
pub fn part_of(s: &str, from: usize, to: usize) -> (part: String)
    requires
        from <= to <= s@.len(),
    ensures
        part@ == s@.subrange(from as int, to as int),
{
    String::from_str(s.substring_char(from, to))
}

/// Whether one of `list` is the text `wanted`.
pub fn contains_text(list: &Vec<String>, wanted: &String) -> (found: bool)
    ensures
        found == exists|i: int| 0 <= i < list@.len() && list@[i]@ == wanted@,
{
    let mut i: usize = 0;
    while i < list.len()
        invariant
            0 <= i <= list@.len(),
            forall|j: int| 0 <= j < i ==> list@[j]@ != wanted@,
        decreases list@.len() - i,
    {
        if list[i] == *wanted {
            return true;
        }
        i = i + 1;
    }
    false
}

/// The decimal digit of `d`, for `d` below ten.
pub open spec fn digit(d: nat) -> char {
    if d == 0 {
        '0'
    } else if d == 1 {
        '1'
    } else if d == 2 {
        '2'
    } else if d == 3 {
        '3'
    } else if d == 4 {
        '4'
    } else if d == 5 {
        '5'
    } else if d == 6 {
        '6'
    } else if d == 7 {
        '7'
    } else if d == 8 {
        '8'
    } else {
        '9'
    }
}

/// `n` written in decimal, without leading zeros.
pub open spec fn decimal(n: nat) -> Seq<char>
    decreases n,
{
    if n < 10 {
        seq![digit(n)]
    } else {
        decimal(n / 10).push(digit(n % 10))
    }
}

/// The one-character text of a decimal digit.
fn digit_text(d: usize) -> (text: &'static str)
    requires
        d < 10,
    ensures
        text@ == seq![digit(d as nat)],
{
    proof {
        reveal_strlit("0");
        reveal_strlit("1");
        reveal_strlit("2");
        reveal_strlit("3");
        reveal_strlit("4");
        reveal_strlit("5");
        reveal_strlit("6");
        reveal_strlit("7");
        reveal_strlit("8");
        reveal_strlit("9");
    }
    let text = if d == 0 {
        "0"
    } else if d == 1 {
        "1"
    } else if d == 2 {
        "2"
    } else if d == 3 {
        "3"
    } else if d == 4 {
        "4"
    } else if d == 5 {
        "5"
    } else if d == 6 {
        "6"
    } else if d == 7 {
        "7"
    } else if d == 8 {
        "8"
    } else {
        "9"
    };
    text
}

/// `n` written in decimal.
pub fn decimal_text(n: usize) -> (text: String)
    ensures
        text@ == decimal(n as nat),
    decreases n,
{
    if n < 10 {
        String::from_str(digit_text(n))
    } else {
        let mut text = decimal_text(n / 10);
        text.append(digit_text(n % 10));
        text
    }
}

} // verus!
