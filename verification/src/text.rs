//! Small text helpers shared by the modules that build or read strings.
//!
//! Text is read as a sequence of characters, never as bytes.

use vstd::prelude::*;

verus! {

/// Calls `String::push`, which appends one character to the end of the string.
#[verifier::external_body]
pub(crate) fn push_char(text: &mut String, c: char)
    ensures
        final(text)@ == old(text)@.push(c),
{
    text.push(c)
}

/// The characters of `s`, in order.
pub fn to_chars(s: &str) -> (chars: Vec<char>)
    ensures
        chars@ == s@,
{
    let mut chars: Vec<char> = Vec::new();
    for c in it: s.chars()
        invariant
            it.seq() == s@,
            chars@ == s@.take(it.index() as int),
    {
        chars.push(c);
        proof {
            assert(s@.take(it.index() as int + 1) =~= s@.take(it.index() as int).push(c));
        }
    }
    proof {
        assert(s@.take(s@.len() as int) =~= s@);
    }
    chars
}

/// The text made of `chars[from..to]`.
pub fn text_of(chars: &Vec<char>, from: usize, to: usize) -> (text: String)
    requires
        from <= to <= chars@.len(),
    ensures
        text@ == chars@.subrange(from as int, to as int),
{
    let mut text = String::new();
    let mut i: usize = from;
    while i < to
        invariant
            from <= i <= to <= chars@.len(),
            text@ == chars@.subrange(from as int, i as int),
        decreases to - i,
    {
        push_char(&mut text, chars[i]);
        proof {
            assert(chars@.subrange(from as int, i as int + 1) =~= chars@.subrange(
                from as int,
                i as int,
            ).push(chars@[i as int]));
        }
        i += 1;
    }
    text
}

/// `s` begins with `prefix`.
pub open spec fn starts_with(s: Seq<char>, prefix: Seq<char>) -> bool {
    prefix.len() <= s.len() && s.subrange(0, prefix.len() as int) == prefix
}

/// `s` ends with `suffix`.
pub open spec fn ends_with(s: Seq<char>, suffix: Seq<char>) -> bool {
    suffix.len() <= s.len() && s.subrange(s.len() - suffix.len(), s.len() as int) == suffix
}

/// `needle` occurs in `s` at position `at`.
pub open spec fn occurs_at(s: Seq<char>, needle: Seq<char>, at: int) -> bool {
    0 <= at && at + needle.len() <= s.len() && s.subrange(at, at + needle.len()) == needle
}

/// `needle` occurs somewhere in `s`.
pub open spec fn contains_text(s: Seq<char>, needle: Seq<char>) -> bool {
    exists|at: int| occurs_at(s, needle, at)
}

/// Whether `needle` occurs in `s` at position `at`.
pub fn matches_at(s: &Vec<char>, needle: &Vec<char>, at: usize) -> (found: bool)
    ensures
        found == occurs_at(s@, needle@, at as int),
{
    if at > s.len() || needle.len() > s.len() - at {
        return false;
    }
    let mut i: usize = 0;
    while i < needle.len()
        invariant
            at + needle@.len() <= s@.len() <= usize::MAX,
            i <= needle@.len(),
            forall|k: int| 0 <= k < i ==> s@[at + k] == needle@[k],
        decreases needle@.len() - i,
    {
        if s[at + i] != needle[i] {
            proof {
                assert(s@.subrange(at as int, at + needle@.len())[i as int] == s@[at + i]);
            }
            return false;
        }
        i += 1;
    }
    proof {
        assert(s@.subrange(at as int, at + needle@.len()) =~= needle@);
    }
    true
}

/// Whether two texts hold the same characters.
pub fn same_chars(a: &Vec<char>, b: &Vec<char>) -> (same: bool)
    ensures
        same == (a@ == b@),
{
    if a.len() != b.len() {
        return false;
    }
    let found = matches_at(a, b, 0);
    proof {
        assert(a@.subrange(0, a@.len() as int) =~= a@);
    }
    found
}

/// Whether two strings hold the same characters.
pub fn same_text(a: &str, b: &str) -> (same: bool)
    ensures
        same == (a@ == b@),
{
    let a_chars = to_chars(a);
    let b_chars = to_chars(b);
    same_chars(&a_chars, &b_chars)
}

/// Whether `s` begins with `prefix`.
pub fn has_prefix(s: &Vec<char>, prefix: &Vec<char>) -> (found: bool)
    ensures
        found == starts_with(s@, prefix@),
{
    matches_at(s, prefix, 0)
}

/// Whether `s` ends with `suffix`.
pub fn has_suffix(s: &Vec<char>, suffix: &Vec<char>) -> (found: bool)
    ensures
        found == ends_with(s@, suffix@),
{
    if suffix.len() > s.len() {
        return false;
    }
    matches_at(s, suffix, s.len() - suffix.len())
}

/// Whether `needle` occurs somewhere in `s`.
pub fn contains_chars(s: &Vec<char>, needle: &Vec<char>) -> (found: bool)
    ensures
        found == contains_text(s@, needle@),
{
    if needle.len() > s.len() {
        return false;
    }
    let last: usize = s.len() - needle.len();
    let mut at: usize = 0;
    while at < last
        invariant
            last == s@.len() - needle@.len(),
            at <= last,
            forall|k: int| 0 <= k < at ==> !occurs_at(s@, needle@, k),
        decreases last - at,
    {
        if matches_at(s, needle, at) {
            return true;
        }
        at += 1;
    }
    matches_at(s, needle, last)
}

/// Classes of characters that runs are made of.
#[derive(Debug, Clone, Copy)]
pub enum CharClass {
    /// Characters with the Unicode property White_Space.
    Whitespace,
    /// Every character but White_Space.
    NotWhitespace,
    /// The double quote.
    Quote,
    /// Every character but the line feed.
    NotNewline,
}

/// A character with the Unicode property White_Space.
pub open spec fn is_whitespace(c: char) -> bool {
    let n = c as u32;
    (0x09 <= n <= 0x0d) || n == 0x20 || n == 0x85 || n == 0xa0 || n == 0x1680 || (0x2000 <= n
        <= 0x200a) || n == 0x2028 || n == 0x2029 || n == 0x202f || n == 0x205f || n == 0x3000
}

/// `c` belongs to `class`.
pub open spec fn in_class(class: CharClass, c: char) -> bool {
    match class {
        CharClass::Whitespace => is_whitespace(c),
        CharClass::NotWhitespace => !is_whitespace(c),
        CharClass::Quote => c == '"',
        CharClass::NotNewline => c != '\n',
    }
}

/// Whether `c` has the Unicode property White_Space.
pub fn is_whitespace_char(c: char) -> (white: bool)
    ensures
        white == is_whitespace(c),
{
    let n: u32 = c as u32;
    (0x09 <= n && n <= 0x0d) || n == 0x20 || n == 0x85 || n == 0xa0 || n == 0x1680 || (0x2000
        <= n && n <= 0x200a) || n == 0x2028 || n == 0x2029 || n == 0x202f || n == 0x205f || n
        == 0x3000
}

/// Whether `c` belongs to `class`.
pub fn is_in_class(class: CharClass, c: char) -> (member: bool)
    ensures
        member == in_class(class, c),
{
    match class {
        CharClass::Whitespace => is_whitespace_char(c),
        CharClass::NotWhitespace => !is_whitespace_char(c),
        CharClass::Quote => c == '"',
        CharClass::NotNewline => c != '\n',
    }
}

/// Number of characters of `class` at the start of `s`.
pub open spec fn leading_run(s: Seq<char>, class: CharClass) -> nat
    decreases s.len(),
{
    if s.len() > 0 && in_class(class, s[0]) {
        1 + leading_run(s.drop_first(), class)
    } else {
        0
    }
}

/// Number of characters of `class` at the end of `s`.
pub open spec fn trailing_run(s: Seq<char>, class: CharClass) -> nat
    decreases s.len(),
{
    if s.len() > 0 && in_class(class, s.last()) {
        1 + trailing_run(s.drop_last(), class)
    } else {
        0
    }
}

/// `s` without the characters of `class` at its two ends.
pub open spec fn stripped(s: Seq<char>, class: CharClass) -> Seq<char> {
    if leading_run(s, class) == s.len() {
        Seq::empty()
    } else {
        s.subrange(leading_run(s, class) as int, s.len() - trailing_run(s, class))
    }
}

/// `s` without the whitespace at its two ends.
pub open spec fn trimmed(s: Seq<char>) -> Seq<char> {
    stripped(s, CharClass::Whitespace)
}

/// `count` characters of `class` followed by the end or by a character that
/// is none: that is the leading run.
pub proof fn lemma_leading_run(s: Seq<char>, class: CharClass, count: int)
    requires
        0 <= count <= s.len(),
        forall|k: int| 0 <= k < count ==> in_class(class, s[k]),
        count < s.len() ==> !in_class(class, s[count]),
    ensures
        leading_run(s, class) == count,
    decreases count,
{
    if count > 0 {
        let rest = s.drop_first();
        assert forall|k: int| 0 <= k < count - 1 implies in_class(class, rest[k]) by {
            assert(rest[k] == s[k + 1]);
        }
        if count - 1 < rest.len() {
            assert(rest[count - 1] == s[count]);
        }
        lemma_leading_run(rest, class, count - 1);
    }
}

/// `count` characters of `class` preceded by the start or by a character
/// that is none: that is the trailing run.
pub proof fn lemma_trailing_run(s: Seq<char>, class: CharClass, count: int)
    requires
        0 <= count <= s.len(),
        forall|k: int| s.len() - count <= k < s.len() ==> in_class(class, s[k]),
        count < s.len() ==> !in_class(class, s[s.len() - count - 1]),
    ensures
        trailing_run(s, class) == count,
    decreases count,
{
    if count > 0 {
        let rest = s.drop_last();
        assert forall|k: int| rest.len() - (count - 1) <= k < rest.len() implies in_class(
            class,
            rest[k],
        ) by {
            assert(rest[k] == s[k]);
        }
        if count - 1 < rest.len() {
            assert(rest[rest.len() - (count - 1) - 1] == s[s.len() - count - 1]);
        }
        lemma_trailing_run(rest, class, count - 1);
    }
}

/// The leading run stays inside the text, holds only characters of the
/// class, and ends before a character that is none.
pub proof fn lemma_leading_run_ends(s: Seq<char>, class: CharClass)
    ensures
        leading_run(s, class) <= s.len(),
        forall|k: int| 0 <= k < leading_run(s, class) ==> in_class(class, s[k]),
        leading_run(s, class) < s.len() ==> !in_class(class, s[leading_run(s, class) as int]),
    decreases s.len(),
{
    if s.len() > 0 && in_class(class, s[0]) {
        let rest = s.drop_first();
        lemma_leading_run_ends(rest, class);
        assert forall|k: int| 0 <= k < leading_run(s, class) implies in_class(class, s[k]) by {
            if k > 0 {
                assert(s[k] == rest[k - 1]);
            }
        }
        if leading_run(s, class) < s.len() {
            assert(s[leading_run(s, class) as int] == rest[leading_run(rest, class) as int]);
        }
    }
}

/// The trailing run stays inside the text and begins after a character
/// that is not of the class.
pub proof fn lemma_trailing_run_begins(s: Seq<char>, class: CharClass)
    ensures
        trailing_run(s, class) <= s.len(),
        forall|k: int| s.len() - trailing_run(s, class) <= k < s.len() ==> in_class(class, s[k]),
        trailing_run(s, class) < s.len() ==> !in_class(
            class,
            s[s.len() - trailing_run(s, class) - 1],
        ),
    decreases s.len(),
{
    if s.len() > 0 && in_class(class, s.last()) {
        let rest = s.drop_last();
        lemma_trailing_run_begins(rest, class);
        assert forall|k: int| s.len() - trailing_run(s, class) <= k < s.len() implies in_class(
            class,
            s[k],
        ) by {
            if k < s.len() - 1 {
                assert(s[k] == rest[k]);
            }
        }
        if trailing_run(s, class) < s.len() {
            assert(s[s.len() - trailing_run(s, class) - 1] == rest[rest.len() - trailing_run(
                rest,
                class,
            ) - 1]);
        }
    }
}

/// What stripping leaves is a stretch of the text that neither begins nor
/// ends with a character of the class, and everything outside it is of the
/// class.
pub proof fn law_stripped_ends(s: Seq<char>, class: CharClass)
    ensures
        stripped(s, class).len() <= s.len(),
        stripped(s, class).len() > 0 ==> !in_class(class, stripped(s, class)[0]) && !in_class(
            class,
            stripped(s, class).last(),
        ),
        stripped(s, class).len() == 0 ==> forall|k: int|
            0 <= k < s.len() ==> in_class(class, s[k]),
{
    lemma_leading_run_ends(s, class);
    lemma_trailing_run_begins(s, class);
    let lead = leading_run(s, class) as int;
    let trail = trailing_run(s, class) as int;
    if lead < s.len() {
        // The first character outside the class cannot lie in the trailing run.
        assert(!in_class(class, s[lead]));
        assert(lead < s.len() - trail);
        let kept = stripped(s, class);
        assert(kept[0] == s[lead]);
        assert(kept.last() == s[s.len() - trail - 1]);
    }
}

/// Where `chars` without the characters of `class` at its two ends begins
/// and ends.
pub fn strip_bounds(chars: &Vec<char>, class: CharClass) -> (bounds: (usize, usize))
    ensures
        bounds.0 <= bounds.1 <= chars@.len(),
        chars@.subrange(bounds.0 as int, bounds.1 as int) == stripped(chars@, class),
{
    let len: usize = chars.len();
    let mut start: usize = 0;
    while start < len && is_in_class(class, chars[start])
        invariant
            start <= len,
            len == chars@.len(),
            forall|k: int| 0 <= k < start ==> in_class(class, chars@[k]),
        decreases len - start,
    {
        start += 1;
    }
    proof {
        lemma_leading_run(chars@, class, start as int);
    }
    if start == len {
        proof {
            assert(chars@.subrange(len as int, len as int) =~= Seq::<char>::empty());
        }
        return (len, len);
    }
    let mut end: usize = len;
    while end > start + 1 && is_in_class(class, chars[end - 1])
        invariant
            start < end <= len,
            len == chars@.len(),
            !in_class(class, chars@[start as int]),
            forall|k: int| end <= k < len ==> in_class(class, chars@[k]),
        decreases end,
    {
        end -= 1;
    }
    proof {
        lemma_trailing_run(chars@, class, len - end);
    }
    (start, end)
}

/// `chars` without the characters of `class` at its two ends.
pub fn strip(chars: &Vec<char>, class: CharClass) -> (text: String)
    ensures
        text@ == stripped(chars@, class),
{
    let (start, end) = strip_bounds(chars, class);
    text_of(chars, start, end)
}

/// `s` without the whitespace at its two ends.
pub fn trim(s: &str) -> (text: String)
    ensures
        text@ == trimmed(s@),
{
    let chars = to_chars(s);
    strip(&chars, CharClass::Whitespace)
}

/// The characters of `chars[from..to]`.
pub fn slice_of(chars: &Vec<char>, from: usize, to: usize) -> (part: Vec<char>)
    requires
        from <= to <= chars@.len(),
    ensures
        part@ == chars@.subrange(from as int, to as int),
{
    let mut part: Vec<char> = Vec::new();
    let mut i: usize = from;
    while i < to
        invariant
            from <= i <= to <= chars@.len(),
            part@ == chars@.subrange(from as int, i as int),
        decreases to - i,
    {
        part.push(chars[i]);
        proof {
            assert(chars@.subrange(from as int, i as int + 1) =~= chars@.subrange(
                from as int,
                i as int,
            ).push(chars@[i as int]));
        }
        i += 1;
    }
    part
}

/// A line without the carriage return that ended it, if one did.
pub open spec fn without_cr(line: Seq<char>) -> Seq<char> {
    if line.len() > 0 && line.last() == '\r' {
        line.drop_last()
    } else {
        line
    }
}

/// The lines of a text. A line ends at a line feed, or at a carriage return
/// followed by a line feed; neither belongs to the line. What follows the
/// last line feed is a line too, unless nothing follows.
pub open spec fn lines_of(s: Seq<char>) -> Seq<Seq<char>>
    decreases s.len(),
{
    if s.len() == 0 {
        Seq::empty()
    } else if leading_run(s, CharClass::NotNewline) >= s.len() {
        seq![s]
    } else {
        seq![without_cr(s.take(leading_run(s, CharClass::NotNewline) as int))] + lines_of(
            s.skip(leading_run(s, CharClass::NotNewline) as int + 1),
        )
    }
}

/// The characters of each line of a list.
pub open spec fn line_views(lines: Seq<Vec<char>>) -> Seq<Seq<char>> {
    lines.map_values(|line: Vec<char>| line@)
}

/// The lines of a text.
pub fn split_lines(chars: &Vec<char>) -> (lines: Vec<Vec<char>>)
    ensures
        line_views(lines@) == lines_of(chars@),
{
    let len: usize = chars.len();
    let mut lines: Vec<Vec<char>> = Vec::new();
    let mut start: usize = 0;
    proof {
        assert(chars@.skip(0) =~= chars@);
        assert(line_views(lines@) =~= Seq::<Seq<char>>::empty());
    }
    while start < len
        invariant
            len == chars@.len(),
            start <= len,
            line_views(lines@) + lines_of(chars@.skip(start as int)) == lines_of(chars@),
        decreases len - start,
    {
        let ghost rest = chars@.skip(start as int);
        let ghost found = line_views(lines@);
        let mut end: usize = start;
        while end < len && chars[end] != '\n'
            invariant
                len == chars@.len(),
                start <= end <= len,
                forall|k: int| start <= k < end ==> chars@[k] != '\n',
            decreases len - end,
        {
            end += 1;
        }
        proof {
            assert forall|k: int| 0 <= k < end - start implies in_class(
                CharClass::NotNewline,
                rest[k],
            ) by {
                assert(rest[k] == chars@[start + k]);
            }
            if end < len {
                assert(rest[end - start] == chars@[end as int]);
            }
            lemma_leading_run(rest, CharClass::NotNewline, end - start);
        }
        if end == len {
            let line = slice_of(chars, start, len);
            lines.push(line);
            proof {
                assert(line@ =~= rest);
                assert(lines_of(rest) =~= seq![rest]);
                assert(chars@.skip(len as int) =~= Seq::<char>::empty());
                assert(line_views(lines@) =~= found.push(rest));
                assert(line_views(lines@) + lines_of(chars@.skip(len as int)) =~= found + lines_of(
                    rest,
                ));
            }
            start = len;
        } else {
            let stop: usize = if end > start && chars[end - 1] == '\r' {
                end - 1
            } else {
                end
            };
            let line = slice_of(chars, start, stop);
            lines.push(line);
            proof {
                let raw = rest.take(end - start);
                assert(raw =~= chars@.subrange(start as int, end as int));
                if end > start {
                    assert(raw.last() == chars@[end - 1]);
                }
                assert(line@ =~= without_cr(raw));
                assert(rest.skip(end - start + 1) =~= chars@.skip(end as int + 1));
                assert(line_views(lines@) =~= found.push(line@));
                assert(line_views(lines@) + lines_of(chars@.skip(end as int + 1)) =~= found
                    + lines_of(rest));
            }
            start = end + 1;
        }
    }
    proof {
        assert(chars@.skip(len as int) =~= Seq::<char>::empty());
        assert(line_views(lines@) + lines_of(chars@.skip(len as int)) =~= line_views(lines@));
    }
    lines
}

} // verus!
