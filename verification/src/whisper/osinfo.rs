//! Reading what the system says of itself: the OS release file, the marker
//! files of the distributions, and the summary the Vulkan tool prints.

use crate::text::{
    contains_chars, contains_text, has_prefix, in_class, is_whitespace_char,
    lemma_trailing_run, line_views, lines_of, slice_of, split_lines, starts_with, strip, stripped,
    text_of, to_chars, trailing_run, trim, trimmed, CharClass,
};
use crate::whisper::gpu::TargetOs;
use vstd::prelude::*;
use vstd::string::*;

verus! {

/// What `str::to_lowercase` makes of a text: its lower case by the rules of
/// Unicode, which depend on the text alone.
pub uninterp spec fn lowercase_of(text: Seq<char>) -> Seq<char>;

/// Calls `str::to_lowercase`.
#[verifier::external_body]
fn to_lowercase(text: &str) -> (lower: String)
    ensures
        lower@ == lowercase_of(text@),
{
    text.to_lowercase()
}

/// Whether a session type names Wayland, in whatever case it is written.
pub fn session_names_wayland(session_type: &str) -> (wayland: bool)
    ensures
        wayland == contains_text(lowercase_of(session_type@), "wayland"@),
{
    let lowered = to_lowercase(session_type);
    let chars = to_chars(lowered.as_str());
    let word = to_chars("wayland");
    contains_chars(&chars, &word)
}

/// The value of a line that sets `key`: what follows the key, without the
/// double quotes around it.
pub open spec fn value_of(line: Seq<char>, key: Seq<char>) -> Seq<char> {
    stripped(line.skip(key.len() as int), CharClass::Quote)
}

/// The value of the first line that begins with `key`.
pub open spec fn first_value(lines: Seq<Seq<char>>, key: Seq<char>) -> Option<Seq<char>>
    decreases lines.len(),
{
    if lines.len() == 0 {
        None
    } else if starts_with(lines[0], key) {
        Some(value_of(lines[0], key))
    } else {
        first_value(lines.drop_first(), key)
    }
}

/// The value that a text of `KEY=value` lines gives to `key`, which is
/// written with its equals sign.
pub fn release_value(content: &str, key: &str) -> (value: Option<String>)
    ensures
        first_value(lines_of(content@), key@) is None ==> value is None,
        first_value(lines_of(content@), key@) matches Some(text) ==> (value matches Some(v) && v@
            == text),
{
    let chars = to_chars(content);
    let key_chars = to_chars(key);
    let lines = split_lines(&chars);
    let mut i: usize = 0;
    proof {
        assert(line_views(lines@).skip(0) =~= line_views(lines@));
    }
    while i < lines.len()
        invariant
            i <= lines@.len(),
            key_chars@ == key@,
            line_views(lines@) == lines_of(content@),
            first_value(line_views(lines@).skip(i as int), key@) == first_value(
                lines_of(content@),
                key@,
            ),
        decreases lines@.len() - i,
    {
        proof {
            let rest = line_views(lines@).skip(i as int);
            assert(rest[0] == lines@[i as int]@);
            assert(rest.drop_first() =~= line_views(lines@).skip(i as int + 1));
        }
        if has_prefix(&lines[i], &key_chars) {
            let after = slice_of(&lines[i], key_chars.len(), lines[i].len());
            proof {
                assert(after@ =~= lines@[i as int]@.skip(key@.len() as int));
            }
            return Some(strip(&after, CharClass::Quote));
        }
        i += 1;
    }
    None
}

/// The version of the system, from what `source` holds: on Linux the
/// release file, whose `VERSION_ID` is the version; on macOS the answer of
/// the version tool, without the whitespace around it. Windows does not tell.
pub open spec fn os_version(target_os: TargetOs, source: Option<Seq<char>>) -> Option<Seq<char>> {
    match (target_os, source) {
        (TargetOs::Linux, Some(content)) => first_value(lines_of(content), "VERSION_ID="@),
        (TargetOs::MacOs, Some(answer)) => Some(trimmed(answer)),
        _ => None,
    }
}

/// The version of the system.
pub fn detect_os_version(target_os: TargetOs, source: Option<&str>) -> (version: Option<String>)
    ensures
        os_version(
            target_os,
            match source {
                Some(s) => Some(s@),
                None => None,
            },
        ) is None ==> version is None,
        os_version(
            target_os,
            match source {
                Some(s) => Some(s@),
                None => None,
            },
        ) matches Some(text) ==> (version matches Some(v) && v@ == text),
{
    match target_os {
        TargetOs::Linux => match source {
            Some(content) => release_value(content, "VERSION_ID="),
            None => None,
        },
        TargetOs::MacOs => match source {
            Some(answer) => Some(trim(answer)),
            None => None,
        },
        _ => None,
    }
}

/// Which of the distributions' marker files exist.
#[derive(Debug, Clone, Copy)]
pub struct DistroMarkers {
    pub debian_version: bool,
    pub fedora_release: bool,
    pub arch_release: bool,
    pub suse_release: bool,
}

/// The distribution that the marker files point to.
pub open spec fn distribution_by_marker(markers: DistroMarkers) -> Option<Seq<char>> {
    if markers.debian_version {
        Some("debian"@)
    } else if markers.fedora_release {
        Some("fedora"@)
    } else if markers.arch_release {
        Some("arch"@)
    } else if markers.suse_release {
        Some("opensuse"@)
    } else {
        None
    }
}

/// The distribution's identifier as the release file writes it, if the file
/// was read and sets one.
pub open spec fn release_id(os_release: Option<Seq<char>>) -> Option<Seq<char>> {
    match os_release {
        Some(content) => first_value(lines_of(content), "ID="@),
        None => None,
    }
}

/// The distribution: the release file's `ID` in lower case, else what the
/// marker files point to.
pub open spec fn linux_distribution(os_release: Option<Seq<char>>, markers: DistroMarkers) -> Option<
    Seq<char>,
> {
    match release_id(os_release) {
        Some(id) => Some(lowercase_of(id)),
        None => distribution_by_marker(markers),
    }
}

/// The distribution's identifier as the release file writes it.
pub fn distribution_id(os_release: Option<&str>) -> (id: Option<String>)
    ensures
        release_id(
            match os_release {
                Some(s) => Some(s@),
                None => None,
            },
        ) is None ==> id is None,
        release_id(
            match os_release {
                Some(s) => Some(s@),
                None => None,
            },
        ) matches Some(text) ==> (id matches Some(v) && v@ == text),
{
    match os_release {
        Some(content) => release_value(content, "ID="),
        None => None,
    }
}

/// The distribution that the marker files point to.
pub fn distribution_from_markers(markers: &DistroMarkers) -> (distribution: Option<String>)
    ensures
        distribution_by_marker(*markers) is None ==> distribution is None,
        distribution_by_marker(*markers) matches Some(text) ==> (distribution matches Some(v)
            && v@ == text),
{
    if markers.debian_version {
        Some(String::from_str("debian"))
    } else if markers.fedora_release {
        Some(String::from_str("fedora"))
    } else if markers.arch_release {
        Some(String::from_str("arch"))
    } else if markers.suse_release {
        Some(String::from_str("opensuse"))
    } else {
        None
    }
}

/// The Linux distribution, from the release file, `None` where it could
/// not be read, and the marker files.
pub fn detect_linux_distribution(os_release: Option<&str>, markers: &DistroMarkers) -> (distribution:
    Option<String>)
    ensures
        linux_distribution(
            match os_release {
                Some(s) => Some(s@),
                None => None,
            },
            *markers,
        ) is None ==> distribution is None,
        linux_distribution(
            match os_release {
                Some(s) => Some(s@),
                None => None,
            },
            *markers,
        ) matches Some(text) ==> (distribution matches Some(v) && v@ == text),
{
    match distribution_id(os_release) {
        Some(id) => Some(to_lowercase(id.as_str())),
        None => distribution_from_markers(markers),
    }
}

/// The last word of a line: its last run of characters that are not
/// whitespace. Empty where the line holds nothing but whitespace.
pub open spec fn last_word(line: Seq<char>) -> Seq<char> {
    let body = line.take(line.len() - trailing_run(line, CharClass::Whitespace));
    body.skip(body.len() - trailing_run(body, CharClass::NotWhitespace))
}

/// The line tells the Vulkan version.
pub open spec fn mentions_version(line: Seq<char>) -> bool {
    contains_text(line, "Vulkan Instance Version:"@) || contains_text(line, "apiVersion"@)
}

/// The version told by the first line that tells one.
pub open spec fn version_in(lines: Seq<Seq<char>>) -> Option<Seq<char>>
    decreases lines.len(),
{
    if lines.len() == 0 {
        None
    } else if mentions_version(lines[0]) && last_word(lines[0]).len() > 0 {
        Some(last_word(lines[0]))
    } else {
        version_in(lines.drop_first())
    }
}

/// Where the last word of `chars` begins and ends.
fn last_word_bounds(chars: &Vec<char>) -> (bounds: (usize, usize))
    ensures
        bounds.0 <= bounds.1 <= chars@.len(),
        chars@.subrange(bounds.0 as int, bounds.1 as int) == last_word(chars@),
{
    let len: usize = chars.len();
    let mut end: usize = len;
    while end > 0 && is_whitespace_char(chars[end - 1])
        invariant
            end <= len,
            len == chars@.len(),
            forall|k: int| end <= k < len ==> in_class(CharClass::Whitespace, chars@[k]),
        decreases end,
    {
        end -= 1;
    }
    proof {
        lemma_trailing_run(chars@, CharClass::Whitespace, len - end);
    }
    let ghost body = chars@.take(end as int);
    let mut start: usize = end;
    while start > 0 && !is_whitespace_char(chars[start - 1])
        invariant
            start <= end <= len,
            len == chars@.len(),
            forall|k: int| start <= k < end ==> in_class(CharClass::NotWhitespace, chars@[k]),
        decreases start,
    {
        start -= 1;
    }
    proof {
        assert forall|k: int| body.len() - (end - start) <= k < body.len() implies in_class(
            CharClass::NotWhitespace,
            body[k],
        ) by {
            assert(body[k] == chars@[k]);
        }
        if end - start < body.len() {
            assert(body[body.len() - (end - start) - 1] == chars@[start - 1]);
        }
        lemma_trailing_run(body, CharClass::NotWhitespace, end - start);
        assert(body.skip(body.len() - (end - start)) =~= chars@.subrange(
            start as int,
            end as int,
        ));
    }
    (start, end)
}

/// The Vulkan version in the summary that the Vulkan tool printed: the last
/// word of the first line that names the instance version or the API version.
pub fn get_vulkan_version(summary: &str) -> (version: Option<String>)
    ensures
        version_in(lines_of(summary@)) is None ==> version is None,
        version_in(lines_of(summary@)) matches Some(text) ==> (version matches Some(v) && v@
            == text),
{
    let chars = to_chars(summary);
    let instance = to_chars("Vulkan Instance Version:");
    let api = to_chars("apiVersion");
    let lines = split_lines(&chars);
    let mut i: usize = 0;
    proof {
        assert(line_views(lines@).skip(0) =~= line_views(lines@));
    }
    while i < lines.len()
        invariant
            i <= lines@.len(),
            instance@ == "Vulkan Instance Version:"@,
            api@ == "apiVersion"@,
            line_views(lines@) == lines_of(summary@),
            version_in(line_views(lines@).skip(i as int)) == version_in(lines_of(summary@)),
        decreases lines@.len() - i,
    {
        proof {
            let rest = line_views(lines@).skip(i as int);
            assert(rest[0] == lines@[i as int]@);
            assert(rest.drop_first() =~= line_views(lines@).skip(i as int + 1));
        }
        if contains_chars(&lines[i], &instance) || contains_chars(&lines[i], &api) {
            let (start, end) = last_word_bounds(&lines[i]);
            if start < end {
                return Some(text_of(&lines[i], start, end));
            }
        }
        i += 1;
    }
    None
}

} // verus!
