//! The libraries that haxelib reports as installed: the version notation of
//! one library, and the listing that `haxelib list` prints.

use vstd::prelude::*;
use vstd::utf8::{decode_utf8, valid_utf8};

use crate::text::{chars_of, index_of, lemma_index_of_at, lemma_index_of_bounds, lines, split_lines};

verus! {

/// The version of an installed library, as haxelib writes it between brackets.
#[derive(Debug, Clone, PartialEq, Eq)]
pub enum LibraryVersion {
    /// The library is checked out from a git repository.
    Git,
    /// A release from the haxelib registry.
    Haxelib { semver: String },
    /// A development directory.
    Dev { path: String },
}

/// The mathematical value of a `LibraryVersion`.
pub enum LibraryVersionView {
    Git,
    Haxelib { semver: Seq<char> },
    Dev { path: Seq<char> },
}

impl View for LibraryVersion {
    type V = LibraryVersionView;

    open spec fn view(&self) -> LibraryVersionView {
        match self {
            LibraryVersion::Git => LibraryVersionView::Git,
            LibraryVersion::Haxelib { semver } => LibraryVersionView::Haxelib { semver: semver@ },
            LibraryVersion::Dev { path } => LibraryVersionView::Dev { path: path@ },
        }
    }
}

/// ASCII lower case of `c`; other characters stay as they are.
pub open spec fn ascii_lower(c: char) -> char {
    if 'A' <= c && c <= 'Z' {
        ((c as u32) + 32) as char
    } else {
        c
    }
}

/// `s` is `git` in any mix of ASCII cases (`str::eq_ignore_ascii_case`).
pub open spec fn is_git(s: Seq<char>) -> bool {
    &&& s.len() == 3
    &&& ascii_lower(s[0]) == 'g'
    &&& ascii_lower(s[1]) == 'i'
    &&& ascii_lower(s[2]) == 't'
}

/// The prefix that marks a development directory.
pub open spec fn dev_prefix() -> Seq<char> {
    seq!['d', 'e', 'v', ':']
}

/// What a version text stands for: `git` in any case is a git checkout, a
/// text that begins with `dev:` names a development directory (the rest of
/// the text), and any other text is a registry version.
pub open spec fn parse_version(s: Seq<char>) -> LibraryVersionView {
    if is_git(s) {
        LibraryVersionView::Git
    } else if s.len() >= 4 && s.take(4) == dev_prefix() {
        LibraryVersionView::Dev { path: s.skip(4) }
    } else {
        LibraryVersionView::Haxelib { semver: s }
    }
}

fn lower_is(c: char, lower: char) -> (res: bool)
    requires
        'a' <= lower && lower <= 'z',
    ensures
        res == (ascii_lower(c) == lower),
{
    if 'A' <= c && c <= 'Z' {
        (c as u32) + 32 == (lower as u32)
    } else {
        c == lower
    }
}

/// Reads a version text of haxelib.
pub fn parse_version_string(version_str: &str) -> (res: LibraryVersion)
    ensures
        res@ == parse_version(version_str@),
{
    let n = version_str.unicode_len();
    if n == 3 && lower_is(version_str.get_char(0), 'g') && lower_is(version_str.get_char(1), 'i')
        && lower_is(version_str.get_char(2), 't') {
        LibraryVersion::Git
    } else if n >= 4 && version_str.get_char(0) == 'd' && version_str.get_char(1) == 'e'
        && version_str.get_char(2) == 'v' && version_str.get_char(3) == ':' {
        assert(version_str@.take(4) =~= dev_prefix());
        LibraryVersion::Dev { path: version_str.substring_char(4, n).to_string() }
    } else {
        assert(n >= 4 ==> version_str@.take(4)[0] == version_str@[0]);
        assert(n >= 4 ==> version_str@.take(4)[1] == version_str@[1]);
        assert(n >= 4 ==> version_str@.take(4)[2] == version_str@[2]);
        assert(n >= 4 ==> version_str@.take(4)[3] == version_str@[3]);
        LibraryVersion::Haxelib { semver: version_str.to_string() }
    }
}


/// The text that the pattern `\[(?P<version>[^\]]+)\]` captures as `version`
/// at its leftmost match in `s`: the characters after the first `[` that a
/// later `]` closes with at least one character between them, none of which
/// is `]`.
pub open spec fn bracket_capture(s: Seq<char>) -> Option<Seq<char>>
    decreases s.len(),
{
    if s.len() == 0 {
        None
    } else {
        let k = index_of(s.drop_first(), ']');
        if s[0] == '[' && 0 < k && k < s.len() - 1 {
            Some(s.drop_first().take(k))
        } else {
            bracket_capture(s.drop_first())
        }
    }
}

/// The pattern that picks the version out of a line of `haxelib list`.
pub const LIBRARY_VERSION_PATTERN: &'static str = r"\[(?P<version>[^\]]+)\]";

/// Captures a named group of a regular expression with the `regex` crate.
///
/// Trusted: `regex::Regex::captures`, for the one pattern that this library
/// uses, is taken to return the leftmost-first match that the crate
/// documents, whose group `version` is `bracket_capture` of the text.
#[verifier::external_body]
fn regex_capture(pattern: &str, group: &str, text: &str) -> (res: Option<String>)
    requires
        pattern@ == LIBRARY_VERSION_PATTERN@,
        group@ == "version"@,
    ensures
        res is Some <==> bracket_capture(text@) is Some,
        res matches Some(v) ==> Some(v@) == bracket_capture(text@),
{
    match regex::Regex::new(pattern).unwrap().captures(text) {
        Some(captures) => match captures.name(group) {
            Some(m) => Some(m.as_str().to_string()),
            None => None,
        },
        None => None,
    }
}

/// The library that a line of `haxelib list` reports: its name is what
/// precedes the first `:`, its version the bracketed text. A line without
/// either reports none.
pub open spec fn listing_entry(line: Seq<char>) -> Option<(Seq<char>, LibraryVersionView)> {
    let colon = index_of(line, ':');
    if colon < line.len() {
        match bracket_capture(line) {
            Some(v) => Some((line.take(colon), parse_version(v))),
            None => None,
        }
    } else {
        None
    }
}

/// The libraries that the lines report, in the order of the lines.
pub open spec fn listing_entries(ls: Seq<Seq<char>>) -> Seq<(Seq<char>, LibraryVersionView)>
    decreases ls.len(),
{
    if ls.len() == 0 {
        seq![]
    } else {
        match listing_entry(ls.last()) {
            Some(e) => listing_entries(ls.drop_last()).push(e),
            None => listing_entries(ls.drop_last()),
        }
    }
}

/// The version of `name` that the last of the entries for it gives.
pub open spec fn latest_version(
    es: Seq<(Seq<char>, LibraryVersionView)>,
    name: Seq<char>,
) -> Option<LibraryVersionView>
    decreases es.len(),
{
    if es.len() == 0 {
        None
    } else if es.last().0 == name {
        Some(es.last().1)
    } else {
        latest_version(es.drop_last(), name)
    }
}

/// No name occurs twice in the table.
pub open spec fn names_distinct(t: Seq<(String, LibraryVersion)>) -> bool {
    forall|i: int, j: int| 0 <= i < j < t.len() ==> t[i].0@ != t[j].0@
}

/// The table maps each name to the version that the last entry for it
/// gives, as a map filled by inserting the entries in order would.
pub open spec fn table_of(t: Seq<(String, LibraryVersion)>, es: Seq<(Seq<char>, LibraryVersionView)>) -> bool {
    &&& names_distinct(t)
    &&& forall|i: int| 0 <= i < t.len() ==> latest_version(es, #[trigger] t[i].0@) == Some(t[i].1@)
    &&& forall|name: Seq<char>|
        #[trigger] latest_version(es, name) is Some ==> exists|i: int| 0 <= i < t.len() && t[i].0@ == name
}

/// The libraries that a `haxelib list` listing reports.
pub open spec fn installed_libraries(listing: Seq<char>) -> Seq<(Seq<char>, LibraryVersionView)> {
    listing_entries(lines(listing))
}

fn record_library(
    table: &mut Vec<(String, LibraryVersion)>,
    name: String,
    version: LibraryVersion,
    Ghost(es): Ghost<Seq<(Seq<char>, LibraryVersionView)>>,
)
    requires
        table_of(old(table)@, es),
    ensures
        table_of(final(table)@, es.push((name@, version@))),
{
    let ghost es2 = es.push((name@, version@));
    assert(es2.drop_last() =~= es);
    let n = table.len();
    let mut i: usize = 0;
    while i < n
        invariant
            n == table@.len(),
            i <= n,
            table_of(table@, es),
            es2 == es.push((name@, version@)),
            es2.drop_last() == es,
            forall|j: int| 0 <= j < i ==> table@[j].0@ != name@,
        decreases n - i,
    {
        if table[i].0 == name {
            let ghost before = table@;
            table.set(i, (name, version));
            assert forall|k: Seq<char>| #[trigger] latest_version(es2, k) is Some implies exists|j: int|
                0 <= j < table@.len() && table@[j].0@ == k by {
                if k != name@ {
                    assert(latest_version(es, k) is Some);
                    let j = choose|j: int| 0 <= j < before.len() && before[j].0@ == k;
                    assert(table@[j] == before[j]);
                } else {
                    assert(table@[i as int].0@ == k);
                }
            }
            assert forall|j: int| 0 <= j < table@.len() implies latest_version(es2, #[trigger] table@[j].0@)
                == Some(table@[j].1@) by {
                if j != i {
                    assert(table@[j] == before[j]);
                    assert(before[j].0@ != before[i as int].0@);
                }
            }
            return;
        }
        i = i + 1;
    }
    let ghost before = table@;
    table.push((name, version));
    assert forall|k: Seq<char>| #[trigger] latest_version(es2, k) is Some implies exists|j: int|
        0 <= j < table@.len() && table@[j].0@ == k by {
        if k != name@ {
            assert(latest_version(es, k) is Some);
            let j = choose|j: int| 0 <= j < before.len() && before[j].0@ == k;
            assert(table@[j] == before[j]);
        } else {
            assert(table@[n as int].0@ == k);
        }
    }
    assert forall|j: int| 0 <= j < table@.len() implies latest_version(es2, #[trigger] table@[j].0@) == Some(
        table@[j].1@,
    ) by {
        if j < n {
            assert(table@[j] == before[j]);
        }
    }
}

/// Position of the first `c` in `s`, or its length when there is none.
fn find_char(s: &str, c: char) -> (res: usize)
    ensures
        res == index_of(s@, c),
{
    let cs = chars_of(s);
    let n = cs.len();
    let mut i: usize = 0;
    while i < n && cs[i] != c
        invariant
            cs@ == s@,
            n == s@.len(),
            i <= n,
            forall|j: int| 0 <= j < i ==> s@[j] != c,
        decreases n - i,
    {
        i = i + 1;
    }
    proof {
        lemma_index_of_at(s@, c, i as int);
    }
    i
}

/// The library that one line of the listing reports, if any.
fn library_of_line(line: &str) -> (res: Option<(String, LibraryVersion)>)
    ensures
        match res {
            Some(e) => listing_entry(line@) == Some((e.0@, e.1@)),
            None => listing_entry(line@) is None,
        },
{
    let colon = find_char(line, ':');
    if colon < line.unicode_len() {
        match regex_capture(LIBRARY_VERSION_PATTERN, "version", line) {
            Some(v) => {
                let version = parse_version_string(v.as_str());
                Some((line.substring_char(0, colon).to_string(), version))
            },
            None => None,
        }
    } else {
        None
    }
}

/// The installed libraries that a `haxelib list` listing reports, each name
/// once, with the version of the last line that names it.
pub fn installed_libraries_in(listing: &str) -> (res: Vec<(String, LibraryVersion)>)
    ensures
        table_of(res@, installed_libraries(listing@)),
{
    let ls = split_lines(listing);
    let ghost all = lines(listing@);
    let mut table: Vec<(String, LibraryVersion)> = Vec::new();
    let n = ls.len();
    let mut i: usize = 0;
    assert(all.take(0) =~= Seq::<Seq<char>>::empty());
    while i < n
        invariant
            n == ls@.len(),
            n == all.len(),
            all == lines(listing@),
            forall|j: int| 0 <= j < ls@.len() ==> #[trigger] ls@[j]@ == all[j],
            i <= n,
            table_of(table@, listing_entries(all.take(i as int))),
        decreases n - i,
    {
        let ghost prefix = all.take(i as int);
        let ghost next = all.take(i + 1);
        assert(next.drop_last() =~= prefix);
        assert(next.last() == ls@[i as int]@);
        match library_of_line(ls[i]) {
            Some((name, version)) => {
                record_library(&mut table, name, version, Ghost(listing_entries(prefix)));
            },
            None => {},
        }
        i = i + 1;
    }
    assert(all.take(n as int) =~= all);
    table
}


/// The last line that names a library decides its version: whatever the
/// lines before it report, a line that reports `name` at `version` makes the
/// table map `name` to `version`.
pub proof fn law_last_line_decides(ls: Seq<Seq<char>>, line: Seq<char>, name: Seq<char>, version: LibraryVersionView)
    requires
        listing_entry(line) == Some((name, version)),
    ensures
        latest_version(listing_entries(ls.push(line)), name) == Some(version),
{
    assert(ls.push(line).drop_last() =~= ls);
}

/// A line that reports no library leaves the table as the lines before it
/// made it.
pub proof fn law_other_lines_change_nothing(ls: Seq<Seq<char>>, line: Seq<char>)
    requires
        listing_entry(line) is None,
    ensures
        listing_entries(ls.push(line)) == listing_entries(ls),
{
    assert(ls.push(line).drop_last() =~= ls);
}

/// A version text is read without losing any of it: a registry version is
/// the whole text, a development directory is the text after `dev:`, and a
/// git checkout is `git` in some mix of upper and lower case; `git`, `Git`
/// and `GIT` are all git checkouts.
pub proof fn law_version_text_is_kept(s: Seq<char>)
    ensures
        match parse_version(s) {
            LibraryVersionView::Git => s.len() == 3 && (s[0] == 'g' || s[0] == 'G') && (s[1] == 'i' || s[1]
                == 'I') && (s[2] == 't' || s[2] == 'T'),
            LibraryVersionView::Dev { path } => s == "dev:"@ + path,
            LibraryVersionView::Haxelib { semver } => semver == s && !(s.len() >= 4 && s.take(4) == "dev:"@),
        },
        s == "git"@ || s == "Git"@ || s == "GIT"@ ==> parse_version(s) == LibraryVersionView::Git,
{
    reveal_strlit("dev:");
    reveal_strlit("git");
    reveal_strlit("Git");
    reveal_strlit("GIT");
    assert("dev:"@ =~= dev_prefix());
    if s.len() >= 4 && s.take(4) == dev_prefix() {
        assert(s =~= s.take(4) + s.skip(4));
    }
    if is_git(s) {
        assert(s[0] == 'g' || s[0] == 'G');
        assert(s[1] == 'i' || s[1] == 'I');
        assert(s[2] == 't' || s[2] == 'T');
    }
}

proof fn lemma_bracket_capture_occurs(s: Seq<char>) -> (at: int)
    requires
        bracket_capture(s) is Some,
    ensures
        ({
            let v = bracket_capture(s)->0;
            &&& 0 <= at && at + v.len() + 2 <= s.len()
            &&& s.subrange(at, at + v.len() + 2) == seq!['['] + v + seq![']']
            &&& v.len() > 0
            &&& forall|i: int| 0 <= i < v.len() ==> v[i] != ']'
        }),
    decreases s.len(),
{
    let t = s.drop_first();
    let k = index_of(t, ']');
    lemma_index_of_bounds(t, ']');
    if s[0] == '[' && 0 < k && k < s.len() - 1 {
        let v = t.take(k);
        assert forall|i: int| 0 <= i < v.len() implies v[i] != ']' by {
            assert(v[i] == t[i]);
        }
        assert(s.subrange(0, k + 2) =~= seq!['['] + v + seq![']']);
        0
    } else {
        let at = lemma_bracket_capture_occurs(t);
        let v = bracket_capture(s)->0;
        assert(s.subrange(at + 1, at + 1 + v.len() + 2) =~= t.subrange(at, at + v.len() + 2));
        at + 1
    }
}

/// A line reports a library only where it holds a `:` and a non-empty
/// bracketed text without `]`: the name is all that precedes the first `:`,
/// and the version is read from the bracketed text.
pub proof fn law_listing_line_shape(line: Seq<char>)
    ensures
        listing_entry(line) matches Some((name, version)) ==> (exists|rest: Seq<char>| line == name + ":"@ + rest)
            && (forall|i: int| 0 <= i < name.len() ==> name[i] != ':'),
        listing_entry(line) matches Some((name, version)) ==> (bracket_capture(line) matches Some(v) && version
            == parse_version(v) && v.len() > 0 && (forall|i: int| 0 <= i < v.len() ==> v[i] != ']') && (exists|
            at: int,
        |
            0 <= at && at + v.len() + 2 <= line.len() && #[trigger] line.subrange(at, at + v.len() + 2) == "["@ + v
                + "]"@)),
        (forall|i: int| 0 <= i < line.len() ==> line[i] != ':') ==> listing_entry(line) is None,
        (forall|i: int| 0 <= i < line.len() ==> line[i] != '[') ==> listing_entry(line) is None,
{
    reveal_strlit(":");
    reveal_strlit("[");
    reveal_strlit("]");
    lemma_index_of_bounds(line, ':');
    let colon = index_of(line, ':');
    if let Some((name, version)) = listing_entry(line) {
        let rest = line.skip(colon + 1);
        assert(line =~= name + ":"@ + rest);
        let v = bracket_capture(line)->0;
        let at = lemma_bracket_capture_occurs(line);
        assert(seq!['['] + v + seq![']'] =~= "["@ + v + "]"@);
        assert(line.subrange(at, at + v.len() + 2) == "["@ + v + "]"@);
    }
    if forall|i: int| 0 <= i < line.len() ==> line[i] != '[' {
        if bracket_capture(line) is Some {
            let at = lemma_bracket_capture_occurs(line);
            assert(line[at] == line.subrange(at, at + bracket_capture(line)->0.len() + 2)[0]);
        }
    }
}


/// What `String::from_utf8_lossy` makes of `bytes`.
pub uninterp spec fn utf8_lossy(bytes: Seq<u8>) -> Seq<char>;

/// Decodes the output of a process as text.
///
/// Trusted: `String::from_utf8_lossy` is taken to be a function of the bytes
/// alone, named `utf8_lossy`, that gives back the decoded text unchanged when
/// the bytes are valid UTF-8 (as its documentation says). What it makes of
/// invalid sequences (U+FFFD in their place) is left unsaid.
#[verifier::external_body]
fn decode_utf8_lossy(bytes: &[u8]) -> (res: String)
    ensures
        res@ == utf8_lossy(bytes@),
        valid_utf8(bytes@) ==> res@ == decode_utf8(bytes@),
{
    String::from_utf8_lossy(bytes).into_owned()
}

/// The installed libraries that the standard output of `haxelib list`
/// reports, read as text the way `String::from_utf8_lossy` reads it.
pub fn installed_libraries_from_output(stdout: &[u8]) -> (res: Vec<(String, LibraryVersion)>)
    ensures
        table_of(res@, installed_libraries(utf8_lossy(stdout@))),
        valid_utf8(stdout@) ==> table_of(res@, installed_libraries(decode_utf8(stdout@))),
{
    let text = decode_utf8_lossy(stdout);
    installed_libraries_in(text.as_str())
}

} // verus!
