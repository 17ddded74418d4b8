//! Parsing of raw protocol lines into chat messages.
//!
//! A line carries an optional tag section, a message source and a command.
//! The speaker's name is taken from the `display-name=` tag when one is
//! present, else from the short account name in the message source
//! (`:name!...`). The content is the trailing payload of the chat-message
//! command (`PRIVMSG <target>:<payload>`), trimmed of surrounding
//! whitespace. A line yields a message exactly when both a name and a
//! payload were found.
//!
//! Each extraction scans for the leftmost position where its pattern
//! matches; the spec functions below state those positions and captures
//! directly over the line's characters.

use vstd::prelude::*;

verus! {

/// A parsed chat message: who spoke and what they said.
#[derive(Debug)]
pub struct ChatMessage {
    pub username: String,
    pub content: String,
}

impl ChatMessage {
    /// The pair of character sequences this message stands for.
    pub open spec fn model(&self) -> (Seq<char>, Seq<char>) {
        (self.username@, self.content@)
    }
}

// ---------------------------------------------------------------------
// Character searching
// ---------------------------------------------------------------------

/// The first index at or after `from` holding the character `c`, if any.
pub open spec fn first_at_or_after(s: Seq<char>, from: int, c: char) -> Option<int>
    decreases s.len() - from,
{
    if from >= s.len() {
        None
    } else if from >= 0 && s[from] == c {
        Some(from)
    } else {
        first_at_or_after(s, from + 1, c)
    }
}

/// Scan for the first occurrence of `c` at or after index `from`.
pub fn find_char_at_or_after(s: &str, from: usize, c: char) -> (r: Option<usize>)
    requires
        from <= s@.len(),
    ensures
        match r {
            Some(k) => from <= k < s@.len() && first_at_or_after(s@, from as int, c) == Some(
                k as int,
            ),
            None => first_at_or_after(s@, from as int, c) is None,
        },
{
    let n = s.unicode_len();
    let mut i = from;
    while i < n
        invariant
            from <= i <= n,
            n == s@.len(),
            first_at_or_after(s@, from as int, c) == first_at_or_after(s@, i as int, c),
        decreases n - i,
    {
        if s.get_char(i) == c {
            return Some(i);
        }
        i = i + 1;
    }
    None
}

// ---------------------------------------------------------------------
// Fixed-pattern occurrence
// ---------------------------------------------------------------------

/// Whether the characters of `pat` stand in `s` starting at index `i`.
pub fn pattern_at(s: &str, i: usize, pat: &str) -> (b: bool)
    requires
        i + pat@.len() <= s@.len(),
    ensures
        b == (s@.subrange(i as int, i + pat@.len()) == pat@),
{
    let n = s.unicode_len();
    let m = pat.unicode_len();
    let mut j: usize = 0;
    while j < m
        invariant
            0 <= j <= m,
            m == pat@.len(),
            n == s@.len(),
            i + m <= n,
            forall|k: int| 0 <= k < j ==> s@[i + k] == pat@[k],
        decreases m - j,
    {
        if s.get_char(i + j) != pat.get_char(j) {
            assert(s@.subrange(i as int, i + pat@.len())[j as int] != pat@[j as int]);
            return false;
        }
        j = j + 1;
    }
    assert(s@.subrange(i as int, i + pat@.len()) =~= pat@);
    true
}

// ---------------------------------------------------------------------
// Whitespace and trimming
// ---------------------------------------------------------------------

/// The whitespace characters that trimming removes.
pub open spec fn is_wspace(c: char) -> bool {
    ||| c == ' '
    ||| c == '\u{9}'
    ||| c == '\u{A}'
    ||| c == '\u{B}'
    ||| c == '\u{C}'
    ||| c == '\u{D}'
    ||| c == '\u{85}'
    ||| c == '\u{A0}'
    ||| c == '\u{1680}'
    ||| c == '\u{2000}'
    ||| c == '\u{2001}'
    ||| c == '\u{2002}'
    ||| c == '\u{2003}'
    ||| c == '\u{2004}'
    ||| c == '\u{2005}'
    ||| c == '\u{2006}'
    ||| c == '\u{2007}'
    ||| c == '\u{2008}'
    ||| c == '\u{2009}'
    ||| c == '\u{200A}'
    ||| c == '\u{2028}'
    ||| c == '\u{2029}'
    ||| c == '\u{202F}'
    ||| c == '\u{205F}'
    ||| c == '\u{3000}'
}

/// Decide whether `c` is a whitespace character.
pub fn whitespace_char(c: char) -> (r: bool)
    ensures
        r == is_wspace(c),
{
    c == ' ' || c == '\u{9}' || c == '\u{A}' || c == '\u{B}' || c == '\u{C}' || c == '\u{D}'
        || c == '\u{85}' || c == '\u{A0}' || c == '\u{1680}' || c == '\u{2000}' || c == '\u{2001}'
        || c == '\u{2002}' || c == '\u{2003}' || c == '\u{2004}' || c == '\u{2005}' || c
        == '\u{2006}' || c == '\u{2007}' || c == '\u{2008}' || c == '\u{2009}' || c == '\u{200A}'
        || c == '\u{2028}' || c == '\u{2029}' || c == '\u{202F}' || c == '\u{205F}' || c
        == '\u{3000}'
}

/// The first index at or after `i` holding a non-whitespace character,
/// or the length when none is left.
pub open spec fn first_non_ws_from(s: Seq<char>, i: int) -> int
    decreases s.len() - i,
{
    if i >= s.len() {
        s.len() as int
    } else if i >= 0 && !is_wspace(s[i]) {
        i
    } else {
        first_non_ws_from(s, i + 1)
    }
}

/// One past the last non-whitespace character strictly before index `i`,
/// or 0 when none stands there.
pub open spec fn end_non_ws_before(s: Seq<char>, i: int) -> int
    decreases i,
{
    if i <= 0 {
        0
    } else if !is_wspace(s[i - 1]) {
        i
    } else {
        end_non_ws_before(s, i - 1)
    }
}

/// `s` with surrounding whitespace removed.
pub open spec fn trimmed(s: Seq<char>) -> Seq<char> {
    if first_non_ws_from(s, 0) == s.len() {
        Seq::empty()
    } else {
        s.subrange(first_non_ws_from(s, 0), end_non_ws_before(s, s.len() as int))
    }
}

/// Remove surrounding whitespace.
pub fn trim_str(s: &str) -> (r: String)
    ensures
        r@ == trimmed(s@),
{
    let n = s.unicode_len();
    let mut a: usize = 0;
    while a < n && whitespace_char(s.get_char(a))
        invariant
            0 <= a <= n,
            n == s@.len(),
            first_non_ws_from(s@, 0) == first_non_ws_from(s@, a as int),
        decreases n - a,
    {
        a = a + 1;
    }
    if a == n {
        assert(first_non_ws_from(s@, a as int) == s@.len());
        return String::new();
    }
    assert(first_non_ws_from(s@, 0) == a as int);
    let mut b: usize = n;
    while whitespace_char(s.get_char(b - 1))
        invariant
            a < b <= n,
            n == s@.len(),
            a == first_non_ws_from(s@, 0),
            !is_wspace(s@[a as int]),
            end_non_ws_before(s@, n as int) == end_non_ws_before(s@, b as int),
        decreases b,
    {
        assert(b - 1 != a) by {
            assert(!is_wspace(s@[a as int]));
        }
        b = b - 1;
    }
    assert(end_non_ws_before(s@, n as int) == b as int);
    let out = s.substring_char(a, b);
    out.to_owned()
}

// ---------------------------------------------------------------------
// Display-name extraction: the leftmost `display-name=` tag followed by
// at least one character other than `;`; the value runs to the next `;`
// or to the end of the line.
// ---------------------------------------------------------------------

/// The tag that announces a display name.
pub open spec fn dn_tag() -> Seq<char> {
    "display-name="@
}

/// Whether a display-name tag with a non-empty value starts at `i`.
pub open spec fn dn_match_at(s: Seq<char>, i: int) -> bool {
    &&& 0 <= i
    &&& i + dn_tag().len() < s.len()
    &&& s.subrange(i, i + dn_tag().len()) == dn_tag()
    &&& s[i + dn_tag().len()] != ';'
}

/// The leftmost display-name match at or after `i`, if any.
pub open spec fn first_dn_from(s: Seq<char>, i: int) -> Option<int>
    decreases s.len() - i,
{
    if i >= s.len() {
        None
    } else if dn_match_at(s, i) {
        Some(i)
    } else {
        first_dn_from(s, i + 1)
    }
}

/// Where the display-name value starting at `start` ends: the next `;`,
/// or the end of the line.
pub open spec fn dn_value_end(s: Seq<char>, start: int) -> int {
    match first_at_or_after(s, start, ';') {
        Some(e) => e,
        None => s.len() as int,
    }
}

/// The display name the line carries, if any.
pub open spec fn display_name_of(s: Seq<char>) -> Option<Seq<char>> {
    match first_dn_from(s, 0) {
        Some(i) => Some(
            s.subrange(i + dn_tag().len(), dn_value_end(s, i + dn_tag().len())),
        ),
        None => None,
    }
}

/// Extract the display name, if the line carries one.
pub fn find_display_name(s: &str) -> (r: Option<String>)
    ensures
        match r {
            Some(u) => display_name_of(s@) == Some(u@),
            None => display_name_of(s@) is None,
        },
{
    let tag = "display-name=";
    assert(tag@ == dn_tag());
    let m = tag.unicode_len();
    let n = s.unicode_len();
    let mut i: usize = 0;
    while i < n
        invariant
            0 <= i <= n,
            n == s@.len(),
            tag@ == dn_tag(),
            m == dn_tag().len(),
            first_dn_from(s@, 0) == first_dn_from(s@, i as int),
        decreases n - i,
    {
        if m < n - i && pattern_at(s, i, tag) && s.get_char(i + m) != ';' {
            assert(dn_match_at(s@, i as int));
            assert(first_dn_from(s@, i as int) == Some(i as int));
            let start = i + m;
            let end = match find_char_at_or_after(s, start, ';') {
                Some(e) => e,
                None => n,
            };
            assert(end == dn_value_end(s@, start as int));
            let value = s.substring_char(start, end);
            return Some(value.to_owned());
        }
        assert(!dn_match_at(s@, i as int));
        i = i + 1;
    }
    None
}

// ---------------------------------------------------------------------
// Source-name extraction: the leftmost `:` followed by at least one
// character other than `!` and then a `!`; the capture is what stands
// between the `:` and that first `!`.
// ---------------------------------------------------------------------

/// Whether a message-source name starts at `i`.
pub open spec fn src_match_at(s: Seq<char>, i: int) -> bool {
    &&& 0 <= i < s.len()
    &&& s[i] == ':'
    &&& match first_at_or_after(s, i + 1, '!') {
        Some(j) => j > i + 1,
        None => false,
    }
}

/// The leftmost source-name match at or after `i`, if any.
pub open spec fn first_src_from(s: Seq<char>, i: int) -> Option<int>
    decreases s.len() - i,
{
    if i >= s.len() {
        None
    } else if src_match_at(s, i) {
        Some(i)
    } else {
        first_src_from(s, i + 1)
    }
}

/// The short account name from the line's message source, if any.
pub open spec fn source_name_of(s: Seq<char>) -> Option<Seq<char>> {
    match first_src_from(s, 0) {
        Some(i) => match first_at_or_after(s, i + 1, '!') {
            Some(j) => Some(s.subrange(i + 1, j)),
            None => None,
        },
        None => None,
    }
}

/// Extract the short account name from the message source, if present.
pub fn find_source_name(s: &str) -> (r: Option<String>)
    ensures
        match r {
            Some(u) => source_name_of(s@) == Some(u@),
            None => source_name_of(s@) is None,
        },
{
    let n = s.unicode_len();
    let mut i: usize = 0;
    while i < n
        invariant
            0 <= i <= n,
            n == s@.len(),
            first_src_from(s@, 0) == first_src_from(s@, i as int),
        decreases n - i,
    {
        if s.get_char(i) == ':' {
            match find_char_at_or_after(s, i + 1, '!') {
                Some(j) => {
                    if j > i + 1 {
                        assert(src_match_at(s@, i as int));
                        assert(first_src_from(s@, i as int) == Some(i as int));
                        let value = s.substring_char(i + 1, j);
                        return Some(value.to_owned());
                    }
                },
                None => {},
            }
        }
        assert(!src_match_at(s@, i as int));
        i = i + 1;
    }
    None
}

// ---------------------------------------------------------------------
// Payload extraction: the leftmost `PRIVMSG ` followed by at least one
// character other than `:`, then a `:`; the payload is everything after
// that `:`, and must be non-empty before trimming.
// ---------------------------------------------------------------------

/// The chat-message command and its trailing space.
pub open spec fn pm_tag() -> Seq<char> {
    "PRIVMSG "@
}

/// Whether a chat-message command with a payload starts at `i`.
pub open spec fn pm_match_at(s: Seq<char>, i: int) -> bool {
    &&& 0 <= i
    &&& i + pm_tag().len() < s.len()
    &&& s.subrange(i, i + pm_tag().len()) == pm_tag()
    &&& s[i + pm_tag().len()] != ':'
    &&& match first_at_or_after(s, i + pm_tag().len(), ':') {
        Some(j) => j + 1 < s.len(),
        None => false,
    }
}

/// The leftmost chat-message match at or after `i`, if any.
pub open spec fn first_pm_from(s: Seq<char>, i: int) -> Option<int>
    decreases s.len() - i,
{
    if i >= s.len() {
        None
    } else if pm_match_at(s, i) {
        Some(i)
    } else {
        first_pm_from(s, i + 1)
    }
}

/// The trimmed payload of the line's chat-message command, if any.
pub open spec fn content_of(s: Seq<char>) -> Option<Seq<char>> {
    match first_pm_from(s, 0) {
        Some(i) => match first_at_or_after(s, i + pm_tag().len(), ':') {
            Some(j) => Some(trimmed(s.subrange(j + 1, s.len() as int))),
            None => None,
        },
        None => None,
    }
}

/// Extract the trimmed chat-message payload, if the line carries one.
pub fn find_content(s: &str) -> (r: Option<String>)
    ensures
        match r {
            Some(c) => content_of(s@) == Some(c@),
            None => content_of(s@) is None,
        },
{
    let tag = "PRIVMSG ";
    assert(tag@ == pm_tag());
    let m = tag.unicode_len();
    let n = s.unicode_len();
    let mut i: usize = 0;
    while i < n
        invariant
            0 <= i <= n,
            n == s@.len(),
            tag@ == pm_tag(),
            m == pm_tag().len(),
            first_pm_from(s@, 0) == first_pm_from(s@, i as int),
        decreases n - i,
    {
        if m < n - i && pattern_at(s, i, tag) && s.get_char(i + m) != ':' {
            match find_char_at_or_after(s, i + m, ':') {
                Some(j) => {
                    if j + 1 < n {
                        assert(pm_match_at(s@, i as int));
                        assert(first_pm_from(s@, i as int) == Some(i as int));
                        let raw = s.substring_char(j + 1, n);
                        return Some(trim_str(raw));
                    }
                },
                None => {},
            }
        }
        assert(!pm_match_at(s@, i as int));
        i = i + 1;
    }
    None
}

// ---------------------------------------------------------------------
// Parsing a whole line
// ---------------------------------------------------------------------

/// The speaker's name: the display name when the line carries one, else
/// the short account name from the message source.
pub open spec fn name_of(s: Seq<char>) -> Option<Seq<char>> {
    match display_name_of(s) {
        Some(u) => Some(u),
        None => source_name_of(s),
    }
}

/// What parsing a line yields: a username and a content, or nothing.
pub open spec fn parse_spec(s: Seq<char>) -> Option<(Seq<char>, Seq<char>)> {
    match (name_of(s), content_of(s)) {
        (Some(u), Some(c)) => Some((u, c)),
        _ => None,
    }
}

/// Whether an exec parse result stands for what the spec says of `s`.
pub open spec fn parse_result_matches(r: Option<ChatMessage>, s: Seq<char>) -> bool {
    match r {
        Some(m) => parse_spec(s) == Some(m.model()),
        None => parse_spec(s) is None,
    }
}

/// Parse one raw protocol line into a chat message, if it carries one.
pub fn parse_message(message: &str) -> (r: Option<ChatMessage>)
    ensures
        parse_result_matches(r, message@),
{
    let username = match find_display_name(message) {
        Some(u) => Some(u),
        None => find_source_name(message),
    };
    let content = find_content(message);
    match (username, content) {
        (Some(username), Some(content)) => Some(ChatMessage { username, content }),
        _ => None,
    }
}

// ---------------------------------------------------------------------
// Laws of name selection
// ---------------------------------------------------------------------

/// A scan that starts at or before a display-name match finds one.
pub proof fn lemma_dn_scan_finds_match(s: Seq<char>, j: int, i: int)
    requires
        0 <= j <= i,
        dn_match_at(s, i),
    ensures
        first_dn_from(s, j) is Some,
    decreases i - j,
{
    if j < i && !dn_match_at(s, j) {
        lemma_dn_scan_finds_match(s, j + 1, i);
    }
}

/// A scan over a line without any display-name match finds none.
pub proof fn lemma_dn_scan_finds_none(s: Seq<char>, j: int)
    requires
        forall|i: int| !(#[trigger] dn_match_at(s, i)),
    ensures
        first_dn_from(s, j) is None,
    decreases s.len() - j,
{
    if j < s.len() {
        lemma_dn_scan_finds_none(s, j + 1);
    }
}

/// A scan that starts at or before a message-source match finds one.
pub proof fn lemma_src_scan_finds_match(s: Seq<char>, j: int, i: int)
    requires
        0 <= j <= i,
        src_match_at(s, i),
    ensures
        first_src_from(s, j) is Some,
    decreases i - j,
{
    if j < i && !src_match_at(s, j) {
        lemma_src_scan_finds_match(s, j + 1, i);
    }
}

/// What a message-source scan finds is itself a match.
pub proof fn lemma_src_scan_sound(s: Seq<char>, j: int)
    ensures
        first_src_from(s, j) matches Some(k) ==> src_match_at(s, k),
    decreases s.len() - j,
{
    if j < s.len() && !src_match_at(s, j) {
        lemma_src_scan_sound(s, j + 1);
    }
}

/// Law: on a line that carries a display-name tag anywhere — `witness` is
/// where one matches — the parsed username is that tag's value, never the
/// message-source short name.
pub proof fn lemma_display_name_precedence(s: Seq<char>, witness: int)
    requires
        dn_match_at(s, witness),
    ensures
        display_name_of(s) is Some,
        name_of(s) == display_name_of(s),
        parse_spec(s) is Some ==> parse_spec(s)->Some_0.0 == display_name_of(s)->Some_0,
{
    lemma_dn_scan_finds_match(s, 0, witness);
}

/// Law: on a line with no display-name match anywhere whose message
/// source matches — `witness` is where — the parsed username is the short
/// name from that source.
pub proof fn lemma_source_name_fallback(s: Seq<char>, witness: int)
    requires
        forall|i: int| !(#[trigger] dn_match_at(s, i)),
        src_match_at(s, witness),
    ensures
        display_name_of(s) is None,
        source_name_of(s) is Some,
        name_of(s) == source_name_of(s),
        parse_spec(s) is Some ==> parse_spec(s)->Some_0.0 == source_name_of(s)->Some_0,
{
    lemma_dn_scan_finds_none(s, 0);
    lemma_src_scan_finds_match(s, 0, witness);
    lemma_src_scan_sound(s, 0);
}

/// Law: a line missing an extractable name, or missing a chat-message
/// payload, yields no message.
pub proof fn lemma_missing_part_yields_none(s: Seq<char>)
    requires
        name_of(s) is None || content_of(s) is None,
    ensures
        parse_spec(s) is None,
{
}

} // verus!
