//! The chat-ingest worker's decisions.
//!
//! The worker around this module owns the connection: it sends the
//! authentication sequence, reads one line at a time, and polls the shared
//! cancellation flag. Everything it then *decides* stands here, verified:
//! what the authentication lines are, whether a line is a keep-alive
//! probe, and what to do with each line read.

use vstd::prelude::*;
use crate::parse::ChatMessage;
use crate::parse::parse_message;
use crate::parse::parse_spec;
use crate::parse::pattern_at;

verus! {

// ---------------------------------------------------------------------
// Keep-alive probes
// ---------------------------------------------------------------------

/// The start of a server keep-alive probe line.
pub open spec fn ping_tag() -> Seq<char> {
    "PING"@
}

/// Whether a line is a server keep-alive probe.
pub open spec fn ping_probe(l: Seq<char>) -> bool {
    l.len() >= ping_tag().len() && l.subrange(0, ping_tag().len() as int) == ping_tag()
}

/// Decide whether a line is a keep-alive probe.
pub fn is_ping_probe(line: &str) -> (r: bool)
    ensures
        r == ping_probe(line@),
{
    let tag = "PING";
    assert(tag@ == ping_tag());
    let m = tag.unicode_len();
    let n = line.unicode_len();
    if n < m {
        return false;
    }
    pattern_at(line, 0, tag)
}

/// The reply owed to each keep-alive probe.
pub fn keep_alive_reply() -> (r: String)
    ensures
        r@ == "PONG\r\n"@,
{
    let mut r = String::new();
    r.append("PONG\r\n");
    r
}

// ---------------------------------------------------------------------
// The per-line decision
// ---------------------------------------------------------------------

/// What reading one line (or failing to) gave the ingest worker.
pub enum ReadEvent {
    /// the server closed the connection: an empty read
    Closed,
    /// one line, stripped of its terminator or not; parsing tolerates both
    Line(String),
    /// the read itself failed
    Failed,
}

/// What the ingest worker does with one iteration's observations.
pub enum IngestAction {
    /// the shared flag was observed set: stop cooperatively
    StopCancelled,
    /// the connection was closed: stop, a normal terminal condition
    StopClosed,
    /// a read error: stop and report upward
    StopFailed,
    /// answer the probe with one keep-alive reply on the same connection
    ReplyKeepAlive,
    /// push this message onto the message relay
    Forward(ChatMessage),
    /// an unparsable line: drop it silently and read on
    Ignore,
}

/// Decide one iteration of the ingest loop. `cancelled_before` is the
/// flag polled before processing the line; `cancelled_after` is the flag
/// polled again after the keep-alive check.
pub fn ingest_step(cancelled_before: bool, ev: ReadEvent, cancelled_after: bool) -> (a:
    IngestAction)
    ensures
        cancelled_before ==> a is StopCancelled,
        !cancelled_before && ev is Closed ==> a is StopClosed,
        !cancelled_before && ev is Failed ==> a is StopFailed,
        !cancelled_before && ev is Line && ping_probe(ev->Line_0@) ==> a is ReplyKeepAlive,
        !cancelled_before && ev is Line && !ping_probe(ev->Line_0@) && cancelled_after ==> a
            is StopCancelled,
        !cancelled_before && ev is Line && !ping_probe(ev->Line_0@) && !cancelled_after ==> (
        match a {
            IngestAction::Forward(m) => parse_spec(ev->Line_0@) == Some(m.model()),
            IngestAction::Ignore => parse_spec(ev->Line_0@) is None,
            _ => false,
        }),
        // a keep-alive probe never yields a chat message, whatever the flag says
        ev is Line && ping_probe(ev->Line_0@) ==> !(a is Forward),
{
    if cancelled_before {
        return IngestAction::StopCancelled;
    }
    match ev {
        ReadEvent::Closed => IngestAction::StopClosed,
        ReadEvent::Failed => IngestAction::StopFailed,
        ReadEvent::Line(l) => {
            if is_ping_probe(l.as_str()) {
                IngestAction::ReplyKeepAlive
            } else if cancelled_after {
                IngestAction::StopCancelled
            } else {
                match parse_message(l.as_str()) {
                    Some(m) => IngestAction::Forward(m),
                    None => IngestAction::Ignore,
                }
            }
        },
    }
}

// ---------------------------------------------------------------------
// What a forwarded message says
// ---------------------------------------------------------------------

/// The utterance synthesized for a message: who spoke, then what they said.
pub open spec fn utterance_spec(u: Seq<char>, c: Seq<char>) -> Seq<char> {
    "user "@ + u + " said "@ + c
}

/// Render a message as the utterance handed to the synthesis worker.
pub fn utterance_of(m: &ChatMessage) -> (r: String)
    ensures
        r@ == utterance_spec(m.username@, m.content@),
{
    let mut r = String::new();
    r.append("user ");
    r.append(m.username.as_str());
    r.append(" said ");
    r.append(m.content.as_str());
    r
}

// ---------------------------------------------------------------------
// The ingest loop over a stretch of lines
// ---------------------------------------------------------------------

/// The utterances a stretch of lines produces, in arrival order: one per
/// parsable line that is no keep-alive probe, nothing for the rest.
pub open spec fn utterances_spec(lines: Seq<String>) -> Seq<Seq<char>>
    decreases lines.len(),
{
    if lines.len() == 0 {
        Seq::empty()
    } else {
        let l = lines[0]@;
        let rest = utterances_spec(lines.drop_first());
        if ping_probe(l) {
            rest
        } else {
            match parse_spec(l) {
                Some(m) => seq![utterance_spec(m.0, m.1)] + rest,
                None => rest,
            }
        }
    }
}

/// How many of the lines are keep-alive probes.
pub open spec fn probe_count(lines: Seq<String>) -> int
    decreases lines.len(),
{
    if lines.len() == 0 {
        0int
    } else {
        (if ping_probe(lines[0]@) {
            1int
        } else {
            0int
        }) + probe_count(lines.drop_first())
    }
}

/// The character sequences a stretch of strings stands for.
pub open spec fn views_of(us: Seq<String>) -> Seq<Seq<char>> {
    us.map_values(|u: String| u@)
}

/// Law: run the ingest decision over a stretch of lines, with the flag
/// clear throughout. What goes downstream is exactly one utterance per
/// parsable non-probe line, in arrival order; every probe line triggers
/// exactly one keep-alive reply and no message; everything else is
/// dropped silently.
pub fn ingest_batch(lines: Vec<String>) -> (r: (Vec<String>, usize))
    ensures
        views_of(r.0@) == utterances_spec(lines@),
        r.1 == probe_count(lines@),
{
    let ghost lines0 = lines@;
    let mut lines = lines;
    let total = lines.len();
    let mut utterances: Vec<String> = Vec::new();
    let mut replies: usize = 0;
    proof {
        lemma_probe_count_bounds(lines0);
    }
    while lines.len() > 0
        invariant
            views_of(utterances@) + utterances_spec(lines@) == utterances_spec(lines0),
            replies + probe_count(lines@) == probe_count(lines0),
            lines0.len() == total,
            0 <= probe_count(lines0) <= lines0.len(),
            0 <= probe_count(lines@) <= lines@.len(),
        decreases lines@.len(),
    {
        let ghost before = lines@;
        let l = lines.remove(0);
        proof {
            assert(before.remove(0) =~= before.drop_first());
            lemma_probe_count_bounds(lines@);
        }
        match ingest_step(false, ReadEvent::Line(l), false) {
            IngestAction::ReplyKeepAlive => {
                replies = replies + 1;
            },
            IngestAction::Forward(m) => {
                let ghost utts_before = utterances@;
                let u = utterance_of(&m);
                utterances.push(u);
                proof {
                    assert(views_of(utterances@) =~= views_of(utts_before).push(u@));
                    assert(views_of(utts_before).push(u@) + utterances_spec(lines@)
                        =~= views_of(utts_before) + (seq![u@] + utterances_spec(lines@)));
                }
            },
            IngestAction::Ignore => {},
            _ => {
                // with the flag clear, a line is answered, forwarded or
                // dropped; nothing else
                assert(false);
            },
        }
    }
    (utterances, replies)
}

/// A probe count is never negative and never exceeds the line count.
pub proof fn lemma_probe_count_bounds(lines: Seq<String>)
    ensures
        0 <= probe_count(lines) <= lines.len(),
    decreases lines.len(),
{
    if lines.len() > 0 {
        lemma_probe_count_bounds(lines.drop_first());
    }
}

// ---------------------------------------------------------------------
// The authentication sequence
// ---------------------------------------------------------------------

/// The nickname used when the caller names none.
pub open spec fn default_nickname() -> Seq<char> {
    "justinfan12345"@
}

/// `s` with every leading `#` removed.
pub open spec fn strip_hashes(s: Seq<char>) -> Seq<char>
    decreases s.len(),
{
    if s.len() > 0 && s[0] == '#' {
        strip_hashes(s.drop_first())
    } else {
        s
    }
}

/// Remove every leading `#` from a channel name.
pub fn strip_channel_hashes(s: &str) -> (r: String)
    ensures
        r@ == strip_hashes(s@),
{
    let n = s.unicode_len();
    let mut i: usize = 0;
    assert(s@.subrange(0, n as int) =~= s@);
    while i < n && s.get_char(i) == '#'
        invariant
            0 <= i <= n,
            n == s@.len(),
            strip_hashes(s@) == strip_hashes(s@.subrange(i as int, n as int)),
        decreases n - i,
    {
        assert(s@.subrange(i as int, n as int).drop_first() =~= s@.subrange(
            i + 1,
            n as int,
        ));
        i = i + 1;
    }
    let out = s.substring_char(i, n);
    assert(strip_hashes(s@.subrange(i as int, n as int)) == s@.subrange(i as int, n as int));
    out.to_owned()
}

/// The four lines of the anonymous authentication handshake, in the order
/// they are sent: password placeholder, nickname, channel join, and the
/// capability request.
pub fn auth_sequence(channel: &str, nickname: Option<&str>) -> (lines: Vec<String>)
    ensures
        lines@.len() == 4,
        lines@[0]@ == "PASS SCHMOOPIIE\r\n"@,
        lines@[1]@ == "NICK "@ + (match nickname {
            Some(n) => n@,
            None => default_nickname(),
        }) + "\r\n"@,
        lines@[2]@ == "JOIN #"@ + strip_hashes(channel@) + "\r\n"@,
        lines@[3]@ == "CAP REQ :twitch.tv/tags twitch.tv/commands twitch.tv/membership\r\n"@,
{
    let mut lines: Vec<String> = Vec::new();

    let mut pass = String::new();
    pass.append("PASS SCHMOOPIIE\r\n");
    lines.push(pass);

    let mut nick = String::new();
    nick.append("NICK ");
    match nickname {
        Some(n) => nick.append(n),
        None => {
            let d = "justinfan12345";
            assert(d@ == default_nickname());
            nick.append(d);
        },
    }
    nick.append("\r\n");
    lines.push(nick);

    let mut join = String::new();
    join.append("JOIN #");
    let stripped = strip_channel_hashes(channel);
    join.append(stripped.as_str());
    join.append("\r\n");
    lines.push(join);

    let mut cap = String::new();
    cap.append("CAP REQ :twitch.tv/tags twitch.tv/commands twitch.tv/membership\r\n");
    lines.push(cap);

    lines
}

} // verus!
