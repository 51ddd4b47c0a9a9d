//! Turning the lines of a process's output into events, and harvesting the
//! session identifier from its standard output.

use vstd::prelude::*;
use crate::engine::{Engine, opt_text};

verus! {

/// What a query reports to its caller.
#[derive(Clone, Debug, PartialEq, Eq)]
pub enum StreamEvent {
    /// A line of standard output, verbatim.
    Message { query_id: String, data: String, engine: Engine },
    /// A line of standard error, verbatim.
    Error { query_id: String, data: String },
    /// The end of the query; always its last event.
    Done { query_id: String, exit_code: i32, session_id: Option<String> },
}

/// Unicode's `White_Space` property.
pub open spec fn is_white_space(c: char) -> bool {
    let n = c as u32;
    n == 0x20 || (0x09 <= n && n <= 0x0D) || n == 0x85 || n == 0xA0 || n == 0x1680 || (0x2000 <= n
        && n <= 0x200A) || n == 0x2028 || n == 0x2029 || n == 0x202F || n == 0x205F || n == 0x3000
}

/// A line with nothing but white space; such lines are dropped.
pub open spec fn is_blank(line: Seq<char>) -> bool {
    forall|i: int| 0 <= i < line.len() ==> is_white_space(#[trigger] line[i])
}

/// The string value that a line, read as a JSON document, holds under a
/// key of its top-level object; `None` when the line is no JSON, not an
/// object, lacks the key or holds no string there.
pub uninterp spec fn json_string_field(line: Seq<char>, key: Seq<char>) -> Option<Seq<char>>;

/// Relies on `serde_json::from_str::<serde_json::Value>` to parse the line,
/// and on `Value::get` and `Value::as_str` to read a string member of the
/// parsed object; the result depends on the two texts alone.
#[verifier::external_body]
fn read_string_field(line: &str, key: &str) -> (r: Option<String>)
    ensures
        opt_text(r) == json_string_field(line@, key@),
{
    match serde_json::from_str::<serde_json::Value>(line) {
        Ok(v) => v.get(key).and_then(|x| x.as_str()).map(|x| x.to_string()),
        Err(_) => None,
    }
}

/// The session identifier a non-blank line of standard output carries.
pub open spec fn carried_session(line: Seq<char>) -> Option<Seq<char>> {
    if is_blank(line) { None } else { json_string_field(line, "session_id"@) }
}

/// Whether a line carries a non-empty session identifier.
pub open spec fn carries_session(line: Seq<char>) -> bool {
    carried_session(line) is Some && carried_session(line)->0.len() > 0
}

/// The remembered session after seeing a field: a non-empty value replaces
/// the current one, anything else keeps it.
pub open spec fn absorb_session(current: Option<Seq<char>>, field: Option<Seq<char>>) -> Option<Seq<char>> {
    match field {
        Some(s) => if s.len() > 0 { Some(s) } else { current },
        None => current,
    }
}

/// The session remembered after a run of standard-output lines.
pub open spec fn relay_session(lines: Seq<Seq<char>>) -> Option<Seq<char>>
    decreases lines.len(),
{
    if lines.len() == 0 {
        None
    } else {
        absorb_session(relay_session(lines.drop_last()), carried_session(lines.last()))
    }
}

/// Whether a character is white space.
pub fn white_space(c: char) -> (r: bool)
    ensures
        r == is_white_space(c),
{
    let n = c as u32;
    n == 0x20 || (0x09 <= n && n <= 0x0D) || n == 0x85 || n == 0xA0 || n == 0x1680 || (0x2000 <= n
        && n <= 0x200A) || n == 0x2028 || n == 0x2029 || n == 0x202F || n == 0x205F || n == 0x3000
}

/// Whether a line holds nothing but white space.
pub fn blank(line: &str) -> (r: bool)
    ensures
        r == is_blank(line@),
{
    let n = line.unicode_len();
    let mut i: usize = 0;
    while i < n
        invariant
            n == line@.len(),
            i <= n,
            forall|k: int| 0 <= k < i ==> is_white_space(#[trigger] line@[k]),
        decreases n - i,
    {
        if !white_space(line.get_char(i)) {
            return false;
        }
        i += 1;
    }
    true
}

/// Keeps the newer of two session identifiers: `field` when it is
/// non-empty, `current` otherwise.
pub fn absorb(current: Option<String>, field: Option<String>) -> (r: Option<String>)
    ensures
        opt_text(r) == absorb_session(opt_text(current), opt_text(field)),
{
    match field {
        Some(s) => if s.as_str().unicode_len() > 0 {
            Some(s)
        } else {
            current
        },
        None => current,
    }
}

/// The reader of one query's standard output.
pub struct StdoutRelay {
    pub query_id: String,
    pub engine: Engine,
    /// The last non-empty session identifier seen so far.
    pub session: Option<String>,
}

impl StdoutRelay {
    pub fn new(query_id: String, engine: Engine) -> (r: StdoutRelay)
        ensures
            r.query_id == query_id,
            r.engine == engine,
            r.session is None,
    {
        StdoutRelay { query_id, engine, session: None }
    }

    /// Takes one line together with the session field read from it: a blank
    /// line is dropped; any other line becomes a message, verbatim, and its
    /// field is absorbed into the remembered session.
    pub fn accept_with_field(&mut self, line: String, field: Option<String>) -> (r: Option<StreamEvent>)
        ensures
            final(self).query_id == old(self).query_id,
            final(self).engine == old(self).engine,
            is_blank(line@) ==> r is None && final(self).session == old(self).session,
            !is_blank(line@) ==> r == Some(
                StreamEvent::Message { query_id: old(self).query_id, data: line, engine: old(self).engine },
            ) && opt_text(final(self).session) == absorb_session(opt_text(old(self).session), opt_text(field)),
    {
        if blank(line.as_str()) {
            return None;
        }
        let current = self.session.take();
        self.session = absorb(current, field);
        Some(StreamEvent::Message { query_id: self.query_id.clone(), data: line, engine: self.engine })
    }

    /// Takes one line of standard output; see `accept_with_field`. The
    /// field is the line's `session_id` member when the line is a JSON object.
    pub fn accept(&mut self, line: String) -> (r: Option<StreamEvent>)
        ensures
            final(self).query_id == old(self).query_id,
            final(self).engine == old(self).engine,
            is_blank(line@) ==> r is None,
            !is_blank(line@) ==> r == Some(
                StreamEvent::Message { query_id: old(self).query_id, data: line, engine: old(self).engine },
            ),
            opt_text(final(self).session) == absorb_session(opt_text(old(self).session), carried_session(line@)),
    {
        if blank(line.as_str()) {
            return None;
        }
        let field = read_string_field(line.as_str(), "session_id");
        self.accept_with_field(line, field)
    }

    /// The session identifier the stream leaves behind.
    pub fn finish(self) -> (r: Option<String>)
        ensures
            r == self.session,
    {
        self.session
    }
}

/// The event for one line of standard error: none for a blank line, else the
/// line verbatim.
pub fn stderr_event(query_id: &String, line: String) -> (r: Option<StreamEvent>)
    ensures
        is_blank(line@) ==> r is None,
        !is_blank(line@) ==> r == Some(StreamEvent::Error { query_id: *query_id, data: line }),
{
    if blank(line.as_str()) {
        None
    } else {
        Some(StreamEvent::Error { query_id: query_id.clone(), data: line })
    }
}

/// The session reported at the end of a stream is the last non-empty
/// identifier that any of its lines carried, whatever later lines hold; with
/// no such line there is none.
pub proof fn lemma_last_session_wins(lines: Seq<Seq<char>>)
    ensures
        (exists|i: int| 0 <= i < lines.len() && carries_session(#[trigger] lines[i])) ==> exists|i: int|
            0 <= i < lines.len() && carries_session(#[trigger] lines[i]) && relay_session(lines)
                == carried_session(lines[i]) && forall|j: int|
                i < j < lines.len() ==> !carries_session(#[trigger] lines[j]),
        !(exists|i: int| 0 <= i < lines.len() && carries_session(#[trigger] lines[i])) ==> relay_session(
            lines,
        ) is None,
    decreases lines.len(),
{
    if lines.len() > 0 {
        let init = lines.drop_last();
        lemma_last_session_wins(init);
        let n = lines.len() - 1;
        assert forall|k: int| 0 <= k < init.len() implies init[k] == lines[k] by {}
        if carries_session(lines[n]) {
            assert(relay_session(lines) == carried_session(lines[n]));
        } else {
            assert(relay_session(lines) == relay_session(init));
            if exists|i: int| 0 <= i < lines.len() && carries_session(#[trigger] lines[i]) {
                let i = choose|i: int| 0 <= i < lines.len() && carries_session(#[trigger] lines[i]);
                assert(carries_session(init[i]));
                let w = choose|w: int|
                    0 <= w < init.len() && carries_session(#[trigger] init[w]) && relay_session(init)
                        == carried_session(init[w]) && forall|j: int|
                        w < j < init.len() ==> !carries_session(#[trigger] init[j]);
                assert(carries_session(lines[w]));
                assert forall|j: int| w < j < lines.len() implies !carries_session(#[trigger] lines[j]) by {
                    if j < n {
                        assert(init[j] == lines[j]);
                    }
                }
            } else {
                assert forall|k: int| 0 <= k < init.len() implies !carries_session(#[trigger] init[k]) by {
                    assert(init[k] == lines[k]);
                }
            }
        }
    }
}

} // verus!
