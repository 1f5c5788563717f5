//! The template source's decisions: which session-table updates become
//! template messages, and how their fields are read.

use vstd::prelude::*;
use crate::messages::IPFixTemplatesMessage;
use crate::stats::names_view;
use crate::text::{push_char, str_eq, string_of};

verus! {

/// Table whose keys name telemetry sessions.
pub const STATE_HIGH_FREQUENCY_TELEMETRY_SESSION_TABLE: &'static str = "HIGH_FREQUENCY_TELEMETRY_SESSION_TABLE";

/// Fields of one session-table entry.
#[derive(Debug)]
pub struct SessionData {
    pub stream_status: String,
    pub session_type: String,
    pub object_names: String,
    pub object_ids: String,
    pub session_config: Vec<u8>,
}

/// Why a session update is dropped.
#[derive(Debug, Clone, Copy, PartialEq, Eq, Structural)]
pub enum SessionError {
    /// An enabled IPFIX session without a template bundle.
    EmptyConfig,
}

impl Default for SessionData {
    fn default() -> (r: Self)
        ensures
            r.stream_status@.len() == 0,
            r.session_type@.len() == 0,
            r.object_names@.len() == 0,
            r.object_ids@.len() == 0,
            r.session_config@.len() == 0,
    {
        SessionData {
            stream_status: String::new(),
            session_type: String::new(),
            object_names: String::new(),
            object_ids: String::new(),
            session_config: Vec::new(),
        }
    }
}

/// Whether Rust's `char::is_whitespace` holds of `c`.
pub open spec fn is_ws(c: char) -> bool {
    c == ' ' || ('\u{9}' <= c && c <= '\u{d}') || c == '\u{85}' || c == '\u{a0}' || c == '\u{1680}'
        || ('\u{2000}' <= c && c <= '\u{200a}') || c == '\u{2028}' || c == '\u{2029}' || c == '\u{202f}'
        || c == '\u{205f}' || c == '\u{3000}'
}

/// `s` without leading whitespace.
pub open spec fn trim_start(s: Seq<char>) -> Seq<char>
    decreases s.len(),
{
    if s.len() > 0 && is_ws(s[0]) {
        trim_start(s.subrange(1, s.len() as int))
    } else {
        s
    }
}

/// `s` without trailing whitespace.
pub open spec fn trim_end(s: Seq<char>) -> Seq<char>
    decreases s.len(),
{
    if s.len() > 0 && is_ws(s.last()) {
        trim_end(s.drop_last())
    } else {
        s
    }
}

pub open spec fn trim(s: Seq<char>) -> Seq<char> {
    trim_end(trim_start(s))
}

/// The pieces of `s` between commas.
pub open spec fn comma_pieces(s: Seq<char>) -> Seq<Seq<char>>
    decreases s.len(),
{
    if s.len() == 0 {
        seq![seq![]]
    } else {
        let p = comma_pieces(s.drop_last());
        if s.last() == ',' {
            p.push(seq![])
        } else {
            p.update(p.len() - 1, p.last().push(s.last()))
        }
    }
}

/// Trimmed pieces with the empty ones removed.
pub open spec fn kept_names(ps: Seq<Seq<char>>) -> Seq<Seq<char>>
    decreases ps.len(),
{
    if ps.len() == 0 {
        seq![]
    } else {
        let k = kept_names(ps.drop_last());
        if trim(ps.last()).len() > 0 { k.push(trim(ps.last())) } else { k }
    }
}

/// Object names of a comma-separated field: split on `,`, trimmed, empty ones removed.
pub open spec fn split_object_names(s: Seq<char>) -> Seq<Seq<char>> {
    kept_names(comma_pieces(s))
}

/// Session key of a table key: what follows the first `|` when the key
/// starts with the session table's name.
pub open spec fn session_key_of(full: Seq<char>) -> Seq<char> {
    let t = STATE_HIGH_FREQUENCY_TELEMETRY_SESSION_TABLE@;
    if (exists|i: int| 0 <= i < full.len() && full[i] == '|') && full.len() >= t.len() && full.subrange(0, t.len() as int) == t {
        full.subrange((choose|i: int| 0 <= i < full.len() && full[i] == '|' && forall|j: int| 0 <= j < i ==> full[j] != '|') + 1, full.len() as int)
    } else {
        full
    }
}

/// What an update of session `key` becomes: nothing unless the session is
/// enabled and of type IPFIX; an error when its template bundle is empty;
/// else an upsert with the object names, none when the field holds none.
pub open spec fn session_outcome(key: Seq<char>, status: Seq<char>, kind: Seq<char>, names: Seq<char>, config: Seq<u8>) -> Result<Option<(Seq<char>, Seq<u8>, Option<Seq<Seq<char>>>)>, SessionError> {
    if status != "enabled"@ || kind != "ipfix"@ {
        Ok(None)
    } else if config.len() == 0 {
        Err(SessionError::EmptyConfig)
    } else {
        let n = split_object_names(names);
        Ok(Some((key, config, if n.len() == 0 { None } else { Some(n) })))
    }
}

fn chars_to_string(v: &Vec<char>, from: usize, to: usize) -> (r: String)
    requires
        from <= to <= v@.len(),
    ensures
        r@ == v@.subrange(from as int, to as int),
{
    let mut s = String::new();
    let mut i = from;
    while i < to
        invariant
            from <= i <= to <= v@.len(),
            s@ == v@.subrange(from as int, i as int),
        decreases to - i,
    {
        push_char(&mut s, v[i]);
        i = i + 1;
        assert(s@ =~= v@.subrange(from as int, i as int));
    }
    s
}

fn is_whitespace(c: char) -> (r: bool)
    ensures
        r == is_ws(c),
{
    c == ' ' || ('\u{9}' <= c && c <= '\u{d}') || c == '\u{85}' || c == '\u{a0}' || c == '\u{1680}'
        || ('\u{2000}' <= c && c <= '\u{200a}') || c == '\u{2028}' || c == '\u{2029}' || c == '\u{202f}'
        || c == '\u{205f}' || c == '\u{3000}'
}

/// `v` trimmed of whitespace at both ends.
fn trimmed(v: &Vec<char>) -> (r: String)
    ensures
        r@ == trim(v@),
{
    let n = v.len();
    let mut a: usize = 0;
    assert(v@.subrange(0, n as int) =~= v@);
    while a < n && is_whitespace(v[a])
        invariant
            a <= n == v@.len(),
            trim_start(v@) == trim_start(v@.subrange(a as int, n as int)),
        decreases n - a,
    {
        assert(v@.subrange(a as int, n as int).subrange(1, (n - a) as int) =~= v@.subrange(a + 1, n as int));
        a = a + 1;
    }
    let mut b: usize = n;
    assert(trim_start(v@) == v@.subrange(a as int, n as int));
    while b > a && is_whitespace(v[b - 1])
        invariant
            a <= b <= n == v@.len(),
            trim(v@) == trim_end(v@.subrange(a as int, b as int)),
        decreases b - a,
    {
        assert(v@.subrange(a as int, b as int).drop_last() =~= v@.subrange(a as int, b - 1));
        b = b - 1;
    }
    chars_to_string(v, a, b)
}

/// Splits a comma-separated field into trimmed, non-empty names.
pub fn split_names(s: &str) -> (r: Vec<String>)
    ensures
        names_view(r@) == split_object_names(s@),
{
    let n = s.unicode_len();
    let mut out: Vec<String> = Vec::new();
    let mut cur: Vec<char> = Vec::new();
    let mut i: usize = 0;
    assert(s@.take(0) =~= Seq::<char>::empty());
    assert(comma_pieces(s@.take(0)).drop_last() =~= Seq::<Seq<char>>::empty());
    assert(names_view(out@) =~= Seq::<Seq<char>>::empty());
    while i < n
        invariant
            i <= n == s@.len(),
            names_view(out@) == kept_names(comma_pieces(s@.take(i as int)).drop_last()),
            cur@ == comma_pieces(s@.take(i as int)).last(),
            comma_pieces(s@.take(i as int)).len() > 0,
        decreases n - i,
    {
        let ghost ps = comma_pieces(s@.take(i as int));
        assert(s@.take(i + 1).drop_last() =~= s@.take(i as int));
        let c = s.get_char(i);
        if c == ',' {
            let t = trimmed(&cur);
            let ghost old_out = out@;
            if t.unicode_len() > 0 {
                out.push(t);
                assert(names_view(out@) =~= names_view(old_out).push(t@));
            }
            assert(comma_pieces(s@.take(i + 1)).drop_last() =~= ps);
            assert(ps.drop_last().push(ps.last()) =~= ps);
            cur = Vec::new();
            assert(cur@ =~= comma_pieces(s@.take(i + 1)).last());
        } else {
            cur.push(c);
            assert(comma_pieces(s@.take(i + 1)).drop_last() =~= ps.drop_last());
        }
        i = i + 1;
    }
    let ghost ps = comma_pieces(s@.take(n as int));
    let t = trimmed(&cur);
    if t.unicode_len() > 0 {
        let ghost old_out = out@;
        out.push(t);
        assert(names_view(out@) =~= names_view(old_out).push(t@));
    }
    assert(s@.take(n as int) =~= s@);
    assert(ps.drop_last().push(ps.last()) =~= ps);
    out
}

impl SessionData {
    /// Stores one field of a session entry: `text` is its value as text,
    /// `raw` its bytes; unknown fields are ignored.
    pub fn apply_field(&mut self, field: &str, text: String, raw: Vec<u8>)
        ensures
            field@ == "stream_status"@ ==> final(self).stream_status@ == text@,
            field@ != "stream_status"@ ==> final(self).stream_status@ == old(self).stream_status@,
            field@ == "session_type"@ ==> final(self).session_type@ == text@,
            field@ != "session_type"@ ==> final(self).session_type@ == old(self).session_type@,
            field@ == "object_names"@ ==> final(self).object_names@ == text@,
            field@ != "object_names"@ ==> final(self).object_names@ == old(self).object_names@,
            field@ == "object_ids"@ ==> final(self).object_ids@ == text@,
            field@ != "object_ids"@ ==> final(self).object_ids@ == old(self).object_ids@,
            field@ == "session_config"@ ==> final(self).session_config@ == raw@,
            field@ != "session_config"@ ==> final(self).session_config@ == old(self).session_config@,
    {
        proof {
            reveal_strlit("stream_status");
            reveal_strlit("session_type");
            reveal_strlit("object_names");
            reveal_strlit("object_ids");
            reveal_strlit("session_config");
            assert("session_type"@.len() != "stream_status"@.len());
            assert("object_names"@.len() != "stream_status"@.len());
            assert("object_names"@[0] != "session_type"@[0]);
            assert("object_ids"@.len() != "stream_status"@.len());
            assert("object_ids"@.len() != "session_type"@.len());
            assert("object_ids"@.len() != "object_names"@.len());
            assert("session_config"@.len() != "stream_status"@.len());
            assert("session_config"@.len() != "session_type"@.len());
            assert("session_config"@.len() != "object_names"@.len());
            assert("session_config"@.len() != "object_ids"@.len());
        }
        if str_eq(field, "stream_status") {
            self.stream_status = text;
        } else if str_eq(field, "session_type") {
            self.session_type = text;
        } else if str_eq(field, "object_names") {
            self.object_names = text;
        } else if str_eq(field, "object_ids") {
            self.object_ids = text;
        } else if str_eq(field, "session_config") {
            self.session_config = raw;
        }
    }
}

pub open spec fn message_outcome(m: IPFixTemplatesMessage) -> (Seq<char>, Seq<u8>, Option<Seq<Seq<char>>>) {
    (m.key@, match m.templates { Some(t) => t@, None => seq![] }, match m.object_names {
        Some(n) => Some(names_view(n@)),
        None => None,
    })
}

/// The template message an update of session `key` becomes, if any.
pub fn validate_and_process_session(key: &str, session_data: &SessionData) -> (r: Result<Option<IPFixTemplatesMessage>, SessionError>)
    ensures
        match session_outcome(key@, session_data.stream_status@, session_data.session_type@,
            session_data.object_names@, session_data.session_config@) {
            Ok(None) => r matches Ok(None),
            Ok(Some(o)) => r matches Ok(Some(m)) && !m.is_delete && m.templates is Some && message_outcome(m) == o,
            Err(e) => r == Err::<Option<IPFixTemplatesMessage>, SessionError>(e),
        },
{
    if !str_eq(session_data.stream_status.as_str(), "enabled") {
        return Ok(None);
    }
    if !str_eq(session_data.session_type.as_str(), "ipfix") {
        return Ok(None);
    }
    if session_data.session_config.len() == 0 {
        return Err(SessionError::EmptyConfig);
    }
    let mut templates: Vec<u8> = Vec::new();
    crate::bytes::push_range(&mut templates, session_data.session_config.as_slice(), 0, session_data.session_config.len());
    assert(templates@ =~= session_data.session_config@);
    let names = split_names(session_data.object_names.as_str());
    let object_names = if names.len() == 0 { None } else { Some(names) };
    Ok(Some(IPFixTemplatesMessage::new(string_of(key), templates, object_names)))
}

/// Session key of a session-table key.
pub fn extract_session_key(full_key: &str) -> (r: String)
    ensures
        r@ == session_key_of(full_key@),
{
    let n = full_key.unicode_len();
    let t = STATE_HIGH_FREQUENCY_TELEMETRY_SESSION_TABLE;
    let tn = t.unicode_len();
    let mut i: usize = 0;
    while i < n && full_key.get_char(i) != '|'
        invariant
            i <= n == full_key@.len(),
            forall|j: int| 0 <= j < i ==> full_key@[j] != '|',
        decreases n - i,
    {
        i = i + 1;
    }
    if i == n {
        return string_of(full_key);
    }
    let mut prefix = true;
    if tn > n {
        prefix = false;
    } else {
        let mut k: usize = 0;
        while k < tn
            invariant
                k <= tn <= n,
                tn == t@.len(),
                n == full_key@.len(),
                prefix <==> forall|j: int| 0 <= j < k ==> full_key@[j] == t@[j],
            decreases tn - k,
        {
            if full_key.get_char(k) != t.get_char(k) {
                prefix = false;
            }
            k = k + 1;
        }
    }
    if !prefix {
        proof {
            if n >= tn {
                assert(full_key@.subrange(0, tn as int) != t@) by {
                    let j = choose|j: int| 0 <= j < tn && full_key@[j] != t@[j];
                    assert(full_key@.subrange(0, tn as int)[j] != t@[j]);
                }
            }
        }
        return string_of(full_key);
    }
    assert(full_key@.subrange(0, tn as int) =~= t@);
    let ghost w = choose|p: int| 0 <= p < full_key@.len() && full_key@[p] == '|' && forall|j: int| 0 <= j < p ==> full_key@[j] != '|';
    assert(w == i);
    let mut v: Vec<char> = Vec::new();
    let mut k: usize = i + 1;
    while k < n
        invariant
            i < k <= n == full_key@.len(),
            v@ == full_key@.subrange(i + 1, k as int),
        decreases n - k,
    {
        v.push(full_key.get_char(k));
        k = k + 1;
        assert(v@ =~= full_key@.subrange(i + 1, k as int));
    }
    chars_to_string(&v, 0, v.len())
}

/// Consecutive failed reads of the session table after which the failure
/// is taken as permanent.
pub const MAX_CONSECUTIVE_READ_ERRORS: u32 = 50;

/// What the template source does after a read of the session table.
#[derive(Debug, Clone, Copy, PartialEq, Eq, Structural)]
pub enum ReadAction {
    /// Go on reading.
    Continue,
    /// Wait briefly, then read again.
    BackOff,
    /// The failure is permanent: end the task.
    Stop,
}

/// Failed reads of the session table in a row.
#[derive(Debug, Clone, Copy, PartialEq, Eq, Structural)]
pub struct ReadFailures {
    pub consecutive: u32,
}

impl ReadFailures {
    pub fn new() -> (r: Self)
        ensures
            r.consecutive == 0,
    {
        ReadFailures { consecutive: 0 }
    }

    /// A read succeeded or failed: a success clears the count; a failure is a
    /// transient error to back off from, until the count reaches the limit,
    /// when it is permanent.
    pub fn on_read(&mut self, ok: bool) -> (r: ReadAction)
        ensures
            ok ==> final(self).consecutive == 0 && r == ReadAction::Continue,
            !ok ==> final(self).consecutive == if old(self).consecutive == u32::MAX {
                u32::MAX
            } else {
                (old(self).consecutive + 1) as u32
            },
            !ok ==> r == if final(self).consecutive >= MAX_CONSECUTIVE_READ_ERRORS {
                ReadAction::Stop
            } else {
                ReadAction::BackOff
            },
    {
        if ok {
            self.consecutive = 0;
            return ReadAction::Continue;
        }
        self.consecutive = self.consecutive.saturating_add(1);
        if self.consecutive >= MAX_CONSECUTIVE_READ_ERRORS {
            ReadAction::Stop
        } else {
            ReadAction::BackOff
        }
    }
}

} // verus!
