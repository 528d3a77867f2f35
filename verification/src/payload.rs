use vstd::prelude::*;
use vstd::string::*;

use crate::sim_monitor::{
    plain_json_char, plain_json_text, session_label, SessionType, SimMonitorState,
};
use crate::text::str_eq;

verus! {

// ---------------------------------------------------------------------------
// Topics
// ---------------------------------------------------------------------------

/// The topic that carries the derived state.
pub open spec fn spec_state_topic() -> Seq<char> {
    "homeassistant/sensor/iracing/state"@
}

/// The retained topic that carries the discovery registration.
pub open spec fn spec_config_topic() -> Seq<char> {
    "homeassistant/sensor/iracing/config"@
}

pub fn state_topic() -> (r: String)
    ensures
        r@ == spec_state_topic(),
{
    String::from_str("homeassistant/sensor/iracing/state")
}

pub fn config_topic() -> (r: String)
    ensures
        r@ == spec_config_topic(),
{
    String::from_str("homeassistant/sensor/iracing/config")
}

// ---------------------------------------------------------------------------
// The state payload
// ---------------------------------------------------------------------------

pub open spec fn spec_bool_text(b: bool) -> Seq<char> {
    if b {
        "true"@
    } else {
        "false"@
    }
}

pub open spec fn lit_head() -> Seq<char> {
    "{\"connected\":"@
}

pub open spec fn lit_sess_open() -> Seq<char> {
    ",\"current_session_type\":\""@
}

pub open spec fn lit_ts_open() -> Seq<char> {
    ",\"timestamp\":\""@
}

/// The JSON document published on the state topic. The pieces are grouped
/// to the right so that each parsing step peels one off the front.
pub open spec fn spec_state_payload(connected: bool, st: SessionType, ts: Seq<char>) -> Seq<char> {
    lit_head() + (spec_bool_text(connected) + (lit_sess_open() + (session_label(st) + ("\""@ + (
    lit_ts_open() + (ts + ("\""@ + "}"@)))))))
}

/// Serializes one derived state to its wire payload.
pub fn state_payload(state: &SimMonitorState) -> (r: String)
    ensures
        r@ == spec_state_payload(state.connected, state.current_session_type, state.timestamp@),
{
    let mut out = String::from_str("{\"connected\":");
    if state.connected {
        out.append("true");
    } else {
        out.append("false");
    }
    out.append(",\"current_session_type\":\"");
    let label = state.current_session_type.display_string();
    out.append(label.as_str());
    out.append("\"");
    out.append(",\"timestamp\":\"");
    out.append(state.timestamp.as_str());
    out.append("\"");
    out.append("}");
    proof {
        assert(out@ =~= spec_state_payload(
            state.connected,
            state.current_session_type,
            state.timestamp@,
        ));
    }
    out
}

// ---------------------------------------------------------------------------
// Parsing the state payload
// ---------------------------------------------------------------------------

pub open spec fn spec_starts_with(s: Seq<char>, p: Seq<char>) -> bool {
    s.len() >= p.len() && s.take(p.len() as int) == p
}

pub open spec fn spec_parse_prefix(s: Seq<char>, p: Seq<char>) -> Option<Seq<char>> {
    if spec_starts_with(s, p) {
        Some(s.skip(p.len() as int))
    } else {
        None
    }
}

pub open spec fn spec_parse_bool(s: Seq<char>) -> Option<(bool, Seq<char>)> {
    if spec_starts_with(s, "true"@) {
        Some((true, s.skip("true"@.len() as int)))
    } else if spec_starts_with(s, "false"@) {
        Some((false, s.skip("false"@.len() as int)))
    } else {
        None
    }
}

/// Reads the body of a JSON string up to its closing quote. Only unescaped
/// characters are accepted: the payloads this module writes never need an
/// escape, so anything else is rejected.
pub open spec fn spec_parse_string_body(s: Seq<char>) -> Option<(Seq<char>, Seq<char>)>
    decreases s.len(),
{
    if s.len() == 0 {
        None
    } else if s[0] == '"' {
        Some((Seq::empty(), s.skip(1)))
    } else if !plain_json_char(s[0]) {
        None
    } else {
        match spec_parse_string_body(s.skip(1)) {
            Some((body, rest)) => Some((seq![s[0]] + body, rest)),
            None => None,
        }
    }
}

/// The exact inverse of `session_label`: only the six display strings parse.
pub open spec fn spec_session_from_label(s: Seq<char>) -> Option<SessionType> {
    if s == session_label(SessionType::Disconnected) {
        Some(SessionType::Disconnected)
    } else if s == session_label(SessionType::Practice) {
        Some(SessionType::Practice)
    } else if s == session_label(SessionType::Qualify) {
        Some(SessionType::Qualify)
    } else if s == session_label(SessionType::Race) {
        Some(SessionType::Race)
    } else if s == session_label(SessionType::LoneQualify) {
        Some(SessionType::LoneQualify)
    } else if s == session_label(SessionType::OfflineTesting) {
        Some(SessionType::OfflineTesting)
    } else {
        None
    }
}

/// What a well-formed state payload denotes: the connected flag, the session
/// type, and the timestamp text.
pub open spec fn spec_parse_state(s: Seq<char>) -> Option<(bool, SessionType, Seq<char>)> {
    match spec_parse_prefix(s, lit_head()) {
        None => None,
        Some(s1) => match spec_parse_bool(s1) {
            None => None,
            Some((b, s2)) => match spec_parse_prefix(s2, lit_sess_open()) {
                None => None,
                Some(s3) => match spec_parse_string_body(s3) {
                    None => None,
                    Some((label, s4)) => match spec_session_from_label(label) {
                        None => None,
                        Some(st) => match spec_parse_prefix(s4, lit_ts_open()) {
                            None => None,
                            Some(s5) => match spec_parse_string_body(s5) {
                                None => None,
                                Some((ts, s6)) => if s6 == "}"@ {
                                    Some((b, st, ts))
                                } else {
                                    None
                                },
                            },
                        },
                    },
                },
            },
        },
    }
}

/// A prefix of a concatenation parses off exactly that prefix.
proof fn lemma_prefix_concat(p: Seq<char>, rest: Seq<char>)
    ensures
        spec_starts_with(p + rest, p),
        spec_parse_prefix(p + rest, p) == Some(rest),
{
    assert((p + rest).take(p.len() as int) =~= p);
    assert((p + rest).skip(p.len() as int) =~= rest);
}

/// A string body made only of plain characters parses back unchanged, and
/// consumes exactly through the closing quote.
proof fn lemma_parse_plain_body(body: Seq<char>, rest: Seq<char>)
    requires
        plain_json_text(body),
    ensures
        spec_parse_string_body(body + ("\""@ + rest)) == Some((body, rest)),
    decreases body.len(),
{
    reveal_strlit("\"");
    let s = body + ("\""@ + rest);
    if body.len() == 0 {
        assert(s =~= "\""@ + rest);
        assert(s[0] == '"');
        assert(s.skip(1) =~= rest);
    } else {
        assert(s[0] == body[0]);
        assert(plain_json_char(body[0]));
        lemma_parse_plain_body(body.skip(1), rest);
        assert(s.skip(1) =~= body.skip(1) + ("\""@ + rest));
        assert(seq![body[0]] + body.skip(1) =~= body);
    }
}

/// Every display string may stand unescaped in a JSON string.
proof fn lemma_session_label_plain(st: SessionType)
    ensures
        plain_json_text(session_label(st)),
{
    reveal_strlit("Disconnected");
    reveal_strlit("Practice");
    reveal_strlit("Qualify");
    reveal_strlit("Race");
    reveal_strlit("Lone Qualify");
    reveal_strlit("Offline Testing");
}

/// The display strings are pairwise distinct, so each one parses back to
/// the session type it labels.
proof fn lemma_session_label_inverts(st: SessionType)
    ensures
        spec_session_from_label(session_label(st)) == Some(st),
{
    reveal_strlit("Disconnected");
    reveal_strlit("Practice");
    reveal_strlit("Qualify");
    reveal_strlit("Race");
    reveal_strlit("Lone Qualify");
    reveal_strlit("Offline Testing");
    // The six labels start with six different letters.
    match st {
        SessionType::Disconnected => {
        },
        SessionType::Practice => {
            assert(session_label(st)[0] == 'P');
            assert(session_label(SessionType::Disconnected)[0] == 'D');
        },
        SessionType::Qualify => {
            assert(session_label(st)[0] == 'Q');
            assert(session_label(SessionType::Disconnected)[0] == 'D');
            assert(session_label(SessionType::Practice)[0] == 'P');
        },
        SessionType::Race => {
            assert(session_label(st)[0] == 'R');
            assert(session_label(SessionType::Disconnected)[0] == 'D');
            assert(session_label(SessionType::Practice)[0] == 'P');
            assert(session_label(SessionType::Qualify)[0] == 'Q');
        },
        SessionType::LoneQualify => {
            assert(session_label(st)[0] == 'L');
            assert(session_label(SessionType::Disconnected)[0] == 'D');
            assert(session_label(SessionType::Practice)[0] == 'P');
            assert(session_label(SessionType::Qualify)[0] == 'Q');
            assert(session_label(SessionType::Race)[0] == 'R');
        },
        SessionType::OfflineTesting => {
            assert(session_label(st)[0] == 'O');
            assert(session_label(SessionType::Disconnected)[0] == 'D');
            assert(session_label(SessionType::Practice)[0] == 'P');
            assert(session_label(SessionType::Qualify)[0] == 'Q');
            assert(session_label(SessionType::Race)[0] == 'R');
            assert(session_label(SessionType::LoneQualify)[0] == 'L');
        },
    }
}

/// Round trip of the state payload: parsing what `state_payload` writes
/// recovers the connected flag, the session type and the timestamp exactly,
/// for every session type and every timestamp fit for the wire.
pub proof fn lemma_state_payload_round_trip(connected: bool, st: SessionType, ts: Seq<char>)
    requires
        plain_json_text(ts),
    ensures
        spec_parse_state(spec_state_payload(connected, st, ts)) == Some((connected, st, ts)),
{
    reveal_strlit("true");
    reveal_strlit("false");
    reveal_strlit("\"");
    reveal_strlit("}");
    let s = spec_state_payload(connected, st, ts);
    let rest1 = spec_bool_text(connected) + (lit_sess_open() + (session_label(st) + ("\""@ + (
    lit_ts_open() + (ts + ("\""@ + "}"@))))));
    lemma_prefix_concat(lit_head(), rest1);
    assert(spec_parse_prefix(s, lit_head()) == Some(rest1));

    let rest2 = lit_sess_open() + (session_label(st) + ("\""@ + (lit_ts_open() + (ts + ("\""@
        + "}"@)))));
    if connected {
        lemma_prefix_concat("true"@, rest2);
        assert(spec_parse_bool(rest1) == Some((true, rest2)));
    } else {
        lemma_prefix_concat("false"@, rest2);
        if spec_starts_with(rest1, "true"@) {
            assert(rest1.take("true"@.len() as int)[0] == rest1[0]);
            assert(rest1[0] == 'f');
        }
        assert(spec_parse_bool(rest1) == Some((false, rest2)));
    }

    let rest3 = session_label(st) + ("\""@ + (lit_ts_open() + (ts + ("\""@ + "}"@))));
    lemma_prefix_concat(lit_sess_open(), rest3);

    let rest4 = lit_ts_open() + (ts + ("\""@ + "}"@));
    lemma_session_label_plain(st);
    lemma_parse_plain_body(session_label(st), rest4);
    assert(spec_parse_string_body(rest3) == Some((session_label(st), rest4)));
    lemma_session_label_inverts(st);

    let rest5 = ts + ("\""@ + "}"@);
    lemma_prefix_concat(lit_ts_open(), rest5);

    lemma_parse_plain_body(ts, "}"@);
    assert(ts + ("\""@ + "}"@) =~= ts + ("\""@ + "}"@));
    assert(spec_parse_string_body(rest5) == Some((ts, "}"@)));
}

/// Matches the literal `p` at position `i` of `s`; on success returns the
/// position just past it.
fn match_lit(s: &str, i: usize, p: &str) -> (r: Option<usize>)
    requires
        i <= s@.len(),
    ensures
        match r {
            Some(j) => spec_starts_with(s@.skip(i as int), p@) && j == i + p@.len() && j <= s@.len(),
            None => !spec_starts_with(s@.skip(i as int), p@),
        },
{
    let n = s.unicode_len();
    let plen = p.unicode_len();
    if plen > n - i {
        return None;
    }
    let mut k: usize = 0;
    while k < plen
        invariant
            k <= plen,
            i <= n,
            i + plen <= n,
            n == s@.len(),
            plen == p@.len(),
            forall|m: int| 0 <= m < k ==> s@[i + m] == p@[m],
        decreases plen - k,
    {
        if s.get_char(i + k) != p.get_char(k) {
            proof {
                let rest = s@.skip(i as int);
                if spec_starts_with(rest, p@) {
                    assert(rest.take(plen as int)[k as int] == p@[k as int]);
                    assert(rest[k as int] == s@[i + k]);
                }
            }
            return None;
        }
        k = k + 1;
    }
    proof {
        assert(s@.skip(i as int).take(plen as int) =~= p@);
    }
    Some(i + plen)
}

/// Parsing an all-plain segment up to its closing quote succeeds and
/// consumes through the quote.
proof fn lemma_body_chars(s: Seq<char>, i: int, j: int)
    requires
        0 <= i <= j < s.len(),
        forall|k: int| i <= k < j ==> plain_json_char(s[k]),
        s[j] == '"',
    ensures
        spec_parse_string_body(s.skip(i)) == Some((s.subrange(i, j), s.skip(j + 1))),
    decreases j - i,
{
    let rest = s.skip(i);
    if i == j {
        assert(rest[0] == '"');
        assert(rest.skip(1) =~= s.skip(j + 1));
        assert(s.subrange(i, j) =~= Seq::<char>::empty());
    } else {
        assert(rest[0] == s[i]);
        assert(plain_json_char(s[i]));
        assert(s[i] != '"');
        lemma_body_chars(s, i + 1, j);
        assert(rest.skip(1) =~= s.skip(i + 1));
        assert(seq![s[i]] + s.subrange(i + 1, j) =~= s.subrange(i, j));
    }
}

/// Parsing fails on a segment that ends, or hits a character that would
/// need an escape, before any closing quote.
proof fn lemma_body_fails(s: Seq<char>, i: int, j: int)
    requires
        0 <= i <= j <= s.len(),
        forall|k: int| i <= k < j ==> plain_json_char(s[k]) && s[k] != '"',
        j == s.len() || !plain_json_char(s[j]) && s[j] != '"',
    ensures
        spec_parse_string_body(s.skip(i)) is None,
    decreases j - i,
{
    let rest = s.skip(i);
    if i == j {
        if i < s.len() {
            assert(rest[0] == s[j]);
        }
    } else {
        assert(rest[0] == s[i]);
        lemma_body_fails(s, i + 1, j);
        assert(rest.skip(1) =~= s.skip(i + 1));
    }
}

/// Reads a JSON string body starting at `i`; on success returns the body
/// and the position just past the closing quote.
fn scan_string_body(s: &str, i: usize) -> (r: Option<(String, usize)>)
    requires
        i <= s@.len(),
    ensures
        match r {
            Some(pair) => {
                &&& spec_parse_string_body(s@.skip(i as int)) == Some(
                    (pair.0@, s@.skip(pair.1 as int)),
                )
                &&& i <= pair.1 <= s@.len()
            },
            None => spec_parse_string_body(s@.skip(i as int)) is None,
        },
{
    let n = s.unicode_len();
    let mut k: usize = i;
    while k < n
        invariant
            i <= k <= n,
            n == s@.len(),
            forall|m: int| i <= m < k ==> plain_json_char(s@[m]) && s@[m] != '"',
        decreases n - k,
    {
        let c = s.get_char(k);
        if c == '"' {
            let body = s.substring_char(i, k).to_owned();
            proof {
                lemma_body_chars(s@, i as int, k as int);
            }
            return Some((body, k + 1));
        }
        if c == '\\' || (c as u32) < 0x20 {
            proof {
                lemma_body_fails(s@, i as int, k as int);
            }
            return None;
        }
        k = k + 1;
    }
    proof {
        lemma_body_fails(s@, i as int, n as int);
    }
    None
}

/// Recognizes one of the six display strings.
fn session_from_label(s: &str) -> (r: Option<SessionType>)
    ensures
        r == spec_session_from_label(s@),
{
    if str_eq(s, "Disconnected") {
        Some(SessionType::Disconnected)
    } else if str_eq(s, "Practice") {
        Some(SessionType::Practice)
    } else if str_eq(s, "Qualify") {
        Some(SessionType::Qualify)
    } else if str_eq(s, "Race") {
        Some(SessionType::Race)
    } else if str_eq(s, "Lone Qualify") {
        Some(SessionType::LoneQualify)
    } else if str_eq(s, "Offline Testing") {
        Some(SessionType::OfflineTesting)
    } else {
        None
    }
}

/// Parses a state payload back into a state. Exactly the documents that
/// `spec_parse_state` accepts are accepted.
pub fn parse_state_payload(s: &str) -> (r: Option<SimMonitorState>)
    ensures
        match r {
            Some(state) => spec_parse_state(s@) == Some(
                (state.connected, state.current_session_type, state.timestamp@),
            ),
            None => spec_parse_state(s@) is None,
        },
{
    let i0: usize = 0;
    proof {
        assert(s@.skip(0) =~= s@);
    }
    let i1 = match match_lit(s, i0, "{\"connected\":") {
        Some(j) => j,
        None => {
            return None;
        },
    };
    proof {
        assert(s@.skip(0).skip(lit_head().len() as int) =~= s@.skip(i1 as int));
    }
    let (connected, i2) = match match_lit(s, i1, "true") {
        Some(j) => (true, j),
        None => match match_lit(s, i1, "false") {
            Some(j) => (false, j),
            None => {
                return None;
            },
        },
    };
    proof {
        let s1 = s@.skip(i1 as int);
        if connected {
            assert(s1.skip("true"@.len() as int) =~= s@.skip(i2 as int));
        } else {
            assert(s1.skip("false"@.len() as int) =~= s@.skip(i2 as int));
        }
    }
    let i3 = match match_lit(s, i2, ",\"current_session_type\":\"") {
        Some(j) => j,
        None => {
            return None;
        },
    };
    proof {
        assert(s@.skip(i2 as int).skip(lit_sess_open().len() as int) =~= s@.skip(i3 as int));
    }
    let (label, i4) = match scan_string_body(s, i3) {
        Some(pair) => pair,
        None => {
            return None;
        },
    };
    let st = match session_from_label(label.as_str()) {
        Some(st) => st,
        None => {
            return None;
        },
    };
    let i5 = match match_lit(s, i4, ",\"timestamp\":\"") {
        Some(j) => j,
        None => {
            return None;
        },
    };
    proof {
        assert(s@.skip(i4 as int).skip(lit_ts_open().len() as int) =~= s@.skip(i5 as int));
    }
    let (ts, i6) = match scan_string_body(s, i5) {
        Some(pair) => pair,
        None => {
            return None;
        },
    };
    let n = s.unicode_len();
    let close = match match_lit(s, i6, "}") {
        Some(j) => j,
        None => {
            proof {
                let s6 = s@.skip(i6 as int);
                if s6 == "}"@ {
                    assert(s6.take("}"@.len() as int) =~= s6);
                }
            }
            return None;
        },
    };
    if close != n {
        proof {
            let s6 = s@.skip(i6 as int);
            reveal_strlit("}");
            if s6 == "}"@ {
                assert(s6.len() == 1);
            }
        }
        return None;
    }
    proof {
        let s6 = s@.skip(i6 as int);
        reveal_strlit("}");
        assert(s6.len() == 1);
        assert(s6 =~= "}"@);
    }
    Some(SimMonitorState { connected, current_session_type: st, timestamp: ts })
}

// ---------------------------------------------------------------------------
// The discovery registration payload
// ---------------------------------------------------------------------------

/// The `options` array of the discovery document: the display strings of
/// all six session types, in declaration order.
pub open spec fn spec_options_list() -> Seq<char> {
    "[\""@ + session_label(SessionType::Disconnected) + "\",\""@ + session_label(
        SessionType::Practice,
    ) + "\",\""@ + session_label(SessionType::Qualify) + "\",\""@ + session_label(
        SessionType::Race,
    ) + "\",\""@ + session_label(SessionType::LoneQualify) + "\",\""@ + session_label(
        SessionType::OfflineTesting,
    ) + "\"]"@
}

/// The retained discovery document that registers the sensor with the
/// home-automation hub: name, state topic, value template, unique id, a
/// 30-second expiry window, the enumerated session types, and a device
/// descriptor block.
pub open spec fn spec_discovery_payload() -> Seq<char> {
    "{\"name\":\"Session type\",\"state_topic\":\"homeassistant/sensor/iracing/state\",\"value_template\":\"{{ value_json.current_session_type }}\",\"unique_id\":\"iracing_session_type\",\"expire_after\":30,\"icon\":\"mdi:racing-helmet\",\"device_class\":\"enum\",\"options\":"@
        + spec_options_list()
        + ",\"device\":{\"identifiers\":\"my_unique_id\",\"name\":\"iRacing Simulator\"}}"@
}

/// Builds the discovery document, quoting each session type's display string
/// into the `options` array.
pub fn discovery_payload() -> (r: String)
    ensures
        r@ == spec_discovery_payload(),
{
    let mut out = String::from_str(
        "{\"name\":\"Session type\",\"state_topic\":\"homeassistant/sensor/iracing/state\",\"value_template\":\"{{ value_json.current_session_type }}\",\"unique_id\":\"iracing_session_type\",\"expire_after\":30,\"icon\":\"mdi:racing-helmet\",\"device_class\":\"enum\",\"options\":",
    );
    out.append("[\"");
    let label = SessionType::Disconnected.display_string();
    out.append(label.as_str());
    out.append("\",\"");
    let label = SessionType::Practice.display_string();
    out.append(label.as_str());
    out.append("\",\"");
    let label = SessionType::Qualify.display_string();
    out.append(label.as_str());
    out.append("\",\"");
    let label = SessionType::Race.display_string();
    out.append(label.as_str());
    out.append("\",\"");
    let label = SessionType::LoneQualify.display_string();
    out.append(label.as_str());
    out.append("\",\"");
    let label = SessionType::OfflineTesting.display_string();
    out.append(label.as_str());
    out.append("\"]");
    out.append(",\"device\":{\"identifiers\":\"my_unique_id\",\"name\":\"iRacing Simulator\"}}");
    proof {
        assert(out@ =~= spec_discovery_payload());
    }
    out
}

} // verus!
