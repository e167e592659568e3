//! Sealing a finished session: a salted digest over the payload and the
//! pretty-printed session document that carries it.

use vstd::prelude::*;
use vstd::string::*;
use crate::record::{LogEvent, payload_json, payload_text};
use crate::text::{dec_of, hex_of, json_quoted, push_decimal, push_json_string, to_hex};

verus! {

/// Directory, under the user's documents folder, that holds all output.
pub const OUTPUT_DIR_NAME: &'static str = "Ghostwriter";

/// Hidden file that the crash-recovery snapshot overwrites.
pub const SNAPSHOT_FILE_NAME: &'static str = ".ghostwriter.tmp";

/// Log file that newline-delimited records are appended to.
pub const LOG_FILE_NAME: &'static str = "session.json";

/// The fixed salt appended to the payload before hashing.
pub open spec fn salt() -> Seq<char> {
    "GHOSTWRITER_SECURE_SALT_V1"@
}

/// SHA-256 digest of the UTF-8 encoding of `s`.
pub uninterp spec fn sha256_text(s: Seq<char>) -> Seq<u8>;

/// Relies on sha2's `Sha256::digest`: the 32-byte SHA-256 digest of the
/// string's UTF-8 bytes.
#[verifier::external_body]
fn sha256_of(s: &str) -> (r: Vec<u8>)
    ensures
        r@ == sha256_text(s@),
        r@.len() == 32,
{
    <sha2::Sha256 as sha2::Digest>::digest(s.as_bytes()).to_vec()
}

/// The signature of a serialized payload: hex of the digest of payload then salt.
pub open spec fn signature_of(payload: Seq<char>) -> Seq<char> {
    hex_of(sha256_text(payload + salt()))
}

/// Signs a serialized payload with the fixed salt.
pub fn sign_payload(payload: &str) -> (r: String)
    ensures
        r@ == signature_of(payload@),
{
    let mut input = String::from_str(payload);
    input.append("GHOSTWRITER_SECURE_SALT_V1");
    let digest = sha256_of(input.as_str());
    to_hex(digest.as_slice())
}

/// Signing is a function of the payload: the same payload gives the same
/// signature, and two different payloads are hashed from different inputs
/// (so a change in the payload is a change in what the digest covers).
pub proof fn lemma_signature_deterministic(p1: Seq<char>, p2: Seq<char>)
    ensures
        p1 == p2 ==> signature_of(p1) == signature_of(p2),
        p1 != p2 ==> p1 + salt() != p2 + salt(),
{
    if p1 != p2 && p1 + salt() == p2 + salt() {
        assert((p1 + salt()).len() == (p2 + salt()).len());
        assert(p1.len() == p2.len());
        assert forall|i: int| 0 <= i < p1.len() implies p1[i] == p2[i] by {
            assert((p1 + salt())[i] == (p2 + salt())[i]);
        }
        assert(p1 =~= p2);
    }
}

/// One record as pretty-printed inside the session's payload array.
pub open spec fn pretty_record(e: LogEvent) -> Seq<char> {
    "    {\n      \"timestamp\": "@ + dec_of(e.timestamp as int) + ",\n      \"window_title\": "@
        + json_quoted(e.window_title@) + ",\n      \"event_type\": "@ + json_quoted(e.event_type@)
        + "\n    }"@
}

/// Pretty-printed records joined by a comma and line feed.
pub open spec fn pretty_records(s: Seq<LogEvent>) -> Seq<char>
    decreases s.len(),
{
    if s.len() == 0 {
        Seq::empty()
    } else if s.len() == 1 {
        pretty_record(s[0])
    } else {
        pretty_records(s.drop_last()) + ",\n"@ + pretty_record(s.last())
    }
}

/// The pretty-printed payload array.
pub open spec fn pretty_payload(s: Seq<LogEvent>) -> Seq<char> {
    if s.len() == 0 {
        "[]"@
    } else {
        "[\n"@ + pretty_records(s) + "\n  ]"@
    }
}

/// The session document: header, payload and signature, pretty-printed.
pub open spec fn session_text(s: Seq<LogEvent>, signature: Seq<char>) -> Seq<char> {
    "{\n  \"header\": {\n    \"version\": \"1.0\",\n    \"algorithm\": \"HMAC-SHA256\"\n  },\n  \"payload\": "@
        + pretty_payload(s) + ",\n  \"signature\": \""@ + signature + "\"\n}"@
}

/// The session document for `s`, signed over its compact payload.
pub open spec fn sealed_session(s: Seq<LogEvent>) -> Seq<char> {
    session_text(s, signature_of(payload_text(s)))
}

fn push_pretty_record(out: &mut String, e: &LogEvent)
    ensures
        final(out)@ == old(out)@ + pretty_record(*e),
{
    out.append("    {\n      \"timestamp\": ");
    push_decimal(out, e.timestamp);
    out.append(",\n      \"window_title\": ");
    push_json_string(out, e.window_title.as_str());
    out.append(",\n      \"event_type\": ");
    push_json_string(out, e.event_type.as_str());
    out.append("\n    }");
    assert(final(out)@ =~= old(out)@ + pretty_record(*e));
}

fn push_pretty_payload(out: &mut String, events: &Vec<LogEvent>)
    ensures
        final(out)@ == old(out)@ + pretty_payload(events@),
{
    let n = events.len();
    if n == 0 {
        out.append("[]");
        return;
    }
    let ghost start = out@;
    out.append("[\n");
    let mut i: usize = 0;
    while i < n
        invariant
            n == events@.len(),
            n > 0,
            i <= n,
            out@ == start + "[\n"@ + pretty_records(events@.take(i as int)),
        decreases n - i,
    {
        if i > 0 {
            out.append(",\n");
        }
        push_pretty_record(out, &events[i]);
        proof {
            let t = events@.take(i as int + 1);
            assert(t.drop_last() =~= events@.take(i as int));
            if i == 0 {
                assert(pretty_records(events@.take(0)) =~= Seq::<char>::empty());
            }
            assert(out@ =~= start + "[\n"@ + pretty_records(t));
        }
        i = i + 1;
    }
    assert(events@.take(n as int) =~= events@);
    out.append("\n  ]");
    assert(out@ =~= start + pretty_payload(events@));
}

/// The signed session document for `events`.
pub fn seal_session(events: &Vec<LogEvent>) -> (r: String)
    ensures
        r@ == sealed_session(events@),
{
    let payload = payload_json(events);
    let signature = sign_payload(payload.as_str());
    let mut out = String::from_str(
        "{\n  \"header\": {\n    \"version\": \"1.0\",\n    \"algorithm\": \"HMAC-SHA256\"\n  },\n  \"payload\": ",
    );
    push_pretty_payload(&mut out, events);
    out.append(",\n  \"signature\": \"");
    out.append(signature.as_str());
    out.append("\"\n}");
    assert(out@ =~= sealed_session(events@));
    out
}

/// The file name of a session sealed at `unix_secs`.
pub open spec fn session_file_text(unix_secs: int) -> Seq<char> {
    "Session_"@ + dec_of(unix_secs) + ".gw"@
}

/// The file name `Session_<unix_secs>.gw`.
pub fn session_file_name(unix_secs: i64) -> (r: String)
    ensures
        r@ == session_file_text(unix_secs as int),
{
    let mut s = String::from_str("Session_");
    push_decimal(&mut s, unix_secs);
    s.append(".gw");
    assert(s@ =~= session_file_text(unix_secs as int));
    s
}

} // verus!
