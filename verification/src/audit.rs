//! Audit logger core: bounded capture of request and response bodies,
//! redaction of sensitive fields before storage, and assembly of the audit
//! record. The capture is a transparent wiretap — the body handed back for
//! forwarding is exactly the body that came in; redaction touches only the
//! stored copy. Persisting the record is the caller's job, fire-and-forget.
use vstd::prelude::*;

use crate::ids::fresh_uuid;
use crate::ids::uuid_text;
use crate::jsonval::json_contains_key;
use crate::jsonval::json_object_of;
use crate::jsonval::json_object_text;
use crate::jsonval::json_redact_value;
use crate::jsonval::obj_entries;
use crate::jsonval::object_string;
use crate::jsonval::parse_json_object;
use crate::text::chars_of;
use crate::text::append_chars;
use crate::text::dec_chars;
use crate::text::decimal_string;
use crate::text::mask_value_after;
use crate::text::mask_value_after_all;
use crate::text::string_of;

verus! {

/// How many body bytes are captured for the log, at most. Bytes beyond the
/// cap are dropped from the stored copy (bounded memory, not completeness);
/// the forwarded body is never touched.
pub const MAX_BODY_LOG_BYTES: usize = 4096;

/// The field names whose values are redacted from stored bodies. The match
/// is exact and case-sensitive.
pub open spec fn sensitive_list() -> Seq<Seq<char>> {
    seq![
        "password"@,
        "passwd"@,
        "pwd"@,
        "secret"@,
        "token"@,
        "key"@,
        "auth"@,
        "authorization"@,
        "jwt"@,
        "api_key"@,
        "api_secret"@,
        "private_key"@,
        "private_secret"@,
    ]
}

/// The denylist of sensitive field names.
pub fn sensitive_fields() -> (r: Vec<&'static str>)
    ensures
        r.deep_view() == sensitive_list(),
{
    let v = vec![
        "password",
        "passwd",
        "pwd",
        "secret",
        "token",
        "key",
        "auth",
        "authorization",
        "jwt",
        "api_key",
        "api_secret",
        "private_key",
        "private_secret",
    ];
    proof {
        assert(v.deep_view() =~= sensitive_list());
    }
    v
}

/// One redaction step on a parsed object: if the key is present, its value
/// becomes the JSON string `"[REDACTED]"`; an absent key changes nothing.
pub open spec fn apply_redaction(m: Map<Seq<char>, Seq<char>>, k: Seq<char>) -> Map<
    Seq<char>,
    Seq<char>,
> {
    if m.dom().contains(k) {
        m.insert(k, "\"[REDACTED]\""@)
    } else {
        m
    }
}

/// A parsed object with every listed key redacted, in order.
pub open spec fn redact_keys(m: Map<Seq<char>, Seq<char>>, keys: Seq<Seq<char>>) -> Map<
    Seq<char>,
    Seq<char>,
>
    decreases keys.len(),
{
    if keys.len() == 0 {
        m
    } else {
        redact_keys(apply_redaction(m, keys[0]), keys.skip(1))
    }
}

/// Law: redacting a parsed object keeps its keys, replaces the value of
/// every listed key that is present with the marker, and leaves every other
/// value untouched.
pub proof fn lemma_redact_keys_pointwise(m: Map<Seq<char>, Seq<char>>, keys: Seq<Seq<char>>)
    ensures
        redact_keys(m, keys).dom() =~= m.dom(),
        forall|k: Seq<char>| #[trigger]
            m.dom().contains(k) ==> redact_keys(m, keys)[k] == (if keys.contains(k) {
                "\"[REDACTED]\""@
            } else {
                m[k]
            }),
    decreases keys.len(),
{
    if keys.len() == 0 {
    } else {
        let m1 = apply_redaction(m, keys[0]);
        lemma_redact_keys_pointwise(m1, keys.skip(1));
        assert(m1.dom() =~= m.dom());
        assert forall|k: Seq<char>| #[trigger] m.dom().contains(k) implies redact_keys(m, keys)[k]
            == (if keys.contains(k) {
            "\"[REDACTED]\""@
        } else {
            m[k]
        }) by {
            if keys.skip(1).contains(k) {
                let j = choose|j: int|
                    0 <= j < keys.skip(1).len() && keys.skip(1)[j] == k;
                assert(keys[j + 1] == k);
                assert(keys.contains(k));
            } else if k == keys[0] {
                assert(keys.contains(k));
                assert(m1[k] == "\"[REDACTED]\""@);
            } else {
                if keys.contains(k) {
                    let j = choose|j: int| 0 <= j < keys.len() && keys[j] == k;
                    assert(j != 0);
                    assert(keys.skip(1)[j - 1] == k);
                    assert(keys.skip(1).contains(k));
                }
                assert(m1[k] == m[k]);
            }
        }
    }
}

/// Redacting an already redacted object changes nothing: every sensitive
/// key it still holds already carries the marker.
pub proof fn lemma_redact_keys_idempotent(m: Map<Seq<char>, Seq<char>>, keys: Seq<Seq<char>>)
    ensures
        redact_keys(redact_keys(m, keys), keys) =~= redact_keys(m, keys),
{
    let once = redact_keys(m, keys);
    lemma_redact_keys_pointwise(m, keys);
    lemma_redact_keys_pointwise(once, keys);
    assert forall|k: Seq<char>| #[trigger]
        once.dom().contains(k) implies redact_keys(once, keys)[k] == once[k] by {
        assert(m.dom().contains(k));
    }
}

/// Law: redaction is idempotent on bodies that are one JSON object. The
/// hypotheses are what `sanitize_json_content`'s trusted steps ensure: the
/// body parses to an object, and the reserialized redacted object parses
/// back to itself (the serde_json round trip).
pub proof fn lemma_sanitize_idempotent_on_objects(s: Seq<char>, m: Map<Seq<char>, Seq<char>>)
    requires
        json_object_of(s) == Some(m),
        json_object_of(object_string(redact_keys(m, sensitive_list()))) == Some(
            redact_keys(m, sensitive_list()),
        ),
    ensures
        sanitized_text(sanitized_text(s)) == sanitized_text(s),
{
    lemma_redact_keys_idempotent(m, sensitive_list());
    assert(redact_keys(redact_keys(m, sensitive_list()), sensitive_list()) == redact_keys(
        m,
        sensitive_list(),
    ));
}

/// The three textual shapes around a field name that the fallback redaction
/// recognizes — `"field":`, `field:` and `field =` — the value run after
/// each occurrence masked by the marker.
pub open spec fn field_patterns_applied(s: Seq<char>, f: Seq<char>) -> Seq<char> {
    let marker = "[REDACTED]"@;
    let quoted = seq!['"'] + f + seq!['"', ':'];
    let plain = f + seq![':'];
    let assigned = f + seq![' ', '='];
    mask_value_after_all(
        mask_value_after_all(mask_value_after_all(s, quoted, marker), plain, marker),
        assigned,
        marker,
    )
}

/// The fallback redaction over a body that is not one JSON object: for each
/// sensitive field, in order, the value run after every occurrence of its
/// recognized shapes is replaced with the marker. Best effort by design:
/// shapes outside the three patterns, and value text past the first stop
/// character, are not recognized.
pub open spec fn redact_plain(s: Seq<char>, fields: Seq<Seq<char>>) -> Seq<char>
    decreases fields.len(),
{
    if fields.len() == 0 {
        s
    } else {
        redact_plain(field_patterns_applied(s, fields[0]), fields.skip(1))
    }
}

/// What redaction makes of a captured body: a body that parses as one JSON
/// object is reserialized with every sensitive key's value replaced by the
/// marker; anything else gets the textual best-effort pass.
pub open spec fn sanitized_text(s: Seq<char>) -> Seq<char> {
    match json_object_of(s) {
        Some(m) => object_string(redact_keys(m, sensitive_list())),
        None => redact_plain(s, sensitive_list()),
    }
}

/// Redacts sensitive fields from a captured body before it is stored.
pub fn sanitize_json_content(content: &str) -> (r: String)
    ensures
        r@ == sanitized_text(content@),
{
    match parse_json_object(content) {
        Some(obj) => {
            let ghost m0 = json_object_of(content@)->Some_0;
            let mut obj = obj;
            let fields = sensitive_fields();
            let mut i: usize = 0;
            proof {
                assert(sensitive_list().skip(0) =~= sensitive_list());
            }
            while i < fields.len()
                invariant
                    fields.deep_view() == sensitive_list(),
                    i <= fields@.len(),
                    redact_keys(obj_entries(obj), sensitive_list().skip(i as int)) == redact_keys(
                        m0,
                        sensitive_list(),
                    ),
                decreases fields@.len() - i,
            {
                let ghost before = obj_entries(obj);
                let ghost rest = sensitive_list().skip(i as int);
                let f = fields[i];
                proof {
                    assert(f@ == sensitive_list()[i as int]);
                    assert(rest[0] == sensitive_list()[i as int]);
                    assert(rest.skip(1) =~= sensitive_list().skip(i + 1));
                }
                if json_contains_key(&obj, f) {
                    json_redact_value(&mut obj, f);
                    proof {
                        assert(obj_entries(obj) == apply_redaction(before, f@));
                    }
                } else {
                    proof {
                        assert(obj_entries(obj) == apply_redaction(before, f@));
                    }
                }
                i = i + 1;
            }
            proof {
                assert(sensitive_list().skip(i as int) =~= Seq::<Seq<char>>::empty());
                assert(redact_keys(obj_entries(obj), Seq::<Seq<char>>::empty()) == obj_entries(
                    obj,
                ));
            }
            json_object_text(&obj)
        },
        None => {
            let mut cur = chars_of(content);
            let marker = chars_of("[REDACTED]");
            let fields = sensitive_fields();
            let mut i: usize = 0;
            proof {
                assert(sensitive_list().skip(0) =~= sensitive_list());
            }
            while i < fields.len()
                invariant
                    fields.deep_view() == sensitive_list(),
                    marker@ == "[REDACTED]"@,
                    i <= fields@.len(),
                    redact_plain(cur@, sensitive_list().skip(i as int)) == redact_plain(
                        content@,
                        sensitive_list(),
                    ),
                decreases fields@.len() - i,
            {
                let ghost before = cur@;
                let ghost rest = sensitive_list().skip(i as int);
                let f = fields[i];
                let fchars = chars_of(f);
                proof {
                    assert(f@ == sensitive_list()[i as int]);
                    assert(rest[0] == sensitive_list()[i as int]);
                    assert(rest.skip(1) =~= sensitive_list().skip(i + 1));
                }
                let mut quoted: Vec<char> = Vec::new();
                quoted.push('"');
                append_chars(&mut quoted, &fchars);
                quoted.push('"');
                quoted.push(':');
                let mut plain: Vec<char> = Vec::new();
                append_chars(&mut plain, &fchars);
                plain.push(':');
                let mut assigned: Vec<char> = Vec::new();
                append_chars(&mut assigned, &fchars);
                assigned.push(' ');
                assigned.push('=');
                proof {
                    assert(quoted@ =~= seq!['"'] + f@ + seq!['"', ':']);
                    assert(plain@ =~= f@ + seq![':']);
                    assert(assigned@ =~= f@ + seq![' ', '=']);
                }
                cur = mask_value_after(&cur, &quoted, &marker);
                cur = mask_value_after(&cur, &plain, &marker);
                cur = mask_value_after(&cur, &assigned, &marker);
                proof {
                    assert(cur@ == field_patterns_applied(before, f@));
                }
                i = i + 1;
            }
            proof {
                assert(sensitive_list().skip(i as int) =~= Seq::<Seq<char>>::empty());
            }
            string_of(&cur)
        },
    }
}

/// The stored copy of a body: the first `MAX_BODY_LOG_BYTES` bytes, all of
/// them if the body is shorter.
pub open spec fn capped_bytes(bytes: Seq<u8>) -> Seq<u8> {
    if bytes.len() <= MAX_BODY_LOG_BYTES {
        bytes
    } else {
        bytes.take(MAX_BODY_LOG_BYTES as int)
    }
}

/// Keeps at most the byte cap of a body for the log copy.
pub fn cap_body(bytes: &Vec<u8>) -> (r: Vec<u8>)
    ensures
        r@ == capped_bytes(bytes@),
{
    let n = if bytes.len() <= MAX_BODY_LOG_BYTES {
        bytes.len()
    } else {
        MAX_BODY_LOG_BYTES
    };
    let mut r: Vec<u8> = Vec::new();
    let mut i: usize = 0;
    while i < n
        invariant
            n <= bytes@.len(),
            i <= n,
            r@ == bytes@.subrange(0, i as int),
        decreases n - i,
    {
        r.push(bytes[i]);
        proof {
            assert(r@ =~= bytes@.subrange(0, i + 1));
        }
        i = i + 1;
    }
    proof {
        if bytes@.len() <= MAX_BODY_LOG_BYTES {
            assert(r@ =~= bytes@);
        } else {
            assert(r@ =~= bytes@.take(MAX_BODY_LOG_BYTES as int));
        }
    }
    r
}

/// The text a byte body is logged as, before redaction. Names the result of
/// std's `String::from_utf8_lossy`, a function of the bytes alone.
pub uninterp spec fn lossy_text_of(bytes: Seq<u8>) -> Seq<char>;

/// Relies on std's `String::from_utf8_lossy`: decodes UTF-8, replacing
/// invalid sequences with the replacement character.
#[verifier::external_body]
pub fn lossy_text(bytes: &Vec<u8>) -> (r: String)
    ensures
        r@ == lossy_text_of(bytes@),
{
    String::from_utf8_lossy(bytes).to_string()
}

/// What the audit log stores for a body: the capped bytes decoded and
/// redacted.
pub open spec fn captured_text(bytes: Seq<u8>) -> Seq<char> {
    sanitized_text(lossy_text_of(capped_bytes(bytes)))
}

/// Captures a body for the audit log. The first component of the result is
/// the body to forward, exactly the bytes that came in — the capture is a
/// transparent wiretap and never alters what downstream consumers see. The
/// second is the stored copy: capped at the byte limit and redacted.
pub fn capture_body(bytes: Vec<u8>) -> (r: (Vec<u8>, String))
    ensures
        r.0@ == bytes@,
        r.1@ == captured_text(bytes@),
{
    let capped = cap_body(&bytes);
    let text = lossy_text(&capped);
    let log_copy = sanitize_json_content(text.as_str());
    (bytes, log_copy)
}

/// One audit record: created once per request, written exactly once, never
/// mutated afterwards. Persistence is best-effort and asynchronous; a lost
/// record is acceptable, a blocked response is not.
pub struct AuditLogEntry {
    pub id: u128,
    pub timestamp: u64,
    pub method: String,
    pub path: String,
    pub status_code: u16,
    pub response_time_ms: u64,
    pub user_id: Option<u128>,
    pub ip_address: Option<String>,
    pub user_agent: Option<String>,
    pub request_body: Option<String>,
    pub response_body: Option<String>,
    pub error_message: Option<String>,
}

/// The operator-facing note an entry carries for an error status.
pub open spec fn status_error_text(status: u16) -> Seq<char> {
    "Error status: "@ + dec_chars(status as int)
}

fn status_error_message(status: u16) -> (r: String)
    ensures
        r@ == status_error_text(status),
{
    let mut m = String::from_str("Error status: ");
    let digits = decimal_string(status as u64);
    m.append(digits.as_str());
    m
}

/// Assembles the audit record for one request: every field is taken as
/// given (the bodies are expected to be the stored copies from
/// [`capture_body`]), and an error note is attached exactly for error
/// statuses.
pub fn build_audit_entry(
    id: u128,
    timestamp: u64,
    method: String,
    path: String,
    status_code: u16,
    response_time_ms: u64,
    user_id: Option<u128>,
    ip_address: Option<String>,
    user_agent: Option<String>,
    request_log: String,
    response_log: String,
) -> (e: AuditLogEntry)
    ensures
        e.id == id,
        e.timestamp == timestamp,
        e.method@ == method@,
        e.path@ == path@,
        e.status_code == status_code,
        e.response_time_ms == response_time_ms,
        e.user_id == user_id,
        e.ip_address == ip_address,
        e.user_agent == user_agent,
        e.request_body matches Some(b) && b@ == request_log@,
        e.response_body matches Some(b) && b@ == response_log@,
        status_code >= 400 ==> (e.error_message matches Some(m) && m@ == status_error_text(
            status_code,
        )),
        status_code < 400 ==> e.error_message is None,
{
    let error_message = if status_code >= 400 {
        Some(status_error_message(status_code))
    } else {
        None
    };
    AuditLogEntry {
        id,
        timestamp,
        method,
        path,
        status_code,
        response_time_ms,
        user_id,
        ip_address,
        user_agent,
        request_body: Some(request_log),
        response_body: Some(response_log),
        error_message,
    }
}

impl AuditLogEntry {
    /// A field-for-field copy.
    pub fn duplicate(&self) -> (e: AuditLogEntry)
        ensures
            e == *self,
    {
        AuditLogEntry {
            id: self.id,
            timestamp: self.timestamp,
            method: self.method.clone(),
            path: self.path.clone(),
            status_code: self.status_code,
            response_time_ms: self.response_time_ms,
            user_id: self.user_id,
            ip_address: clone_option_string(&self.ip_address),
            user_agent: clone_option_string(&self.user_agent),
            request_body: clone_option_string(&self.request_body),
            response_body: clone_option_string(&self.response_body),
            error_message: clone_option_string(&self.error_message),
        }
    }
}

fn clone_option_string(o: &Option<String>) -> (r: Option<String>)
    ensures
        r == *o,
{
    match o {
        Some(s) => Some(s.clone()),
        None => None,
    }
}

/// Correlation ids for tracking a request across the system.
pub struct LoggingManager;

impl LoggingManager {
    /// A fresh correlation id in canonical text form.
    pub fn generate_request_id() -> (r: String)
        ensures
            r@.len() == 36,
    {
        uuid_text(fresh_uuid())
    }
}

} // verus!
