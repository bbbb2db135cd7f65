//! Tamper-evident audit logging.
//!
//! Every tool call, policy decision and approval is recorded in an
//! append-only log whose entries are chained by HMAC-SHA256: the MAC of each
//! entry covers the MAC of the previous one, so a change to any entry breaks
//! the chain from there on, and [`AuditLog::verify`] reports the first entry
//! whose MAC no longer matches.
//!
//! Metadata is kept as the compact JSON text that the MAC covers.

use vstd::prelude::*;
use vstd::bytes::{spec_u64_to_le_bytes, u64_to_le_bytes};
use vstd::utf8::encode_utf8;
use hmac::{Hmac, Mac};
use rand::RngCore;
use sha2::Sha256;
use zeroize::Zeroizing;
use crate::agent::ToolOutcome;
use crate::clock::now_rfc3339;
use crate::eval::byte_len;
use crate::mcp::{bool_text, push_signed, signed_decimal};
use crate::text::{decimal, hex_encode, hex_lower, json_quote, json_quoted, push_decimal, push_str, str_eq, string_from_chars};

verus! {

// ── Outside pieces ─────────────────────────────────────────────────────────

/// Secret key bytes, wiped from memory when dropped: they are held in a
/// `zeroize::Zeroizing<Vec<u8>>`, a type whose declaration Verus does not take
/// (its `Zeroize` bound is an outside trait).
#[verifier::external_body]
pub struct SecretKey {
    bytes: Zeroizing<Vec<u8>>,
}

/// The bytes of a secret key.
pub uninterp spec fn secret_key_bytes(k: SecretKey) -> Seq<u8>;

/// Wraps `key` so that it is wiped on drop (`Zeroizing::new`); the bytes are
/// kept as they are.
#[verifier::external_body]
fn protect_key(key: Vec<u8>) -> (k: SecretKey)
    ensures
        secret_key_bytes(k) == key@,
{
    SecretKey { bytes: Zeroizing::new(key) }
}

/// The bytes of a secret key (through `Zeroizing`'s `Deref`).
#[verifier::external_body]
fn key_bytes(k: &SecretKey) -> (b: &[u8])
    ensures
        b@ == secret_key_bytes(*k),
{
    k.bytes.as_slice()
}

/// HMAC-SHA256 of `message` under `key`.
pub uninterp spec fn hmac_sha256(key: Seq<u8>, message: Seq<u8>) -> Seq<u8>;

/// Computes HMAC-SHA256 of `message` under `key` (`hmac::Hmac<Sha256>`,
/// which accepts keys of any length). The tag is 32 bytes long.
#[verifier::external_body]
fn compute_hmac_sha256(key: &[u8], message: &[u8]) -> (tag: Vec<u8>)
    ensures
        tag@ == hmac_sha256(key@, message@),
        tag@.len() == 32,
{
    let mut mac = <Hmac<Sha256> as Mac>::new_from_slice(key).expect("HMAC takes keys of any length");
    mac.update(message);
    mac.finalize().into_bytes().to_vec()
}

/// A fresh 32-byte key from the operating system's random source
/// (`rand::rngs::OsRng`, `RngCore::try_fill_bytes`); `None` when that source
/// fails. The bytes are random; only their number is promised.
#[verifier::external_body]
fn random_key() -> (key: Option<Vec<u8>>)
    ensures
        key matches Some(k) ==> k@.len() == 32,
{
    let mut key = vec![0u8; 32];
    match rand::rngs::OsRng.try_fill_bytes(&mut key) {
        Ok(()) => Some(key),
        Err(_) => None,
    }
}

// ── Errors ─────────────────────────────────────────────────────────────────

/// What can go wrong with the audit log.
#[derive(Debug)]
pub enum AuditError {
    /// Writing the log failed.
    Io(String),
    /// Serialising the log failed.
    Serialization(String),
    /// The MAC of the entry with this index does not match.
    TamperDetected(u64),
    /// There is nothing to verify.
    EmptyLog,
    /// The log is not set up.
    NotInitialized,
}

/// The text shown for an audit error.
pub open spec fn audit_error_text(e: AuditError) -> Seq<char> {
    match e {
        AuditError::Io(m) => "IO error: "@ + m@,
        AuditError::Serialization(m) => "Serialization error: "@ + m@,
        AuditError::TamperDetected(i) => "HMAC verification failed at entry "@ + decimal(i as nat),
        AuditError::EmptyLog => "Audit log is empty"@,
        AuditError::NotInitialized => "Audit log not initialized"@,
    }
}

impl AuditError {
    /// The human-readable message of this error.
    pub fn message(&self) -> (s: String)
        ensures
            s@ == audit_error_text(*self),
    {
        let mut v: Vec<char> = Vec::new();
        match self {
            AuditError::Io(m) => {
                push_str(&mut v, "IO error: ");
                push_str(&mut v, m.as_str());
            },
            AuditError::Serialization(m) => {
                push_str(&mut v, "Serialization error: ");
                push_str(&mut v, m.as_str());
            },
            AuditError::TamperDetected(i) => {
                push_str(&mut v, "HMAC verification failed at entry ");
                push_decimal(&mut v, *i);
            },
            AuditError::EmptyLog => push_str(&mut v, "Audit log is empty"),
            AuditError::NotInitialized => push_str(&mut v, "Audit log not initialized"),
        }
        string_from_chars(&v)
    }
}

// ── Events and entries ─────────────────────────────────────────────────────

/// Kinds of audit events.
#[derive(Debug, Clone, PartialEq)]
pub enum AuditEventType {
    /// A tool was called.
    ToolCall,
    /// A tool finished.
    ToolResult,
    /// A policy decision was made.
    PolicyDecision,
    /// An approval was requested.
    ApprovalRequested,
    /// An approval was granted.
    ApprovalGranted,
    /// An approval was denied.
    ApprovalDenied,
    /// A sandbox violation occurred.
    SandboxViolation,
    /// A security violation occurred (e.g. a prompt injection).
    SecurityViolation,
    /// The agent started.
    AgentStart,
    /// The agent finished.
    AgentFinish,
    /// An error occurred.
    Error,
    /// The configuration changed.
    ConfigChange,
    /// A custom event.
    Custom(String),
}

/// The snake-case name of a unit event kind.
pub open spec fn event_name(e: AuditEventType) -> Seq<char> {
    match e {
        AuditEventType::ToolCall => "tool_call"@,
        AuditEventType::ToolResult => "tool_result"@,
        AuditEventType::PolicyDecision => "policy_decision"@,
        AuditEventType::ApprovalRequested => "approval_requested"@,
        AuditEventType::ApprovalGranted => "approval_granted"@,
        AuditEventType::ApprovalDenied => "approval_denied"@,
        AuditEventType::SandboxViolation => "sandbox_violation"@,
        AuditEventType::SecurityViolation => "security_violation"@,
        AuditEventType::AgentStart => "agent_start"@,
        AuditEventType::AgentFinish => "agent_finish"@,
        AuditEventType::Error => "error"@,
        AuditEventType::ConfigChange => "config_change"@,
        AuditEventType::Custom(s) => s@,
    }
}

/// The JSON form of an event kind: a string for the unit kinds,
/// `{"custom":"<name>"}` for a custom one.
pub open spec fn event_type_json(e: AuditEventType) -> Seq<char> {
    match e {
        AuditEventType::Custom(s) => "{\"custom\":"@ + json_quote(s@) + "}"@,
        _ => json_quote(event_name(e)),
    }
}

/// One entry of the audit log.
#[derive(Debug, Clone)]
pub struct AuditEntry {
    /// Position in the log (0-based).
    pub index: u64,
    /// RFC 3339 timestamp.
    pub timestamp: String,
    /// Kind of event.
    pub event_type: AuditEventType,
    /// Tool or component name.
    pub component: String,
    /// Human-readable description.
    pub description: String,
    /// Metadata, as compact JSON text.
    pub metadata: Option<String>,
    /// Session id.
    pub session_id: Option<String>,
    /// Lowercase hex HMAC-SHA256 of the previous MAC and this entry's data.
    pub hmac: String,
}

/// The bytes the MAC of an entry covers: the previous MAC's text, the index
/// (8 bytes, little-endian), the timestamp, the JSON of the event kind, the
/// component, the description and, when present, the metadata.
pub open spec fn mac_message(
    prev_hmac: Seq<char>,
    index: u64,
    timestamp: Seq<char>,
    event_type: AuditEventType,
    component: Seq<char>,
    description: Seq<char>,
    metadata: Option<String>,
) -> Seq<u8> {
    encode_utf8(prev_hmac) + spec_u64_to_le_bytes(index) + encode_utf8(timestamp) + encode_utf8(
        event_type_json(event_type),
    ) + encode_utf8(component) + encode_utf8(description) + match metadata {
        Some(m) => encode_utf8(m@),
        None => Seq::<u8>::empty(),
    }
}

/// The MAC text of an entry under `key`, after an entry whose MAC text is `prev_hmac`.
pub open spec fn entry_mac(key: Seq<u8>, prev_hmac: Seq<char>, e: AuditEntry) -> Seq<char> {
    hex_lower(
        hmac_sha256(
            key,
            mac_message(prev_hmac, e.index, e.timestamp@, e.event_type, e.component@, e.description@, e.metadata),
        ),
    )
}

/// The MAC text that entry `i` chains to: empty for the first entry.
pub open spec fn chain_prev(es: Seq<AuditEntry>, i: int) -> Seq<char> {
    if i <= 0 { Seq::<char>::empty() } else { es[i - 1].hmac@ }
}

/// Entry `i`'s MAC matches its data and its predecessor's MAC.
pub open spec fn entry_intact(key: Seq<u8>, es: Seq<AuditEntry>, i: int) -> bool {
    es[i].hmac@ == entry_mac(key, chain_prev(es, i), es[i])
}

/// The first entry at or after `from` whose MAC does not match.
pub open spec fn first_tampered_from(key: Seq<u8>, es: Seq<AuditEntry>, from: int) -> Option<int>
    decreases es.len() - from,
{
    if from < 0 || from >= es.len() {
        None
    } else if !entry_intact(key, es, from) {
        Some(from)
    } else {
        first_tampered_from(key, es, from + 1)
    }
}

/// Every entry's MAC matches.
pub open spec fn chain_intact(key: Seq<u8>, es: Seq<AuditEntry>) -> bool {
    forall|i: int| 0 <= i < es.len() ==> #[trigger] entry_intact(key, es, i)
}

// ── Byte building ──────────────────────────────────────────────────────────

fn push_bytes(v: &mut Vec<u8>, b: &[u8])
    ensures
        final(v)@ == old(v)@ + b@,
{
    let mut i: usize = 0;
    while i < b.len()
        invariant
            i <= b@.len(),
            v@ == old(v)@ + b@.take(i as int),
        decreases b@.len() - i,
    {
        v.push(b[i]);
        i = i + 1;
        assert(b@.take(i as int) == b@.take(i - 1 as int).push(b@[i - 1]));
    }
    assert(b@.take(b@.len() as int) == b@);
}

fn push_utf8(v: &mut Vec<u8>, s: &str)
    ensures
        final(v)@ == old(v)@ + encode_utf8(s@),
{
    push_bytes(v, s.as_bytes());
}

/// The JSON of an event kind.
pub fn event_type_to_json(e: &AuditEventType) -> (j: String)
    ensures
        j@ == event_type_json(*e),
{
    match e {
        AuditEventType::Custom(s) => {
            let mut v: Vec<char> = Vec::new();
            push_str(&mut v, "{\"custom\":");
            let q = json_quoted(s.as_str());
            push_str(&mut v, q.as_str());
            push_str(&mut v, "}");
            string_from_chars(&v)
        },
        AuditEventType::ToolCall => json_quoted("tool_call"),
        AuditEventType::ToolResult => json_quoted("tool_result"),
        AuditEventType::PolicyDecision => json_quoted("policy_decision"),
        AuditEventType::ApprovalRequested => json_quoted("approval_requested"),
        AuditEventType::ApprovalGranted => json_quoted("approval_granted"),
        AuditEventType::ApprovalDenied => json_quoted("approval_denied"),
        AuditEventType::SandboxViolation => json_quoted("sandbox_violation"),
        AuditEventType::SecurityViolation => json_quoted("security_violation"),
        AuditEventType::AgentStart => json_quoted("agent_start"),
        AuditEventType::AgentFinish => json_quoted("agent_finish"),
        AuditEventType::Error => json_quoted("error"),
        AuditEventType::ConfigChange => json_quoted("config_change"),
    }
}

// ── The log ────────────────────────────────────────────────────────────────

/// The JSON of an entry on one line: its fields in declaration order, the
/// metadata and the session id left out when absent.
pub open spec fn entry_json(e: AuditEntry) -> Seq<char> {
    "{\"index\":"@ + decimal(e.index as nat) + ",\"timestamp\":"@ + json_quote(e.timestamp@)
        + ",\"event_type\":"@ + event_type_json(e.event_type) + ",\"component\":"@ + json_quote(e.component@)
        + ",\"description\":"@ + json_quote(e.description@) + match e.metadata {
        Some(m) => ",\"metadata\":"@ + m@,
        None => Seq::<char>::empty(),
    } + match e.session_id {
        Some(sid) => ",\"session_id\":"@ + json_quote(sid@),
        None => Seq::<char>::empty(),
    } + ",\"hmac\":"@ + json_quote(e.hmac@) + "}"@
}

/// The entries as JSON lines, each line ended by a newline.
pub open spec fn json_lines(es: Seq<AuditEntry>) -> Seq<char>
    decreases es.len(),
{
    if es.len() == 0 {
        Seq::<char>::empty()
    } else {
        json_lines(es.drop_last()) + entry_json(es.last()) + "\n"@
    }
}

#[verifier::spinoff_prover]
#[verifier::rlimit(40)]
fn push_entry_json(v: &mut Vec<char>, e: &AuditEntry)
    ensures
        final(v)@ == old(v)@ + entry_json(*e),
{
    let ghost start = v@;
    push_str(v, "{\"index\":");
    push_decimal(v, e.index);
    push_str(v, ",\"timestamp\":");
    let t = json_quoted(e.timestamp.as_str());
    push_str(v, t.as_str());
    push_str(v, ",\"event_type\":");
    let k = event_type_to_json(&e.event_type);
    push_str(v, k.as_str());
    push_str(v, ",\"component\":");
    let c = json_quoted(e.component.as_str());
    push_str(v, c.as_str());
    push_str(v, ",\"description\":");
    let d = json_quoted(e.description.as_str());
    push_str(v, d.as_str());
    match &e.metadata {
        Some(m) => {
            push_str(v, ",\"metadata\":");
            push_str(v, m.as_str());
        },
        None => {},
    }
    match &e.session_id {
        Some(sid) => {
            push_str(v, ",\"session_id\":");
            let q = json_quoted(sid.as_str());
            push_str(v, q.as_str());
        },
        None => {},
    }
    push_str(v, ",\"hmac\":");
    let h = json_quoted(e.hmac.as_str());
    push_str(v, h.as_str());
    push_str(v, "}");
    assert(v@ =~= start + entry_json(*e));
}

/// The metadata of a tool result entry.
pub open spec fn tool_result_json(o: ToolOutcome) -> Seq<char> {
    "{\"duration_ms\":"@ + match o.duration_ms {
        Some(d) => decimal(d as nat),
        None => "null"@,
    } + ",\"exit_code\":"@ + match o.exit_code {
        Some(c) => signed_decimal(c as int),
        None => "null"@,
    } + ",\"output_length\":"@ + decimal(byte_len(o.output@)) + ",\"success\":"@ + bool_text(o.success) + "}"@
}

/// An append-only, tamper-evident log.
pub struct AuditLog {
    key: SecretKey,
    entries: Vec<AuditEntry>,
    session_id: String,
    trace_logging: bool,
    file_path: Option<String>,
}

impl AuditLog {
    /// The entries, oldest first.
    pub closed spec fn records(&self) -> Seq<AuditEntry> {
        self.entries@
    }

    /// The secret key of the MAC chain.
    pub closed spec fn key(&self) -> Seq<u8> {
        secret_key_bytes(self.key)
    }

    /// The session the log belongs to.
    pub closed spec fn session(&self) -> Seq<char> {
        self.session_id@
    }

    /// Whether appended entries are also traced.
    pub closed spec fn traces(&self) -> bool {
        self.trace_logging
    }

    /// Where the log is persisted, if anywhere.
    pub closed spec fn persisted_at(&self) -> Option<Seq<char>> {
        match self.file_path {
            Some(p) => Some(p@),
            None => None,
        }
    }

    /// A log with a fresh random 32-byte key; `NotInitialized` when the
    /// operating system gives no random bytes for the key.
    pub fn new(session_id: String) -> (r: Result<Self, AuditError>)
        ensures
            r matches Ok(log) ==> log.records().len() == 0 && log.key().len() == 32 && log.session()
                == session_id@ && log.traces() && log.persisted_at() is None,
            r matches Err(e) ==> e == AuditError::NotInitialized,
    {
        match random_key() {
            Some(key) => Ok(
                AuditLog {
                    key: protect_key(key),
                    entries: Vec::new(),
                    session_id,
                    trace_logging: true,
                    file_path: None,
                },
            ),
            None => Err(AuditError::NotInitialized),
        }
    }

    /// A log with the given key.
    pub fn with_key(session_id: String, key: Vec<u8>) -> (log: Self)
        ensures
            log.records().len() == 0,
            log.key() == key@,
            log.session() == session_id@,
            log.traces(),
            log.persisted_at() is None,
    {
        AuditLog {
            key: protect_key(key),
            entries: Vec::new(),
            session_id,
            trace_logging: true,
            file_path: None,
        }
    }

    /// Turns tracing of appended entries on or off.
    pub fn set_trace_logging(&mut self, enabled: bool)
        ensures
            final(self).traces() == enabled,
            final(self).records() == old(self).records(),
            final(self).key() == old(self).key(),
            final(self).session() == old(self).session(),
            final(self).persisted_at() == old(self).persisted_at(),
    {
        self.trace_logging = enabled;
    }

    /// Sets the file the log is persisted to after each append.
    pub fn set_file_path(&mut self, path: String)
        ensures
            final(self).persisted_at() == Some(path@),
            final(self).records() == old(self).records(),
            final(self).key() == old(self).key(),
            final(self).session() == old(self).session(),
            final(self).traces() == old(self).traces(),
    {
        self.file_path = Some(path);
    }

    /// Whether appended entries are also traced.
    pub fn trace_logging(&self) -> (b: bool)
        ensures
            b == self.traces(),
    {
        self.trace_logging
    }

    /// The file the log is persisted to, if any.
    pub fn file_path(&self) -> (p: Option<&str>)
        ensures
            match p {
                Some(s) => self.persisted_at() == Some(s@),
                None => self.persisted_at() is None,
            },
    {
        match &self.file_path {
            Some(s) => Some(s.as_str()),
            None => None,
        }
    }

    /// The MAC text of an entry with the given data, chained after `prev_hmac`.
    fn mac_for(
        &self,
        prev_hmac: &str,
        index: u64,
        timestamp: &str,
        event_type: &AuditEventType,
        component: &str,
        description: &str,
        metadata: &Option<String>,
    ) -> (m: String)
        ensures
            m@ == hex_lower(
                hmac_sha256(
                    self.key(),
                    mac_message(prev_hmac@, index, timestamp@, *event_type, component@, description@, *metadata),
                ),
            ),
    {
        let mut msg: Vec<u8> = Vec::new();
        push_utf8(&mut msg, prev_hmac);
        let ib = u64_to_le_bytes(index);
        push_bytes(&mut msg, &ib);
        push_utf8(&mut msg, timestamp);
        let ej = event_type_to_json(event_type);
        push_utf8(&mut msg, ej.as_str());
        push_utf8(&mut msg, component);
        push_utf8(&mut msg, description);
        match metadata {
            Some(m) => push_utf8(&mut msg, m.as_str()),
            None => {},
        }
        proof {
            let expected = mac_message(prev_hmac@, index, timestamp@, *event_type, component@, description@, *metadata);
            assert(msg@ =~= expected);
        }
        let tag = compute_hmac_sha256(key_bytes(&self.key), &msg);
        hex_encode(&tag)
    }

    /// Appends an entry stamped with the current time, chained to the last
    /// entry's MAC, and returns it. With a file path set, the application
    /// persists the log after the append.
    pub fn append(
        &mut self,
        event_type: AuditEventType,
        component: &str,
        description: &str,
        metadata: Option<String>,
    ) -> (r: Result<AuditEntry, AuditError>)
        requires
            old(self).records().len() < u64::MAX,
        ensures
            final(self).records().len() == old(self).records().len() + 1,
            final(self).records().drop_last() == old(self).records(),
            ({
                let e = final(self).records().last();
                &&& e.index == old(self).records().len()
                &&& e.event_type == event_type
                &&& e.component@ == component@
                &&& e.description@ == description@
                &&& e.metadata == metadata
                &&& e.session_id matches Some(s) && s@ == old(self).session()
                &&& e.hmac@ == entry_mac(old(self).key(), chain_prev(final(self).records(), e.index as int), e)
            }),
            r matches Ok(x) && same_entry(x, final(self).records().last()),
            chain_intact(old(self).key(), old(self).records()) ==> chain_intact(final(self).key(), final(self).records()),
            final(self).key() == old(self).key(),
            final(self).session() == old(self).session(),
            final(self).traces() == old(self).traces(),
            final(self).persisted_at() == old(self).persisted_at(),
    {
        let index = self.entries.len() as u64;
        let timestamp = now_rfc3339();
        let n = self.entries.len();
        let hmac = if n == 0 {
            proof {
                reveal_strlit("");
            }
            self.mac_for("", index, timestamp.as_str(), &event_type, component, description, &metadata)
        } else {
            self.mac_for(
                self.entries[n - 1].hmac.as_str(),
                index,
                timestamp.as_str(),
                &event_type,
                component,
                description,
                &metadata,
            )
        };
        let entry = AuditEntry {
            index,
            timestamp,
            event_type,
            component: String::from_str(component),
            description: String::from_str(description),
            metadata,
            session_id: Some(self.session_id.clone()),
            hmac,
        };
        let ghost e = entry;
        self.entries.push(entry);
        proof {
            assert(self.entries@.last() == e);
            assert(self.entries@.drop_last() == old(self).records());
            if n > 0 {
                assert(chain_prev(self.entries@, n as int) == self.entries@[n - 1].hmac@);
            }
            if chain_intact(old(self).key(), old(self).records()) {
                lemma_append_keeps_chain_intact(old(self).key(), old(self).records(), e);
            }
        }
        Ok(clone_entry(&self.entries[n]))
    }

    /// Logs a tool call; `args_json` is the compact JSON text of the arguments.
    pub fn tool_call(&mut self, tool_name: &str, args_json: &str) -> (r: Result<AuditEntry, AuditError>)
        requires
            old(self).records().len() < u64::MAX,
        ensures
            final(self).records().drop_last() == old(self).records(),
            ({
                let e = final(self).records().last();
                &&& final(self).records().len() == old(self).records().len() + 1
                &&& e.event_type == AuditEventType::ToolCall
                &&& e.component@ == tool_name@
                &&& e.description@ == "Tool call: "@ + tool_name@
                &&& e.metadata matches Some(m) && m@ == "{\"arguments\":"@ + args_json@ + "}"@
            }),
            r matches Ok(x) && same_entry(x, final(self).records().last()),
            chain_intact(old(self).key(), old(self).records()) ==> chain_intact(final(self).key(), final(self).records()),
            final(self).key() == old(self).key(),
    {
        let mut d: Vec<char> = Vec::new();
        push_str(&mut d, "Tool call: ");
        push_str(&mut d, tool_name);
        let mut m: Vec<char> = Vec::new();
        push_str(&mut m, "{\"arguments\":");
        push_str(&mut m, args_json);
        push_str(&mut m, "}");
        let desc = string_from_chars(&d);
        self.append(AuditEventType::ToolCall, tool_name, desc.as_str(), Some(string_from_chars(&m)))
    }

    /// Logs a policy decision on a tool.
    pub fn policy_decision(&mut self, tool_name: &str, allowed: bool, reason: Option<&str>) -> (r: Result<
        AuditEntry,
        AuditError,
    >)
        requires
            old(self).records().len() < u64::MAX,
        ensures
            final(self).records().drop_last() == old(self).records(),
            ({
                let e = final(self).records().last();
                &&& final(self).records().len() == old(self).records().len() + 1
                &&& e.event_type == AuditEventType::PolicyDecision
                &&& e.component@ == "policy"@
                &&& e.description@ == "Policy decision for '"@ + tool_name@ + "': "@ + verdict_text(allowed, "allowed"@, "denied"@)
                &&& e.metadata matches Some(m) && m@ == decision_json("allowed"@, allowed, reason, tool_name@)
            }),
            r matches Ok(x) && same_entry(x, final(self).records().last()),
            chain_intact(old(self).key(), old(self).records()) ==> chain_intact(final(self).key(), final(self).records()),
            final(self).key() == old(self).key(),
    {
        let mut d: Vec<char> = Vec::new();
        push_str(&mut d, "Policy decision for '");
        push_str(&mut d, tool_name);
        push_str(&mut d, "': ");
        if allowed {
            push_str(&mut d, "allowed");
        } else {
            push_str(&mut d, "denied");
        }
        let desc = string_from_chars(&d);
        let meta = decision_metadata("allowed", allowed, reason, tool_name);
        self.append(AuditEventType::PolicyDecision, "policy", desc.as_str(), Some(meta))
    }

    /// Logs an approval granted or denied for a tool.
    pub fn approval(&mut self, tool_name: &str, granted: bool, reason: Option<&str>) -> (r: Result<
        AuditEntry,
        AuditError,
    >)
        requires
            old(self).records().len() < u64::MAX,
        ensures
            final(self).records().drop_last() == old(self).records(),
            ({
                let e = final(self).records().last();
                &&& final(self).records().len() == old(self).records().len() + 1
                &&& e.event_type == (if granted {
                    AuditEventType::ApprovalGranted
                } else {
                    AuditEventType::ApprovalDenied
                })
                &&& e.component@ == "approval"@
                &&& e.description@ == "Approval for '"@ + tool_name@ + "': "@ + verdict_text(granted, "granted"@, "denied"@)
                &&& e.metadata matches Some(m) && m@ == decision_json("granted"@, granted, reason, tool_name@)
            }),
            r matches Ok(x) && same_entry(x, final(self).records().last()),
            chain_intact(old(self).key(), old(self).records()) ==> chain_intact(final(self).key(), final(self).records()),
            final(self).key() == old(self).key(),
    {
        let mut d: Vec<char> = Vec::new();
        push_str(&mut d, "Approval for '");
        push_str(&mut d, tool_name);
        push_str(&mut d, "': ");
        if granted {
            push_str(&mut d, "granted");
        } else {
            push_str(&mut d, "denied");
        }
        let desc = string_from_chars(&d);
        let meta = decision_metadata("granted", granted, reason, tool_name);
        let event = if granted { AuditEventType::ApprovalGranted } else { AuditEventType::ApprovalDenied };
        self.append(event, "approval", desc.as_str(), Some(meta))
    }

    /// Logs what a tool run produced: `Tool result: <name> (success: <b>)`,
    /// with the duration, exit code, output length in bytes and success flag
    /// as metadata.
    pub fn tool_result(&mut self, tool_name: &str, result: &ToolOutcome) -> (r: Result<AuditEntry, AuditError>)
        requires
            old(self).records().len() < u64::MAX,
        ensures
            final(self).records().drop_last() == old(self).records(),
            ({
                let e = final(self).records().last();
                &&& final(self).records().len() == old(self).records().len() + 1
                &&& e.event_type == AuditEventType::ToolResult
                &&& e.component@ == tool_name@
                &&& e.description@ == "Tool result: "@ + tool_name@ + " (success: "@ + bool_text(result.success) + ")"@
                &&& e.metadata matches Some(m) && m@ == tool_result_json(*result)
            }),
            r matches Ok(x) && same_entry(x, final(self).records().last()),
            chain_intact(old(self).key(), old(self).records()) ==> chain_intact(final(self).key(), final(self).records()),
            final(self).key() == old(self).key(),
    {
        let mut d: Vec<char> = Vec::new();
        push_str(&mut d, "Tool result: ");
        push_str(&mut d, tool_name);
        push_str(&mut d, " (success: ");
        push_str(&mut d, if result.success { "true" } else { "false" });
        push_str(&mut d, ")");
        let mut m: Vec<char> = Vec::new();
        push_str(&mut m, "{\"duration_ms\":");
        match result.duration_ms {
            Some(x) => push_decimal(&mut m, x),
            None => push_str(&mut m, "null"),
        }
        push_str(&mut m, ",\"exit_code\":");
        match result.exit_code {
            Some(c) => push_signed(&mut m, c),
            None => push_str(&mut m, "null"),
        }
        push_str(&mut m, ",\"output_length\":");
        push_decimal(&mut m, result.output.as_str().len() as u64);
        push_str(&mut m, ",\"success\":");
        push_str(&mut m, if result.success { "true" } else { "false" });
        push_str(&mut m, "}");
        let desc = string_from_chars(&d);
        self.append(AuditEventType::ToolResult, tool_name, desc.as_str(), Some(string_from_chars(&m)))
    }

    /// The log as JSON lines: one line per entry, oldest first.
    pub fn to_json_lines(&self) -> (r: Result<String, AuditError>)
        ensures
            r matches Ok(t) && t@ == json_lines(self.records()),
    {
        let mut v: Vec<char> = Vec::new();
        let mut i: usize = 0;
        while i < self.entries.len()
            invariant
                i <= self.entries@.len(),
                v@ == json_lines(self.entries@.take(i as int)),
            decreases self.entries@.len() - i,
        {
            proof {
                assert(self.entries@.take(i + 1).drop_last() =~= self.entries@.take(i as int));
            }
            push_entry_json(&mut v, &self.entries[i]);
            push_str(&mut v, "\n");
            i = i + 1;
        }
        proof {
            assert(self.entries@.take(i as int) =~= self.entries@);
        }
        Ok(string_from_chars(&v))
    }

    /// Copies of all entries, oldest first.
    pub fn entries(&self) -> (v: Vec<AuditEntry>)
        ensures
            v@.len() == self.records().len(),
            forall|i: int| 0 <= i < v@.len() ==> same_entry(#[trigger] v@[i], self.records()[i]),
    {
        let mut v: Vec<AuditEntry> = Vec::new();
        let mut i: usize = 0;
        while i < self.entries.len()
            invariant
                i <= self.entries@.len(),
                v@.len() == i,
                forall|k: int| 0 <= k < i ==> same_entry(#[trigger] v@[k], self.entries@[k]),
            decreases self.entries@.len() - i,
        {
            v.push(clone_entry(&self.entries[i]));
            i = i + 1;
        }
        v
    }

    /// Puts `entry` in place of the stored entry at `index`, as an entry read
    /// back from storage would be; nothing is signed anew, so [`Self::verify`]
    /// checks it against the chain like any other.
    pub fn replace_entry(&mut self, index: usize, entry: AuditEntry)
        requires
            index < old(self).records().len(),
        ensures
            final(self).records() == old(self).records().update(index as int, entry),
            final(self).key() == old(self).key(),
    {
        self.entries.set(index, entry);
    }

    /// The number of entries.
    pub fn len(&self) -> (n: usize)
        ensures
            n == self.records().len(),
    {
        self.entries.len()
    }

    /// Whether the log has no entry.
    pub fn is_empty(&self) -> (b: bool)
        ensures
            b == (self.records().len() == 0),
    {
        self.entries.len() == 0
    }

    /// Checks the MAC chain: an empty log is an error; otherwise the first
    /// entry whose MAC does not match its data and its predecessor's MAC is
    /// reported by its index.
    pub fn verify(&self) -> (r: Result<(), AuditError>)
        ensures
            self.records().len() == 0 ==> r matches Err(AuditError::EmptyLog),
            self.records().len() > 0 ==> match first_tampered_from(self.key(), self.records(), 0) {
                None => r is Ok,
                Some(i) => r matches Err(AuditError::TamperDetected(x)) && x == self.records()[i].index,
            },
    {
        if self.entries.len() == 0 {
            return Err(AuditError::EmptyLog);
        }
        let mut prev: String = String::new();
        let mut i: usize = 0;
        while i < self.entries.len()
            invariant
                i <= self.entries@.len(),
                first_tampered_from(self.key(), self.entries@, 0) == first_tampered_from(self.key(), self.entries@, i as int),
                prev@ == chain_prev(self.entries@, i as int),
            decreases self.entries@.len() - i,
        {
            let e = &self.entries[i];
            let expected = self.mac_for(
                prev.as_str(),
                e.index,
                e.timestamp.as_str(),
                &e.event_type,
                e.component.as_str(),
                e.description.as_str(),
                &e.metadata,
            );
            if !str_eq(e.hmac.as_str(), expected.as_str()) {
                return Err(AuditError::TamperDetected(e.index));
            }
            prev = e.hmac.clone();
            i = i + 1;
        }
        Ok(())
    }
}

/// `yes` or `no` as the verdict reads.
pub open spec fn verdict_text(verdict: bool, yes: Seq<char>, no: Seq<char>) -> Seq<char> {
    if verdict { yes } else { no }
}

/// The JSON of a decision's metadata, keys in order:
/// `{"<verdict_key>":<bool>,"reason":<string or null>,"tool":<string>}`.
pub open spec fn decision_json(verdict_key: Seq<char>, verdict: bool, reason: Option<&str>, tool: Seq<char>) -> Seq<char> {
    "{\""@ + verdict_key + "\":"@ + verdict_text(verdict, "true"@, "false"@) + ",\"reason\":"@ + match reason {
        Some(r) => json_quote(r@),
        None => "null"@,
    } + ",\"tool\":"@ + json_quote(tool) + "}"@
}

fn decision_metadata(verdict_key: &str, verdict: bool, reason: Option<&str>, tool: &str) -> (m: String)
    ensures
        m@ == decision_json(verdict_key@, verdict, reason, tool@),
{
    let mut v: Vec<char> = Vec::new();
    push_str(&mut v, "{\"");
    push_str(&mut v, verdict_key);
    push_str(&mut v, "\":");
    if verdict {
        push_str(&mut v, "true");
    } else {
        push_str(&mut v, "false");
    }
    push_str(&mut v, ",\"reason\":");
    match reason {
        Some(r) => {
            let q = json_quoted(r);
            push_str(&mut v, q.as_str());
        },
        None => push_str(&mut v, "null"),
    }
    push_str(&mut v, ",\"tool\":");
    let t = json_quoted(tool);
    push_str(&mut v, t.as_str());
    push_str(&mut v, "}");
    string_from_chars(&v)
}

// ── Laws ───────────────────────────────────────────────────────────────────

/// Law: the MAC covers an entry's metadata. Two entries that agree on every
/// other field but carry different metadata texts, or metadata against none
/// (with a non-empty text), give different MAC inputs, so editing the logged
/// arguments of a tool call changes what its MAC must be.
pub proof fn lemma_mac_covers_metadata(
    prev_hmac: Seq<char>,
    index: u64,
    timestamp: Seq<char>,
    event_type: AuditEventType,
    component: Seq<char>,
    description: Seq<char>,
    m1: String,
    m2: String,
)
    ensures
        m1@ != m2@ ==> mac_message(prev_hmac, index, timestamp, event_type, component, description, Some(m1))
            != mac_message(prev_hmac, index, timestamp, event_type, component, description, Some(m2)),
        m1@.len() > 0 ==> mac_message(prev_hmac, index, timestamp, event_type, component, description, Some(m1))
            != mac_message(prev_hmac, index, timestamp, event_type, component, description, None),
{
    let head = encode_utf8(prev_hmac) + spec_u64_to_le_bytes(index) + encode_utf8(timestamp) + encode_utf8(
        event_type_json(event_type),
    ) + encode_utf8(component) + encode_utf8(description);
    let a = mac_message(prev_hmac, index, timestamp, event_type, component, description, Some(m1));
    let b = mac_message(prev_hmac, index, timestamp, event_type, component, description, Some(m2));
    let c = mac_message(prev_hmac, index, timestamp, event_type, component, description, None);
    assert(a == head + encode_utf8(m1@));
    assert(b == head + encode_utf8(m2@));
    assert(c =~= head);
    if m1@ != m2@ && a == b {
        assert(a.skip(head.len() as int) =~= encode_utf8(m1@));
        assert(b.skip(head.len() as int) =~= encode_utf8(m2@));
        vstd::utf8::encode_utf8_decode_utf8(m1@);
        vstd::utf8::encode_utf8_decode_utf8(m2@);
    }
    if m1@.len() > 0 {
        vstd::utf8::encode_utf8_first_scalar(m1@);
        assert(encode_utf8(m1@).len() > 0);
        assert(a.len() > c.len());
    }
}

/// Appending an entry whose MAC chains to the last one keeps an intact chain
/// intact: entries are never changed by later appends.
pub proof fn lemma_append_keeps_chain_intact(key: Seq<u8>, es: Seq<AuditEntry>, e: AuditEntry)
    requires
        chain_intact(key, es),
        e.hmac@ == entry_mac(key, chain_prev(es.push(e), es.len() as int), e),
    ensures
        chain_intact(key, es.push(e)),
{
    let ns = es.push(e);
    assert forall|i: int| 0 <= i < ns.len() implies #[trigger] entry_intact(key, ns, i) by {
        if i < es.len() {
            assert(entry_intact(key, es, i));
            assert(ns[i] == es[i]);
            if i > 0 {
                assert(ns[i - 1] == es[i - 1]);
            }
        }
    }
}

/// A log whose chain is intact has no tampered entry from any position on.
pub proof fn lemma_intact_chain_has_no_tampering(key: Seq<u8>, es: Seq<AuditEntry>, from: int)
    requires
        chain_intact(key, es),
        0 <= from,
    ensures
        first_tampered_from(key, es, from) is None,
    decreases es.len() - from,
{
    if from < es.len() {
        assert(entry_intact(key, es, from));
        lemma_intact_chain_has_no_tampering(key, es, from + 1);
    }
}

/// The entry reported as tampered is the first broken one: its MAC does not
/// match, and every earlier entry's does.
pub proof fn lemma_first_tampered_is_first_broken(key: Seq<u8>, es: Seq<AuditEntry>, from: int)
    requires
        0 <= from,
    ensures
        first_tampered_from(key, es, from) matches Some(i) ==> from <= i < es.len() && !entry_intact(key, es, i)
            && forall|j: int| from <= j < i ==> #[trigger] entry_intact(key, es, j),
        first_tampered_from(key, es, from) is None ==> forall|j: int| from <= j < es.len() ==> #[trigger] entry_intact(key, es, j),
    decreases es.len() - from,
{
    if from < es.len() && entry_intact(key, es, from) {
        lemma_first_tampered_is_first_broken(key, es, from + 1);
    }
}

/// Law: a log written only by appends verifies. Starting from an empty log,
/// or any log whose chain is intact, the chain is intact after an append,
/// so `verify` answers `Ok` on it.
pub proof fn lemma_appended_log_verifies(key: Seq<u8>, es: Seq<AuditEntry>, e: AuditEntry)
    requires
        chain_intact(key, es),
        e.hmac@ == entry_mac(key, chain_prev(es.push(e), es.len() as int), e),
    ensures
        first_tampered_from(key, es.push(e), 0) is None,
{
    lemma_append_keeps_chain_intact(key, es, e);
    lemma_intact_chain_has_no_tampering(key, es.push(e), 0);
}

/// The two events are the same kind (custom names compared by text).
pub open spec fn same_event(a: AuditEventType, b: AuditEventType) -> bool {
    match (a, b) {
        (AuditEventType::Custom(x), AuditEventType::Custom(y)) => x@ == y@,
        _ => a == b,
    }
}

/// The two entries hold the same data.
pub open spec fn same_entry(a: AuditEntry, b: AuditEntry) -> bool {
    &&& a.index == b.index
    &&& a.timestamp@ == b.timestamp@
    &&& same_event(a.event_type, b.event_type)
    &&& a.component@ == b.component@
    &&& a.description@ == b.description@
    &&& match (a.metadata, b.metadata) {
        (Some(x), Some(y)) => x@ == y@,
        (None, None) => true,
        _ => false,
    }
    &&& match (a.session_id, b.session_id) {
        (Some(x), Some(y)) => x@ == y@,
        (None, None) => true,
        _ => false,
    }
    &&& a.hmac@ == b.hmac@
}

/// A copy of an event kind.
pub fn clone_event(e: &AuditEventType) -> (r: AuditEventType)
    ensures
        same_event(r, *e),
{
    match e {
        AuditEventType::ToolCall => AuditEventType::ToolCall,
        AuditEventType::ToolResult => AuditEventType::ToolResult,
        AuditEventType::PolicyDecision => AuditEventType::PolicyDecision,
        AuditEventType::ApprovalRequested => AuditEventType::ApprovalRequested,
        AuditEventType::ApprovalGranted => AuditEventType::ApprovalGranted,
        AuditEventType::ApprovalDenied => AuditEventType::ApprovalDenied,
        AuditEventType::SandboxViolation => AuditEventType::SandboxViolation,
        AuditEventType::SecurityViolation => AuditEventType::SecurityViolation,
        AuditEventType::AgentStart => AuditEventType::AgentStart,
        AuditEventType::AgentFinish => AuditEventType::AgentFinish,
        AuditEventType::Error => AuditEventType::Error,
        AuditEventType::ConfigChange => AuditEventType::ConfigChange,
        AuditEventType::Custom(s) => AuditEventType::Custom(s.clone()),
    }
}

fn clone_opt(m: &Option<String>) -> (r: Option<String>)
    ensures
        match (r, *m) {
            (Some(x), Some(y)) => x@ == y@,
            (None, None) => true,
            _ => false,
        },
{
    match m {
        Some(s) => Some(s.clone()),
        None => None,
    }
}

/// A copy of an entry.
pub fn clone_entry(e: &AuditEntry) -> (r: AuditEntry)
    ensures
        same_entry(r, *e),
{
    AuditEntry {
        index: e.index,
        timestamp: e.timestamp.clone(),
        event_type: clone_event(&e.event_type),
        component: e.component.clone(),
        description: e.description.clone(),
        metadata: clone_opt(&e.metadata),
        session_id: clone_opt(&e.session_id),
        hmac: e.hmac.clone(),
    }
}

} // verus!
