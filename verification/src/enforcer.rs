//! Request-time policy enforcement: the agent-side policy state, the
//! gate decision over the engine's answer, the secure policy-replacement
//! protocol, attestation binding, the copy-file request rewrite, and the
//! audit-log entry format.
//!
//! The enforcer talks to a local decision engine over HTTP and to the
//! platform's attestation firmware.  Both are outside operations: the
//! surrounding process performs them and hands their outcomes in as
//! plain values; every decision taken on those outcomes is verified
//! here.

use crate::hashing::{sha256, sha256_of};
use crate::json::{dec_int, dec_nat, json_string_of, write_i64, write_json_string, write_u64};
use crate::text::str_eq;
use vstd::prelude::*;
use vstd::string::{StrSliceExecFns, StringExecFns};
use vstd::utf8::{decode_utf8, valid_utf8};

verus! {

/// Outcome of one HTTP exchange with the decision engine: either the
/// transport or status failed, or a response body arrived.
pub enum EngineResponse {
    HttpError,
    Body(String),
}

/// Whether a response body is a JSON document with a boolean `result`
/// member, and that boolean; determined by the body text alone.
pub uninterp spec fn engine_verdict_of(body: Seq<char>) -> Option<bool>;

/// Relies on serde_json's `from_str` and `Value::get`: reads the
/// `result` member of the response body, `None` when the body does not
/// parse or carries no boolean `result`.
#[verifier::external_body]
fn parse_engine_verdict(body: &str) -> (r: Option<bool>)
    ensures
        r == engine_verdict_of(body@),
{
    match serde_json::from_str::<serde_json::Value>(body) {
        Ok(v) => match v.get("result") {
            Some(serde_json::Value::Bool(b)) => Some(*b),
            _ => None,
        },
        Err(_) => None,
    }
}

/// The verdict carried by an engine response: `None` for a failed
/// exchange or an unreadable body.
pub open spec fn spec_verdict(resp: EngineResponse) -> Option<bool> {
    match resp {
        EngineResponse::HttpError => None,
        EngineResponse::Body(s) => engine_verdict_of(s@),
    }
}

/// The enforcement rule: a request is admitted when the verdict is a
/// yes, or when the failure-open flag is set.
pub open spec fn spec_allows(allow_failures: bool, resp: EngineResponse) -> bool {
    spec_verdict(resp) == Some(true) || allow_failures
}

/// The failure-open flag derived from a probe of the rule
/// `AllowRequestsFailingPolicy`: true only when the rule evaluated to
/// true; an undefined rule or unreadable answer yields false.
pub open spec fn spec_derived_allow_failures(resp: EngineResponse) -> bool {
    spec_verdict(resp) == Some(true)
}

/// A request is admitted in two cases and no others: the verdict is a
/// yes; or the verdict is not a yes (a denial, a failed exchange, or
/// an unreadable answer) while the failure-open flag is set.
pub proof fn lemma_gate_decision(allow_failures: bool, resp: EngineResponse)
    ensures
        spec_allows(allow_failures, resp) <==> (spec_verdict(resp) == Some(true) || (spec_verdict(
            resp,
        ) != Some(true) && allow_failures)),
{
}

/// Decide one request from the engine's answer.
pub fn gate_decision(allow_failures: bool, resp: &EngineResponse) -> (allow: bool)
    ensures
        allow == spec_allows(allow_failures, *resp),
{
    match resp {
        EngineResponse::HttpError => allow_failures,
        EngineResponse::Body(s) => match parse_engine_verdict(s.as_str()) {
            Some(true) => true,
            _ => allow_failures,
        },
    }
}

/// Derive the failure-open flag from the probe's answer.
pub fn derive_allow_failures(resp: &EngineResponse) -> (flag: bool)
    ensures
        flag == spec_derived_allow_failures(*resp),
{
    match resp {
        EngineResponse::HttpError => false,
        EngineResponse::Body(s) => match parse_engine_verdict(s.as_str()) {
            Some(true) => true,
            _ => false,
        },
    }
}

/// Failures of the enforcer.
#[derive(Clone, Copy, PartialEq, Eq, Structural, Debug)]
pub enum PolicyError {
    /// The enforcer has not connected to the engine yet.
    NotInitialized,
    /// The engine denied the request.
    PolicyDenied,
    /// The policy hash does not match the platform's host data.
    AttestationMismatch,
    /// The engine could not be reached during initialization.
    EngineUnreachable,
    /// A single exchange with the engine failed.
    EngineTransient,
    /// The attestation firmware could not be used.
    FirmwareUnavailable,
}

/// Byte-for-byte equality of two byte vectors.
pub fn bytes_eq(a: &Vec<u8>, b: &Vec<u8>) -> (r: bool)
    ensures
        r == (a@ == b@),
{
    if a.len() != b.len() {
        return false;
    }
    let n = a.len();
    for i in 0..n
        invariant
            n == a@.len(),
            n == b@.len(),
            forall|j: int| 0 <= j < i ==> a@[j] == b@[j],
    {
        if a[i] != b[i] {
            return false;
        }
    }
    proof {
        assert(a@ =~= b@);
    }
    true
}

/// Whether the SHA-256 of the policy's UTF-8 bytes equals the given
/// host-data bytes.
pub fn hash_matches_host_data(policy: &str, host_data: &Vec<u8>) -> (r: bool)
    ensures
        r == (sha256_of(vstd::utf8::encode_utf8(policy@)) == host_data@),
{
    let digest = sha256(policy.as_bytes());
    bytes_eq(&digest, host_data)
}

/// The attestation firmware handle of the sev crate, opaque here.
#[verifier::external_type_specification]
#[verifier::external_body]
pub struct ExFirmware(sev::firmware::guest::Firmware);

/// Relies on sev's `Firmware::open`: a handle on the platform's
/// attestation firmware device.
#[verifier::external_body]
fn firmware_open() -> (r: Result<sev::firmware::guest::Firmware, PolicyError>) {
    sev::firmware::guest::Firmware::open().map_err(|_| PolicyError::FirmwareUnavailable)
}

/// Relies on sev's `Firmware::get_report`: the raw attestation report,
/// requested with 64 zero bytes of report data and VMPL 0.
#[verifier::external_body]
fn firmware_report_bytes(fw: &mut sev::firmware::guest::Firmware) -> (r: Result<
    Vec<u8>,
    PolicyError,
>) {
    fw.get_report(None, Some([0u8; 64]), Some(0)).map_err(|_| PolicyError::FirmwareUnavailable)
}

/// Relies on sev's `AttestationReport` decoder: the report's 32-byte
/// `host_data` field, set by the hypervisor at launch.
#[verifier::external_body]
fn report_host_data(report: &Vec<u8>) -> (r: Result<Vec<u8>, PolicyError>)
    ensures
        r matches Ok(hd) ==> hd@.len() == 32,
{
    let mut cursor = std::io::Cursor::new(report.as_slice());
    match <sev::firmware::guest::AttestationReport as sev::parser::Decoder<()>>::decode(
        &mut cursor,
        (),
    ) {
        Ok(rep) => Ok(rep.host_data.to_vec()),
        Err(_) => Err(PolicyError::FirmwareUnavailable),
    }
}

/// The platform's measured host data: read an attestation report from
/// the firmware and extract its 32-byte `host_data` field.
pub fn platform_host_data() -> (r: Result<Vec<u8>, PolicyError>)
    ensures
        r matches Ok(hd) ==> hd@.len() == 32,
{
    let mut fw = match firmware_open() {
        Ok(fw) => fw,
        Err(e) => {
            return Err(e);
        },
    };
    let report = match firmware_report_bytes(&mut fw) {
        Ok(b) => b,
        Err(e) => {
            return Err(e);
        },
    };
    report_host_data(&report)
}

/// Compare the policy's hash against the platform's host data.  On
/// success the returned bytes are the host data, and they equal the
/// SHA-256 of the policy's UTF-8 bytes.
pub fn check_policy_hash(policy: &str) -> (r: Result<Vec<u8>, PolicyError>)
    ensures
        r matches Ok(hd) ==> hd@ == sha256_of(vstd::utf8::encode_utf8(policy@)) && hd@.len()
            == 32,
{
    let host_data = match platform_host_data() {
        Ok(hd) => hd,
        Err(e) => {
            return Err(e);
        },
    };
    if hash_matches_host_data(policy, &host_data) {
        Ok(host_data)
    } else {
        Err(PolicyError::AttestationMismatch)
    }
}

/// How many times the first policy installation is attempted while the
/// engine starts.
pub const CONNECT_RETRIES: u32 = 50;

/// Milliseconds between two installation attempts.
pub const RETRY_DELAY_MILLIS: u64 = 100;

/// The agent's policy state: the engine paths, the failure-open flag,
/// whether the engine connection is established, and (as a ghost value)
/// the text of the policy that is currently active.
pub struct AgentPolicy {
    allow_failures: bool,
    query_path: String,
    policy_path: String,
    initialized: bool,
    installed: Ghost<Seq<char>>,
}

impl AgentPolicy {
    /// The failure-open flag cached from the last probe.
    pub closed spec fn spec_allow_failures(self) -> bool {
        self.allow_failures
    }

    /// Engine path queried for request decisions.
    pub closed spec fn spec_query_path(self) -> Seq<char> {
        self.query_path@
    }

    /// Engine path used to install or delete the rules.
    pub closed spec fn spec_policy_path(self) -> Seq<char> {
        self.policy_path@
    }

    /// Whether the engine connection is established.
    pub closed spec fn spec_initialized(self) -> bool {
        self.initialized
    }

    /// The text of the currently active policy.
    pub closed spec fn spec_installed(self) -> Seq<char> {
        self.installed@
    }

    /// A fresh, unconnected policy state.
    pub fn new() -> (p: AgentPolicy)
        ensures
            !p.spec_allow_failures(),
            !p.spec_initialized(),
            p.spec_query_path() == Seq::<char>::empty(),
            p.spec_policy_path() == Seq::<char>::empty(),
            p.spec_installed() == Seq::<char>::empty(),
    {
        AgentPolicy {
            allow_failures: false,
            query_path: String::new(),
            policy_path: String::new(),
            initialized: false,
            installed: Ghost(Seq::empty()),
        }
    }

    /// Derive the engine paths from its address and the policy name:
    /// queries go below the data path, rule installation to the policy
    /// path.
    pub fn initialize_paths(&mut self, opa_addr: &str, policy_name: &str)
        ensures
            final(self).spec_query_path() == "http://"@ + opa_addr@ + "/v1"@ + "/data"@
                + policy_name@ + "/"@,
            final(self).spec_policy_path() == "http://"@ + opa_addr@ + "/v1"@ + "/policies"@
                + policy_name@,
            final(self).spec_allow_failures() == old(self).spec_allow_failures(),
            final(self).spec_initialized() == old(self).spec_initialized(),
            final(self).spec_installed() == old(self).spec_installed(),
    {
        let mut query_path = String::new();
        query_path.append("http://");
        query_path.append(opa_addr);
        query_path.append("/v1");
        query_path.append("/data");
        query_path.append(policy_name);
        query_path.append("/");
        let mut policy_path = String::new();
        policy_path.append("http://");
        policy_path.append(opa_addr);
        policy_path.append("/v1");
        policy_path.append("/policies");
        policy_path.append(policy_name);
        self.query_path = query_path;
        self.policy_path = policy_path;
    }

    /// The query endpoint of one request kind: the query path with the
    /// endpoint name appended.
    pub fn query_uri(&self, ep: &str) -> (uri: String)
        ensures
            uri@ == self.spec_query_path() + ep@,
    {
        let mut uri = self.query_path.clone();
        uri.append(ep);
        uri
    }

    /// Commit the default policy at startup.  The policy's hash must
    /// match the platform's host data before it becomes active; then a
    /// successful probe answer fixes the failure-open flag.
    pub fn complete_initialization(
        &mut self,
        default_policy: &str,
        host_data: &Vec<u8>,
        probe: &EngineResponse,
    ) -> (r: Result<(), PolicyError>)
        ensures
            sha256_of(vstd::utf8::encode_utf8(default_policy@)) != host_data@ ==> r == Result::<
                (),
                PolicyError,
            >::Err(PolicyError::AttestationMismatch) && *final(self) == *old(self),
            sha256_of(vstd::utf8::encode_utf8(default_policy@)) == host_data@ && probe
                is HttpError ==> r == Result::<(), PolicyError>::Err(PolicyError::EngineUnreachable)
                && *final(self) == *old(self),
            sha256_of(vstd::utf8::encode_utf8(default_policy@)) == host_data@ && !(probe
                is HttpError) ==> {
                &&& r is Ok
                &&& final(self).spec_initialized()
                &&& final(self).spec_allow_failures() == spec_derived_allow_failures(*probe)
                &&& final(self).spec_installed() == default_policy@
                &&& final(self).spec_query_path() == old(self).spec_query_path()
                &&& final(self).spec_policy_path() == old(self).spec_policy_path()
            },
            r is Ok ==> sha256_of(vstd::utf8::encode_utf8(default_policy@)) == host_data@,
    {
        if !hash_matches_host_data(default_policy, host_data) {
            return Err(PolicyError::AttestationMismatch);
        }
        match probe {
            EngineResponse::HttpError => Err(PolicyError::EngineUnreachable),
            EngineResponse::Body(_) => {
                self.allow_failures = derive_allow_failures(probe);
                self.initialized = true;
                self.installed = Ghost(default_policy@);
                Ok(())
            },
        }
    }

    /// Decide one request from the engine's answer to its endpoint
    /// query.  An enforcer that never connected denies everything.
    pub fn allow_request(&self, _ep: &str, resp: &EngineResponse) -> (allow: bool)
        ensures
            allow == (self.spec_initialized() && spec_allows(self.spec_allow_failures(), *resp)),
    {
        if !self.initialized {
            return false;
        }
        gate_decision(self.allow_failures, resp)
    }

    /// Whether this state authorizes replacing the policy, given the
    /// engine's answer for the set-policy request.  Only the current
    /// state's failure-open flag and the answer of the currently
    /// installed rules are read: the candidate policy plays no part.
    pub open spec fn replace_authorized(self, gate_resp: EngineResponse) -> bool {
        spec_allows(self.spec_allow_failures(), gate_resp)
    }

    /// Replace the active policy.  The replacement is authorized by the
    /// *current* policy's gate answer for the set-policy endpoint; the
    /// new policy's hash must match the platform's host data before it
    /// becomes active; a successful probe then re-derives the
    /// failure-open flag.
    pub fn set_policy(
        &mut self,
        policy: &str,
        host_data: &Vec<u8>,
        gate_resp: &EngineResponse,
        probe: &EngineResponse,
    ) -> (r: Result<(), PolicyError>)
        ensures
            !old(self).replace_authorized(*gate_resp) ==> r == Result::<
                (),
                PolicyError,
            >::Err(PolicyError::PolicyDenied) && *final(self) == *old(self),
            old(self).replace_authorized(*gate_resp) && sha256_of(
                vstd::utf8::encode_utf8(policy@),
            ) != host_data@ ==> r == Result::<(), PolicyError>::Err(PolicyError::AttestationMismatch)
                && *final(self) == *old(self),
            old(self).replace_authorized(*gate_resp) && sha256_of(
                vstd::utf8::encode_utf8(policy@),
            ) == host_data@ && !old(self).spec_initialized() ==> r == Result::<
                (),
                PolicyError,
            >::Err(PolicyError::NotInitialized) && *final(self) == *old(self),
            old(self).replace_authorized(*gate_resp) && sha256_of(
                vstd::utf8::encode_utf8(policy@),
            ) == host_data@ && old(self).spec_initialized() ==> {
                &&& final(self).spec_installed() == policy@
                &&& final(self).spec_initialized()
                &&& final(self).spec_query_path() == old(self).spec_query_path()
                &&& final(self).spec_policy_path() == old(self).spec_policy_path()
                &&& (probe is HttpError ==> r == Result::<(), PolicyError>::Err(
                    PolicyError::EngineTransient,
                ) && final(self).spec_allow_failures() == old(self).spec_allow_failures())
                &&& (!(probe is HttpError) ==> r is Ok && final(self).spec_allow_failures()
                    == spec_derived_allow_failures(*probe))
            },
            r is Ok ==> sha256_of(vstd::utf8::encode_utf8(policy@)) == host_data@ && old(
                self,
            ).replace_authorized(*gate_resp),
    {
        let allowed = gate_decision(self.allow_failures, gate_resp);
        if !allowed {
            return Err(PolicyError::PolicyDenied);
        }
        if !hash_matches_host_data(policy, host_data) {
            return Err(PolicyError::AttestationMismatch);
        }
        if !self.initialized {
            return Err(PolicyError::NotInitialized);
        }
        self.installed = Ghost(policy@);
        match probe {
            EngineResponse::HttpError => Err(PolicyError::EngineTransient),
            EngineResponse::Body(_) => {
                self.allow_failures = derive_allow_failures(probe);
                Ok(())
            },
        }
    }
}

/// The JSON envelope posted to the engine: the request document bound
/// to the `input` member.
pub open spec fn spec_post_input(request: Seq<char>) -> Seq<char> {
    "{\"input\":"@ + request + "}"@
}

/// Wrap a serialized request for posting to the engine.
pub fn post_input_of(request: &str) -> (r: String)
    ensures
        r@ == spec_post_input(request@),
{
    let mut out = String::new();
    out.append("{\"input\":");
    out.append(request);
    out.append("}");
    out
}

/// An inbound copy-file request, as the agent receives it.
pub struct CopyFileRequest {
    pub path: String,
    pub file_size: i64,
    pub file_mode: u32,
    pub dir_mode: u32,
    pub uid: i32,
    pub gid: i32,
    pub offset: i64,
    pub data: Vec<u8>,
}

/// Whether the file mode bits name a symbolic link.
pub open spec fn is_symlink_mode(mode: u32) -> bool {
    mode & 0o120000 == 0o120000
}

/// Whether the file mode bits name a symbolic link.
pub fn symlink_mode(mode: u32) -> (r: bool)
    ensures
        r == is_symlink_mode(mode),
{
    mode & 0o120000 == 0o120000
}

/// Relies on core::str::from_utf8: `Some` exactly on valid UTF-8, with
/// the decoded characters.
#[verifier::external_body]
fn utf8_to_string(bytes: &Vec<u8>) -> (r: Option<String>)
    ensures
        match r {
            Some(s) => valid_utf8(bytes@) && s@ == decode_utf8(bytes@),
            None => !valid_utf8(bytes@),
        },
{
    std::str::from_utf8(bytes.as_slice()).ok().map(|s| s.to_string())
}

/// The `symlink_src` value of the rewritten request: the UTF-8 decode of
/// the data bytes when the mode names a symlink, empty otherwise.
pub open spec fn copy_file_symlink_src(req: CopyFileRequest) -> Seq<char> {
    if is_symlink_mode(req.file_mode) {
        decode_utf8(req.data@)
    } else {
        Seq::<char>::empty()
    }
}

/// The members of the rewritten copy-file envelope, in order: the plain
/// request fields, then `symlink_src`.  The raw `data` bytes are not
/// among them.
pub open spec fn copy_file_fields(req: CopyFileRequest) -> Seq<(Seq<char>, Seq<char>)> {
    seq![
        ("path"@, json_string_of(req.path@)),
        ("file_size"@, dec_int(req.file_size as int)),
        ("file_mode"@, dec_nat(req.file_mode as nat)),
        ("dir_mode"@, dec_nat(req.dir_mode as nat)),
        ("uid"@, dec_int(req.uid as int)),
        ("gid"@, dec_int(req.gid as int)),
        ("offset"@, dec_int(req.offset as int)),
        ("symlink_src"@, json_string_of(copy_file_symlink_src(req))),
    ]
}

/// The members of a compact JSON object, comma separated.
pub open spec fn compact_members(fields: Seq<(Seq<char>, Seq<char>)>) -> Seq<char>
    decreases fields.len(),
{
    if fields.len() == 0 {
        Seq::<char>::empty()
    } else if fields.len() == 1 {
        "\""@ + fields.last().0 + "\":"@ + fields.last().1
    } else {
        compact_members(fields.drop_last()) + ",\""@ + fields.last().0 + "\":"@ + fields.last().1
    }
}

/// A compact JSON object over rendered members.
pub open spec fn json_object_compact(fields: Seq<(Seq<char>, Seq<char>)>) -> Seq<char> {
    "{"@ + compact_members(fields) + "}"@
}

/// Serialize the rewritten copy-file request.  In symlink mode the data
/// bytes are reinterpreted as the link's source path; otherwise they are
/// dropped entirely, so that large payloads never reach the engine.  A
/// symlink request must carry valid UTF-8 data.
#[verifier::rlimit(100)]
#[verifier::spinoff_prover]
pub fn policy_copy_file_json(req: &CopyFileRequest) -> (r: String)
    requires
        is_symlink_mode(req.file_mode) ==> valid_utf8(req.data@),
    ensures
        r@ == json_object_compact(copy_file_fields(*req)),
{
    let ghost fields = copy_file_fields(*req);
    let mut out = String::new();
    out.append("{");
    out.append("\"");
    out.append("path");
    out.append("\":");
    write_json_string(&mut out, req.path.as_str());
    proof {
        assert(fields.take(1).len() == 1 && fields.take(1).last() == fields[0]);
        assert(out@ =~= "{"@ + compact_members(fields.take(1)));
    }
    out.append(",\"");
    out.append("file_size");
    out.append("\":");
    write_i64(&mut out, req.file_size);
    proof {
        assert(fields.take(2).drop_last() =~= fields.take(1));
        assert(out@ =~= "{"@ + compact_members(fields.take(2)));
    }
    out.append(",\"");
    out.append("file_mode");
    out.append("\":");
    write_u64(&mut out, req.file_mode as u64);
    proof {
        assert(fields.take(3).drop_last() =~= fields.take(2));
        assert(out@ =~= "{"@ + compact_members(fields.take(3)));
    }
    out.append(",\"");
    out.append("dir_mode");
    out.append("\":");
    write_u64(&mut out, req.dir_mode as u64);
    proof {
        assert(fields.take(4).drop_last() =~= fields.take(3));
        assert(out@ =~= "{"@ + compact_members(fields.take(4)));
    }
    out.append(",\"");
    out.append("uid");
    out.append("\":");
    write_i64(&mut out, req.uid as i64);
    proof {
        assert(fields.take(5).drop_last() =~= fields.take(4));
        assert(out@ =~= "{"@ + compact_members(fields.take(5)));
    }
    out.append(",\"");
    out.append("gid");
    out.append("\":");
    write_i64(&mut out, req.gid as i64);
    proof {
        assert(fields.take(6).drop_last() =~= fields.take(5));
        assert(out@ =~= "{"@ + compact_members(fields.take(6)));
    }
    out.append(",\"");
    out.append("offset");
    out.append("\":");
    write_i64(&mut out, req.offset as i64);
    proof {
        assert(fields.take(7).drop_last() =~= fields.take(6));
        assert(out@ =~= "{"@ + compact_members(fields.take(7)));
    }
    out.append(",\"");
    out.append("symlink_src");
    out.append("\":");
    if symlink_mode(req.file_mode) {
        let src = match utf8_to_string(&req.data) {
            Some(s) => s,
            None => {
                proof {
                    assert(false);
                }
                String::new()
            },
        };
        write_json_string(&mut out, src.as_str());
    } else {
        write_json_string(&mut out, "");
        proof {
            reveal_strlit("");
            assert(""@ =~= copy_file_symlink_src(*req));
        }
    }
    proof {
        assert(fields.take(8).drop_last() =~= fields.take(7));
        assert(fields.take(8) =~= fields);
        assert(out@ =~= "{"@ + compact_members(fields));
    }
    out.append("}");
    proof {
        assert(out@ =~= json_object_compact(fields));
    }
    out
}

/// A rewritten copy-file envelope never carries the raw data bytes: no
/// member of the object is named `data`.
pub proof fn lemma_copy_file_omits_data(req: CopyFileRequest)
    ensures
        forall|i: int|
            0 <= i < copy_file_fields(req).len() ==> (#[trigger] copy_file_fields(req)[i]).0
                != "data"@,
{
    reveal_strlit("data");
    reveal_strlit("path");
    reveal_strlit("file_size");
    reveal_strlit("file_mode");
    reveal_strlit("dir_mode");
    reveal_strlit("uid");
    reveal_strlit("gid");
    reveal_strlit("offset");
    reveal_strlit("symlink_src");
    assert forall|i: int| 0 <= i < copy_file_fields(req).len() implies (#[trigger] copy_file_fields(
        req,
    )[i]).0 != "data"@ by {
        assert("path"@[0] == 'p' && "data"@[0] == 'd');
        assert("file_size"@.len() != "data"@.len());
        assert("file_mode"@.len() != "data"@.len());
        assert("dir_mode"@.len() != "data"@.len());
        assert("uid"@.len() != "data"@.len());
        assert("gid"@.len() != "data"@.len());
        assert("offset"@.len() != "data"@.len());
        assert("symlink_src"@.len() != "data"@.len());
    }
}

/// In symlink mode the envelope's `symlink_src` member is the UTF-8
/// decode of the data bytes; in every other mode it is empty, and the
/// data bytes are dropped either way.
pub proof fn lemma_copy_file_symlink_src(req: CopyFileRequest)
    ensures
        copy_file_fields(req)[7].0 == "symlink_src"@,
        is_symlink_mode(req.file_mode) ==> copy_file_fields(req)[7].1 == json_string_of(
            decode_utf8(req.data@),
        ),
        !is_symlink_mode(req.file_mode) ==> copy_file_fields(req)[7].1 == json_string_of(
            Seq::<char>::empty(),
        ),
{
}

/// The endpoints whose requests are kept out of the audit log: two that
/// arrive at high frequency, and the set-policy request whose payload is
/// large.
pub open spec fn spec_should_log(ep: Seq<char>) -> bool {
    ep != "StatsContainerRequest"@ && ep != "ReadStreamRequest"@ && ep != "SetPolicyRequest"@
}

/// Whether an endpoint's requests are written to the audit log.
pub fn should_log_endpoint(ep: &str) -> (r: bool)
    ensures
        r == spec_should_log(ep@),
{
    !str_eq(ep, "StatsContainerRequest") && !str_eq(ep, "ReadStreamRequest") && !str_eq(
        ep,
        "SetPolicyRequest",
    )
}

/// One audit-log record: the endpoint name and the posted envelope.
pub open spec fn spec_audit_entry(ep: Seq<char>, input: Seq<char>) -> Seq<char> {
    "[\"ep\":\""@ + ep + "\","@ + input + "],\n\n"@
}

/// Format one audit-log record.
pub fn audit_entry(ep: &str, input: &str) -> (r: String)
    ensures
        r@ == spec_audit_entry(ep@, input@),
{
    let mut out = String::new();
    out.append("[\"ep\":\"");
    out.append(ep);
    out.append("\",");
    out.append(input);
    out.append("],\n\n");
    out
}

/// The well-known path of the audit log.
pub fn policy_log_file() -> (r: String)
    ensures
        r@ == "/tmp/policy.txt"@,
{
    let mut out = String::new();
    out.append("/tmp/policy.txt");
    out
}

/// The directories searched for the decision-engine binary, in order.
pub fn opa_binary_candidates() -> (r: Vec<String>)
    ensures
        r@.len() == 3,
        r@[0]@ == "/bin/opa"@,
        r@[1]@ == "/usr/bin/opa"@,
        r@[2]@ == "/usr/local/bin/opa"@,
{
    let mut v: Vec<String> = Vec::new();
    let mut a = String::new();
    a.append("/bin/opa");
    v.push(a);
    let mut b = String::new();
    b.append("/usr/bin/opa");
    v.push(b);
    let mut c = String::new();
    c.append("/usr/local/bin/opa");
    v.push(c);
    v
}

/// The arguments the decision engine is spawned with.
pub fn opa_arguments(opa_addr: &str) -> (r: Vec<String>)
    ensures
        r@.len() == 7,
        r@[0]@ == "run"@,
        r@[1]@ == "--server"@,
        r@[2]@ == "--disable-telemetry"@,
        r@[3]@ == "--addr"@,
        r@[4]@ == opa_addr@,
        r@[5]@ == "--log-level"@,
        r@[6]@ == "info"@,
{
    let mut v: Vec<String> = Vec::new();
    let mut a = String::new();
    a.append("run");
    v.push(a);
    let mut b = String::new();
    b.append("--server");
    v.push(b);
    let mut c = String::new();
    c.append("--disable-telemetry");
    v.push(c);
    let mut d = String::new();
    d.append("--addr");
    v.push(d);
    let mut e = String::new();
    e.append(opa_addr);
    v.push(e);
    let mut f = String::new();
    f.append("--log-level");
    v.push(f);
    let mut g = String::new();
    g.append("info");
    v.push(g);
    v
}

/// The engine data path a configuration value is read from.
pub fn opa_data_path(key: &str) -> (r: String)
    ensures
        r@ == "kata-agent/"@ + key@,
{
    let mut out = String::new();
    out.append("kata-agent/");
    out.append(key);
    out
}

} // verus!
