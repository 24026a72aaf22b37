use cc_policy::enforcer::{
    audit_entry, gate_decision, opa_arguments, opa_binary_candidates, opa_data_path,
    policy_copy_file_json, post_input_of, should_log_endpoint, symlink_mode, AgentPolicy,
    CopyFileRequest, EngineResponse, PolicyError,
};
use sha2::{Digest, Sha256};

fn body(s: &str) -> EngineResponse {
    EngineResponse::Body(s.to_string())
}

fn sha(s: &str) -> Vec<u8> {
    Sha256::digest(s.as_bytes()).to_vec()
}

fn ready_policy(policy_text: &str) -> AgentPolicy {
    let mut p = AgentPolicy::new();
    p.initialize_paths("127.0.0.1:8181", "/agent_policy");
    p.complete_initialization(policy_text, &sha(policy_text), &body("{\"result\":false}"))
        .unwrap();
    p
}

#[test]
fn engine_yes_allows() {
    assert!(gate_decision(false, &body("{\"result\":true}")));
}

#[test]
fn engine_no_denies_when_closed() {
    assert!(!gate_decision(false, &body("{\"result\":false}")));
}

#[test]
fn engine_no_is_overridden_when_open() {
    assert!(gate_decision(true, &body("{\"result\":false}")));
}

#[test]
fn http_error_allows_only_when_open() {
    assert!(gate_decision(true, &EngineResponse::HttpError));
    assert!(!gate_decision(false, &EngineResponse::HttpError));
}

#[test]
fn malformed_body_denies_when_closed() {
    assert!(!gate_decision(false, &body("not json at all")));
    assert!(!gate_decision(false, &body("{\"result\":\"yes\"}")));
    assert!(!gate_decision(false, &body("{}")));
}

#[test]
fn malformed_body_allows_when_open() {
    assert!(gate_decision(true, &body("{{{{")));
}

#[test]
fn uninitialized_enforcer_denies() {
    let p = AgentPolicy::new();
    assert!(!p.allow_request("CreateContainerRequest", &body("{\"result\":true}")));
}

#[test]
fn failure_open_mode_survives_engine_outage() {
    let text = "package agent\nAllowRequestsFailingPolicy := true";
    let mut p = AgentPolicy::new();
    p.initialize_paths("127.0.0.1:8181", "/agent_policy");
    p.complete_initialization(text, &sha(text), &body("{\"result\":true}")).unwrap();
    assert!(p.allow_request("ReadStreamRequest", &EngineResponse::HttpError));
    assert!(p.allow_request("ReadStreamRequest", &body("{\"result\":false}")));
}

#[test]
fn initialization_requires_matching_host_data() {
    let mut p = AgentPolicy::new();
    let wrong = vec![0u8; 32];
    assert_eq!(
        p.complete_initialization("policy text", &wrong, &body("{\"result\":false}")),
        Err(PolicyError::AttestationMismatch)
    );
    assert!(!p.allow_request("X", &body("{\"result\":true}")));
}

#[test]
fn initialization_fails_on_unreachable_probe() {
    let mut p = AgentPolicy::new();
    assert_eq!(
        p.complete_initialization("t", &sha("t"), &EngineResponse::HttpError),
        Err(PolicyError::EngineUnreachable)
    );
}

#[test]
fn replace_policy_happy_path() {
    let mut p = ready_policy("old policy");
    let new_policy = "new policy";
    let r = p.set_policy(
        new_policy,
        &sha(new_policy),
        &body("{\"result\":true}"),
        &body("{\"result\":false}"),
    );
    assert_eq!(r, Ok(()));
}

#[test]
fn replace_policy_rejects_hash_mismatch() {
    let mut p = ready_policy("old policy");
    let zeros = vec![0u8; 32];
    let r = p.set_policy("new policy", &zeros, &body("{\"result\":true}"), &body(
        "{\"result\":true}",
    ));
    assert_eq!(r, Err(PolicyError::AttestationMismatch));
    assert!(p.allow_request("X", &body("{\"result\":true}")));
}

#[test]
fn replace_policy_is_gated_by_current_policy() {
    let mut p = ready_policy("old policy");
    let new_policy = "new policy";
    let r = p.set_policy(
        new_policy,
        &sha(new_policy),
        &body("{\"result\":false}"),
        &body("{\"result\":true}"),
    );
    assert_eq!(r, Err(PolicyError::PolicyDenied));
}

#[test]
fn query_paths_are_derived_from_address_and_name() {
    let mut p = AgentPolicy::new();
    p.initialize_paths("127.0.0.1:8181", "/agent_policy");
    assert_eq!(
        p.query_uri("CopyFileRequest"),
        "http://127.0.0.1:8181/v1/data/agent_policy/CopyFileRequest"
    );
}

#[test]
fn symlink_mode_bits() {
    assert!(symlink_mode(0o120777));
    assert!(!symlink_mode(0o100644));
    assert!(!symlink_mode(0o040755));
}

fn copy_request(mode: u32, data: Vec<u8>) -> CopyFileRequest {
    CopyFileRequest {
        path: "/dst".to_string(),
        file_size: 11,
        file_mode: mode,
        dir_mode: 0o755,
        uid: 1,
        gid: 2,
        offset: 0,
        data,
    }
}

#[test]
fn symlink_copy_carries_source_path() {
    let req = copy_request(0o120777, b"/etc/target".to_vec());
    let json = policy_copy_file_json(&req);
    let v: serde_json::Value = serde_json::from_str(&json).unwrap();
    assert_eq!(v["symlink_src"], "/etc/target");
    assert!(v.get("data").is_none());
    assert_eq!(v["path"], "/dst");
    assert!(gate_decision(false, &body("{\"result\":true}")));
}

#[test]
fn regular_copy_drops_data_bytes() {
    let req = copy_request(0o100644, vec![1, 2, 3, 200, 255]);
    let json = policy_copy_file_json(&req);
    assert!(!json.contains("\"data\""));
    let v: serde_json::Value = serde_json::from_str(&json).unwrap();
    assert_eq!(v["symlink_src"], "");
    assert_eq!(v["file_size"], 11);
    assert_eq!(v["file_mode"], 0o100644);
    assert_eq!(v["uid"], 1);
    assert_eq!(v["gid"], 2);
}

#[test]
fn copy_file_json_exact_shape() {
    let req = CopyFileRequest {
        path: "/a\"b".to_string(),
        file_size: -5,
        file_mode: 0o120000,
        dir_mode: 7,
        uid: -1,
        gid: 0,
        offset: 9,
        data: b"x".to_vec(),
    };
    let json = policy_copy_file_json(&req);
    assert_eq!(
        json,
        "{\"path\":\"/a\\\"b\",\"file_size\":-5,\"file_mode\":40960,\"dir_mode\":7,\"uid\":-1,\"gid\":0,\"offset\":9,\"symlink_src\":\"x\"}"
    );
}

#[test]
fn envelope_wraps_request() {
    assert_eq!(post_input_of("{\"a\":1}"), "{\"input\":{\"a\":1}}");
}

#[test]
fn audit_skips_noisy_endpoints() {
    assert!(!should_log_endpoint("StatsContainerRequest"));
    assert!(!should_log_endpoint("ReadStreamRequest"));
    assert!(!should_log_endpoint("SetPolicyRequest"));
    assert!(should_log_endpoint("CreateContainerRequest"));
}

#[test]
fn audit_entry_format() {
    assert_eq!(
        audit_entry("CopyFileRequest", "{\"input\":{}}"),
        "[\"ep\":\"CopyFileRequest\",{\"input\":{}}],\n\n"
    );
}

#[test]
fn engine_spawn_arguments() {
    let args = opa_arguments("127.0.0.1:8181");
    assert_eq!(
        args,
        vec![
            "run".to_string(),
            "--server".to_string(),
            "--disable-telemetry".to_string(),
            "--addr".to_string(),
            "127.0.0.1:8181".to_string(),
            "--log-level".to_string(),
            "info".to_string(),
        ]
    );
    let candidates = opa_binary_candidates();
    assert_eq!(
        candidates,
        vec!["/bin/opa".to_string(), "/usr/bin/opa".to_string(), "/usr/local/bin/opa".to_string()]
    );
}

#[test]
fn data_path_is_prefixed() {
    assert_eq!(opa_data_path("guest_details"), "kata-agent/guest_details");
}
