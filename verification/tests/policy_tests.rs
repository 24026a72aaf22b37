use base64::Engine;
use cc_policy::policy::{
    base64_encode, build_container_policy, compose_policy_document, create_policy_by_image_ref,
    encode_policy, policy_data_json, ContainerPolicy, KataProcess, KataUser, Mount, PodContainer,
    PolicyData, Storage,
};
use cc_policy::registry::{
    Container, DockerConfigLayer, DockerImageConfig, DockerRootfs, ImageLayer,
};
use cc_policy::replica_set::{
    LabelSelector, ObjectMeta, PodSpec, PodTemplateSpec, ReplicaSet, ReplicaSetSpec,
};

fn image_container(entrypoint: Option<Vec<&str>>, cmd: Option<Vec<&str>>) -> Container {
    let config = DockerImageConfig {
        User: None,
        Tty: None,
        Env: vec!["PATH=/usr/bin".to_string()],
        Cmd: cmd.map(|v| v.iter().map(|s| s.to_string()).collect()),
        WorkingDir: None,
        Entrypoint: entrypoint.map(|v| v.iter().map(|s| s.to_string()).collect()),
    };
    let layer = DockerConfigLayer {
        architecture: "amd64".to_string(),
        config,
        rootfs: DockerRootfs {
            rootfs_type: "layers".to_string(),
            diff_ids: vec!["sha256:d0".to_string()],
        },
    };
    let layers = vec![ImageLayer {
        diff_id: "sha256:d0".to_string(),
        verity_hash: "abc123".to_string(),
    }];
    Container::new(layer, layers)
}

fn empty_process_policy() -> ContainerPolicy {
    ContainerPolicy {
        is_pause_container: true,
        process: KataProcess {
            User: KataUser { UID: 0, GID: 0 },
            Terminal: false,
            Env: Vec::new(),
            Args: Vec::new(),
            Cwd: String::new(),
        },
        layers: Vec::new(),
        mounts: Vec::new(),
        storages: Vec::new(),
    }
}

#[test]
fn empty_data_document() {
    let d = PolicyData { containers: Vec::new() };
    assert_eq!(policy_data_json(&d), "{\n  \"containers\": []\n}");
}

#[test]
fn minimal_container_pretty_json() {
    let d = PolicyData { containers: vec![empty_process_policy()] };
    let expected = "{\n  \"containers\": [\n    {\n      \"is_pause_container\": true,\n      \"process\": {\n        \"User\": {\n          \"UID\": 0,\n          \"GID\": 0\n        },\n        \"Terminal\": false,\n        \"Env\": [],\n        \"Args\": [],\n        \"Cwd\": \"\"\n      },\n      \"layers\": [],\n      \"mounts\": [],\n      \"storages\": []\n    }\n  ]\n}";
    assert_eq!(policy_data_json(&d), expected);
}

#[test]
fn populated_data_document_is_valid_json() {
    let mut cp = empty_process_policy();
    cp.process.Env.push("A=1".to_string());
    cp.process.Args.push("/bin/app".to_string());
    cp.process.Cwd = "/w\"d".to_string();
    cp.layers.push(ImageLayer {
        diff_id: "sha256:d0".to_string(),
        verity_hash: "ff00".to_string(),
    });
    cp.mounts.push(Mount {
        destination: "/data".to_string(),
        mount_type: "bind".to_string(),
        source: "/host/data".to_string(),
        options: vec!["rbind".to_string(), "rw".to_string()],
    });
    cp.storages.push(Storage {
        driver: "blk".to_string(),
        fstype: "tar".to_string(),
        source: "dev".to_string(),
        mount_point: "/run/layer".to_string(),
    });
    let d = PolicyData { containers: vec![cp] };
    let text = policy_data_json(&d);
    let v: serde_json::Value = serde_json::from_str(&text).unwrap();
    let c = &v["containers"][0];
    assert_eq!(c["process"]["Env"][0], "A=1");
    assert_eq!(c["process"]["Args"][0], "/bin/app");
    assert_eq!(c["process"]["Cwd"], "/w\"d");
    assert_eq!(c["layers"][0]["verity_hash"], "ff00");
    assert_eq!(c["mounts"][0]["options"][1], "rw");
    assert_eq!(c["storages"][0]["mount_point"], "/run/layer");
}

#[test]
fn document_concatenates_rules_and_data() {
    let d = PolicyData { containers: Vec::new() };
    let rules = "package agent\ndefault CopyFileRequest := false";
    let text = compose_policy_document(rules, &d);
    assert_eq!(
        text,
        format!("{}\npolicy_data := {}", rules, "{\n  \"containers\": []\n}")
    );
}

#[test]
fn base64_is_standard_and_padded() {
    assert_eq!(base64_encode(b"abc"), "YWJj");
    assert_eq!(base64_encode(b"a"), "YQ==");
    assert_eq!(base64_encode(b"ab"), "YWI=");
    assert_eq!(base64_encode(b""), "");
    assert_eq!(encode_policy("x"), "eA==");
}

#[test]
fn image_ref_policy_is_deterministic() {
    let c1 = image_container(Some(vec!["/bin/app"]), Some(vec!["--flag"]));
    let c2 = image_container(Some(vec!["/bin/app"]), Some(vec!["--flag"]));
    let (p1, b1) = create_policy_by_image_ref("registry/app:1", true, "package agent", &c1);
    let (p2, b2) = create_policy_by_image_ref("registry/app:1", true, "package agent", &c2);
    assert_eq!(p1, p2);
    assert_eq!(b1, b2);
    assert_eq!(
        b1,
        base64::engine::general_purpose::STANDARD.encode(p1.as_bytes())
    );
}

#[test]
fn image_ref_policy_merges_entrypoint_and_cmd() {
    let c = image_container(Some(vec!["/bin/app"]), Some(vec!["--flag"]));
    let (policy, _) = create_policy_by_image_ref("registry/app:1", true, "package agent", &c);
    let json_part = policy.splitn(2, "policy_data := ").nth(1).unwrap();
    let v: serde_json::Value = serde_json::from_str(json_part).unwrap();
    let args = &v["containers"][0]["process"]["Args"];
    assert_eq!(args[0], "/bin/app");
    assert_eq!(args[1], "--flag");
    assert_eq!(v["containers"][0]["is_pause_container"], true);
    assert_eq!(v["containers"][0]["layers"][0]["diff_id"], "sha256:d0");
}

#[test]
fn build_container_policy_override_command() {
    let c = image_container(Some(vec!["/entry"]), Some(vec!["cmd"]));
    let yaml = PodContainer {
        name: "app".to_string(),
        image: "registry/app:1".to_string(),
        command: vec!["/bin/sh".to_string()],
        args: Vec::new(),
        env: vec!["EXTRA=1".to_string()],
    };
    let cp = build_container_policy(&yaml, &c, false, Vec::new(), Vec::new());
    assert_eq!(cp.process.Args, vec!["/bin/sh".to_string()]);
    assert_eq!(
        cp.process.Env,
        vec!["PATH=/usr/bin".to_string(), "EXTRA=1".to_string()]
    );
    assert!(!cp.is_pause_container);
}

fn sample_replica_set() -> ReplicaSet {
    let pause = PodContainer {
        name: "pause".to_string(),
        image: "registry/pause:3".to_string(),
        command: Vec::new(),
        args: Vec::new(),
        env: Vec::new(),
    };
    let app = PodContainer {
        name: "app".to_string(),
        image: "registry/app:1".to_string(),
        command: Vec::new(),
        args: Vec::new(),
        env: Vec::new(),
    };
    ReplicaSet {
        apiVersion: "apps/v1".to_string(),
        kind: "ReplicaSet".to_string(),
        metadata: ObjectMeta {
            name: Some("no-exist".to_string()),
            namespace: Some("default".to_string()),
            annotations: Vec::new(),
        },
        spec: ReplicaSetSpec {
            selector: LabelSelector { match_labels: Vec::new() },
            template: PodTemplateSpec {
                metadata: ObjectMeta {
                    name: None,
                    namespace: None,
                    annotations: Vec::new(),
                },
                spec: PodSpec { containers: vec![pause, app], volumes: None },
            },
            replicas: Some(1),
            minReadySeconds: None,
        },
        registry_containers: vec![
            image_container(None, Some(vec!["/pause"])),
            image_container(Some(vec!["/bin/app"]), None),
        ],
    }
}

#[test]
fn replica_set_metadata_accessors() {
    let rs = sample_replica_set();
    assert!(rs.requires_policy());
    assert_eq!(rs.get_metadata_name().unwrap(), "no-exist");
    assert_eq!(rs.get_host_name().unwrap(), "^no-exist-[a-z0-9]{5}$");
    assert_eq!(rs.get_sandbox_name().unwrap(), None);
    assert_eq!(rs.get_namespace().unwrap(), "default");
}

#[test]
fn generate_policy_embeds_annotation_and_drops_pause_container() {
    let mut rs = sample_replica_set();
    let mounts = vec![Vec::new(), Vec::new()];
    let storages = vec![Vec::new(), Vec::new()];
    let policy = rs.generate_policy("package agent", mounts, storages).unwrap();
    assert!(policy.starts_with("package agent\npolicy_data := {"));
    assert_eq!(rs.spec.template.spec.containers.len(), 1);
    assert_eq!(rs.spec.template.spec.containers[0].name, "app");
    let annos = &rs.spec.template.metadata.annotations;
    assert_eq!(annos.len(), 1);
    assert_eq!(annos[0].0, "io.katacontainers.config.agent.policy");
    let decoded = base64::engine::general_purpose::STANDARD
        .decode(annos[0].1.as_bytes())
        .unwrap();
    assert_eq!(decoded, policy.as_bytes());
    let json_part = policy.splitn(2, "policy_data := ").nth(1).unwrap();
    let v: serde_json::Value = serde_json::from_str(json_part).unwrap();
    assert_eq!(v["containers"][0]["is_pause_container"], true);
    assert_eq!(v["containers"][1]["is_pause_container"], false);
    assert_eq!(v["containers"][1]["process"]["Args"][0], "/bin/app");
}

#[test]
fn generate_policy_twice_is_byte_identical() {
    let mut rs1 = sample_replica_set();
    let mut rs2 = sample_replica_set();
    let p1 = rs1
        .generate_policy("package agent", vec![Vec::new(), Vec::new()], vec![
            Vec::new(),
            Vec::new(),
        ])
        .unwrap();
    let p2 = rs2
        .generate_policy("package agent", vec![Vec::new(), Vec::new()], vec![
            Vec::new(),
            Vec::new(),
        ])
        .unwrap();
    assert_eq!(p1, p2);
}

#[test]
fn annotation_is_replaced_in_place() {
    let mut meta = ObjectMeta {
        name: None,
        namespace: None,
        annotations: vec![
            ("other".to_string(), "keep".to_string()),
            (
                "io.katacontainers.config.agent.policy".to_string(),
                "old".to_string(),
            ),
        ],
    };
    meta.add_policy_annotation("new-value");
    assert_eq!(meta.annotations.len(), 2);
    assert_eq!(meta.annotations[0].0, "other");
    assert_eq!(meta.annotations[0].1, "keep");
    assert_eq!(meta.annotations[1].1, "new-value");
}
