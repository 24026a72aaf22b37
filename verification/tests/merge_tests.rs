use cc_policy::policy::{KataProcess, KataUser};
use cc_policy::registry::{Container, DockerConfigLayer, DockerImageConfig, DockerRootfs};
use cc_policy::text::parse_u32;

fn config_layer(config: DockerImageConfig) -> DockerConfigLayer {
    DockerConfigLayer {
        architecture: "amd64".to_string(),
        config,
        rootfs: DockerRootfs { rootfs_type: "layers".to_string(), diff_ids: Vec::new() },
    }
}

fn empty_config() -> DockerImageConfig {
    DockerImageConfig {
        User: None,
        Tty: None,
        Env: Vec::new(),
        Cmd: None,
        WorkingDir: None,
        Entrypoint: None,
    }
}

fn fresh_process() -> KataProcess {
    KataProcess {
        User: KataUser { UID: 0, GID: 0 },
        Terminal: false,
        Env: Vec::new(),
        Args: Vec::new(),
        Cwd: String::new(),
    }
}

#[test]
fn unparsable_user_falls_back_to_root() {
    let mut config = empty_config();
    config.User = Some("nobody".to_string());
    let container = Container::new(config_layer(config), Vec::new());
    let mut process = fresh_process();
    process.User.GID = 5;
    container.get_process(&mut process, false, false);
    assert_eq!(process.User.UID, 0);
    assert_eq!(process.User.GID, 5);
}

#[test]
fn numeric_user_and_group() {
    let mut config = empty_config();
    config.User = Some("33:44".to_string());
    let container = Container::new(config_layer(config), Vec::new());
    let mut process = fresh_process();
    container.get_process(&mut process, false, false);
    assert_eq!(process.User.UID, 33);
    assert_eq!(process.User.GID, 44);
}

#[test]
fn extra_user_fields_are_ignored() {
    let mut config = empty_config();
    config.User = Some("0:1:2".to_string());
    let container = Container::new(config_layer(config), Vec::new());
    let mut process = fresh_process();
    process.User.UID = 9;
    container.get_process(&mut process, false, false);
    assert_eq!(process.User.UID, 0);
    assert_eq!(process.User.GID, 1);
}

#[test]
fn empty_user_changes_nothing() {
    let mut config = empty_config();
    config.User = Some(String::new());
    let container = Container::new(config_layer(config), Vec::new());
    let mut process = fresh_process();
    process.User.UID = 3;
    process.User.GID = 4;
    container.get_process(&mut process, false, false);
    assert_eq!(process.User.UID, 3);
    assert_eq!(process.User.GID, 4);
}

#[test]
fn entrypoint_and_cmd_compose() {
    let mut config = empty_config();
    config.Entrypoint = Some(vec!["/bin/app".to_string()]);
    config.Cmd = Some(vec!["--flag".to_string()]);
    let container = Container::new(config_layer(config), Vec::new());
    let mut process = fresh_process();
    container.get_process(&mut process, false, false);
    assert_eq!(process.Args, vec!["/bin/app".to_string(), "--flag".to_string()]);
}

#[test]
fn manifest_command_overrides_image() {
    let mut config = empty_config();
    config.Entrypoint = Some(vec!["/entry".to_string()]);
    config.Cmd = Some(vec!["cmd-arg".to_string()]);
    let container = Container::new(config_layer(config), Vec::new());
    let mut process = fresh_process();
    process.Args.push("/bin/sh".to_string());
    container.get_process(&mut process, true, false);
    assert_eq!(process.Args, vec!["/bin/sh".to_string()]);
}

#[test]
fn manifest_args_silence_image_cmd() {
    let mut config = empty_config();
    config.Cmd = Some(vec!["ignored".to_string()]);
    let container = Container::new(config_layer(config), Vec::new());
    let mut process = fresh_process();
    process.Args.push("given".to_string());
    container.get_process(&mut process, false, true);
    assert_eq!(process.Args, vec!["given".to_string()]);
}

#[test]
fn entrypoint_prepends_before_manifest_args() {
    let mut config = empty_config();
    config.Entrypoint = Some(vec!["/e1".to_string(), "/e2".to_string()]);
    config.Cmd = Some(vec!["ignored".to_string()]);
    let container = Container::new(config_layer(config), Vec::new());
    let mut process = fresh_process();
    process.Args.push("a".to_string());
    container.get_process(&mut process, false, true);
    assert_eq!(process.Args, vec!["/e1".to_string(), "/e2".to_string(), "a".to_string()]);
}

#[test]
fn env_terminal_and_cwd_merge() {
    let mut config = empty_config();
    config.Tty = Some(true);
    config.Env = vec!["A=1".to_string(), "B=2".to_string()];
    config.WorkingDir = Some("/work".to_string());
    let container = Container::new(config_layer(config), Vec::new());
    let mut process = fresh_process();
    process.Env.push("C=3".to_string());
    process.Cwd = "/old".to_string();
    container.get_process(&mut process, false, false);
    assert!(process.Terminal);
    assert_eq!(process.Env, vec!["C=3".to_string(), "A=1".to_string(), "B=2".to_string()]);
    assert_eq!(process.Cwd, "/work");
}

#[test]
fn empty_working_dir_is_ignored() {
    let mut config = empty_config();
    config.WorkingDir = Some(String::new());
    let container = Container::new(config_layer(config), Vec::new());
    let mut process = fresh_process();
    process.Cwd = "/keep".to_string();
    container.get_process(&mut process, false, false);
    assert_eq!(process.Cwd, "/keep");
}

#[test]
fn parse_u32_accepts_plain_and_signed_digits() {
    assert_eq!(parse_u32("0"), Some(0));
    assert_eq!(parse_u32("107"), Some(107));
    assert_eq!(parse_u32("+12"), Some(12));
    assert_eq!(parse_u32("4294967295"), Some(u32::MAX));
}

#[test]
fn parse_u32_rejects_junk() {
    assert_eq!(parse_u32(""), None);
    assert_eq!(parse_u32("+"), None);
    assert_eq!(parse_u32("nobody"), None);
    assert_eq!(parse_u32("1x"), None);
    assert_eq!(parse_u32("-1"), None);
    assert_eq!(parse_u32("4294967296"), None);
    assert_eq!(parse_u32("99999999999999999999"), None);
}
