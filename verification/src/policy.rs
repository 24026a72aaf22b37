//! Policy data model and document composition: the effective process
//! specification of a container, the per-container policy records, their
//! pretty-printed JSON rendering, and the policy document that is
//! embedded into the workload manifest as a base64 annotation.

#![allow(non_snake_case)]

use crate::json::{
    dec_nat, json_bool, json_rendered_array, json_string_array, json_string_of, rendered_members,
    write_bool, write_json_string, write_string_array, write_u64,
};
use crate::registry::{
    cwd_after, gid_after, merged_args, terminal_after, uid_after, Container, ImageLayer,
};
use base64::Engine;
use vstd::prelude::*;
use vstd::string::StringExecFns;

verus! {

/// Numeric identity the container process runs under.
#[derive(Debug)]
pub struct KataUser {
    pub UID: u32,
    pub GID: u32,
}

/// Effective process specification of one container, derived by merging
/// the image configuration with the workload manifest.
#[derive(Debug)]
pub struct KataProcess {
    pub User: KataUser,
    pub Terminal: bool,
    pub Env: Vec<String>,
    pub Args: Vec<String>,
    pub Cwd: String,
}

impl KataProcess {
    /// An empty process specification: root user, no terminal, nothing
    /// merged in yet.
    pub fn new() -> (p: KataProcess)
        ensures
            p.User.UID == 0,
            p.User.GID == 0,
            !p.Terminal,
            p.Env@ == Seq::<String>::empty(),
            p.Args@ == Seq::<String>::empty(),
            p.Cwd@ == Seq::<char>::empty(),
    {
        KataProcess {
            User: KataUser { UID: 0, GID: 0 },
            Terminal: false,
            Env: Vec::new(),
            Args: Vec::new(),
            Cwd: String::new(),
        }
    }
}

/// A mount of the container, as the infrastructure collaborator merges
/// it from the manifest's volumes and its own defaults.
pub struct Mount {
    pub destination: String,
    pub mount_type: String,
    pub source: String,
    pub options: Vec<String>,
}

/// A storage the agent must set up for the container.
pub struct Storage {
    pub driver: String,
    pub fstype: String,
    pub source: String,
    pub mount_point: String,
}

/// A container of the workload manifest, reduced to what policy
/// generation reads: its image reference, the manifest-supplied command,
/// args and environment additions.
pub struct PodContainer {
    pub name: String,
    pub image: String,
    pub command: Vec<String>,
    pub args: Vec<String>,
    pub env: Vec<String>,
}

/// Per-container policy record of the data document.
pub struct ContainerPolicy {
    pub is_pause_container: bool,
    pub process: KataProcess,
    pub layers: Vec<ImageLayer>,
    pub mounts: Vec<Mount>,
    pub storages: Vec<Storage>,
}

/// The structured data document: one record per container.
pub struct PolicyData {
    pub containers: Vec<ContainerPolicy>,
}

/// JSON of the user record; keys indented ten spaces, nested four deep.
pub open spec fn json_of_user(u: KataUser) -> Seq<char> {
    "{\n          \"UID\": "@ + dec_nat(u.UID as nat) + ",\n          \"GID\": "@ + dec_nat(
        u.GID as nat,
    ) + "\n        }"@
}

/// JSON of the process record.
pub open spec fn json_of_process(p: KataProcess) -> Seq<char> {
    "{\n        \"User\": "@ + json_of_user(p.User) + ",\n        \"Terminal\": "@ + json_bool(
        p.Terminal,
    ) + ",\n        \"Env\": "@ + json_string_array(p.Env@, "          "@, "        "@)
        + ",\n        \"Args\": "@ + json_string_array(p.Args@, "          "@, "        "@)
        + ",\n        \"Cwd\": "@ + json_string_of(p.Cwd@) + "\n      }"@
}

/// JSON of one layer record.
pub open spec fn json_of_layer(l: ImageLayer) -> Seq<char> {
    "{\n          \"diff_id\": "@ + json_string_of(l.diff_id@) + ",\n          \"verity_hash\": "@
        + json_string_of(l.verity_hash@) + "\n        }"@
}

/// JSON of one mount record.
#[verifier::opaque]
pub open spec fn json_of_mount(m: Mount) -> Seq<char> {
    "{\n          \"destination\": "@ + json_string_of(m.destination@) + ",\n          \"type\": "@
        + json_string_of(m.mount_type@) + ",\n          \"source\": "@ + json_string_of(m.source@)
        + ",\n          \"options\": "@ + json_string_array(
        m.options@,
        "            "@,
        "          "@,
    ) + "\n        }"@
}

/// JSON of one storage record.
pub open spec fn json_of_storage(s: Storage) -> Seq<char> {
    "{\n          \"driver\": "@ + json_string_of(s.driver@) + ",\n          \"fstype\": "@
        + json_string_of(s.fstype@) + ",\n          \"source\": "@ + json_string_of(s.source@)
        + ",\n          \"mount_point\": "@ + json_string_of(s.mount_point@) + "\n        }"@
}

/// JSON of one container record.
#[verifier::opaque]
pub open spec fn json_of_container(cp: ContainerPolicy) -> Seq<char> {
    "{\n      \"is_pause_container\": "@ + json_bool(cp.is_pause_container)
        + ",\n      \"process\": "@ + json_of_process(cp.process) + ",\n      \"layers\": "@
        + json_rendered_array(
        cp.layers@.map_values(|l: ImageLayer| json_of_layer(l)),
        "        "@,
        "      "@,
    ) + ",\n      \"mounts\": "@ + json_rendered_array(
        cp.mounts@.map_values(|m: Mount| json_of_mount(m)),
        "        "@,
        "      "@,
    ) + ",\n      \"storages\": "@ + json_rendered_array(
        cp.storages@.map_values(|s: Storage| json_of_storage(s)),
        "        "@,
        "      "@,
    ) + "\n    }"@
}

/// Pretty JSON of the whole data document.
pub open spec fn json_of_policy_data(d: PolicyData) -> Seq<char> {
    "{\n  \"containers\": "@ + json_rendered_array(
        d.containers@.map_values(|c: ContainerPolicy| json_of_container(c)),
        "    "@,
        "  "@,
    ) + "\n}"@
}

/// The serialized policy document: the rule text, then the data document
/// bound to the `policy_data` name.
pub open spec fn spec_policy_text(rules: Seq<char>, d: PolicyData) -> Seq<char> {
    rules + "\npolicy_data := "@ + json_of_policy_data(d)
}

/// Append the JSON of the user record.
fn write_user(out: &mut String, u: &KataUser)
    ensures
        final(out)@ == old(out)@ + json_of_user(*u),
{
    out.append("{\n          \"UID\": ");
    write_u64(out, u.UID as u64);
    out.append(",\n          \"GID\": ");
    write_u64(out, u.GID as u64);
    out.append("\n        }");
}

/// Append the JSON of the process record.
fn write_process(out: &mut String, p: &KataProcess)
    ensures
        final(out)@ == old(out)@ + json_of_process(*p),
{
    out.append("{\n        \"User\": ");
    write_user(out, &p.User);
    out.append(",\n        \"Terminal\": ");
    write_bool(out, p.Terminal);
    out.append(",\n        \"Env\": ");
    write_string_array(out, &p.Env, "          ", "        ");
    out.append(",\n        \"Args\": ");
    write_string_array(out, &p.Args, "          ", "        ");
    out.append(",\n        \"Cwd\": ");
    write_json_string(out, p.Cwd.as_str());
    out.append("\n      }");
}

/// Append the JSON of one layer record.
fn write_layer(out: &mut String, l: &ImageLayer)
    ensures
        final(out)@ == old(out)@ + json_of_layer(*l),
{
    out.append("{\n          \"diff_id\": ");
    write_json_string(out, l.diff_id.as_str());
    out.append(",\n          \"verity_hash\": ");
    write_json_string(out, l.verity_hash.as_str());
    out.append("\n        }");
}

/// Append the JSON of one mount record.
fn write_mount(out: &mut String, m: &Mount)
    ensures
        final(out)@ == old(out)@ + json_of_mount(*m),
{
    proof {
        reveal(json_of_mount);
    }
    out.append("{\n          \"destination\": ");
    write_json_string(out, m.destination.as_str());
    out.append(",\n          \"type\": ");
    write_json_string(out, m.mount_type.as_str());
    out.append(",\n          \"source\": ");
    write_json_string(out, m.source.as_str());
    out.append(",\n          \"options\": ");
    write_string_array(out, &m.options, "            ", "          ");
    out.append("\n        }");
}

/// Append the JSON of one storage record.
fn write_storage(out: &mut String, s: &Storage)
    ensures
        final(out)@ == old(out)@ + json_of_storage(*s),
{
    out.append("{\n          \"driver\": ");
    write_json_string(out, s.driver.as_str());
    out.append(",\n          \"fstype\": ");
    write_json_string(out, s.fstype.as_str());
    out.append(",\n          \"source\": ");
    write_json_string(out, s.source.as_str());
    out.append(",\n          \"mount_point\": ");
    write_json_string(out, s.mount_point.as_str());
    out.append("\n        }");
}

/// The layers array of a container record, rendered.
fn layers_array_json(layers: &Vec<ImageLayer>) -> (r: String)
    ensures
        r@ == json_rendered_array(
            layers@.map_values(|l: ImageLayer| json_of_layer(l)),
            "        "@,
            "      "@,
        ),
{
    let ghost rendered = layers@.map_values(|l: ImageLayer| json_of_layer(l));
    let mut out = String::new();
    let n = layers.len();
    if n == 0 {
        out.append("[]");
        return out;
    }
    out.append("[");
    let ghost start = out@;
    for i in 0..n
        invariant
            n == layers@.len(),
            n > 0,
            rendered == layers@.map_values(|l: ImageLayer| json_of_layer(l)),
            out@ =~= start + rendered_members(rendered.take(i as int), "        "@),
    {
        if i > 0 {
            out.append(",\n");
        } else {
            out.append("\n");
        }
        out.append("        ");
        write_layer(&mut out, &layers[i]);
        proof {
            assert(rendered.take(i + 1).drop_last() =~= rendered.take(i as int));
            assert(rendered.take(i + 1).last() == json_of_layer(layers@[i as int]));
        }
    }
    proof {
        assert(rendered.take(n as int) =~= rendered);
    }
    out.append("\n");
    out.append("      ");
    out.append("]");
    proof {
        assert(out@ =~= "["@ + rendered_members(rendered, "        "@) + "\n"@ + "      "@
            + "]"@);
    }
    out
}

/// The mounts array of a container record, rendered.
fn mounts_array_json(mounts: &Vec<Mount>) -> (r: String)
    ensures
        r@ == json_rendered_array(
            mounts@.map_values(|m: Mount| json_of_mount(m)),
            "        "@,
            "      "@,
        ),
{
    let ghost rendered = mounts@.map_values(|m: Mount| json_of_mount(m));
    let mut out = String::new();
    let n = mounts.len();
    if n == 0 {
        out.append("[]");
        return out;
    }
    out.append("[");
    let ghost start = out@;
    for i in 0..n
        invariant
            n == mounts@.len(),
            n > 0,
            rendered == mounts@.map_values(|m: Mount| json_of_mount(m)),
            out@ =~= start + rendered_members(rendered.take(i as int), "        "@),
    {
        if i > 0 {
            out.append(",\n");
        } else {
            out.append("\n");
        }
        out.append("        ");
        write_mount(&mut out, &mounts[i]);
        proof {
            assert(rendered.take(i + 1).drop_last() =~= rendered.take(i as int));
            assert(rendered.take(i + 1).last() == json_of_mount(mounts@[i as int]));
        }
    }
    proof {
        assert(rendered.take(n as int) =~= rendered);
    }
    out.append("\n");
    out.append("      ");
    out.append("]");
    proof {
        assert(out@ =~= "["@ + rendered_members(rendered, "        "@) + "\n"@ + "      "@
            + "]"@);
    }
    out
}

/// The storages array of a container record, rendered.
fn storages_array_json(storages: &Vec<Storage>) -> (r: String)
    ensures
        r@ == json_rendered_array(
            storages@.map_values(|s: Storage| json_of_storage(s)),
            "        "@,
            "      "@,
        ),
{
    let ghost rendered = storages@.map_values(|s: Storage| json_of_storage(s));
    let mut out = String::new();
    let n = storages.len();
    if n == 0 {
        out.append("[]");
        return out;
    }
    out.append("[");
    let ghost start = out@;
    for i in 0..n
        invariant
            n == storages@.len(),
            n > 0,
            rendered == storages@.map_values(|s: Storage| json_of_storage(s)),
            out@ =~= start + rendered_members(rendered.take(i as int), "        "@),
    {
        if i > 0 {
            out.append(",\n");
        } else {
            out.append("\n");
        }
        out.append("        ");
        write_storage(&mut out, &storages[i]);
        proof {
            assert(rendered.take(i + 1).drop_last() =~= rendered.take(i as int));
            assert(rendered.take(i + 1).last() == json_of_storage(storages@[i as int]));
        }
    }
    proof {
        assert(rendered.take(n as int) =~= rendered);
    }
    out.append("\n");
    out.append("      ");
    out.append("]");
    proof {
        assert(out@ =~= "["@ + rendered_members(rendered, "        "@) + "\n"@ + "      "@
            + "]"@);
    }
    out
}

/// The JSON of one container record.
#[verifier::rlimit(100)]
#[verifier::spinoff_prover]
fn container_json(cp: &ContainerPolicy) -> (r: String)
    ensures
        r@ == json_of_container(*cp),
{
    proof {
        reveal(json_of_container);
    }
    let mut out = String::new();
    out.append("{\n      \"is_pause_container\": ");
    write_bool(&mut out, cp.is_pause_container);
    out.append(",\n      \"process\": ");
    write_process(&mut out, &cp.process);
    out.append(",\n      \"layers\": ");
    let layers = layers_array_json(&cp.layers);
    out.append(layers.as_str());
    out.append(",\n      \"mounts\": ");
    let mounts = mounts_array_json(&cp.mounts);
    out.append(mounts.as_str());
    out.append(",\n      \"storages\": ");
    let storages = storages_array_json(&cp.storages);
    out.append(storages.as_str());
    out.append("\n    }");
    proof {
        assert(out@ =~= json_of_container(*cp));
    }
    out
}

/// Pretty JSON of the data document, exactly `json_of_policy_data`.
#[verifier::rlimit(100)]
#[verifier::spinoff_prover]
pub fn policy_data_json(d: &PolicyData) -> (r: String)
    ensures
        r@ == json_of_policy_data(*d),
{
    let ghost rendered = d.containers@.map_values(|c: ContainerPolicy| json_of_container(c));
    let mut arr = String::new();
    let n = d.containers.len();
    if n == 0 {
        arr.append("[]");
    } else {
        arr.append("[");
        let ghost start = arr@;
        for i in 0..n
            invariant
                n == d.containers@.len(),
                n > 0,
                rendered == d.containers@.map_values(|c: ContainerPolicy| json_of_container(c)),
                arr@ =~= start + rendered_members(rendered.take(i as int), "    "@),
        {
            if i > 0 {
                arr.append(",\n");
            } else {
                arr.append("\n");
            }
            arr.append("    ");
            let item = container_json(&d.containers[i]);
            arr.append(item.as_str());
            proof {
                assert(rendered.take(i + 1).drop_last() =~= rendered.take(i as int));
                assert(rendered.take(i + 1).last() == json_of_container(d.containers@[i as int]));
            }
        }
        proof {
            assert(rendered.take(n as int) =~= rendered);
        }
        arr.append("\n");
        arr.append("  ");
        arr.append("]");
        proof {
            assert(arr@ =~= "["@ + rendered_members(rendered, "    "@) + "\n"@ + "  "@ + "]"@);
        }
    }
    let mut out = String::new();
    out.append("{\n  \"containers\": ");
    out.append(arr.as_str());
    out.append("\n}");
    proof {
        assert(out@ =~= json_of_policy_data(*d));
    }
    out
}

/// The policy document: the rule text, a newline, and the data document
/// bound to `policy_data`.
pub fn compose_policy_document(rules: &str, d: &PolicyData) -> (policy: String)
    ensures
        policy@ == spec_policy_text(rules@, *d),
{
    let mut out = String::new();
    out.append(rules);
    out.append("\npolicy_data := ");
    let data = policy_data_json(d);
    out.append(data.as_str());
    out
}

/// The standard base64 alphabet.
pub open spec fn b64_alphabet() -> Seq<char> {
    "ABCDEFGHIJKLMNOPQRSTUVWXYZabcdefghijklmnopqrstuvwxyz0123456789+/"@
}

/// Standard, padded base64 of a byte sequence: three bytes become four
/// alphabet characters; a final group of one or two bytes is padded with
/// `=`.
pub open spec fn base64_of(bytes: Seq<u8>) -> Seq<char>
    decreases bytes.len(),
{
    if bytes.len() == 0 {
        Seq::<char>::empty()
    } else if bytes.len() == 1 {
        let b0 = bytes[0] as int;
        seq![b64_alphabet()[b0 / 4], b64_alphabet()[(b0 % 4) * 16], '=', '=']
    } else if bytes.len() == 2 {
        let b0 = bytes[0] as int;
        let b1 = bytes[1] as int;
        seq![
            b64_alphabet()[b0 / 4],
            b64_alphabet()[(b0 % 4) * 16 + b1 / 16],
            b64_alphabet()[(b1 % 16) * 4],
            '=',
        ]
    } else {
        let b0 = bytes[0] as int;
        let b1 = bytes[1] as int;
        let b2 = bytes[2] as int;
        seq![
            b64_alphabet()[b0 / 4],
            b64_alphabet()[(b0 % 4) * 16 + b1 / 16],
            b64_alphabet()[(b1 % 16) * 4 + b2 / 64],
            b64_alphabet()[b2 % 64],
        ] + base64_of(bytes.skip(3))
    }
}

/// Relies on base64's `STANDARD` engine: standard alphabet, padded, four
/// characters for each group of three bytes.
#[verifier::external_body]
pub fn base64_encode(bytes: &[u8]) -> (r: String)
    ensures
        r@ == base64_of(bytes@),
{
    base64::engine::general_purpose::STANDARD.encode(bytes)
}

/// Base64 of the exact UTF-8 bytes of the policy document, as embedded
/// into the manifest annotation.
pub fn encode_policy(policy: &str) -> (r: String)
    ensures
        r@ == base64_of(vstd::utf8::encode_utf8(policy@)),
{
    base64_encode(policy.as_bytes())
}

/// What `build_container_policy` establishes: the record merges the
/// image configuration of `registry` into the manifest-supplied parts of
/// `yaml` as the merge rules say, carries the image's layers, and takes
/// the mounts and storages the infrastructure collaborator handed in.
pub open spec fn is_built_container_policy(
    cp: ContainerPolicy,
    yaml: PodContainer,
    registry: Container,
    is_pause: bool,
    mounts: Vec<Mount>,
    storages: Vec<Storage>,
) -> bool {
    let cfg = registry.spec_config();
    &&& cp.is_pause_container == is_pause
    &&& cp.process.User.UID == uid_after(cfg, 0)
    &&& cp.process.User.GID == gid_after(cfg, 0)
    &&& cp.process.Terminal == terminal_after(cfg)
    &&& cp.process.Env@ == cfg.Env@ + yaml.env@
    &&& cp.process.Args@ == merged_args(
        cfg,
        yaml.command@ + yaml.args@,
        yaml.command@.len() > 0,
        yaml.args@.len() > 0,
    )
    &&& cp.process.Cwd@ == cwd_after(cfg, Seq::<char>::empty())
    &&& cp.layers@ == registry.spec_layers()
    &&& cp.mounts == mounts
    &&& cp.storages == storages
}

/// Build the policy record of one container: start from the
/// manifest-supplied argv, merge the image configuration in, append the
/// manifest's environment additions after the image environment, attach
/// the image layers and the given mounts and storages.
pub fn build_container_policy(
    yaml: &PodContainer,
    registry: &Container,
    is_pause: bool,
    mounts: Vec<Mount>,
    storages: Vec<Storage>,
) -> (cp: ContainerPolicy)
    requires
        registry.spec_config().gid_parses(),
    ensures
        is_built_container_policy(cp, *yaml, *registry, is_pause, mounts, storages),
{
    let mut process = KataProcess::new();
    let nc = yaml.command.len();
    for i in 0..nc
        invariant
            nc == yaml.command@.len(),
            process.Args@ =~= yaml.command@.take(i as int),
            process.User.UID == 0,
            process.User.GID == 0,
            !process.Terminal,
            process.Env@ == Seq::<String>::empty(),
            process.Cwd@ == Seq::<char>::empty(),
    {
        process.Args.push(yaml.command[i].clone());
    }
    proof {
        assert(yaml.command@.take(nc as int) =~= yaml.command@);
    }
    let na = yaml.args.len();
    for i in 0..na
        invariant
            na == yaml.args@.len(),
            process.Args@ =~= yaml.command@ + yaml.args@.take(i as int),
            process.User.UID == 0,
            process.User.GID == 0,
            !process.Terminal,
            process.Env@ == Seq::<String>::empty(),
            process.Cwd@ == Seq::<char>::empty(),
    {
        process.Args.push(yaml.args[i].clone());
    }
    proof {
        assert(yaml.args@.take(na as int) =~= yaml.args@);
        assert(process.Args@ =~= yaml.command@ + yaml.args@);
    }

    let yaml_has_command = yaml.command.len() > 0;
    let yaml_has_args = yaml.args.len() > 0;
    registry.get_process(&mut process, yaml_has_command, yaml_has_args);

    proof {
        assert(process.Env@ =~= registry.spec_config().Env@);
    }
    let ghost env_after_merge = process.Env@;
    let ne = yaml.env.len();
    for i in 0..ne
        invariant
            ne == yaml.env@.len(),
            process.Env@ =~= env_after_merge + yaml.env@.take(i as int),
            env_after_merge == registry.spec_config().Env@,
            process.Args@ == merged_args(
                registry.spec_config(),
                yaml.command@ + yaml.args@,
                yaml.command@.len() > 0,
                yaml.args@.len() > 0,
            ),
            process.Terminal == terminal_after(registry.spec_config()),
            process.User.UID == uid_after(registry.spec_config(), 0),
            process.User.GID == gid_after(registry.spec_config(), 0),
            process.Cwd@ == cwd_after(registry.spec_config(), Seq::<char>::empty()),
    {
        process.Env.push(yaml.env[i].clone());
    }
    proof {
        assert(yaml.env@.take(ne as int) =~= yaml.env@);
        assert(process.Env@ =~= registry.spec_config().Env@ + yaml.env@);
    }

    let layers = registry.get_image_layers();
    ContainerPolicy { is_pause_container: is_pause, process, layers, mounts, storages }
}

/// Two runs of the generator over the same rule text and the same data
/// produce byte-identical documents: the document is a function of its
/// inputs alone.
pub proof fn lemma_generation_deterministic(
    rules: Seq<char>,
    d: PolicyData,
    out1: Seq<char>,
    out2: Seq<char>,
)
    requires
        out1 == spec_policy_text(rules, d),
        out2 == spec_policy_text(rules, d),
    ensures
        out1 == out2,
{
}

/// What the policy record of a bare image reference holds: only the
/// image configuration speaks; there is no manifest-supplied command,
/// args or environment, the container is the pause container, and there
/// are no mounts or storages.
pub open spec fn is_default_image_policy(cp: ContainerPolicy, registry: Container) -> bool {
    let cfg = registry.spec_config();
    &&& cp.is_pause_container
    &&& cp.process.User.UID == uid_after(cfg, 0)
    &&& cp.process.User.GID == gid_after(cfg, 0)
    &&& cp.process.Terminal == terminal_after(cfg)
    &&& cp.process.Env@ == cfg.Env@
    &&& cp.process.Args@ == merged_args(cfg, Seq::<String>::empty(), false, false)
    &&& cp.process.Cwd@ == cwd_after(cfg, Seq::<char>::empty())
    &&& cp.layers@ == registry.spec_layers()
    &&& cp.mounts@.len() == 0
    &&& cp.storages@.len() == 0
}

/// Policy for a bare image reference: a single container with no
/// manifest-supplied command, args or environment, marked as the pause
/// container, with no mounts or storages.  Returns the policy document
/// and its base64 encoding; with `with_default_rules` unset the rule
/// text is left empty.
pub fn create_policy_by_image_ref(
    _image_ref: &str,
    with_default_rules: bool,
    rules: &str,
    registry: &Container,
) -> (r: (String, String))
    requires
        registry.spec_config().gid_parses(),
    ensures
        exists|d: PolicyData|
            #![auto]
            {
                &&& d.containers@.len() == 1
                &&& is_default_image_policy(d.containers@[0], *registry)
                &&& r.0@ == spec_policy_text(
                    if with_default_rules {
                        rules@
                    } else {
                        Seq::<char>::empty()
                    },
                    d,
                )
            },
        r.1@ == base64_of(vstd::utf8::encode_utf8(r.0@)),
{
    let yaml = PodContainer {
        name: String::new(),
        image: String::new(),
        command: Vec::new(),
        args: Vec::new(),
        env: Vec::new(),
    };
    let cp = build_container_policy(&yaml, registry, true, Vec::new(), Vec::new());
    let mut containers: Vec<ContainerPolicy> = Vec::new();
    containers.push(cp);
    let data = PolicyData { containers };
    let policy = if with_default_rules {
        compose_policy_document(rules, &data)
    } else {
        compose_policy_document("", &data)
    };
    let encoded = encode_policy(policy.as_str());
    proof {
        assert(data.containers@.len() == 1);
        assert(is_default_image_policy(data.containers@[0], *registry));
        reveal_strlit("");
        assert(""@ =~= Seq::<char>::empty());
    }
    (policy, encoded)
}

} // verus!
