//! Container image properties and the merge of an image configuration
//! with the workload manifest into an effective process specification.
//!
//! Image resolution itself (pulling the image and reading its manifest,
//! configuration and layer bytes from the runtime's content store) is an
//! outside operation; the values it yields are handed in as plain data.

#![allow(non_snake_case)]

use crate::hashing::string_push;
use crate::policy::KataProcess;
use crate::text::{
    find_char_from, first_index_from, parse_u32, parses_as_u32, str_eq, u32_value_of,
};
use vstd::prelude::*;
use vstd::string::{StrSliceExecFns, StringExecFns};

verus! {

/// Image config properties, as found in the image's config layer.
pub struct DockerImageConfig {
    pub User: Option<String>,
    pub Tty: Option<bool>,
    pub Env: Vec<String>,
    pub Cmd: Option<Vec<String>>,
    pub WorkingDir: Option<String>,
    pub Entrypoint: Option<Vec<String>>,
}

/// Container rootfs information from the image's config layer.  The
/// `rootfs_type` field carries what the config layer calls `type`.
pub struct DockerRootfs {
    pub rootfs_type: String,
    pub diff_ids: Vec<String>,
}

/// Image config layer properties.
pub struct DockerConfigLayer {
    pub architecture: String,
    pub config: DockerImageConfig,
    pub rootfs: DockerRootfs,
}

/// One rootfs layer of the image: the diff-id from the image config and
/// the dm-verity root hash of the unpacked layer.
#[derive(Debug)]
pub struct ImageLayer {
    pub diff_id: String,
    pub verity_hash: String,
}

/// Container image properties obtained from an OCI repository.
pub struct Container {
    config_layer: DockerConfigLayer,
    image_layers: Vec<ImageLayer>,
}

/// The `uid` field of an image user string: everything before the first
/// colon.
pub open spec fn uid_field(user: Seq<char>) -> Seq<char> {
    user.take(first_index_from(user, ':', 0))
}

/// Whether the image user string carries a group id after a colon.
pub open spec fn has_gid_field(user: Seq<char>) -> bool {
    first_index_from(user, ':', 0) < user.len()
}

/// The `gid` field of an image user string: between the first colon and
/// the next one (or the end).
pub open spec fn gid_field(user: Seq<char>) -> Seq<char> {
    let fc = first_index_from(user, ':', 0);
    user.subrange(fc + 1, first_index_from(user, ':', fc + 1))
}

impl DockerImageConfig {
    /// The image user string, empty when the field is absent.
    pub open spec fn user_view(self) -> Seq<char> {
        match self.User {
            Some(u) => u@,
            None => Seq::<char>::empty(),
        }
    }

    /// The precondition under which the merge cannot fail: a group id,
    /// when present, must parse.  A malformed group id is a fatal
    /// generation error.
    pub open spec fn gid_parses(self) -> bool {
        has_gid_field(self.user_view()) ==> parses_as_u32(gid_field(self.user_view()))
    }
}

/// User id after the merge: an absent or empty image user leaves the
/// previous value; an unparsable uid falls back to 0.
pub open spec fn uid_after(cfg: DockerImageConfig, prev: u32) -> u32 {
    let u = cfg.user_view();
    if u.len() == 0 {
        prev
    } else if parses_as_u32(uid_field(u)) {
        u32_value_of(uid_field(u)) as u32
    } else {
        0u32
    }
}

/// Group id after the merge: only a `uid:gid` image user changes it.
pub open spec fn gid_after(cfg: DockerImageConfig, prev: u32) -> u32 {
    let u = cfg.user_view();
    if u.len() == 0 {
        prev
    } else if has_gid_field(u) {
        u32_value_of(gid_field(u)) as u32
    } else {
        prev
    }
}

/// Terminal flag after the merge: the image TTY flag, or false.
pub open spec fn terminal_after(cfg: DockerImageConfig) -> bool {
    match cfg.Tty {
        Some(t) => t,
        None => false,
    }
}

/// Working directory after the merge: a non-empty image working dir
/// replaces the previous value.
pub open spec fn cwd_after(cfg: DockerImageConfig, prev: Seq<char>) -> Seq<char> {
    match cfg.WorkingDir {
        Some(w) => if w@.len() > 0 {
            w@
        } else {
            prev
        },
        None => prev,
    }
}

/// Argument list after the merge.  The image entrypoint is prepended
/// unless the manifest supplied a command; the image cmd is appended
/// only when the manifest supplied neither command nor args.
pub open spec fn merged_args(
    cfg: DockerImageConfig,
    args0: Seq<String>,
    yaml_has_command: bool,
    yaml_has_args: bool,
) -> Seq<String> {
    let with_ep = match cfg.Entrypoint {
        Some(ep) => if !yaml_has_command {
            ep@ + args0
        } else {
            args0
        },
        None => args0,
    };
    match cfg.Cmd {
        Some(cmd) => if !yaml_has_command && !yaml_has_args {
            with_ep + cmd@
        } else {
            with_ep
        },
        None => with_ep,
    }
}

/// A manifest-supplied command silences the image: with the command
/// hint set, neither the image entrypoint nor the image cmd reaches the
/// argument list.
pub proof fn lemma_command_overrides_image(cfg: DockerImageConfig, args0: Seq<String>)
    ensures
        merged_args(cfg, args0, true, false) == args0,
        merged_args(cfg, args0, true, true) == args0,
{
}

/// Manifest-supplied args without a command silence the image cmd; the
/// image entrypoint, when the image has none, adds nothing either.
pub proof fn lemma_args_silence_image_cmd(cfg: DockerImageConfig, args0: Seq<String>)
    requires
        cfg.Entrypoint is None,
    ensures
        merged_args(cfg, args0, false, true) == args0,
{
}

impl Container {
    /// Container built from its resolved image data: the parsed config
    /// layer and the hashed rootfs layers.
    pub fn new(config_layer: DockerConfigLayer, image_layers: Vec<ImageLayer>) -> (c: Container)
        ensures
            c.spec_config() == config_layer.config,
            c.spec_layers() == image_layers@,
    {
        Container { config_layer, image_layers }
    }

    /// The image config carried by the container.
    pub closed spec fn spec_config(self) -> DockerImageConfig {
        self.config_layer.config
    }

    /// The rootfs layers carried by the container.
    pub closed spec fn spec_layers(self) -> Seq<ImageLayer> {
        self.image_layers@
    }

    /// Merge the image config into `process`: user, terminal, env, args
    /// and working directory, with the manifest taking precedence as the
    /// two hints say.
    pub fn get_process(
        &self,
        process: &mut KataProcess,
        yaml_has_command: bool,
        yaml_has_args: bool,
    )
        requires
            self.spec_config().gid_parses(),
        ensures
            final(process).User.UID == uid_after(self.spec_config(), old(process).User.UID),
            final(process).User.GID == gid_after(self.spec_config(), old(process).User.GID),
            final(process).Terminal == terminal_after(self.spec_config()),
            final(process).Env@ == old(process).Env@ + self.spec_config().Env@,
            final(process).Args@ == merged_args(
                self.spec_config(),
                old(process).Args@,
                yaml_has_command,
                yaml_has_args,
            ),
            final(process).Cwd@ == cwd_after(self.spec_config(), old(process).Cwd@),
    {
        let docker_config = &self.config_layer.config;
        let ghost cfg = self.spec_config();

        if let Some(image_user) = &docker_config.User {
            if !image_user.as_str().is_empty() {
                let u = image_user.as_str();
                let n = u.unicode_len();
                let colon = find_char_from(u, ':', 0);
                let uid_str = match colon {
                    Some(k) => u.substring_char(0, k),
                    None => u,
                };
                assert(uid_str@ =~= uid_field(u@));
                match parse_u32(uid_str) {
                    Some(id) => process.User.UID = id,
                    None => process.User.UID = 0,
                }
                if let Some(k) = colon {
                    let end = match find_char_from(u, ':', k + 1) {
                        Some(e) => e,
                        None => n,
                    };
                    let gid_str = u.substring_char(k + 1, end);
                    assert(gid_str@ =~= gid_field(u@));
                    match parse_u32(gid_str) {
                        Some(g) => process.User.GID = g,
                        None => {
                            proof {
                                assert(false);
                            }
                        },
                    }
                }
            }
        }
        proof {
            assert(process.User.UID == uid_after(cfg, old(process).User.UID));
            assert(process.User.GID == gid_after(cfg, old(process).User.GID));
        }

        if let Some(terminal) = docker_config.Tty {
            process.Terminal = terminal;
        } else {
            process.Terminal = false;
        }
        let ghost user_done = process.User;
        let ghost terminal_done = process.Terminal;

        let env_count = docker_config.Env.len();
        let mut e: usize = 0;
        while e < env_count
            invariant
                e <= env_count,
                env_count == docker_config.Env@.len(),
                process.Env@ =~= old(process).Env@ + docker_config.Env@.take(e as int),
                process.User == user_done,
                process.Terminal == terminal_done,
                process.Args == old(process).Args,
                process.Cwd == old(process).Cwd,
            decreases env_count - e,
        {
            process.Env.push(docker_config.Env[e].clone());
            e += 1;
        }
        proof {
            assert(docker_config.Env@.take(env_count as int) =~= docker_config.Env@);
        }
        let ghost env_done = process.Env;

        if let Some(entry_points) = &docker_config.Entrypoint {
            if !yaml_has_command {
                let mut i = entry_points.len();
                proof {
                    assert(entry_points@.skip(i as int) =~= Seq::<String>::empty());
                }
                while i > 0
                    invariant
                        i <= entry_points@.len(),
                        process.Args@ =~= entry_points@.skip(i as int) + old(process).Args@,
                        process.User == user_done,
                        process.Terminal == terminal_done,
                        process.Env == env_done,
                        process.Cwd == old(process).Cwd,
                    decreases i,
                {
                    i -= 1;
                    process.Args.insert(0, entry_points[i].clone());
                    proof {
                        assert(entry_points@.skip(i as int) =~= seq![entry_points@[i as int]]
                            + entry_points@.skip(i + 1));
                    }
                }
                proof {
                    assert(entry_points@.skip(0) =~= entry_points@);
                }
            }
        }

        if !yaml_has_command && !yaml_has_args {
            if let Some(commands) = &docker_config.Cmd {
                let cmd_count = commands.len();
                let mut j: usize = 0;
                let ghost args_mid = process.Args@;
                while j < cmd_count
                    invariant
                        j <= cmd_count,
                        cmd_count == commands@.len(),
                        process.Args@ =~= args_mid + commands@.take(j as int),
                        process.User == user_done,
                        process.Terminal == terminal_done,
                        process.Env == env_done,
                        process.Cwd == old(process).Cwd,
                    decreases cmd_count - j,
                {
                    process.Args.push(commands[j].clone());
                    j += 1;
                }
                proof {
                    assert(commands@.take(cmd_count as int) =~= commands@);
                }
            }
        }
        proof {
            assert(process.Args@ =~= merged_args(
                cfg,
                old(process).Args@,
                yaml_has_command,
                yaml_has_args,
            ));
        }

        if let Some(working_dir) = &docker_config.WorkingDir {
            if !working_dir.as_str().is_empty() {
                process.Cwd = working_dir.clone();
            }
        }
    }

    /// The rootfs layers, in image order.
    pub fn get_image_layers(&self) -> (layers: Vec<ImageLayer>)
        ensures
            layers@ == self.spec_layers(),
    {
        let mut layers: Vec<ImageLayer> = Vec::new();
        let n = self.image_layers.len();
        for i in 0..n
            invariant
                n == self.image_layers@.len(),
                layers@ =~= self.image_layers@.take(i as int),
        {
            let l = ImageLayer {
                diff_id: self.image_layers[i].diff_id.clone(),
                verity_hash: self.image_layers[i].verity_hash.clone(),
            };
            layers.push(l);
        }
        proof {
            assert(self.image_layers@.take(n as int) =~= self.image_layers@);
        }
        layers
    }
}

/// A layer entry of an image manifest.
pub struct ManifestLayer {
    pub media_type: String,
    pub digest: String,
}

/// One entry of a multi-architecture image index.
pub struct IndexEntry {
    pub architecture: String,
    pub os: String,
    pub digest: String,
}

/// A failure while turning manifest layers into policy layers.
#[derive(Clone, Copy, PartialEq, Eq, Structural, Debug)]
pub enum LayerError {
    /// More gzip rootfs layers than diff-ids in the image config.
    TooManyGzipLayers,
    /// A content chunk arrived with a negative offset.
    NegativeChunkOffset,
    /// No index entry matches the wanted platform.
    NoMatchingPlatform,
}

/// The media type of the layers that take part in policy generation.
pub open spec fn spec_gzip_media_type() -> Seq<char> {
    "application/vnd.docker.image.rootfs.diff.tar.gzip"@
}

/// Whether a manifest layer is a gzip rootfs layer.
pub open spec fn is_gzip_layer(layer: ManifestLayer) -> bool {
    layer.media_type@ == spec_gzip_media_type()
}

/// Digests of the gzip rootfs layers, in manifest order.
pub open spec fn gzip_digests(layers: Seq<ManifestLayer>) -> Seq<String>
    decreases layers.len(),
{
    if layers.len() == 0 {
        Seq::<String>::empty()
    } else if is_gzip_layer(layers.first()) {
        seq![layers.first().digest] + gzip_digests(layers.drop_first())
    } else {
        gzip_digests(layers.drop_first())
    }
}

/// The digests whose layer bytes must be fetched and hashed: those of
/// the gzip rootfs layers, in manifest order.
pub fn gzip_layer_digests(layers: &Vec<ManifestLayer>) -> (digests: Vec<String>)
    ensures
        digests@ == gzip_digests(layers@),
{
    let mut digests: Vec<String> = Vec::new();
    let n = layers.len();
    assert(layers@.skip(0) == layers@);
    for i in 0..n
        invariant
            n == layers@.len(),
            gzip_digests(layers@) =~= digests@ + gzip_digests(layers@.skip(i as int)),
    {
        if str_eq(
            layers[i].media_type.as_str(),
            "application/vnd.docker.image.rootfs.diff.tar.gzip",
        ) {
            digests.push(layers[i].digest.clone());
        }
        assert(layers@.skip(i as int).drop_first() =~= layers@.skip(i + 1));
    }
    proof {
        assert(gzip_digests(layers@.skip(n as int)) =~= Seq::<String>::empty());
    }
    digests
}

/// Pair the i-th gzip rootfs layer with the i-th diff-id of the image
/// config and with the verity hash computed for its contents.  More gzip
/// layers than diff-ids is a fatal generation error.
pub fn build_image_layers(
    manifest_layers: &Vec<ManifestLayer>,
    diff_ids: &Vec<String>,
    verity_hashes: &Vec<String>,
) -> (result: Result<Vec<ImageLayer>, LayerError>)
    requires
        verity_hashes@.len() == gzip_digests(manifest_layers@).len(),
    ensures
        match result {
            Ok(layers) => {
                &&& gzip_digests(manifest_layers@).len() <= diff_ids@.len()
                &&& layers@.len() == gzip_digests(manifest_layers@).len()
                &&& forall|i: int|
                    0 <= i < layers@.len() ==> (#[trigger] layers@[i]).diff_id == diff_ids@[i]
                        && layers@[i].verity_hash == verity_hashes@[i]
            },
            Err(e) => e == LayerError::TooManyGzipLayers && gzip_digests(manifest_layers@).len()
                > diff_ids@.len(),
        },
{
    let gzip_count = gzip_layer_digests(manifest_layers).len();
    if gzip_count > diff_ids.len() {
        return Err(LayerError::TooManyGzipLayers);
    }
    let mut layers: Vec<ImageLayer> = Vec::new();
    for i in 0..gzip_count
        invariant
            gzip_count == gzip_digests(manifest_layers@).len(),
            gzip_count <= diff_ids@.len(),
            gzip_count <= verity_hashes@.len(),
            layers@.len() == i,
            forall|j: int|
                0 <= j < i ==> (#[trigger] layers@[j]).diff_id == diff_ids@[j]
                    && layers@[j].verity_hash == verity_hashes@[j],
    {
        layers.push(
            ImageLayer {
                diff_id: diff_ids[i].clone(),
                verity_hash: verity_hashes[i].clone(),
            },
        );
    }
    Ok(layers)
}

/// Index of the first index entry for the wanted platform;
/// `entries.len()` when none matches.
pub open spec fn first_platform_match(entries: Seq<IndexEntry>, from: int) -> int
    decreases entries.len() - from,
{
    if from < 0 || from >= entries.len() {
        entries.len() as int
    } else if entries[from].architecture@ == "amd64"@ && entries[from].os@ == "linux"@ {
        from
    } else {
        first_platform_match(entries, from + 1)
    }
}

/// Select the manifest of a multi-architecture image index: the first
/// entry with architecture `amd64` and os `linux` wins.  Its digest
/// names the manifest to fetch next.
pub fn select_platform_manifest(entries: &Vec<IndexEntry>) -> (result: Result<
    String,
    LayerError,
>)
    ensures
        match result {
            Ok(digest) => {
                let k = first_platform_match(entries@, 0);
                k < entries@.len() && digest == entries@[k].digest
            },
            Err(e) => e == LayerError::NoMatchingPlatform && first_platform_match(entries@, 0)
                == entries@.len(),
        },
{
    let n = entries.len();
    let mut i: usize = 0;
    while i < n
        invariant
            i <= n,
            n == entries@.len(),
            first_platform_match(entries@, 0) == first_platform_match(entries@, i as int),
        decreases n - i,
    {
        if str_eq(entries[i].architecture.as_str(), "amd64") && str_eq(
            entries[i].os.as_str(),
            "linux",
        ) {
            return Ok(entries[i].digest.clone());
        }
        i += 1;
    }
    Err(LayerError::NoMatchingPlatform)
}

/// A digest with every colon replaced by a dash, usable as a file name.
pub open spec fn safe_digest_name(digest: Seq<char>) -> Seq<char> {
    Seq::new(digest.len(), |i: int| if digest[i] == ':' { '-' } else { digest[i] })
}

/// Names of a layer's three cache files, derived from its digest with
/// colons replaced by dashes: the decompressed tar, the compressed
/// stream and the stored verity hash, all under the cache directory.
pub fn layer_cache_paths(layer_digest: &str) -> (paths: (String, String, String))
    ensures
        paths.0@ == "layers_cache/"@ + safe_digest_name(layer_digest@) + ".tar"@,
        paths.1@ == "layers_cache/"@ + safe_digest_name(layer_digest@) + ".gz"@,
        paths.2@ == "layers_cache/"@ + safe_digest_name(layer_digest@) + ".verity"@,
{
    let mut base = String::new();
    base.append("layers_cache/");
    let n = layer_digest.unicode_len();
    for i in 0..n
        invariant
            n == layer_digest@.len(),
            base@ =~= "layers_cache/"@ + safe_digest_name(layer_digest@.take(i as int)),
    {
        let c = layer_digest.get_char(i);
        if c == ':' {
            string_push(&mut base, '-');
        } else {
            string_push(&mut base, c);
        }
        proof {
            assert(safe_digest_name(layer_digest@.take(i + 1)) =~= safe_digest_name(
                layer_digest@.take(i as int),
            ).push(if layer_digest@[i as int] == ':' {
                '-'
            } else {
                layer_digest@[i as int]
            }));
        }
    }
    proof {
        assert(safe_digest_name(layer_digest@.take(n as int)) =~= safe_digest_name(
            layer_digest@,
        ));
    }
    let tar = base.clone().concat(".tar");
    let gz = base.clone().concat(".gz");
    let verity = base.concat(".verity");
    (tar, gz, verity)
}

/// What to remove from the layer cache when a layer is done.
#[derive(Clone, Copy, PartialEq, Eq, Structural, Debug)]
pub enum CacheCleanup {
    /// Caching is off: the whole cache directory goes.
    RemoveAll,
    /// Caching is on but this layer failed: its three files go.
    RemoveLayerFiles,
    /// Caching is on and the layer succeeded: everything stays.
    Keep,
}

/// Cache cleanup rule: with caching disabled the whole directory is
/// purged; with caching enabled only a failed layer's files are removed.
pub fn cache_cleanup(use_cached_files: bool, layer_failed: bool) -> (action: CacheCleanup)
    ensures
        !use_cached_files ==> action == CacheCleanup::RemoveAll,
        use_cached_files && layer_failed ==> action == CacheCleanup::RemoveLayerFiles,
        use_cached_files && !layer_failed ==> action == CacheCleanup::Keep,
{
    if !use_cached_files {
        CacheCleanup::RemoveAll
    } else if layer_failed {
        CacheCleanup::RemoveLayerFiles
    } else {
        CacheCleanup::Keep
    }
}

/// Offset at which a content chunk is written while a layer is
/// streamed.  A negative offset fails the layer.
pub fn chunk_write_offset(offset: i64) -> (result: Result<u64, LayerError>)
    ensures
        offset >= 0 ==> result == Result::<u64, LayerError>::Ok(offset as u64),
        offset < 0 ==> result == Result::<u64, LayerError>::Err(
            LayerError::NegativeChunkOffset,
        ),
{
    if offset < 0 {
        Err(LayerError::NegativeChunkOffset)
    } else {
        Ok(offset as u64)
    }
}

} // verus!
