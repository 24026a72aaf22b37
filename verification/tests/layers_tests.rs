use cc_policy::registry::{
    build_image_layers, cache_cleanup, chunk_write_offset, gzip_layer_digests, layer_cache_paths,
    select_platform_manifest, CacheCleanup, IndexEntry, LayerError, ManifestLayer,
};

const GZIP: &str = "application/vnd.docker.image.rootfs.diff.tar.gzip";

fn layer(media_type: &str, digest: &str) -> ManifestLayer {
    ManifestLayer { media_type: media_type.to_string(), digest: digest.to_string() }
}

#[test]
fn gzip_layers_are_selected_in_order() {
    let layers = vec![
        layer(GZIP, "sha256:l0"),
        layer("application/vnd.oci.image.config.v1+json", "sha256:cfg"),
        layer(GZIP, "sha256:l1"),
    ];
    let digests = gzip_layer_digests(&layers);
    assert_eq!(digests, vec!["sha256:l0".to_string(), "sha256:l1".to_string()]);
}

#[test]
fn diff_ids_pair_positionally() {
    let layers = vec![
        layer(GZIP, "sha256:l0"),
        layer("other", "sha256:skip"),
        layer(GZIP, "sha256:l1"),
    ];
    let diff_ids = vec!["sha256:d0".to_string(), "sha256:d1".to_string()];
    let hashes = vec!["h0".to_string(), "h1".to_string()];
    let built = build_image_layers(&layers, &diff_ids, &hashes).unwrap();
    assert_eq!(built.len(), 2);
    assert_eq!(built[0].diff_id, "sha256:d0");
    assert_eq!(built[0].verity_hash, "h0");
    assert_eq!(built[1].diff_id, "sha256:d1");
    assert_eq!(built[1].verity_hash, "h1");
}

#[test]
fn too_many_gzip_layers_fail() {
    let layers = vec![layer(GZIP, "sha256:l0"), layer(GZIP, "sha256:l1")];
    let diff_ids = vec!["sha256:d0".to_string()];
    let hashes = vec!["h0".to_string(), "h1".to_string()];
    assert_eq!(
        build_image_layers(&layers, &diff_ids, &hashes).unwrap_err(),
        LayerError::TooManyGzipLayers
    );
}

#[test]
fn index_selects_first_amd64_linux() {
    let entries = vec![
        IndexEntry {
            architecture: "arm64".to_string(),
            os: "linux".to_string(),
            digest: "sha256:arm".to_string(),
        },
        IndexEntry {
            architecture: "amd64".to_string(),
            os: "windows".to_string(),
            digest: "sha256:win".to_string(),
        },
        IndexEntry {
            architecture: "amd64".to_string(),
            os: "linux".to_string(),
            digest: "sha256:first".to_string(),
        },
        IndexEntry {
            architecture: "amd64".to_string(),
            os: "linux".to_string(),
            digest: "sha256:second".to_string(),
        },
    ];
    assert_eq!(select_platform_manifest(&entries).unwrap(), "sha256:first");
}

#[test]
fn index_without_match_fails() {
    let entries = vec![IndexEntry {
        architecture: "s390x".to_string(),
        os: "linux".to_string(),
        digest: "sha256:x".to_string(),
    }];
    assert_eq!(
        select_platform_manifest(&entries).unwrap_err(),
        LayerError::NoMatchingPlatform
    );
}

#[test]
fn cache_paths_replace_colons() {
    let (tar, gz, verity) = layer_cache_paths("sha256:0a1b");
    assert_eq!(tar, "layers_cache/sha256-0a1b.tar");
    assert_eq!(gz, "layers_cache/sha256-0a1b.gz");
    assert_eq!(verity, "layers_cache/sha256-0a1b.verity");
}

#[test]
fn cache_cleanup_rules() {
    assert_eq!(cache_cleanup(false, false), CacheCleanup::RemoveAll);
    assert_eq!(cache_cleanup(false, true), CacheCleanup::RemoveAll);
    assert_eq!(cache_cleanup(true, true), CacheCleanup::RemoveLayerFiles);
    assert_eq!(cache_cleanup(true, false), CacheCleanup::Keep);
}

#[test]
fn negative_chunk_offsets_fail_the_layer() {
    assert_eq!(chunk_write_offset(-1), Err(LayerError::NegativeChunkOffset));
    assert_eq!(chunk_write_offset(0), Ok(0));
    assert_eq!(chunk_write_offset(8192), Ok(8192));
}
