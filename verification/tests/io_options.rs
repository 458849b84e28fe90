//! Read/write options and the entry points of a build without libhdf5.

use nir_rs::io::{
    read, read_version, read_version_with, read_with, write_with, ReadOptions, VersionPolicy,
    WriteOptions, DEFAULT_NIR_VERSION,
};
use nir_rs::{NirError, NirGraph};

#[test]
fn write_options_default_matches_h5py_gzip() {
    let opts = WriteOptions::default();
    assert_eq!(opts.compression, Some(4));
    assert_eq!(opts.version, None);
    assert!(opts.validate);
}

#[test]
fn write_options_builders() {
    let opts = WriteOptions::default()
        .with_compression(Some(200))
        .with_version("0.2.0")
        .with_validation(false);
    assert_eq!(opts.compression, Some(9), "level should clamp to 9");
    assert_eq!(opts.version.as_deref(), Some("0.2.0"));
    assert!(!opts.validate);

    let off = WriteOptions::default().with_compression(None);
    assert_eq!(off.compression, None);
}

#[test]
fn read_options_default_is_unbounded() {
    let opts = ReadOptions::default();
    assert_eq!(opts.max_bytes, None);
    assert_eq!(opts.with_max_bytes(Some(4096)).max_bytes, Some(4096));
}

#[test]
fn read_is_unimplemented() {
    let err = read("model.nir").unwrap_err();
    assert!(matches!(err, NirError::Unimplemented(_)));
}

#[test]
fn read_version_is_unimplemented() {
    let err = read_version("model.nir").unwrap_err();
    assert!(matches!(err, NirError::Unimplemented(_)));
}

#[test]
fn bounded_read_is_unimplemented() {
    let opts = ReadOptions::default().with_max_bytes(Some(1024));
    assert!(matches!(read_with("model.nir", &opts).unwrap_err(), NirError::Unimplemented(_)));
    assert!(matches!(
        read_version_with("model.nir", &opts).unwrap_err(),
        NirError::Unimplemented(_)
    ));
}

#[test]
fn write_is_unimplemented() {
    let g = NirGraph::new();
    let err = nir_rs::io::write("out.nir", &g).unwrap_err();
    assert!(matches!(err, NirError::Unimplemented(_)));
    let err = write_with("out.nir", &g, &WriteOptions::default()).unwrap_err();
    assert!(matches!(err, NirError::Unimplemented(_)));
}

#[test]
fn version_policy_defaults_to_permissive() {
    let tool = ReadOptions::default();
    assert_eq!(tool.version_policy, VersionPolicy::Permissive);
    let importer = ReadOptions::default()
        .with_version_policy(VersionPolicy::compatible_major(&[0, 1]))
        .with_max_bytes(Some(64));
    assert!(matches!(importer.version_policy, VersionPolicy::CompatibleMajor { .. }));
    assert_eq!(importer.max_bytes, Some(64));
}

#[test]
fn compression_levels_up_to_nine_are_kept() {
    for level in 0..=9u8 {
        assert_eq!(WriteOptions::default().with_compression(Some(level)).compression, Some(level));
    }
    assert_eq!(WriteOptions::default().with_compression(Some(10)).compression, Some(9));
}

#[test]
fn default_version_is_the_validated_upstream_release() {
    assert_eq!(DEFAULT_NIR_VERSION, "1.0.8");
}
