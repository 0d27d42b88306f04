use grammar_validation::errors::BuildError;
use grammar_validation::metadata::metadata_filename_for;
use grammar_validation::platform::{archive_filename_for_target, locate_artifact};

#[test]
fn archive_filename_supported_targets() {
    let table = [
        ("aarch64-apple-darwin", "libtree-sitter-parsers-all-macos-aarch64.a"),
        ("x86_64-apple-darwin", "libtree-sitter-parsers-all-macos-x86_64.a"),
        ("aarch64-unknown-linux-gnu", "libtree-sitter-parsers-all-linux-aarch64-glibc.a"),
        ("x86_64-unknown-linux-gnu", "libtree-sitter-parsers-all-linux-x86_64-glibc.a"),
        ("aarch64-unknown-linux-musl", "libtree-sitter-parsers-all-linux-aarch64-musl.a"),
        ("x86_64-unknown-linux-musl", "libtree-sitter-parsers-all-linux-x86_64-musl.a"),
        ("aarch64-pc-windows-gnu", "libtree-sitter-parsers-all-windows-aarch64.a"),
        ("x86_64-pc-windows-gnu", "libtree-sitter-parsers-all-windows-x86_64.a"),
    ];
    for (target, expected) in table.iter() {
        assert_eq!(archive_filename_for_target(target).as_deref(), Some(*expected));
    }
}

#[test]
fn archive_filename_is_pure() {
    let a = archive_filename_for_target("x86_64-unknown-linux-gnu");
    let b = archive_filename_for_target("x86_64-unknown-linux-gnu");
    assert_eq!(a, b);
}

#[test]
fn archive_filename_unsupported_target() {
    assert_eq!(archive_filename_for_target("wasm32-unknown-unknown"), None);
    assert_eq!(archive_filename_for_target(""), None);
    assert_eq!(archive_filename_for_target("x86_64-pc-windows-msvc"), None);
}

#[test]
fn locate_reports_missing_dist_first() {
    let r = locate_artifact("x86_64-unknown-linux-gnu", false, false);
    assert_eq!(r, Err(BuildError::BuildArtifactsMissing));
    let r = locate_artifact("not-a-target", false, true);
    assert_eq!(r, Err(BuildError::BuildArtifactsMissing));
}

#[test]
fn locate_unsupported_target_always_fails() {
    let r = locate_artifact("not-a-target", true, true);
    assert_eq!(r, Err(BuildError::UnsupportedTarget));
    let r = locate_artifact("not-a-target", true, false);
    assert_eq!(r, Err(BuildError::UnsupportedTarget));
}

#[test]
fn locate_missing_archive() {
    let r = locate_artifact("aarch64-apple-darwin", true, false);
    assert_eq!(r, Err(BuildError::ArtifactNotFound));
}

#[test]
fn locate_success() {
    let r = locate_artifact("aarch64-apple-darwin", true, true);
    assert_eq!(r, Ok("libtree-sitter-parsers-all-macos-aarch64.a".to_string()));
}

#[test]
fn metadata_filename_transform() {
    let r = metadata_filename_for("libtree-sitter-parsers-all-macos-aarch64.a");
    assert_eq!(r, Some("grammars-macos-aarch64.json".to_string()));
    let r = metadata_filename_for("libtree-sitter-parsers-all-linux-x86_64-glibc.a");
    assert_eq!(r, Some("grammars-linux-x86_64-glibc.json".to_string()));
}

#[test]
fn metadata_filename_rejects_foreign_names() {
    assert_eq!(metadata_filename_for("libsomething-else.a"), None);
    assert_eq!(metadata_filename_for("libtree-sitter-parsers-all-macos-aarch64.so"), None);
    assert_eq!(metadata_filename_for(""), None);
}

#[test]
fn error_messages_distinct() {
    let all = [
        BuildError::BuildArtifactsMissing,
        BuildError::UnsupportedTarget,
        BuildError::ArtifactNotFound,
        BuildError::MetadataMissing,
        BuildError::MetadataParseError,
    ];
    for (i, a) in all.iter().enumerate() {
        assert!(!a.message().is_empty());
        for (j, b) in all.iter().enumerate() {
            if i != j {
                assert_ne!(a.message(), b.message());
            }
        }
    }
}
