use vstd::prelude::*;
use vstd::string::StringExecFns;
use crate::errors::BuildError;
use crate::strutil::str_eq;

verus! {

/// The static lookup table from supported target platform triples to the
/// filename of the prebuilt archive shipped for that platform. The mapping is
/// total over the supported set and undefined (`None`) otherwise.
pub open spec fn archive_filename_spec(target: Seq<char>) -> Option<Seq<char>> {
    if target == "aarch64-apple-darwin"@ {
        Some("libtree-sitter-parsers-all-macos-aarch64.a"@)
    } else if target == "x86_64-apple-darwin"@ {
        Some("libtree-sitter-parsers-all-macos-x86_64.a"@)
    } else if target == "aarch64-unknown-linux-gnu"@ {
        Some("libtree-sitter-parsers-all-linux-aarch64-glibc.a"@)
    } else if target == "x86_64-unknown-linux-gnu"@ {
        Some("libtree-sitter-parsers-all-linux-x86_64-glibc.a"@)
    } else if target == "aarch64-unknown-linux-musl"@ {
        Some("libtree-sitter-parsers-all-linux-aarch64-musl.a"@)
    } else if target == "x86_64-unknown-linux-musl"@ {
        Some("libtree-sitter-parsers-all-linux-x86_64-musl.a"@)
    } else if target == "aarch64-pc-windows-gnu"@ {
        Some("libtree-sitter-parsers-all-windows-aarch64.a"@)
    } else if target == "x86_64-pc-windows-gnu"@ {
        Some("libtree-sitter-parsers-all-windows-x86_64.a"@)
    } else {
        None
    }
}

/// A target is supported exactly when the archive table has an entry for it.
pub open spec fn target_supported(target: Seq<char>) -> bool {
    archive_filename_spec(target) is Some
}

/// The archive filename expected for a target platform, or `None` for an
/// unsupported target.
pub fn archive_filename_for_target(target: &str) -> (r: Option<String>)
    ensures
        r is Some <==> target_supported(target@),
        r matches Some(f) ==> archive_filename_spec(target@) == Some(f@),
{
    if str_eq(target, "aarch64-apple-darwin") {
        Some(String::from_str("libtree-sitter-parsers-all-macos-aarch64.a"))
    } else if str_eq(target, "x86_64-apple-darwin") {
        Some(String::from_str("libtree-sitter-parsers-all-macos-x86_64.a"))
    } else if str_eq(target, "aarch64-unknown-linux-gnu") {
        Some(String::from_str("libtree-sitter-parsers-all-linux-aarch64-glibc.a"))
    } else if str_eq(target, "x86_64-unknown-linux-gnu") {
        Some(String::from_str("libtree-sitter-parsers-all-linux-x86_64-glibc.a"))
    } else if str_eq(target, "aarch64-unknown-linux-musl") {
        Some(String::from_str("libtree-sitter-parsers-all-linux-aarch64-musl.a"))
    } else if str_eq(target, "x86_64-unknown-linux-musl") {
        Some(String::from_str("libtree-sitter-parsers-all-linux-x86_64-musl.a"))
    } else if str_eq(target, "aarch64-pc-windows-gnu") {
        Some(String::from_str("libtree-sitter-parsers-all-windows-aarch64.a"))
    } else if str_eq(target, "x86_64-pc-windows-gnu") {
        Some(String::from_str("libtree-sitter-parsers-all-windows-x86_64.a"))
    } else {
        None
    }
}

/// What locating the archive decides, given the target and what is on disk:
/// a missing build-output directory is reported first, then an unsupported
/// target, then an archive absent at its computed path.
pub open spec fn locate_spec(
    target: Seq<char>,
    dist_dir_exists: bool,
    archive_file_exists: bool,
) -> Result<Seq<char>, BuildError> {
    if !dist_dir_exists {
        Err(BuildError::BuildArtifactsMissing)
    } else if archive_filename_spec(target) is None {
        Err(BuildError::UnsupportedTarget)
    } else if !archive_file_exists {
        Err(BuildError::ArtifactNotFound)
    } else {
        Ok(archive_filename_spec(target)->Some_0)
    }
}

/// Decides the outcome of artifact location. The caller reads the filesystem
/// and reports whether the build-output directory exists and whether the
/// archive file named by [`archive_filename_for_target`] exists; this function
/// makes the (deterministic, side-effect-free) decision.
pub fn locate_artifact(
    target: &str,
    dist_dir_exists: bool,
    archive_file_exists: bool,
) -> (r: Result<String, BuildError>)
    ensures
        r matches Ok(f) ==> locate_spec(target@, dist_dir_exists, archive_file_exists)
            == Ok::<Seq<char>, BuildError>(f@),
        r matches Err(e) ==> locate_spec(target@, dist_dir_exists, archive_file_exists)
            == Err::<Seq<char>, BuildError>(e),
{
    if !dist_dir_exists {
        Err(BuildError::BuildArtifactsMissing)
    } else {
        match archive_filename_for_target(target) {
            None => Err(BuildError::UnsupportedTarget),
            Some(f) => {
                if !archive_file_exists {
                    Err(BuildError::ArtifactNotFound)
                } else {
                    Ok(f)
                }
            },
        }
    }
}

/// The target-to-archive mapping is a pure function: equal target identifiers
/// always give equal filenames, and each supported target has exactly one.
pub proof fn lemma_archive_mapping_is_function(t1: Seq<char>, t2: Seq<char>)
    requires
        t1 == t2,
    ensures
        archive_filename_spec(t1) == archive_filename_spec(t2),
        target_supported(t1) ==> archive_filename_spec(t1) is Some,
{
}

/// An unsupported target never yields an archive path: the filename table has
/// no entry for it, and location fails on every state of the filesystem --
/// with `UnsupportedTarget` whenever the build-output directory is present.
pub proof fn lemma_unsupported_target_fails(
    target: Seq<char>,
    dist_dir_exists: bool,
    archive_file_exists: bool,
)
    requires
        !target_supported(target),
    ensures
        archive_filename_spec(target) is None,
        locate_spec(target, dist_dir_exists, archive_file_exists) is Err,
        dist_dir_exists ==> locate_spec(target, dist_dir_exists, archive_file_exists)
            == Err::<Seq<char>, BuildError>(BuildError::UnsupportedTarget),
{
}

} // verus!
