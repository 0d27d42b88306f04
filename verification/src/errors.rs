use vstd::prelude::*;

verus! {

/// Fatal build-time errors. Any of these aborts the build step before the
/// validator binary exists: without the archive and its metadata sidecar no
/// bindings can be generated safely.
#[derive(Clone, Copy, PartialEq, Eq, Structural, Debug)]
pub enum BuildError {
    /// The build-output directory that should hold the archives is absent.
    BuildArtifactsMissing,
    /// The target platform identifier is not in the supported set.
    UnsupportedTarget,
    /// The archive expected for a supported target is not on disk.
    ArtifactNotFound,
    /// The metadata sidecar next to the archive is absent.
    MetadataMissing,
    /// The metadata sidecar exists but its content is malformed.
    MetadataParseError,
}

impl BuildError {
    /// The description of each error, for the surrounding tooling to print.
    pub open spec fn message_spec(self) -> Seq<char> {
        match self {
            BuildError::BuildArtifactsMissing => "build output directory not found"@,
            BuildError::UnsupportedTarget => "unsupported target platform"@,
            BuildError::ArtifactNotFound => "prebuilt archive not found for target"@,
            BuildError::MetadataMissing => "grammar metadata sidecar not found"@,
            BuildError::MetadataParseError => "grammar metadata sidecar is malformed"@,
        }
    }

    /// A short human-readable description of the error.
    pub fn message(&self) -> (r: &'static str)
        ensures
            r@ == self.message_spec(),
    {
        match *self {
            BuildError::BuildArtifactsMissing => "build output directory not found",
            BuildError::UnsupportedTarget => "unsupported target platform",
            BuildError::ArtifactNotFound => "prebuilt archive not found for target",
            BuildError::MetadataMissing => "grammar metadata sidecar not found",
            BuildError::MetadataParseError => "grammar metadata sidecar is malformed",
        }
    }
}

} // verus!
