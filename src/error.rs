use vstd::prelude::*;

verus! {

/// The conditions that stop the build.
#[derive(Clone, Copy, PartialEq, Eq, Structural, Debug)]
pub enum BuildError {
    /// Generating into the source tree and exposing private internals were
    /// both requested.
    ConflictingInternalToggles,
    /// Neither cmake executable answered a version query.
    MissingCmake,
    /// Bindings had to be generated, but no generator is compiled in.
    BindingsUnavailable,
}

impl BuildError {
    /// A description of the failure for the build log.
    pub fn message(&self) -> (r: &'static str)
        ensures
            *self == BuildError::ConflictingInternalToggles ==> r@
                == "AWS_LC_RUST_PRIVATE_INTERNALS=1 is not supported when AWS_LC_RUST_INTERNAL_BINDGEN=1"@,
            *self == BuildError::MissingCmake ==> r@
                == "Required build dependency is missing. Halting build."@,
            *self == BuildError::BindingsUnavailable ==> r@
                == "aws-lc-sys build failed. Please enable the 'bindgen' feature on aws-lc-rs or aws-lc-sys"@,
    {
        match self {
            BuildError::ConflictingInternalToggles => "AWS_LC_RUST_PRIVATE_INTERNALS=1 is not supported when AWS_LC_RUST_INTERNAL_BINDGEN=1",
            BuildError::MissingCmake => "Required build dependency is missing. Halting build.",
            BuildError::BindingsUnavailable => "aws-lc-sys build failed. Please enable the 'bindgen' feature on aws-lc-rs or aws-lc-sys",
        }
    }
}

} // verus!
