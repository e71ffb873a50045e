use vstd::prelude::*;

verus! {

/// What can go wrong while compiling a Futhark program or generating its
/// bindings.
#[derive(Debug, Clone)]
pub enum Error {
    /// The Futhark compiler exited with a failure.
    CompilationFailed,
    /// The manifest is not valid JSON, or lacks or misstates a field.
    ManifestParse(String),
    /// An output file could not be created or written.
    Io(String),
    /// The target language has no representation for the named type.
    UnsupportedType(String),
}

} // verus!
