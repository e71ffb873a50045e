use vstd::prelude::*;

use crate::manifest::Manifest;

verus! {

/// A compiled Futhark program: its manifest and the files the compiler wrote.
#[derive(Debug, Clone)]
pub struct Package {
    /// The manifest, read from the manifest file.
    pub manifest: Manifest,
    /// The C file.
    pub c_file: String,
    /// The C header file.
    pub h_file: String,
    /// The Futhark source file.
    pub src: String,
}

} // verus!
