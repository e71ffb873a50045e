//! Generation of wrapper code around a compiled Futhark library, driven by the
//! library's manifest.
use vstd::prelude::*;

pub mod compiler;
pub mod error;
pub mod manifest;
pub mod ocaml_backend;
pub mod ocaml_templates;
pub mod package;
pub mod registry;
pub mod rust_backend;
pub mod rust_templates;
pub mod text;

pub use crate::compiler::Compiler;
pub use crate::error::Error;
pub use crate::manifest::Manifest;
pub use crate::ocaml_backend::OCaml;
pub use crate::package::Package;
pub use crate::rust_backend::Rust;
use crate::text::{lower_spec, to_lower};

verus! {

/// Selects the compiled variant of a Futhark library.
#[derive(Debug, PartialEq, Eq, Clone, Copy, Structural)]
pub enum Backend {
    /// Sequential C.
    C,
    /// CUDA.
    CUDA,
    /// OpenCL.
    OpenCL,
    /// Multicore C.
    Multicore,
    /// ISPC.
    ISPC,
}

impl Backend {
    pub open spec fn name_spec(self) -> Seq<char> {
        match self {
            Backend::C => "c"@,
            Backend::CUDA => "cuda"@,
            Backend::OpenCL => "opencl"@,
            Backend::Multicore => "multicore"@,
            Backend::ISPC => "ispc"@,
        }
    }

    /// The backend named `s`, whatever the case of its ASCII letters.
    pub open spec fn from_name_spec(s: Seq<char>) -> Option<Backend> {
        let l = lower_spec(s);
        if l == "c"@ {
            Some(Backend::C)
        } else if l == "cuda"@ {
            Some(Backend::CUDA)
        } else if l == "opencl"@ {
            Some(Backend::OpenCL)
        } else if l == "multicore"@ {
            Some(Backend::Multicore)
        } else if l == "ispc"@ {
            Some(Backend::ISPC)
        } else {
            None
        }
    }

    pub open spec fn libs_spec(self) -> Seq<Seq<char>> {
        match self {
            Backend::CUDA => seq!["cuda"@, "cudart"@, "nvrtc"@, "m"@],
            Backend::OpenCL => seq!["OpenCL"@, "m"@],
            Backend::Multicore | Backend::ISPC => seq!["pthread"@, "m"@],
            Backend::C => seq![],
        }
    }

    /// The backend's name as given to the compiler.
    pub fn to_str(&self) -> (r: &'static str)
        ensures
            r@ == self.name_spec(),
    {
        match self {
            Backend::C => "c",
            Backend::CUDA => "cuda",
            Backend::OpenCL => "opencl",
            Backend::Multicore => "multicore",
            Backend::ISPC => "ispc",
        }
    }

    /// The backend of the given name, if there is one.
    pub fn from_name(name: &str) -> (r: Option<Backend>)
        ensures
            r == Self::from_name_spec(name@),
    {
        let l = to_lower(name);
        if l == String::from_str("c") {
            Some(Backend::C)
        } else if l == String::from_str("cuda") {
            Some(Backend::CUDA)
        } else if l == String::from_str("opencl") {
            Some(Backend::OpenCL)
        } else if l == String::from_str("multicore") {
            Some(Backend::Multicore)
        } else if l == String::from_str("ispc") {
            Some(Backend::ISPC)
        } else {
            None
        }
    }

    /// The native libraries to link for this backend.
    pub fn required_c_libs(&self) -> (r: Vec<&'static str>)
        ensures
            r@.len() == self.libs_spec().len(),
            forall|i: int| 0 <= i < r@.len() ==> r@[i]@ == self.libs_spec()[i],
    {
        let r: Vec<&'static str> = match self {
            Backend::CUDA => vec!["cuda", "cudart", "nvrtc", "m"],
            Backend::OpenCL => vec!["OpenCL", "m"],
            Backend::Multicore | Backend::ISPC => vec!["pthread", "m"],
            Backend::C => vec![],
        };
        r
    }
}

/// The language of the bindings.
#[derive(Debug, PartialEq, Eq, Clone, Copy, Structural)]
pub enum Language {
    Rust,
    OCaml,
}

impl Language {
    /// The language an output file's extension names: `rs` or `ml`.
    pub fn detect(extension: &str) -> (r: Option<Language>)
        ensures
            r == (if extension@ == "rs"@ {
                Some(Language::Rust)
            } else if extension@ == "ml"@ {
                Some(Language::OCaml)
            } else {
                None
            }),
    {
        let e = String::from_str(extension);
        if e == String::from_str("rs") {
            Some(Language::Rust)
        } else if e == String::from_str("ml") {
            Some(Language::OCaml)
        } else {
            None
        }
    }
}

} // verus!
