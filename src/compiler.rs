//! The settings of a run of the Futhark compiler, and the arguments it is
//! given.
use vstd::prelude::*;

use crate::text::{lemma_views_push, views};
use crate::Backend;

verus! {

/// The settings of a compiler run, as plain values.
pub struct CompilerView {
    pub exe: Seq<char>,
    pub backend: Backend,
    pub src: Seq<char>,
    pub extra_args: Seq<Seq<char>>,
    pub output_dir: Option<Seq<char>>,
}

/// Settings for compiling a Futhark program into a C library with its
/// manifest.
#[derive(Debug, Clone)]
pub struct Compiler {
    exe: String,
    backend: Backend,
    src: String,
    extra_args: Vec<String>,
    output_dir: Option<String>,
}

impl View for Compiler {
    type V = CompilerView;

    closed spec fn view(&self) -> CompilerView {
        CompilerView {
            exe: self.exe@,
            backend: self.backend,
            src: self.src@,
            extra_args: views(self.extra_args@),
            output_dir: match self.output_dir {
                Some(d) => Some(d@),
                None => None,
            },
        }
    }
}

/// The compiler's arguments for writing its output to `output`: the
/// backend, the extra arguments, `-o output`, `--lib` and the source file.
pub open spec fn compile_args(c: CompilerView, output: Seq<char>) -> Seq<Seq<char>> {
    seq![c.backend.name_spec()] + c.extra_args + seq!["-o"@, output, "--lib"@, c.src]
}

impl Compiler {
    /// Settings for compiling `src` with `backend`: the executable is
    /// `futhark`, no extra arguments, output beside the source file.
    pub fn new(backend: Backend, src: &str) -> (r: Compiler)
        ensures
            r@ == (CompilerView {
                exe: "futhark"@,
                backend,
                src: src@,
                extra_args: Seq::empty(),
                output_dir: None,
            }),
    {
        let r = Compiler {
            exe: String::from_str("futhark"),
            backend,
            src: String::from_str(src),
            extra_args: Vec::new(),
            output_dir: None,
        };
        assert(r@.extra_args =~= Seq::<Seq<char>>::empty());
        r
    }

    /// The same settings with another executable name or path.
    pub fn with_executable_name(self, name: &str) -> (r: Compiler)
        ensures
            r@ == (CompilerView { exe: name@, ..self@ }),
    {
        Compiler { exe: String::from_str(name), ..self }
    }

    /// The same settings with these extra arguments for the compiler.
    pub fn with_extra_args(self, args: Vec<String>) -> (r: Compiler)
        ensures
            r@ == (CompilerView { extra_args: views(args@), ..self@ }),
    {
        Compiler { extra_args: args, ..self }
    }

    /// The same settings with the C files and manifest written to `dir`.
    pub fn with_output_dir(self, dir: &str) -> (r: Compiler)
        ensures
            r@ == (CompilerView { output_dir: Some(dir@), ..self@ }),
    {
        Compiler { output_dir: Some(String::from_str(dir)), ..self }
    }

    /// The executable to run.
    pub fn exe(&self) -> (r: &str)
        ensures
            r@ == self@.exe,
    {
        self.exe.as_str()
    }

    /// The backend to compile for.
    pub fn backend(&self) -> (r: Backend)
        ensures
            r == self@.backend,
    {
        self.backend
    }

    /// The Futhark source file.
    pub fn src(&self) -> (r: &str)
        ensures
            r@ == self@.src,
    {
        self.src.as_str()
    }

    /// The directory for the output, where one was set.
    pub fn output_dir(&self) -> (r: Option<&str>)
        ensures
            r is Some <==> self@.output_dir is Some,
            r is Some ==> r->0@ == self@.output_dir->0,
    {
        match &self.output_dir {
            Some(d) => Some(d.as_str()),
            None => None,
        }
    }

    /// The arguments of the compiler for writing its output to `output`.
    pub fn args(&self, output: &str) -> (r: Vec<String>)
        ensures
            views(r@) == compile_args(self@, output@),
    {
        let mut r: Vec<String> = Vec::new();
        let b = String::from_str(self.backend.to_str());
        proof {
            lemma_views_push(r@, b);
        }
        r.push(b);
        let mut i: usize = 0;
        while i < self.extra_args.len()
            invariant
                i <= self.extra_args@.len(),
                views(r@) =~= seq![self.backend.name_spec()] + views(self.extra_args@).take(i as int),
            decreases self.extra_args@.len() - i,
        {
            let a = self.extra_args[i].clone();
            proof {
                lemma_views_push(r@, a);
            }
            r.push(a);
            i += 1;
        }
        assert(views(self.extra_args@).take(i as int) =~= views(self.extra_args@));
        let tail = vec![String::from_str("-o"), String::from_str(output), String::from_str("--lib"), self.src.clone()];
        let ghost before = r@;
        let mut k: usize = 0;
        while k < tail.len()
            invariant
                k <= tail@.len(),
                views(r@) =~= views(before) + views(tail@).take(k as int),
            decreases tail@.len() - k,
        {
            let a = tail[k].clone();
            proof {
                lemma_views_push(r@, a);
            }
            r.push(a);
            k += 1;
        }
        assert(views(tail@).take(k as int) =~= views(tail@));
        assert(views(r@) =~= compile_args(self@, output@));
        r
    }
}

} // verus!
