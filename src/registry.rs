//! The names a generation run gives to types: from a manifest type to its C
//! type, and from a C type to the type of its wrapper.
use vstd::prelude::*;

use crate::error::Error;

verus! {

/// What a name stands for: a scalar, or a handle to an array or opaque value.
#[derive(Debug, PartialEq, Eq, Clone, Copy, Structural)]
pub enum TypeKind {
    Scalar,
    Array,
    Opaque,
}

/// The registry's contents: each registration in the order it was made.
pub struct RegistryView {
    pub foreign: Seq<(Seq<char>, Seq<char>, TypeKind)>,
    pub wrapper: Seq<(Seq<char>, Seq<char>)>,
}

/// The latest registration of `k` as a manifest name.
pub open spec fn foreign_lookup(s: Seq<(Seq<char>, Seq<char>, TypeKind)>, k: Seq<char>) -> Option<(Seq<char>, TypeKind)>
    decreases s.len(),
{
    if s.len() == 0 {
        None
    } else if s.last().0 == k {
        Some((s.last().1, s.last().2))
    } else {
        foreign_lookup(s.drop_last(), k)
    }
}

/// The latest registration of `k` as a C type.
pub open spec fn wrapper_lookup(s: Seq<(Seq<char>, Seq<char>)>, k: Seq<char>) -> Option<Seq<char>>
    decreases s.len(),
{
    if s.len() == 0 {
        None
    } else if s.last().0 == k {
        Some(s.last().1)
    } else {
        wrapper_lookup(s.drop_last(), k)
    }
}

impl RegistryView {
    /// The C type and kind of manifest type `k`: what was registered, or `k`
    /// itself as a scalar; `None` where an empty name was registered, which
    /// marks a type the target cannot represent.
    pub open spec fn resolve(self, k: Seq<char>) -> Option<(Seq<char>, TypeKind)> {
        match foreign_lookup(self.foreign, k) {
            Some(p) => if p.0.len() == 0 { None } else { Some(p) },
            None => Some((k, TypeKind::Scalar)),
        }
    }

    /// The wrapper type of C type `k`, in the same way.
    pub open spec fn resolve_wrapper(self, k: Seq<char>) -> Option<Seq<char>> {
        match wrapper_lookup(self.wrapper, k) {
            Some(w) => if w.len() == 0 { None } else { Some(w) },
            None => Some(k),
        }
    }

    pub open spec fn register(self, name: Seq<char>, foreign: Seq<char>, kind: TypeKind) -> RegistryView {
        RegistryView { foreign: self.foreign.push((name, foreign, kind)), wrapper: self.wrapper }
    }

    pub open spec fn register_wrapper(self, foreign: Seq<char>, wrapper: Seq<char>) -> RegistryView {
        RegistryView { foreign: self.foreign, wrapper: self.wrapper.push((foreign, wrapper)) }
    }
}

/// The two maps of a generation run: manifest name to C type (with the
/// kind of the type), and C type to wrapper type.
pub struct TypeRegistry {
    foreign: Vec<(String, String, TypeKind)>,
    wrapper: Vec<(String, String)>,
}

impl View for TypeRegistry {
    type V = RegistryView;

    closed spec fn view(&self) -> RegistryView {
        RegistryView {
            foreign: self.foreign@.map_values(|e: (String, String, TypeKind)| (e.0@, e.1@, e.2)),
            wrapper: self.wrapper@.map_values(|e: (String, String)| (e.0@, e.1@)),
        }
    }
}

impl TypeRegistry {
    /// A registry with nothing registered.
    pub fn new() -> (r: TypeRegistry)
        ensures
            r@.foreign.len() == 0,
            r@.wrapper.len() == 0,
    {
        TypeRegistry { foreign: Vec::new(), wrapper: Vec::new() }
    }

    /// Maps manifest type `name` to C type `foreign` of the given kind.
    pub fn register(&mut self, name: String, foreign: String, kind: TypeKind)
        ensures
            final(self)@ == old(self)@.register(name@, foreign@, kind),
    {
        self.foreign.push((name, foreign, kind));
        assert(self@.foreign =~= old(self)@.register(name@, foreign@, kind).foreign);
        assert(self@.wrapper =~= old(self)@.wrapper);
    }

    /// Maps C type `foreign` to wrapper type `wrapper`.
    pub fn register_wrapper(&mut self, foreign: String, wrapper: String)
        ensures
            final(self)@ == old(self)@.register_wrapper(foreign@, wrapper@),
    {
        self.wrapper.push((foreign, wrapper));
        assert(self@.wrapper =~= old(self)@.register_wrapper(foreign@, wrapper@).wrapper);
        assert(self@.foreign =~= old(self)@.foreign);
    }

    /// The C type and kind of manifest type `name`, or `UnsupportedType`
    /// where the target has no representation for it.
    pub fn resolve(&self, name: &String) -> (r: Result<(String, TypeKind), Error>)
        ensures
            r is Ok <==> self@.resolve(name@) is Some,
            r matches Ok(p) ==> self@.resolve(name@) == Some((p.0@, p.1)),
            r matches Err(e) ==> e is UnsupportedType,
    {
        let mut i = self.foreign.len();
        assert(self@.foreign.take(i as int) =~= self@.foreign);
        while i > 0
            invariant
                i <= self.foreign@.len(),
                foreign_lookup(self@.foreign, name@) == foreign_lookup(self@.foreign.take(i as int), name@),
            decreases i,
        {
            let ghost s = self@.foreign.take(i as int);
            assert(s.drop_last() =~= self@.foreign.take(i - 1));
            if self.foreign[i - 1].0 == *name {
                if self.foreign[i - 1].1.as_str().unicode_len() == 0 {
                    return Err(Error::UnsupportedType(name.clone()));
                }
                return Ok((self.foreign[i - 1].1.clone(), self.foreign[i - 1].2));
            }
            i -= 1;
        }
        Ok((name.clone(), TypeKind::Scalar))
    }

    /// The wrapper type of C type `name`, or `UnsupportedType` where the
    /// target has no representation for it.
    pub fn resolve_wrapper(&self, name: &String) -> (r: Result<String, Error>)
        ensures
            r is Ok <==> self@.resolve_wrapper(name@) is Some,
            r matches Ok(w) ==> self@.resolve_wrapper(name@) == Some(w@),
            r matches Err(e) ==> e is UnsupportedType,
    {
        let mut i = self.wrapper.len();
        assert(self@.wrapper.take(i as int) =~= self@.wrapper);
        while i > 0
            invariant
                i <= self.wrapper@.len(),
                wrapper_lookup(self@.wrapper, name@) == wrapper_lookup(self@.wrapper.take(i as int), name@),
            decreases i,
        {
            let ghost s = self@.wrapper.take(i as int);
            assert(s.drop_last() =~= self@.wrapper.take(i - 1));
            if self.wrapper[i - 1].0 == *name {
                if self.wrapper[i - 1].1.as_str().unicode_len() == 0 {
                    return Err(Error::UnsupportedType(name.clone()));
                }
                return Ok(self.wrapper[i - 1].1.clone());
            }
            i -= 1;
        }
        Ok(name.clone())
    }
}

} // verus!
