//! The manifest of a compiled Futhark library: its entry points and the
//! array and opaque types they use.
use vstd::prelude::*;

use crate::error::Error;
use crate::text::{
    convert_struct_name, lemma_text_lt_irreflexive, lemma_text_lt_transitive, less_than,
    strip_prefix, struct_name_spec, text_lt,
};
use crate::Backend;

verus! {

/// Scalar types.
#[derive(Debug, PartialEq, Eq, Clone, Copy, Structural)]
pub enum ElemType {
    /// Signed 8 bit integer
    I8,
    /// Signed 16 bit integer
    I16,
    /// Signed 32 bit integer
    I32,
    /// Signed 64 bit integer
    I64,
    /// Unsigned 8 bit integer
    U8,
    /// Unsigned 16 bit integer
    U16,
    /// Unsigned 32 bit integer
    U32,
    /// Unsigned 64 bit integer
    U64,
    /// 16 bit float
    F16,
    /// 32 bit float
    F32,
    /// 64 bit float
    F64,
    /// Boolean
    Bool,
}

impl ElemType {
    pub open spec fn name_spec(self) -> Seq<char> {
        match self {
            ElemType::I8 => "i8"@,
            ElemType::I16 => "i16"@,
            ElemType::I32 => "i32"@,
            ElemType::I64 => "i64"@,
            ElemType::U8 => "u8"@,
            ElemType::U16 => "u16"@,
            ElemType::U32 => "u32"@,
            ElemType::U64 => "u64"@,
            ElemType::F16 => "f16"@,
            ElemType::F32 => "f32"@,
            ElemType::F64 => "f64"@,
            ElemType::Bool => "bool"@,
        }
    }

    /// Whether `s` is the name of a scalar type.
    pub open spec fn is_scalar_name(s: Seq<char>) -> bool {
        s == "i8"@ || s == "i16"@ || s == "i32"@ || s == "i64"@ || s == "u8"@ || s == "u16"@
            || s == "u32"@ || s == "u64"@ || s == "f16"@ || s == "f32"@ || s == "f64"@ || s
            == "bool"@
    }

    /// The manifest's name of the type.
    pub fn to_str(&self) -> (r: &'static str)
        ensures
            r@ == self.name_spec(),
    {
        match self {
            ElemType::I8 => "i8",
            ElemType::I16 => "i16",
            ElemType::I32 => "i32",
            ElemType::I64 => "i64",
            ElemType::U8 => "u8",
            ElemType::U16 => "u16",
            ElemType::U32 => "u32",
            ElemType::U64 => "u64",
            ElemType::F16 => "f16",
            ElemType::F32 => "f32",
            ElemType::F64 => "f64",
            ElemType::Bool => "bool",
        }
    }

    /// Whether `s` is the name of a scalar type.
    pub fn is_scalar(s: &String) -> (r: bool)
        ensures
            r == Self::is_scalar_name(s@),
    {
        *s == String::from_str("i8") || *s == String::from_str("i16") || *s == String::from_str(
            "i32",
        ) || *s == String::from_str("i64") || *s == String::from_str("u8") || *s
            == String::from_str("u16") || *s == String::from_str("u32") || *s == String::from_str(
            "u64",
        ) || *s == String::from_str("f16") || *s == String::from_str("f32") || *s
            == String::from_str("f64") || *s == String::from_str("bool")
    }
}

/// An output of an entry point.
#[derive(Debug, Clone)]
pub struct Output {
    /// The manifest type of the value.
    pub ty: String,
    pub unique: bool,
}

/// An input of an entry point.
#[derive(Debug, Clone)]
pub struct Input {
    pub name: String,
    /// The manifest type of the value.
    pub ty: String,
    pub unique: bool,
}

/// An exported entry point.
#[derive(Debug, Clone)]
pub struct Entry {
    /// The C function to call.
    pub cfun: String,
    pub outputs: Vec<Output>,
    pub inputs: Vec<Input>,
}

/// The C functions that handle an array type.
#[derive(Debug, Clone)]
pub struct ArrayOps {
    pub free: String,
    pub shape: String,
    pub values: String,
    pub new: String,
}

/// An array type: its C type, rank and element type.
#[derive(Debug, Clone)]
pub struct ArrayType {
    pub ctype: String,
    pub rank: i32,
    pub elemtype: ElemType,
    pub ops: ArrayOps,
}

/// The C functions that handle an opaque type.
#[derive(Debug, Clone)]
pub struct OpaqueOps {
    pub free: String,
    pub store: String,
    pub restore: String,
}

/// A field of a record.
#[derive(Debug, Clone)]
pub struct Field {
    pub name: String,
    /// The C function that reads the field.
    pub project: String,
    /// The manifest type of the field.
    pub ty: String,
}

/// The fields of an opaque type that is a record, and its constructor.
#[derive(Debug, Clone)]
pub struct Record {
    pub new: String,
    pub fields: Vec<Field>,
}

/// An opaque type.
#[derive(Debug, Clone)]
pub struct OpaqueType {
    pub ctype: String,
    pub ops: OpaqueOps,
    pub record: Option<Record>,
}

/// A type of the manifest.
#[derive(Debug, Clone)]
pub enum Type {
    Array(ArrayType),
    Opaque(OpaqueType),
}

/// The manifest of a compiled Futhark library. Its two maps are held as
/// lists of pairs in strictly increasing order of name.
#[derive(Debug, Clone)]
pub struct Manifest {
    pub backend: Backend,
    pub version: String,
    pub entry_points: Vec<(String, Entry)>,
    pub types: Vec<(String, Type)>,
}

/// The names of a list of pairs, in order.
pub open spec fn keys<V>(s: Seq<(String, V)>) -> Seq<Seq<char>> {
    s.map_values(|p: (String, V)| p.0@)
}

/// Each name comes strictly before the next.
pub open spec fn sorted_keys(k: Seq<Seq<char>>) -> bool {
    forall|i: int| 0 <= i < k.len() - 1 ==> #[trigger] text_lt(k[i], k[i + 1])
}

/// In a list sorted by name, an earlier name comes before a later one.
pub proof fn lemma_sorted_ordered<V>(s: Seq<(String, V)>, i: int, j: int)
    requires
        sorted_keys(keys(s)),
        0 <= i < j < s.len(),
    ensures
        text_lt(s[i].0@, s[j].0@),
    decreases j - i,
{
    assert(keys(s)[i] == s[i].0@);
    assert(keys(s)[j - 1] == s[j - 1].0@);
    assert(keys(s)[j] == s[j].0@);
    assert(text_lt(keys(s)[j - 1], keys(s)[(j - 1) + 1]));
    if i < j - 1 {
        lemma_sorted_ordered(s, i, j - 1);
        lemma_text_lt_transitive(s[i].0@, s[j - 1].0@, s[j].0@);
    }
}

/// Two lists sorted by name that hold the same pairs are the same list: the
/// order of a manifest's maps follows from their contents.
pub proof fn lemma_sorted_unique<V>(s: Seq<(String, V)>, t: Seq<(String, V)>)
    requires
        sorted_keys(keys(s)),
        sorted_keys(keys(t)),
        forall|p: (String, V)| s.contains(p) <==> t.contains(p),
    ensures
        s == t,
    decreases s.len() + t.len(),
{
    if s.len() == 0 || t.len() == 0 {
        if s.len() > 0 {
            assert(t.contains(s[0]));
        }
        if t.len() > 0 {
            assert(s.contains(t[0]));
        }
        assert(s =~= t);
    } else {
        assert(t.contains(s[0]));
        assert(s.contains(t[0]));
        let i = choose|i: int| 0 <= i < s.len() && s[i] == t[0];
        let j = choose|j: int| 0 <= j < t.len() && t[j] == s[0];
        if i > 0 {
            lemma_sorted_ordered(s, 0, i);
            if j > 0 {
                lemma_sorted_ordered(t, 0, j);
                lemma_text_lt_transitive(s[0].0@, t[0].0@, s[0].0@);
            }
            lemma_text_lt_irreflexive(s[0].0@);
        }
        assert(s[0] == t[0]);
        let s1 = s.drop_first();
        let t1 = t.drop_first();
        assert(sorted_keys(keys(s1))) by {
            assert forall|k: int| 0 <= k < keys(s1).len() - 1 implies #[trigger] text_lt(keys(s1)[k], keys(s1)[k + 1]) by {
                assert(keys(s1)[k] == keys(s)[k + 1]);
                assert(keys(s1)[k + 1] == keys(s)[k + 2]);
            }
        }
        assert(sorted_keys(keys(t1))) by {
            assert forall|k: int| 0 <= k < keys(t1).len() - 1 implies #[trigger] text_lt(keys(t1)[k], keys(t1)[k + 1]) by {
                assert(keys(t1)[k] == keys(t)[k + 1]);
                assert(keys(t1)[k + 1] == keys(t)[k + 2]);
            }
        }
        assert forall|p: (String, V)| s1.contains(p) <==> t1.contains(p) by {
            if s1.contains(p) {
                let a = choose|a: int| 0 <= a < s1.len() && s1[a] == p;
                lemma_sorted_ordered(s, 0, a + 1);
                assert(s.contains(p));
                assert(t.contains(p));
                let b = choose|b: int| 0 <= b < t.len() && t[b] == p;
                if b == 0 {
                    lemma_text_lt_irreflexive(s[0].0@);
                }
                assert(t1[b - 1] == p);
            }
            if t1.contains(p) {
                let a = choose|a: int| 0 <= a < t1.len() && t1[a] == p;
                lemma_sorted_ordered(t, 0, a + 1);
                assert(t.contains(p));
                assert(s.contains(p));
                let b = choose|b: int| 0 <= b < s.len() && s[b] == p;
                if b == 0 {
                    lemma_text_lt_irreflexive(t[0].0@);
                }
                assert(s1[b - 1] == p);
            }
        }
        lemma_sorted_unique(s1, t1);
        assert(s =~= t) by {
            assert forall|k: int| 0 <= k < s.len() implies s[k] == t[k] by {
                if k > 0 {
                    assert(s[k] == s1[k - 1]);
                    assert(t[k] == t1[k - 1]);
                }
            }
        }
    }
}

/// The name of the C struct behind an opaque type's C type.
pub open spec fn opaque_struct_ok(ctype: Seq<char>) -> bool {
    match struct_name_spec(ctype) {
        Some(n) => n.len() > 15 && n.subrange(0, 15) == "futhark_opaque_"@,
        None => false,
    }
}

impl ArrayType {
    pub open spec fn wf(&self) -> bool {
        struct_name_spec(self.ctype@) is Some && 1 <= self.rank
    }
}

impl OpaqueType {
    pub open spec fn wf(&self) -> bool {
        opaque_struct_ok(self.ctype@)
    }
}

impl Type {
    pub open spec fn wf(&self) -> bool {
        match self {
            Type::Array(a) => a.wf(),
            Type::Opaque(o) => o.wf(),
        }
    }
}

impl Manifest {
    /// `s` names a scalar or a type of the manifest.
    pub open spec fn names_type(&self, s: Seq<char>) -> bool {
        ElemType::is_scalar_name(s) || keys(self.types@).contains(s)
    }

    /// Every type that a field of the record names is known.
    pub open spec fn record_resolves(&self, rec: Record) -> bool {
        forall|j: int| 0 <= j < rec.fields@.len() ==> self.names_type(#[trigger] rec.fields@[j].ty@)
    }

    /// Every type that a record field names is known.
    pub open spec fn fields_resolve(&self, t: Type) -> bool {
        match t {
            Type::Opaque(o) => match o.record {
                Some(rec) => self.record_resolves(rec),
                None => true,
            },
            Type::Array(_) => true,
        }
    }

    /// Every type that an entry point names is known.
    pub open spec fn entry_resolves(&self, e: Entry) -> bool {
        &&& forall|j: int| 0 <= j < e.inputs@.len() ==> self.names_type(#[trigger] e.inputs@[j].ty@)
        &&& forall|j: int|
            0 <= j < e.outputs@.len() ==> self.names_type(#[trigger] e.outputs@[j].ty@)
    }

    /// The manifest's invariant: both maps in order of name, each type's C
    /// type of the form `struct NAME *` (with `futhark_opaque_` leading the
    /// name of an opaque type), each rank positive, and each type that a
    /// field or an entry point names a scalar or a type of the manifest.
    pub open spec fn wf(&self) -> bool {
        &&& sorted_keys(keys(self.types@))
        &&& sorted_keys(keys(self.entry_points@))
        &&& forall|i: int| 0 <= i < self.types@.len() ==> (#[trigger] self.types@[i]).1.wf()
        &&& forall|i: int|
            0 <= i < self.types@.len() ==> self.fields_resolve(#[trigger] self.types@[i].1)
        &&& forall|i: int|
            0 <= i < self.entry_points@.len() ==> self.entry_resolves(
                #[trigger] self.entry_points@[i].1,
            )
    }

    /// Whether `s` names a scalar or a type of the manifest.
    fn knows_type(&self, s: &String) -> (r: bool)
        ensures
            r == self.names_type(s@),
    {
        if ElemType::is_scalar(s) {
            return true;
        }
        let mut i: usize = 0;
        while i < self.types.len()
            invariant
                i <= self.types@.len(),
                forall|j: int| 0 <= j < i ==> keys(self.types@)[j] != s@,
            decreases self.types@.len() - i,
        {
            if self.types[i].0 == *s {
                assert(keys(self.types@)[i as int] == s@);
                return true;
            }
            i += 1;
        }
        false
    }

    /// Whether every field of the record names a known type.
    fn record_known(&self, rc: &Record) -> (r: bool)
        ensures
            r == self.record_resolves(*rc),
    {
        let mut j: usize = 0;
        while j < rc.fields.len()
            invariant
                j <= rc.fields@.len(),
                forall|k: int| 0 <= k < j ==> self.names_type(#[trigger] rc.fields@[k].ty@),
            decreases rc.fields@.len() - j,
        {
            if !self.knows_type(&rc.fields[j].ty) {
                assert(!self.names_type(rc.fields@[j as int].ty@));
                return false;
            }
            j += 1;
        }
        true
    }

    /// Whether every input and output of the entry point names a known type.
    fn entry_known(&self, e: &Entry) -> (r: bool)
        ensures
            r == self.entry_resolves(*e),
    {
        let mut j: usize = 0;
        while j < e.inputs.len()
            invariant
                j <= e.inputs@.len(),
                forall|k: int| 0 <= k < j ==> self.names_type(#[trigger] e.inputs@[k].ty@),
            decreases e.inputs@.len() - j,
        {
            if !self.knows_type(&e.inputs[j].ty) {
                return false;
            }
            j += 1;
        }
        let mut j: usize = 0;
        while j < e.outputs.len()
            invariant
                j <= e.outputs@.len(),
                forall|k: int| 0 <= k < j ==> self.names_type(#[trigger] e.outputs@[k].ty@),
            decreases e.outputs@.len() - j,
        {
            if !self.knows_type(&e.outputs[j].ty) {
                return false;
            }
            j += 1;
        }
        true
    }

    /// Checks the manifest's invariant; the error names what breaks it.
    pub fn validate(&self) -> (r: Result<(), Error>)
        ensures
            r is Ok <==> self.wf(),
            r matches Err(e) ==> e is ManifestParse,
    {
        let nt = self.types.len();
        let mut i: usize = 0;
        while i < nt
            invariant
                nt == self.types@.len(),
                i <= nt,
                forall|j: int| 0 <= j < i ==> (#[trigger] self.types@[j]).1.wf(),
                forall|j: int| 0 <= j < i ==> self.fields_resolve(#[trigger] self.types@[j].1),
                forall|j: int| 0 <= j < i && j + 1 < nt ==> #[trigger] text_lt(keys(self.types@)[j], keys(self.types@)[j + 1]),
            decreases nt - i,
        {
            if i + 1 < nt && !less_than(self.types[i].0.as_str(), self.types[i + 1].0.as_str()) {
                assert(!sorted_keys(keys(self.types@))) by {
                    assert(keys(self.types@)[i as int] == self.types@[i as int].0@);
                    assert(keys(self.types@)[i + 1] == self.types@[i + 1].0@);
                }
                return Err(Error::ManifestParse(String::from_str("types are not in strictly increasing order of name")));
            }
            match &self.types[i].1 {
                Type::Array(a) => {
                    if convert_struct_name(a.ctype.as_str()).is_none() {
                        return Err(Error::ManifestParse(String::from_str("array type without a C struct type")));
                    }
                    if a.rank < 1 {
                        return Err(Error::ManifestParse(String::from_str("array type of rank below one")));
                    }
                },
                Type::Opaque(o) => {
                    let ok = match convert_struct_name(o.ctype.as_str()) {
                        Some(n) => {
                            proof {
                                reveal_strlit("futhark_opaque_");
                            }
                            match strip_prefix(n, "futhark_opaque_") {
                                Some(rest) => rest.unicode_len() > 0,
                                None => false,
                            }
                        },
                        None => false,
                    };
                    if !ok {
                        return Err(Error::ManifestParse(String::from_str("opaque type without a futhark_opaque_ C struct type")));
                    }
                    match &o.record {
                        Some(rc) => {
                            if !self.record_known(rc) {
                                return Err(Error::ManifestParse(String::from_str("record field of an unknown type")));
                            }
                        },
                        None => {},
                    }
                },
            }
            i += 1;
        }
        let ne = self.entry_points.len();
        let mut i: usize = 0;
        while i < ne
            invariant
                ne == self.entry_points@.len(),
                i <= ne,
                forall|j: int| 0 <= j < i ==> self.entry_resolves(#[trigger] self.entry_points@[j].1),
                forall|j: int| 0 <= j < i && j + 1 < ne ==> #[trigger] text_lt(keys(self.entry_points@)[j], keys(self.entry_points@)[j + 1]),
            decreases ne - i,
        {
            if i + 1 < ne && !less_than(self.entry_points[i].0.as_str(), self.entry_points[i + 1].0.as_str()) {
                assert(!sorted_keys(keys(self.entry_points@))) by {
                    assert(keys(self.entry_points@)[i as int] == self.entry_points@[i as int].0@);
                    assert(keys(self.entry_points@)[i + 1] == self.entry_points@[i + 1].0@);
                }
                return Err(Error::ManifestParse(String::from_str("entry points are not in strictly increasing order of name")));
            }
            if !self.entry_known(&self.entry_points[i].1) {
                return Err(Error::ManifestParse(String::from_str("entry point of an unknown type")));
            }
            i += 1;
        }
        Ok(())
    }
}

} // verus!
