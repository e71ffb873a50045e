//! OCaml bindings through ctypes: a module of foreign declarations for every
//! C function a manifest names, a context module, a module for each array
//! and opaque type and a function for each entry point, with the matching
//! interface.
use vstd::prelude::*;

use crate::error::Error;
use crate::manifest::{
    keys, lemma_sorted_unique, ArrayType, ElemType, Entry, Field, Manifest, OpaqueType, Type,
};
use crate::registry::{foreign_lookup, RegistryView, TypeKind, TypeRegistry};
use crate::text::{
    cat2, convert_struct_name, decimal, decimal_spec, first_upper_spec, first_uppercase, has_char,
    is_numeric, join, join_spec, lemma_views_push, numeric, strip_prefix, struct_name_spec,
    cat3, cat4, views,
};
use crate::ocaml_templates::{
    array_ml_text, array_mli_text, bindings_text, context_ml_text, context_mli_text, emit_array_ml,
    emit_array_mli, emit_bindings, emit_context_ml, emit_context_mli, emit_entry_ml, emit_entry_mli,
    emit_opaque_ml, emit_opaque_mli, emit_project_ml, emit_project_mli, emit_record_ml,
    emit_record_mli, entry_ml_text, entry_mli_text, opaque_ml_text, opaque_mli_text,
    project_ml_text, project_mli_text, record_ml_text, record_mli_text,
};
use crate::Backend;

verus! {

/// The two tables of an OCaml run, as plain values.
pub struct OCamlView {
    /// Manifest or scalar type to OCaml type.
    pub types: RegistryView,
    /// Manifest or scalar type to ctypes type.
    pub ctypes: RegistryView,
    /// Scalar type to the OCaml type of a Bigarray's elements.
    pub ba_elem: RegistryView,
    /// Scalar type to the Bigarray element kind.
    pub ba_elt: RegistryView,
}

/// `let NAME = fn "NAME" (ARGS @-> returning (RET))`.
pub open spec fn foreign_spec(name: Seq<char>, ret: Seq<char>, args: Seq<Seq<char>>) -> Seq<char> {
    "let "@ + name + " = fn \""@ + name + "\" ("@ + join_spec(args, " @-> "@) + " @-> returning ("@ + ret + "))"@
}

/// A declaration line of the bindings module.
pub open spec fn line(s: Seq<char>) -> Seq<char> {
    "  "@ + s
}

/// The ctypes type of `t`, where the target has one.
pub open spec fn ctype_of(ctypes: RegistryView, t: Seq<char>) -> Option<Seq<char>> {
    match ctypes.resolve(t) {
        Some(p) => Some(p.0),
        None => None,
    }
}

pub open spec fn int64_args(rank: nat) -> Seq<Seq<char>> {
    Seq::new(rank, |i: int| "int64_t"@)
}

pub open spec fn ocaml_array_name(a: ArrayType) -> Seq<char> {
    "array_"@ + a.elemtype.name_spec() + "_"@ + decimal_spec(a.rank as nat) + "d"@
}

/// The declarations of an array type's C type and functions.
pub open spec fn array_lines(ctypes: RegistryView, a: ArrayType) -> Option<Seq<Seq<char>>> {
    match ctype_of(ctypes, a.elemtype.name_spec()) {
        None => None,
        Some(ce) => {
            let n = ocaml_array_name(a);
            let elem_ptr = "ptr "@ + ce;
            Some(seq![
                "  let "@ + n + " = typedef (ptr void) \""@ + n + "\""@,
                line(foreign_spec(a.ops.new@, n, seq!["context"@, elem_ptr] + int64_args(a.rank as nat))),
                line(foreign_spec(a.ops.values@, "int"@, seq!["context"@, n, elem_ptr])),
                line(foreign_spec(a.ops.free@, "int"@, seq!["context"@, n])),
                line(foreign_spec(a.ops.shape@, "ptr int64_t"@, seq!["context"@, n])),
            ])
        },
    }
}

/// The OCaml name of an opaque type: its C struct's name less
/// `futhark_opaque_`, with `type_` in front where that starts with a numeral
/// or the manifest's name holds a space.
pub open spec fn ocaml_opaque_name(name: Seq<char>, o: OpaqueType) -> Seq<char> {
    let ft = struct_name_spec(o.ctype@)->0;
    let base = ft.subrange(15, ft.len() as int);
    if numeric(base[0]) || name.contains(' ') {
        "type_"@ + base
    } else {
        base
    }
}

/// The ctypes type of each field, where all have one.
pub open spec fn field_ctypes(ctypes: RegistryView, o: OpaqueType) -> Option<Seq<Seq<char>>> {
    match o.record {
        None => Some(Seq::empty()),
        Some(rec) => if forall|j: int| 0 <= j < rec.fields@.len() ==> (#[trigger] ctype_of(ctypes, rec.fields@[j].ty@)) is Some {
            Some(Seq::new(rec.fields@.len(), |j: int| ctype_of(ctypes, rec.fields@[j].ty@)->0))
        } else {
            None
        },
    }
}

/// The declarations of an opaque type's C type, destructor, and for a
/// record its field projections and constructor.
pub open spec fn opaque_lines(ctypes: RegistryView, name: Seq<char>, o: OpaqueType) -> Option<Seq<Seq<char>>> {
    let on = ocaml_opaque_name(name, o);
    let head = seq![
        "  let "@ + on + " = typedef (ptr void) \""@ + struct_name_spec(o.ctype@)->0 + "\""@,
        line(foreign_spec(o.ops.free@, "int"@, seq!["context"@, on])),
    ];
    match field_ctypes(ctypes, o) {
        None => None,
        Some(cts) => match o.record {
            None => Some(head),
            Some(rec) => Some(head + Seq::new(rec.fields@.len(), |j: int| line(foreign_spec(rec.fields@[j].project@, "int"@, seq!["context"@, "ptr "@ + cts[j], on])))
                + seq![line(foreign_spec(rec.new@, "int"@, seq!["context"@, "ptr "@ + on] + cts))]),
        },
    }
}

/// The tables after registering a type: the types table holds the name of
/// the module of an array or opaque type, the ctypes table its C type.
pub open spec fn register_type(st: OCamlView, name: Seq<char>, t: Type) -> OCamlView {
    match t {
        Type::Array(a) => OCamlView {
            types: st.types.register(name, first_upper_spec(ocaml_array_name(a)), TypeKind::Array),
            ctypes: st.ctypes.register(name, ocaml_array_name(a), TypeKind::Array),
            ..st
        },
        Type::Opaque(o) => OCamlView {
            types: st.types.register(name, first_upper_spec(ocaml_opaque_name(name, o)), TypeKind::Opaque),
            ctypes: st.ctypes.register(name, ocaml_opaque_name(name, o), TypeKind::Opaque),
            ..st
        },
    }
}

pub open spec fn type_lines(st: OCamlView, name: Seq<char>, t: Type) -> Option<Seq<Seq<char>>> {
    match t {
        Type::Array(a) => array_lines(st.ctypes, a),
        Type::Opaque(o) => opaque_lines(st.ctypes, name, o),
    }
}

/// The tables after entering the given types, in order.
pub open spec fn ocaml_declare_all(st: OCamlView, ts: Seq<(String, Type)>) -> OCamlView
    decreases ts.len(),
{
    if ts.len() == 0 {
        st
    } else {
        register_type(ocaml_declare_all(st, ts.drop_last()), ts.last().0@, ts.last().1)
    }
}

/// The declarations of the given types, in order.
pub open spec fn ocaml_types_lines(st: OCamlView, ts: Seq<(String, Type)>) -> Option<Seq<Seq<char>>>
    decreases ts.len(),
{
    if ts.len() == 0 {
        Some(Seq::empty())
    } else {
        match ocaml_types_lines(st, ts.drop_last()) {
            None => None,
            Some(p) => match type_lines(st, ts.last().0@, ts.last().1) {
                None => None,
                Some(l) => Some(p + l),
            },
        }
    }
}

/// The C arguments of an entry point: the context, a pointer per output,
/// then each input.
pub open spec fn entry_args(ctypes: RegistryView, e: Entry) -> Option<Seq<Seq<char>>> {
    if (forall|j: int| 0 <= j < e.outputs@.len() ==> (#[trigger] ctype_of(ctypes, e.outputs@[j].ty@)) is Some)
        && (forall|j: int| 0 <= j < e.inputs@.len() ==> (#[trigger] ctype_of(ctypes, e.inputs@[j].ty@)) is Some) {
        Some(seq!["context"@] + Seq::new(e.outputs@.len(), |j: int| "ptr "@ + ctype_of(ctypes, e.outputs@[j].ty@)->0)
            + Seq::new(e.inputs@.len(), |j: int| ctype_of(ctypes, e.inputs@[j].ty@)->0))
    } else {
        None
    }
}

/// The declarations of the given entry points.
pub open spec fn ocaml_entries_lines(ctypes: RegistryView, es: Seq<(String, Entry)>) -> Option<Seq<Seq<char>>>
    decreases es.len(),
{
    if es.len() == 0 {
        Some(Seq::empty())
    } else {
        match ocaml_entries_lines(ctypes, es.drop_last()) {
            None => None,
            Some(p) => match entry_args(ctypes, es.last().1) {
                None => None,
                Some(args) => Some(p.push(line(foreign_spec(es.last().1.cfun@, "int"@, args)))),
            },
        }
    }
}

/// The declarations that only some backends have.
pub open spec fn backend_lines(b: Backend) -> Seq<Seq<char>> {
    match b {
        Backend::Multicore => seq![line(foreign_spec("futhark_context_config_set_num_threads"@, "void"@, seq!["context_config"@, "int"@]))],
        Backend::CUDA | Backend::OpenCL => seq![line(foreign_spec("futhark_context_config_set_device"@, "void"@, seq!["context_config"@, "string"@]))],
        _ => seq![],
    }
}

/// The foreign declarations of a manifest, one per line, and the tables
/// after it: every type is entered in the tables first, then the
/// declarations follow in the manifest's order; `None` where a type has no
/// OCaml representation.
pub open spec fn ocaml_declarations(st: OCamlView, m: Manifest) -> Option<(Seq<char>, OCamlView)> {
    let all = ocaml_declare_all(st, m.types@);
    match ocaml_types_lines(all, m.types@) {
        None => None,
        Some(t) => match ocaml_entries_lines(all.ctypes, m.entry_points@) {
            None => None,
            Some(el) => Some((join_spec(backend_lines(m.backend) + t + el, "\n"@), all)),
        },
    }
}

/// The declarations and bindings depend on the contents of the manifest's
/// maps, not on the order in which they were built: two valid manifests
/// with the same backend, types and entry points give the same text.
pub proof fn lemma_declarations_deterministic(st: OCamlView, m1: Manifest, m2: Manifest)
    requires
        m1.wf(),
        m2.wf(),
        m1.backend == m2.backend,
        forall|p: (String, Type)| m1.types@.contains(p) <==> m2.types@.contains(p),
        forall|p: (String, Entry)| m1.entry_points@.contains(p) <==> m2.entry_points@.contains(p),
    ensures
        ocaml_declarations(st, m1) == ocaml_declarations(st, m2),
        ocaml_output(st, m1) == ocaml_output(st, m2),
{
    lemma_sorted_unique(m1.types@, m2.types@);
    lemma_sorted_unique(m1.entry_points@, m2.entry_points@);
}

// ---------------------------------------------------------------- modules

pub const END: &'static str = "end\n\n";

/// OCaml name (a module for an array or opaque type), kind and ctypes type
/// of manifest type `ty`, where the target has them.
pub open spec fn oinfo(st: OCamlView, ty: Seq<char>) -> Option<(Seq<char>, TypeKind, Seq<char>)> {
    match st.types.resolve(ty) {
        None => None,
        Some(p) => match ctype_of(st.ctypes, ty) {
            None => None,
            Some(c) => Some((p.0, p.1, c)),
        },
    }
}

pub open spec fn oi(st: OCamlView, ty: Seq<char>) -> (Seq<char>, TypeKind, Seq<char>) {
    oinfo(st, ty)->0
}

pub open spec fn handle(k: TypeKind) -> bool {
    k != TypeKind::Scalar
}

/// The OCaml type of a value: `M.t` for the module `M` of a handle.
pub open spec fn val_type(v: Seq<char>, k: TypeKind) -> Seq<char> {
    if handle(k) {
        v + ".t"@
    } else {
        v
    }
}

/// The Bigarray kind value of an element kind: the element kind without
/// `_elt`, so `Bigarray.int64_elt` gives `Bigarray.int64`.
pub open spec fn ba_kind_spec(t: Seq<char>) -> Seq<char> {
    if t.len() >= 4 && t.subrange(t.len() - 4, t.len() as int) == "_elt"@ {
        t.subrange(0, t.len() - 4)
    } else {
        t
    }
}

pub open spec fn dim_arg(i: int) -> Seq<char> {
    "(Int64.of_int dims.("@ + decimal_spec(i as nat) + "))"@
}

/// The module of an array type and its signature; `None` where its
/// elements have no OCaml representation.
#[verifier::opaque]
pub open spec fn ocaml_array_section(st: OCamlView, a: ArrayType) -> Option<(Seq<char>, Seq<char>)> {
    let e = a.elemtype.name_spec();
    match (st.ba_elem.resolve(e), st.ba_elt.resolve(e), ctype_of(st.ctypes, e)) {
        (Some(oe), Some(be), Some(ce)) => {
            let m = first_upper_spec(ocaml_array_name(a));
            Some((
                array_ml_text(
                    m,
                    decimal_spec(a.rank as nat),
                    oe.0,
                    be.0,
                    ba_kind_spec(be.0),
                    ce,
                    a.ops.new@,
                    a.ops.free@,
                    a.ops.values@,
                    a.ops.shape@,
                    join_spec(Seq::new(a.rank as nat, |i: int| dim_arg(i)), " "@),
                ),
                array_mli_text(m, oe.0, be.0),
            ))
        },
        _ => None,
    }
}

/// The argument a record's constructor hands on for field `f`: the handle of
/// an array or opaque value, a scalar as it is.
pub open spec fn field_arg(f: Field, k: TypeKind) -> Seq<char> {
    if k == TypeKind::Array {
        "field"@ + f.name@ + ".ptr"@
    } else if k == TypeKind::Opaque {
        "field"@ + f.name@ + ".opaque_ptr"@
    } else {
        "field"@ + f.name@
    }
}

pub open spec fn field_alloc(k: TypeKind, c: Seq<char>) -> Seq<char> {
    if handle(k) {
        "Bindings."@ + c
    } else {
        c
    }
}

/// What a field's accessor returns: an array or opaque value wrapped by
/// its module's `of_ptr`, a scalar as read.
pub open spec fn field_output(v: Seq<char>, k: TypeKind) -> Seq<char> {
    if handle(k) {
        v + ".of_ptr t.opaque_ctx !@out"@
    } else {
        "!@out"@
    }
}

pub open spec fn fields_known(st: OCamlView, fs: Seq<Field>) -> bool {
    forall|j: int| 0 <= j < fs.len() ==> (#[trigger] oinfo(st, fs[j].ty@)) is Some
}

pub open spec fn field_params(fs: Seq<Field>, n: nat) -> Seq<Seq<char>> {
    Seq::new(n, |j: int| "field"@ + fs[j].name@)
}

pub open spec fn field_args(st: OCamlView, fs: Seq<Field>, n: nat) -> Seq<Seq<char>> {
    Seq::new(n, |j: int| field_arg(fs[j], oi(st, fs[j].ty@).1))
}

pub open spec fn field_types(st: OCamlView, fs: Seq<Field>, n: nat) -> Seq<Seq<char>> {
    Seq::new(n, |j: int| val_type(oi(st, fs[j].ty@).0, oi(st, fs[j].ty@).1))
}

pub open spec fn field_projects(st: OCamlView, fs: Seq<Field>, n: nat) -> Seq<Seq<char>> {
    Seq::new(n, |j: int| project_ml_text(fs[j].name@, field_alloc(oi(st, fs[j].ty@).1, oi(st, fs[j].ty@).2), fs[j].project@, field_output(oi(st, fs[j].ty@).0, oi(st, fs[j].ty@).1)))
}

pub open spec fn field_project_sigs(st: OCamlView, fs: Seq<Field>, n: nat) -> Seq<Seq<char>> {
    Seq::new(n, |j: int| project_mli_text(fs[j].name@, val_type(oi(st, fs[j].ty@).0, oi(st, fs[j].ty@).1)))
}

/// The module of an opaque type and its signature: the handle, and for a
/// record its constructor from the fields in order and one accessor per
/// field; `None` where a field's type has no OCaml representation.
#[verifier::opaque]
pub open spec fn ocaml_opaque_section(st: OCamlView, name: Seq<char>, o: OpaqueType) -> Option<(Seq<char>, Seq<char>)> {
    let m = first_upper_spec(ocaml_opaque_name(name, o));
    let ml = opaque_ml_text(m, o.ops.free@);
    let mli = opaque_mli_text(m);
    match o.record {
        None => Some((ml + END@, mli + END@)),
        Some(rec) => {
            let fs = rec.fields@;
            let n = fs.len();
            if !fields_known(st, fs) {
                None
            } else {
                Some((
                    ml + record_ml_text(join_spec(field_params(fs, n), " "@), rec.new@, join_spec(field_args(st, fs, n), " "@))
                        + join_spec(field_projects(st, fs, n), ""@) + END@,
                    mli + record_mli_text(join_spec(field_types(st, fs, n).push("t"@), " -> "@))
                        + join_spec(field_project_sigs(st, fs, n), ""@) + END@,
                ))
            }
        },
    }
}

/// The slot of output `i` of `n`: `out_ptr` when there is one output,
/// `out<i>_ptr` otherwise.
pub open spec fn out_slot(n: nat, i: int) -> Seq<char> {
    if n == 1 {
        "out_ptr"@
    } else {
        "out"@ + decimal_spec(i as nat) + "_ptr"@
    }
}

/// The argument handed to the foreign call for input `j`.
pub open spec fn input_arg(j: int, k: TypeKind) -> Seq<char> {
    if k == TypeKind::Array {
        "input"@ + decimal_spec(j as nat) + ".ptr"@
    } else if k == TypeKind::Opaque {
        "input"@ + decimal_spec(j as nat) + ".opaque_ptr"@
    } else {
        "input"@ + decimal_spec(j as nat)
    }
}

pub open spec fn out_decl(n: nat, i: int, k: TypeKind, c: Seq<char>) -> Seq<char> {
    if handle(k) {
        "  let "@ + out_slot(n, i) + " = allocate (ptr void) null in"@
    } else {
        "  let "@ + out_slot(n, i) + " = allocate_n "@ + c + " ~count:1 in"@
    }
}

pub open spec fn out_value(n: nat, i: int, v: Seq<char>, k: TypeKind) -> Seq<char> {
    if handle(k) {
        "("@ + v + ".of_ptr ctx !@"@ + out_slot(n, i) + ")"@
    } else {
        "!@"@ + out_slot(n, i)
    }
}

pub open spec fn input_param(j: int, v: Seq<char>, k: TypeKind) -> Seq<char> {
    "(input"@ + decimal_spec(j as nat) + " : "@ + val_type(v, k) + ")"@
}

pub open spec fn entry_known(st: OCamlView, e: Entry) -> bool {
    &&& forall|j: int| 0 <= j < e.outputs@.len() ==> (#[trigger] oinfo(st, e.outputs@[j].ty@)) is Some
    &&& forall|j: int| 0 <= j < e.inputs@.len() ==> (#[trigger] oinfo(st, e.inputs@[j].ty@)) is Some
}

pub open spec fn oout(st: OCamlView, e: Entry, j: int) -> (Seq<char>, TypeKind, Seq<char>) {
    oi(st, e.outputs@[j].ty@)
}

pub open spec fn oin(st: OCamlView, e: Entry, j: int) -> (Seq<char>, TypeKind, Seq<char>) {
    oi(st, e.inputs@[j].ty@)
}

pub open spec fn slots_upto(no: nat, n: nat) -> Seq<Seq<char>> {
    Seq::new(n, |i: int| out_slot(no, i))
}

pub open spec fn in_args_upto(st: OCamlView, e: Entry, n: nat) -> Seq<Seq<char>> {
    Seq::new(n, |j: int| input_arg(j, oin(st, e, j).1))
}

pub open spec fn decls_upto(st: OCamlView, e: Entry, n: nat) -> Seq<Seq<char>> {
    Seq::new(n, |i: int| out_decl(e.outputs@.len(), i, oout(st, e, i).1, oout(st, e, i).2))
}

pub open spec fn values_upto(st: OCamlView, e: Entry, n: nat) -> Seq<Seq<char>> {
    Seq::new(n, |i: int| out_value(e.outputs@.len(), i, oout(st, e, i).0, oout(st, e, i).1))
}

pub open spec fn out_types_upto(st: OCamlView, e: Entry, n: nat) -> Seq<Seq<char>> {
    Seq::new(n, |i: int| val_type(oout(st, e, i).0, oout(st, e, i).1))
}

pub open spec fn params_upto(st: OCamlView, e: Entry, n: nat) -> Seq<Seq<char>> {
    Seq::new(n, |j: int| input_param(j, oin(st, e, j).0, oin(st, e, j).1))
}

pub open spec fn in_types_upto(st: OCamlView, e: Entry, n: nat) -> Seq<Seq<char>> {
    Seq::new(n, |j: int| val_type(oin(st, e, j).0, oin(st, e, j).1))
}

/// The arguments of an entry point's foreign call after the context: one
/// slot per output, then one argument per input, in order.
pub open spec fn ocaml_call_args(st: OCamlView, e: Entry) -> Seq<Seq<char>> {
    slots_upto(e.outputs@.len(), e.outputs@.len()) + in_args_upto(st, e, e.inputs@.len())
}

/// `unit` for no output, else the outputs' types as a tuple.
pub open spec fn return_type(types: Seq<Seq<char>>) -> Seq<char> {
    if types.len() == 0 {
        "unit"@
    } else {
        join_spec(types, " * "@)
    }
}

/// The function of an entry point and its signature; `None` where one of
/// its types has no OCaml representation.
#[verifier::opaque]
pub open spec fn ocaml_entry_section(st: OCamlView, name: Seq<char>, e: Entry) -> Option<(Seq<char>, Seq<char>)> {
    if !entry_known(st, e) {
        None
    } else {
        let no = e.outputs@.len();
        let ni = e.inputs@.len();
        Some((
            entry_ml_text(
                name,
                join_spec(params_upto(st, e, ni), " "@),
                join_spec(decls_upto(st, e, no), "\n"@),
                e.cfun@,
                join_spec(ocaml_call_args(st, e), " "@),
                join_spec(values_upto(st, e, no), ", "@),
            ),
            entry_mli_text(name, join_spec(seq!["Context.t"@] + in_types_upto(st, e, ni) + seq![return_type(out_types_upto(st, e, no))], " -> "@)),
        ))
    }
}

pub open spec fn type_module(st: OCamlView, name: Seq<char>, t: Type) -> Option<(Seq<char>, Seq<char>)> {
    match t {
        Type::Array(a) => ocaml_array_section(st, a),
        Type::Opaque(o) => ocaml_opaque_section(st, name, o),
    }
}

/// The modules of the given types and their signatures, in order.
pub open spec fn types_modules(st: OCamlView, ts: Seq<(String, Type)>) -> Option<(Seq<char>, Seq<char>)>
    decreases ts.len(),
{
    if ts.len() == 0 {
        Some((Seq::empty(), Seq::empty()))
    } else {
        match types_modules(st, ts.drop_last()) {
            None => None,
            Some(p) => match type_module(st, ts.last().0@, ts.last().1) {
                None => None,
                Some(q) => Some((p.0 + q.0, p.1 + q.1)),
            },
        }
    }
}

/// The functions of the given entry points and their signatures, in order.
pub open spec fn entries_functions(st: OCamlView, es: Seq<(String, Entry)>) -> Option<(Seq<char>, Seq<char>)>
    decreases es.len(),
{
    if es.len() == 0 {
        Some((Seq::empty(), Seq::empty()))
    } else {
        match entries_functions(st, es.drop_last()) {
            None => None,
            Some(p) => match ocaml_entry_section(st, es.last().0@, es.last().1) {
                None => None,
                Some(q) => Some((p.0 + q.0, p.1 + q.1)),
            },
        }
    }
}

pub open spec fn extra_param(b: Backend) -> Seq<char> {
    match b {
        Backend::Multicore => "?(num_threads = 0)"@,
        Backend::CUDA | Backend::OpenCL => "?device"@,
        _ => ""@,
    }
}

pub open spec fn extra_line(b: Backend) -> Seq<char> {
    match b {
        Backend::Multicore => "    Bindings.futhark_context_config_set_num_threads config num_threads;"@,
        Backend::CUDA | Backend::OpenCL => "    Option.iter (Bindings.futhark_context_config_set_device config) device;"@,
        _ => ""@,
    }
}

pub open spec fn extra_mli(b: Backend) -> Seq<char> {
    match b {
        Backend::Multicore => "?num_threads:int ->"@,
        Backend::CUDA | Backend::OpenCL => "?device:string ->"@,
        _ => ""@,
    }
}

/// The OCaml bindings of a manifest (`.ml`) and their interface (`.mli`):
/// the module of foreign declarations, the context, then each type's module
/// and each entry point's function in the manifest's order; `None` where a
/// type has no OCaml representation.
pub open spec fn ocaml_output(st: OCamlView, m: Manifest) -> Option<(Seq<char>, Seq<char>)> {
    match ocaml_declarations(st, m) {
        None => None,
        Some(d) => match types_modules(d.1, m.types@) {
            None => None,
            Some(t) => match entries_functions(d.1, m.entry_points@) {
                None => None,
                Some(f) => Some((
                    bindings_text(d.0) + context_ml_text(extra_param(m.backend), extra_line(m.backend)) + t.0 + f.0,
                    context_mli_text(extra_mli(m.backend)) + t.1 + f.1,
                )),
            },
        },
    }
}

/// Once a prefix of the types' modules fails, so do all of them.
proof fn lemma_types_modules_none(st: OCamlView, ts: Seq<(String, Type)>, k: int)
    requires
        0 <= k <= ts.len(),
        types_modules(st, ts.take(k)) is None,
    ensures
        types_modules(st, ts) is None,
    decreases ts.len() - k,
{
    if k < ts.len() {
        assert(ts.take(k + 1).drop_last() =~= ts.take(k));
        lemma_types_modules_none(st, ts, k + 1);
    } else {
        assert(ts.take(k) =~= ts);
    }
}

/// Once a prefix of the entry points' functions fails, so do all of them.
proof fn lemma_entries_functions_none(st: OCamlView, es: Seq<(String, Entry)>, k: int)
    requires
        0 <= k <= es.len(),
        entries_functions(st, es.take(k)) is None,
    ensures
        entries_functions(st, es) is None,
    decreases es.len() - k,
{
    if k < es.len() {
        assert(es.take(k + 1).drop_last() =~= es.take(k));
        lemma_entries_functions_none(st, es, k + 1);
    } else {
        assert(es.take(k) =~= es);
    }
}

/// The function emitted for an entry point makes one foreign call whose
/// arguments after the context are exactly one slot per declared output
/// (`out_ptr` when there is one output, `out<i>_ptr` otherwise) and then
/// exactly one argument per declared input, in declared order: an array or
/// opaque input unwrapped to its pointer, a scalar as it is. The foreign
/// declaration of the entry point takes the context, a pointer per output,
/// then each input's ctypes type, in the same order.
pub proof fn lemma_ocaml_entry_call_shape(st: OCamlView, name: Seq<char>, e: Entry)
    ensures
        ocaml_call_args(st, e).len() == e.outputs@.len() + e.inputs@.len(),
        forall|i: int| 0 <= i < e.outputs@.len() ==> #[trigger] ocaml_call_args(st, e)[i] == out_slot(e.outputs@.len(), i),
        forall|j: int|
            0 <= j < e.inputs@.len() ==> #[trigger] ocaml_call_args(st, e)[e.outputs@.len() + j] == input_arg(j, oin(st, e, j).1),
        ocaml_entry_section(st, name, e) matches Some(p) ==> p.0 == entry_ml_text(
            name,
            join_spec(params_upto(st, e, e.inputs@.len()), " "@),
            join_spec(decls_upto(st, e, e.outputs@.len()), "\n"@),
            e.cfun@,
            join_spec(ocaml_call_args(st, e), " "@),
            join_spec(values_upto(st, e, e.outputs@.len()), ", "@),
        ),
        entry_args(st.ctypes, e) matches Some(args) ==> {
            &&& args.len() == 1 + e.outputs@.len() + e.inputs@.len()
            &&& args[0] == "context"@
            &&& forall|i: int| 0 <= i < e.outputs@.len() ==> #[trigger] args[1 + i] == "ptr "@ + ctype_of(st.ctypes, e.outputs@[i].ty@)->0
            &&& forall|j: int| 0 <= j < e.inputs@.len() ==> #[trigger] args[1 + e.outputs@.len() + j] == ctype_of(st.ctypes, e.inputs@[j].ty@)->0
        },
{
    reveal(ocaml_entry_section);
}

/// Every entry point of a list gets one foreign declaration, in order,
/// which declares its C function with the arguments `entry_args` gives.
pub proof fn lemma_entries_declared(ct: RegistryView, es: Seq<(String, Entry)>)
    ensures
        ocaml_entries_lines(ct, es) matches Some(ls) ==> {
            &&& ls.len() == es.len()
            &&& forall|k: int| 0 <= k < es.len() ==> entry_args(ct, #[trigger] es[k].1) is Some && ls[k] == line(
                foreign_spec(es[k].1.cfun@, "int"@, entry_args(ct, es[k].1)->0),
            )
        },
    decreases es.len(),
{
    if es.len() > 0 {
        lemma_entries_declared(ct, es.drop_last());
        if let Some(ls) = ocaml_entries_lines(ct, es) {
            let prev = ocaml_entries_lines(ct, es.drop_last())->0;
            assert forall|k: int| 0 <= k < es.len() implies entry_args(ct, #[trigger] es[k].1) is Some && ls[k] == line(
                foreign_spec(es[k].1.cfun@, "int"@, entry_args(ct, es[k].1)->0),
            ) by {
                if k < es.len() - 1 {
                    assert(es.drop_last()[k] == es[k]);
                    assert(ls[k] == prev[k]);
                }
            }
        }
    }
}

/// Entering types under names other than `k` leaves what `k` stands for.
proof fn lemma_declare_keeps(st: OCamlView, ts: Seq<(String, Type)>, k: Seq<char>)
    requires
        !keys(ts).contains(k),
    ensures
        foreign_lookup(ocaml_declare_all(st, ts).ctypes.foreign, k) == foreign_lookup(st.ctypes.foreign, k),
    decreases ts.len(),
{
    if ts.len() > 0 {
        assert(keys(ts)[ts.len() - 1] == ts.last().0@);
        assert(!keys(ts.drop_last()).contains(k)) by {
            if keys(ts.drop_last()).contains(k) {
                let j = choose|j: int| 0 <= j < keys(ts.drop_last()).len() && keys(ts.drop_last())[j] == k;
                assert(keys(ts)[j] == k);
            }
        }
        lemma_declare_keeps(st, ts.drop_last(), k);
        let prev = ocaml_declare_all(st, ts.drop_last()).ctypes.foreign;
        let now = ocaml_declare_all(st, ts).ctypes.foreign;
        assert(now.drop_last() =~= prev);
    }
}

/// OCaml has no half-precision float: a valid manifest with an array type
/// of `f16` elements gets no declarations and no bindings (so generation
/// fails with `UnsupportedType`), unless one of its own types is named `f16`
/// and so stands for it.
pub proof fn lemma_half_arrays_unsupported(m: Manifest, i: int)
    requires
        m.wf(),
        0 <= i < m.types@.len(),
        m.types@[i].1 matches Type::Array(a) && a.elemtype == ElemType::F16,
        !keys(m.types@).contains("f16"@),
    ensures
        ocaml_declarations(initial_ocaml(), m) is None,
        ocaml_output(initial_ocaml(), m) is None,
{
    let all = ocaml_declare_all(initial_ocaml(), m.types@);
    lemma_declare_keeps(initial_ocaml(), m.types@, "f16"@);
    let init = initial_ocaml().ctypes.foreign;
    reveal_strlit("f16");
    reveal_strlit("f32");
    reveal_strlit("f64");
    reveal_strlit("bool");
    let s1 = init.drop_last();
    let s2 = s1.drop_last();
    let s3 = s2.drop_last();
    assert("bool"@.len() != "f16"@.len());
    assert(init.last().0 != "f16"@);
    assert(foreign_lookup(init, "f16"@) == foreign_lookup(s1, "f16"@));
    assert(s1.last().0 == "f64"@);
    assert("f64"@[1] != "f16"@[1]);
    assert(foreign_lookup(s1, "f16"@) == foreign_lookup(s2, "f16"@));
    assert(s2.last().0 == "f32"@);
    assert("f32"@[1] != "f16"@[1]);
    assert(foreign_lookup(s2, "f16"@) == foreign_lookup(s3, "f16"@));
    assert(s3.last() == ("f16"@, ""@, TypeKind::Scalar));
    assert(foreign_lookup(init, "f16"@) == Some((""@, TypeKind::Scalar)));
    reveal_strlit("");
    assert(ctype_of(all.ctypes, "f16"@) is None);
    let ts = m.types@;
    assert(ts.take(i + 1).drop_last() =~= ts.take(i));
    assert(ts.take(i + 1).last() == ts[i]);
    assert(ocaml_types_lines(all, ts.take(i + 1)) is None);
    lemma_ocaml_types_none(all, ts, i + 1);
}

/// The tables an OCaml run starts from; `f16` has no OCaml type, no ctypes
/// type and no Bigarray kind.
pub open spec fn initial_ocaml() -> OCamlView {
    OCamlView {
        types: RegistryView {
            foreign: seq![
                ("i8"@, "char"@, TypeKind::Scalar),
                ("u8"@, "UInt8.t"@, TypeKind::Scalar),
                ("i16"@, "int"@, TypeKind::Scalar),
                ("u16"@, "UInt16.t"@, TypeKind::Scalar),
                ("i32"@, "int32"@, TypeKind::Scalar),
                ("i64"@, "int64"@, TypeKind::Scalar),
                ("u32"@, "UInt32.t"@, TypeKind::Scalar),
                ("u64"@, "UInt64.t"@, TypeKind::Scalar),
                ("f16"@, ""@, TypeKind::Scalar),
                ("f32"@, "float"@, TypeKind::Scalar),
                ("f64"@, "float"@, TypeKind::Scalar),
                ("bool"@, "bool"@, TypeKind::Scalar),
            ],
            wrapper: seq![],
        },
        ctypes: RegistryView {
            foreign: seq![
                ("i8"@, "char"@, TypeKind::Scalar),
                ("u8"@, "uint8_t"@, TypeKind::Scalar),
                ("i16"@, "int16_t"@, TypeKind::Scalar),
                ("u16"@, "uint16_t"@, TypeKind::Scalar),
                ("i32"@, "int32_t"@, TypeKind::Scalar),
                ("u32"@, "uint32_t"@, TypeKind::Scalar),
                ("i64"@, "int64_t"@, TypeKind::Scalar),
                ("u64"@, "uint64_t"@, TypeKind::Scalar),
                ("f16"@, ""@, TypeKind::Scalar),
                ("f32"@, "float"@, TypeKind::Scalar),
                ("f64"@, "double"@, TypeKind::Scalar),
                ("bool"@, "bool"@, TypeKind::Scalar),
            ],
            wrapper: seq![],
        },
        ba_elem: RegistryView {
            foreign: seq![
                ("i8"@, "int"@, TypeKind::Scalar),
                ("u8"@, "int"@, TypeKind::Scalar),
                ("i16"@, "int"@, TypeKind::Scalar),
                ("u16"@, "int"@, TypeKind::Scalar),
                ("i32"@, "int32"@, TypeKind::Scalar),
                ("i64"@, "int64"@, TypeKind::Scalar),
                ("u32"@, "int32"@, TypeKind::Scalar),
                ("u64"@, "int64"@, TypeKind::Scalar),
                ("f16"@, ""@, TypeKind::Scalar),
                ("f32"@, "float"@, TypeKind::Scalar),
                ("f64"@, "float"@, TypeKind::Scalar),
                ("bool"@, "int"@, TypeKind::Scalar),
            ],
            wrapper: seq![],
        },
        ba_elt: RegistryView {
            foreign: seq![
                ("i8"@, "Bigarray.int8_signed_elt"@, TypeKind::Scalar),
                ("u8"@, "Bigarray.int8_unsigned_elt"@, TypeKind::Scalar),
                ("i16"@, "Bigarray.int16_signed_elt"@, TypeKind::Scalar),
                ("u16"@, "Bigarray.int16_unsigned_elt"@, TypeKind::Scalar),
                ("i32"@, "Bigarray.int32_elt"@, TypeKind::Scalar),
                ("i64"@, "Bigarray.int64_elt"@, TypeKind::Scalar),
                ("u32"@, "Bigarray.int32_elt"@, TypeKind::Scalar),
                ("u64"@, "Bigarray.int64_elt"@, TypeKind::Scalar),
                ("f16"@, ""@, TypeKind::Scalar),
                ("f32"@, "Bigarray.float32_elt"@, TypeKind::Scalar),
                ("f64"@, "Bigarray.float64_elt"@, TypeKind::Scalar),
                ("bool"@, "Bigarray.int8_unsigned_elt"@, TypeKind::Scalar),
            ],
            wrapper: seq![],
        },
    }
}

/// Once a prefix of the types fails, so do all of them.
proof fn lemma_ocaml_types_none(st: OCamlView, ts: Seq<(String, Type)>, k: int)
    requires
        0 <= k <= ts.len(),
        ocaml_types_lines(st, ts.take(k)) is None,
    ensures
        ocaml_types_lines(st, ts) is None,
    decreases ts.len() - k,
{
    if k < ts.len() {
        assert(ts.take(k + 1).drop_last() =~= ts.take(k));
        lemma_ocaml_types_none(st, ts, k + 1);
    } else {
        assert(ts.take(k) =~= ts);
    }
}

/// Once a prefix of the entry points fails, so do all of them.
proof fn lemma_ocaml_entries_none(ct: RegistryView, es: Seq<(String, Entry)>, k: int)
    requires
        0 <= k <= es.len(),
        ocaml_entries_lines(ct, es.take(k)) is None,
    ensures
        ocaml_entries_lines(ct, es) is None,
    decreases es.len() - k,
{
    if k < es.len() {
        assert(es.take(k + 1).drop_last() =~= es.take(k));
        lemma_ocaml_entries_none(ct, es, k + 1);
    } else {
        assert(es.take(k) =~= es);
    }
}

/// `let NAME = fn "NAME" (ARGS @-> returning (RET))`, indented.
fn foreign_function(name: &str, ret: &str, args: &Vec<String>) -> (r: String)
    ensures
        r@ == line(foreign_spec(name@, ret@, views(args@))),
{
    let joined = join(args, " @-> ");
    let mut s = "let ".to_owned();
    s.append(name);
    s.append(" = fn \"");
    s.append(name);
    s.append("\" (");
    s.append(joined.as_str());
    s.append(" @-> returning (");
    s.append(ret);
    s.append("))");
    cat2("  ", s.as_str())
}

/// A list of the given strings.
fn strings(a: &str, b: &str) -> (r: Vec<String>)
    ensures
        views(r@) == seq![a@, b@],
{
    let r = vec![String::from_str(a), String::from_str(b)];
    assert(views(r@) =~= seq![a@, b@]);
    r
}

/// The OCaml backend: its type tables.
pub struct OCaml {
    types: TypeRegistry,
    ctypes: TypeRegistry,
    ba_elem: TypeRegistry,
    ba_elt: TypeRegistry,
}

impl View for OCaml {
    type V = OCamlView;

    closed spec fn view(&self) -> OCamlView {
        OCamlView { types: self.types@, ctypes: self.ctypes@, ba_elem: self.ba_elem@, ba_elt: self.ba_elt@ }
    }
}

impl OCaml {
    /// A backend with the OCaml tables of the scalar types.
    pub fn new() -> (r: OCaml)
        ensures
            r@ == initial_ocaml(),
    {
        let mut types = TypeRegistry::new();
        let mut ctypes = TypeRegistry::new();
        let names = ["i8", "u8", "i16", "u16", "i32", "i64", "u32", "u64", "f16", "f32", "f64", "bool"];
        let ocaml = ["char", "UInt8.t", "int", "UInt16.t", "int32", "int64", "UInt32.t", "UInt64.t", "", "float", "float", "bool"];
        let cnames = ["i8", "u8", "i16", "u16", "i32", "u32", "i64", "u64", "f16", "f32", "f64", "bool"];
        let c = ["char", "uint8_t", "int16_t", "uint16_t", "int32_t", "uint32_t", "int64_t", "uint64_t", "", "float", "double", "bool"];
        let be = ["int", "int", "int", "int", "int32", "int64", "int32", "int64", "", "float", "float", "int"];
        let bk = [
            "Bigarray.int8_signed_elt", "Bigarray.int8_unsigned_elt", "Bigarray.int16_signed_elt",
            "Bigarray.int16_unsigned_elt", "Bigarray.int32_elt", "Bigarray.int64_elt",
            "Bigarray.int32_elt", "Bigarray.int64_elt", "", "Bigarray.float32_elt",
            "Bigarray.float64_elt", "Bigarray.int8_unsigned_elt",
        ];
        let mut ba_elem = TypeRegistry::new();
        let mut ba_elt = TypeRegistry::new();
        let ghost want = initial_ocaml();
        let mut i: usize = 0;
        while i < 12
            invariant
                i <= 12,
                want == initial_ocaml(),
                names@.len() == 12 && ocaml@.len() == 12 && cnames@.len() == 12 && c@.len() == 12,
                be@.len() == 12 && bk@.len() == 12,
                forall|j: int| 0 <= j < 12 ==> (#[trigger] want.ba_elem.foreign[j]) == (names@[j]@, be@[j]@, TypeKind::Scalar),
                forall|j: int| 0 <= j < 12 ==> (#[trigger] want.ba_elt.foreign[j]) == (names@[j]@, bk@[j]@, TypeKind::Scalar),
                ba_elem@.foreign =~= want.ba_elem.foreign.take(i as int),
                ba_elt@.foreign =~= want.ba_elt.foreign.take(i as int),
                ba_elem@.wrapper.len() == 0,
                ba_elt@.wrapper.len() == 0,
                forall|j: int| 0 <= j < 12 ==> (#[trigger] want.types.foreign[j]) == (names@[j]@, ocaml@[j]@, TypeKind::Scalar),
                forall|j: int| 0 <= j < 12 ==> (#[trigger] want.ctypes.foreign[j]) == (cnames@[j]@, c@[j]@, TypeKind::Scalar),
                types@.foreign =~= want.types.foreign.take(i as int),
                ctypes@.foreign =~= want.ctypes.foreign.take(i as int),
                types@.wrapper.len() == 0,
                ctypes@.wrapper.len() == 0,
            decreases 12 - i,
        {
            types.register(String::from_str(names[i]), String::from_str(ocaml[i]), TypeKind::Scalar);
            ctypes.register(String::from_str(cnames[i]), String::from_str(c[i]), TypeKind::Scalar);
            ba_elem.register(String::from_str(names[i]), String::from_str(be[i]), TypeKind::Scalar);
            ba_elt.register(String::from_str(names[i]), String::from_str(bk[i]), TypeKind::Scalar);
            i += 1;
        }
        let r = OCaml { types, ctypes, ba_elem, ba_elt };
        assert(r@.ba_elem.foreign =~= want.ba_elem.foreign);
        assert(r@.ba_elt.foreign =~= want.ba_elt.foreign);
        assert(r@.ba_elem.wrapper =~= want.ba_elem.wrapper);
        assert(r@.ba_elt.wrapper =~= want.ba_elt.wrapper);
        assert(r@.types.foreign =~= want.types.foreign);
        assert(r@.ctypes.foreign =~= want.ctypes.foreign);
        assert(r@.types.wrapper =~= want.types.wrapper);
        assert(r@.ctypes.wrapper =~= want.ctypes.wrapper);
        r
    }

    /// The ctypes type of `t`, or `UnsupportedType` where OCaml has none.
    fn get_ctype(&self, t: &String) -> (r: Result<String, Error>)
        ensures
            r is Ok <==> ctype_of(self@.ctypes, t@) is Some,
            r matches Ok(c) ==> ctype_of(self@.ctypes, t@) == Some(c@),
            r matches Err(e) ==> e is UnsupportedType,
    {
        let (c, _) = self.ctypes.resolve(t)?;
        Ok(c)
    }

    /// The declarations of an array type.
    fn array_lines(&self, a: &ArrayType, out: &mut Vec<String>) -> (r: Result<(), Error>)
        requires
            a.wf(),
        ensures
            r is Ok <==> array_lines(self@.ctypes, *a) is Some,
            r is Ok ==> views(final(out)@) == views(old(out)@) + array_lines(self@.ctypes, *a)->0,
            r matches Err(e) ==> e is UnsupportedType,
    {
        let ce = self.get_ctype(&String::from_str(a.elemtype.to_str()))?;
        let n = Self::array_name(a);
        let ns = n.as_str();
        let elem_ptr = cat2("ptr ", ce.as_str());
        let mut typedef = "  let ".to_owned();
        typedef.append(ns);
        typedef.append(" = typedef (ptr void) \"");
        typedef.append(ns);
        typedef.append("\"");
        let mut new_args = strings("context", elem_ptr.as_str());
        let ghost head = views(new_args@);
        let mut i: i32 = 0;
        while i < a.rank
            invariant
                0 <= i <= a.rank,
                views(new_args@) =~= head + int64_args(i as nat),
            decreases a.rank - i,
        {
            let x = String::from_str("int64_t");
            proof {
                lemma_views_push(new_args@, x);
            }
            new_args.push(x);
            i += 1;
        }
        let l1 = foreign_function(a.ops.new.as_str(), ns, &new_args);
        let mut values_args = strings("context", ns);
        let e = elem_ptr.clone();
        proof {
            lemma_views_push(values_args@, e);
        }
        values_args.push(e);
        assert(views(values_args@) =~= seq!["context"@, n@, elem_ptr@]);
        let l2 = foreign_function(a.ops.values.as_str(), "int", &values_args);
        let handle_args = strings("context", ns);
        assert(views(handle_args@) =~= seq!["context"@, n@]);
        let l3 = foreign_function(a.ops.free.as_str(), "int", &handle_args);
        let l4 = foreign_function(a.ops.shape.as_str(), "ptr int64_t", &handle_args);
        assert(n@ == ocaml_array_name(*a));
        assert(ce@ == ctype_of(self@.ctypes, a.elemtype.name_spec())->0);
        assert(l1@ == line(foreign_spec(a.ops.new@, n@, seq!["context"@, elem_ptr@] + int64_args(a.rank as nat))));
        let ghost start = views(out@);
        proof {
            lemma_views_push(out@, typedef);
        }
        out.push(typedef);
        proof {
            lemma_views_push(out@, l1);
        }
        out.push(l1);
        proof {
            lemma_views_push(out@, l2);
        }
        out.push(l2);
        proof {
            lemma_views_push(out@, l3);
        }
        out.push(l3);
        proof {
            lemma_views_push(out@, l4);
        }
        out.push(l4);
        assert(views(out@) =~= start + array_lines(self@.ctypes, *a)->0);
        Ok(())
    }

    /// The OCaml name of an array type: `array_ELEM_RANKd`.
    fn array_name(a: &ArrayType) -> (r: String)
        requires
            a.wf(),
        ensures
            r@ == ocaml_array_name(*a),
    {
        let rank = decimal(a.rank as u64);
        let mut n = "array_".to_owned();
        n.append(a.elemtype.to_str());
        n.append("_");
        n.append(rank.as_str());
        n.append("d");
        n
    }

    /// The OCaml name of an opaque type.
    fn opaque_name(name: &String, o: &OpaqueType) -> (r: String)
        requires
            o.wf(),
        ensures
            r@ == ocaml_opaque_name(name@, *o),
    {
        let ft = convert_struct_name(o.ctype.as_str()).unwrap();
        proof {
            reveal_strlit("futhark_opaque_");
        }
        let base = strip_prefix(ft, "futhark_opaque_").unwrap();
        if is_numeric(base.get_char(0)) || has_char(name.as_str(), ' ') {
            cat2("type_", base)
        } else {
            base.to_owned()
        }
    }

    /// Enters a type in the tables under its manifest name.
    fn declare(&mut self, name: &String, t: &Type)
        requires
            t.wf(),
        ensures
            final(self)@ == register_type(old(self)@, name@, *t),
    {
        match t {
            Type::Array(a) => {
                let n = Self::array_name(a);
                self.types.register(name.clone(), first_uppercase(n.as_str()), TypeKind::Array);
                self.ctypes.register(name.clone(), n, TypeKind::Array);
            },
            Type::Opaque(o) => {
                let n = Self::opaque_name(name, o);
                self.types.register(name.clone(), first_uppercase(n.as_str()), TypeKind::Opaque);
                self.ctypes.register(name.clone(), n, TypeKind::Opaque);
            },
        }
    }
    /// The declarations of an opaque type.
    fn opaque_lines(&self, name: &String, o: &OpaqueType, out: &mut Vec<String>) -> (r: Result<(), Error>)
        requires
            o.wf(),
        ensures
            r is Ok <==> opaque_lines(self@.ctypes, name@, *o) is Some,
            r is Ok ==> views(final(out)@) == views(old(out)@) + opaque_lines(self@.ctypes, name@, *o)->0,
            r matches Err(e) ==> e is UnsupportedType,
    {
        let ft = convert_struct_name(o.ctype.as_str()).unwrap();
        let on = Self::opaque_name(name, o);
        let ons = on.as_str();
        let mut typedef = "  let ".to_owned();
        typedef.append(ons);
        typedef.append(" = typedef (ptr void) \"");
        typedef.append(ft);
        typedef.append("\"");
        let handle_args = strings("context", ons);
        assert(views(handle_args@) =~= seq!["context"@, on@]);
        let free = foreign_function(o.ops.free.as_str(), "int", &handle_args);
        let ghost start = views(out@);
        let ghost head = seq![views(seq![typedef])[0], free@];
        proof {
            lemma_views_push(out@, typedef);
        }
        out.push(typedef);
        proof {
            lemma_views_push(out@, free);
        }
        out.push(free);
        assert(views(out@) =~= start + head);
        match &o.record {
            None => {
                assert(field_ctypes(self@.ctypes, *o) == Some(Seq::<Seq<char>>::empty()));
            },
            Some(rec) => {
                let ptr_on = cat2("ptr ", ons);
                let mut new_args = strings("context", ptr_on.as_str());
                let ghost args_head = views(new_args@);
                let mut cts: Vec<String> = Vec::new();
                let ghost fs = rec.fields@;
                let mut j: usize = 0;
                while j < rec.fields.len()
                    invariant
                        o.record == Some(*rec),
                        fs == rec.fields@,
                        j <= fs.len(),
                        on@ == ocaml_opaque_name(name@, *o),
                        forall|x: int| 0 <= x < j ==> (#[trigger] ctype_of(self@.ctypes, fs[x].ty@)) is Some,
                        views(cts@) =~= Seq::new(j as nat, |x: int| ctype_of(self@.ctypes, fs[x].ty@)->0),
                        views(new_args@) =~= args_head + views(cts@),
                        views(out@) =~= start + head + Seq::new(j as nat, |x: int| line(foreign_spec(fs[x].project@, "int"@, seq!["context"@, "ptr "@ + ctype_of(self@.ctypes, fs[x].ty@)->0, on@]))),
                    decreases fs.len() - j,
                {
                    let f = &rec.fields[j];
                    let ct = match self.get_ctype(&f.ty) {
                        Ok(c) => c,
                        Err(e) => {
                            assert(field_ctypes(self@.ctypes, *o) is None);
                            return Err(e);
                        },
                    };
                    let ptr_ct = cat2("ptr ", ct.as_str());
                    let mut pargs = strings("context", ptr_ct.as_str());
                    let onc = on.clone();
                    proof {
                        lemma_views_push(pargs@, onc);
                    }
                    pargs.push(onc);
                    assert(views(pargs@) =~= seq!["context"@, ptr_ct@, on@]);
                    let l = foreign_function(f.project.as_str(), "int", &pargs);
                    proof {
                        lemma_views_push(out@, l);
                    }
                    out.push(l);
                    let c2 = ct.clone();
                    proof {
                        lemma_views_push(cts@, ct);
                        lemma_views_push(new_args@, c2);
                    }
                    cts.push(ct);
                    new_args.push(c2);
                    j += 1;
                }
                assert(field_ctypes(self@.ctypes, *o) == Some(views(cts@)));
                assert(views(new_args@) =~= seq!["context"@, "ptr "@ + on@] + views(cts@));
                let l = foreign_function(rec.new.as_str(), "int", &new_args);
                proof {
                    lemma_views_push(out@, l);
                }
                out.push(l);
            },
        }
        assert(views(out@) =~= start + opaque_lines(self@.ctypes, name@, *o)->0);
        Ok(())
    }

    /// The declaration of an entry point's C function.
    fn entry_line(&self, e: &Entry) -> (r: Result<String, Error>)
        ensures
            r is Ok <==> entry_args(self@.ctypes, *e) is Some,
            r matches Ok(l) ==> l@ == line(foreign_spec(e.cfun@, "int"@, entry_args(self@.ctypes, *e)->0)),
            r matches Err(err) ==> err is UnsupportedType,
    {
        let mut args: Vec<String> = vec![String::from_str("context")];
        let no = e.outputs.len();
        let mut j: usize = 0;
        assert(views(args@) =~= seq!["context"@]);
        while j < no
            invariant
                no == e.outputs@.len(),
                j <= no,
                forall|x: int| 0 <= x < j ==> (#[trigger] ctype_of(self@.ctypes, e.outputs@[x].ty@)) is Some,
                views(args@) =~= seq!["context"@] + Seq::new(j as nat, |x: int| "ptr "@ + ctype_of(self@.ctypes, e.outputs@[x].ty@)->0),
            decreases no - j,
        {
            let ct = match self.get_ctype(&e.outputs[j].ty) {
                Ok(c) => c,
                Err(err) => {
                    return Err(err);
                },
            };
            let p = cat2("ptr ", ct.as_str());
            proof {
                lemma_views_push(args@, p);
            }
            args.push(p);
            j += 1;
        }
        let ghost outs = views(args@);
        let ni = e.inputs.len();
        let mut j: usize = 0;
        while j < ni
            invariant
                no == e.outputs@.len(),
                ni == e.inputs@.len(),
                j <= ni,
                forall|x: int| 0 <= x < no ==> (#[trigger] ctype_of(self@.ctypes, e.outputs@[x].ty@)) is Some,
                forall|x: int| 0 <= x < j ==> (#[trigger] ctype_of(self@.ctypes, e.inputs@[x].ty@)) is Some,
                outs == seq!["context"@] + Seq::new(no as nat, |x: int| "ptr "@ + ctype_of(self@.ctypes, e.outputs@[x].ty@)->0),
                views(args@) =~= outs + Seq::new(j as nat, |x: int| ctype_of(self@.ctypes, e.inputs@[x].ty@)->0),
            decreases ni - j,
        {
            let ct = match self.get_ctype(&e.inputs[j].ty) {
                Ok(c) => c,
                Err(err) => {
                    return Err(err);
                },
            };
            proof {
                lemma_views_push(args@, ct);
            }
            args.push(ct);
            j += 1;
        }
        Ok(foreign_function(e.cfun.as_str(), "int", &args))
    }

    /// The foreign declarations of a manifest, one per line: those of the
    /// backend's settings, then of each type's and each entry point's C
    /// functions, in the manifest's order. The types are entered in the
    /// tables. Fails with `ManifestParse` where the manifest breaks its
    /// invariant, and with `UnsupportedType` where a type has no OCaml
    /// representation (such as `f16`).
    pub fn declarations(&mut self, m: &Manifest) -> (r: Result<String, Error>)
        ensures
            !m.wf() ==> (r matches Err(e) && e is ManifestParse),
            m.wf() ==> (r is Ok <==> ocaml_declarations(old(self)@, *m) is Some),
            r matches Ok(s) ==> s@ == (ocaml_declarations(old(self)@, *m)->0).0 && final(self)@ == (ocaml_declarations(old(self)@, *m)->0).1,
            m.wf() ==> (r matches Err(e) ==> e is UnsupportedType),
    {
        m.validate()?;
        let ghost st0 = self@;
        let mut fns: Vec<String> = Vec::new();
        match m.backend {
            Backend::Multicore => {
                let a = strings("context_config", "int");
                assert(views(a@) =~= seq!["context_config"@, "int"@]);
                fns.push(foreign_function("futhark_context_config_set_num_threads", "void", &a));
            },
            Backend::CUDA | Backend::OpenCL => {
                let a = strings("context_config", "string");
                assert(views(a@) =~= seq!["context_config"@, "string"@]);
                fns.push(foreign_function("futhark_context_config_set_device", "void", &a));
            },
            _ => {},
        }
        let ghost head = backend_lines(m.backend);
        assert(views(fns@) =~= head);
        let nt = m.types.len();
        let mut i: usize = 0;
        assert(m.types@.take(0) =~= Seq::<(String, Type)>::empty());
        while i < nt
            invariant
                m.wf(),
                st0 == old(self)@,
                nt == m.types@.len(),
                i <= nt,
                self@ == ocaml_declare_all(st0, m.types@.take(i as int)),
            decreases nt - i,
        {
            assert(m.types@.take(i as int + 1).drop_last() =~= m.types@.take(i as int));
            assert(m.types@[i as int].1.wf());
            self.declare(&m.types[i].0, &m.types[i].1);
            i += 1;
        }
        assert(m.types@.take(nt as int) =~= m.types@);
        let ghost mut lines: Seq<Seq<char>> = Seq::empty();
        let mut i: usize = 0;
        while i < nt
            invariant
                m.wf(),
                st0 == old(self)@,
                nt == m.types@.len(),
                i <= nt,
                self@ == ocaml_declare_all(st0, m.types@),
                ocaml_types_lines(self@, m.types@.take(i as int)) == Some(lines),
                views(fns@) =~= head + lines,
            decreases nt - i,
        {
            assert(m.types@.take(i as int + 1).drop_last() =~= m.types@.take(i as int));
            assert(m.types@.take(i as int + 1).last() == m.types@[i as int]);
            assert(m.types@[i as int].1.wf());
            let name = &m.types[i].0;
            let r = match &m.types[i].1 {
                Type::Array(a) => self.array_lines(a, &mut fns),
                Type::Opaque(o) => self.opaque_lines(name, o, &mut fns),
            };
            match r {
                Ok(()) => {},
                Err(e) => {
                    proof {
                        lemma_ocaml_types_none(self@, m.types@, i as int + 1);
                    }
                    return Err(e);
                },
            }
            proof {
                let l = type_lines(self@, name@, m.types@[i as int].1)->0;
                assert(views(fns@) =~= head + (lines + l));
                lines = lines + l;
            }
            i += 1;
        }
        assert(m.types@.take(nt as int) =~= m.types@);
        let ghost type_lines_all = lines;
        let ghost mut elines: Seq<Seq<char>> = Seq::empty();
        let ne = m.entry_points.len();
        let mut i: usize = 0;
        assert(m.entry_points@.take(0) =~= Seq::<(String, Entry)>::empty());
        assert(head + type_lines_all + elines =~= head + type_lines_all);
        while i < ne
            invariant
                m.wf(),
                st0 == old(self)@,
                ne == m.entry_points@.len(),
                i <= ne,
                self@ == ocaml_declare_all(st0, m.types@),
                ocaml_types_lines(self@, m.types@) == Some(type_lines_all),
                ocaml_entries_lines(self@.ctypes, m.entry_points@.take(i as int)) == Some(elines),
                views(fns@) =~= head + type_lines_all + elines,
            decreases ne - i,
        {
            assert(m.entry_points@.take(i as int + 1).drop_last() =~= m.entry_points@.take(i as int));
            assert(m.entry_points@.take(i as int + 1).last() == m.entry_points@[i as int]);
            let l = match self.entry_line(&m.entry_points[i].1) {
                Ok(l) => l,
                Err(e) => {
                    proof {
                        lemma_ocaml_entries_none(self@.ctypes, m.entry_points@, i as int + 1);
                    }
                    return Err(e);
                },
            };
            proof {
                lemma_views_push(fns@, l);
                elines = elines.push(l@);
            }
            fns.push(l);
            i += 1;
        }
        assert(m.entry_points@.take(ne as int) =~= m.entry_points@);
        Ok(join(&fns, "\n"))
    }

    /// OCaml name, kind and ctypes type of manifest type `ty`.
    fn info(&self, ty: &String) -> (r: Result<(String, TypeKind, String), Error>)
        ensures
            r is Ok <==> oinfo(self@, ty@) is Some,
            r matches Ok(p) ==> oinfo(self@, ty@) == Some((p.0@, p.1, p.2@)),
            r matches Err(e) ==> e is UnsupportedType,
    {
        let (v, k) = self.types.resolve(ty)?;
        let c = self.get_ctype(ty)?;
        Ok((v, k, c))
    }

    /// The Bigarray kind value of an element kind: `Bigarray.int64_elt`
    /// gives `Bigarray.int64`.
    fn ba_kind(t: &str) -> (r: String)
        ensures
            r@ == ba_kind_spec(t@),
    {
        proof {
            reveal_strlit("_elt");
        }
        let n = t.unicode_len();
        if n >= 4 && String::from_str(t.substring_char(n - 4, n)) == String::from_str("_elt") {
            t.substring_char(0, n - 4).to_owned()
        } else {
            t.to_owned()
        }
    }

    /// The module of an array type and its signature. Fails where its
    /// elements have no OCaml representation (`f16`).
    pub fn array_module(&self, a: &ArrayType) -> (r: Result<(String, String), Error>)
        requires
            a.wf(),
        ensures
            r is Ok <==> ocaml_array_section(self@, *a) is Some,
            r matches Ok(p) ==> ocaml_array_section(self@, *a) == Some((p.0@, p.1@)),
            r matches Err(e) ==> e is UnsupportedType,
    {
        proof {
            reveal(ocaml_array_section);
        }
        let e = String::from_str(a.elemtype.to_str());
        let (oe, _) = self.ba_elem.resolve(&e)?;
        let (be, _) = self.ba_elt.resolve(&e)?;
        let ce = self.get_ctype(&e)?;
        let n = Self::array_name(a);
        let m = first_uppercase(n.as_str());
        let rank = decimal(a.rank as u64);
        let mut dims: Vec<String> = Vec::new();
        let mut i: i32 = 0;
        while i < a.rank
            invariant
                0 <= i <= a.rank,
                views(dims@) =~= Seq::new(i as nat, |j: int| dim_arg(j)),
            decreases a.rank - i,
        {
            let d = decimal(i as u64);
            let x = cat3("(Int64.of_int dims.(", d.as_str(), "))");
            proof {
                lemma_views_push(dims@, x);
            }
            dims.push(x);
            i += 1;
        }
        let dim_args = join(&dims, " ");
        let kind = Self::ba_kind(be.as_str());
        let ml = emit_array_ml(
            m.as_str(),
            rank.as_str(),
            oe.as_str(),
            be.as_str(),
            kind.as_str(),
            ce.as_str(),
            a.ops.new.as_str(),
            a.ops.free.as_str(),
            a.ops.values.as_str(),
            a.ops.shape.as_str(),
            dim_args.as_str(),
        );
        let mli = emit_array_mli(m.as_str(), oe.as_str(), be.as_str());
        Ok((ml, mli))
    }

    /// The module of an opaque type and its signature: the handle, and for a
    /// record its constructor and one accessor per field. Fails where a
    /// field's type has no OCaml representation.
    pub fn opaque_module(&self, name: &String, o: &OpaqueType) -> (r: Result<(String, String), Error>)
        requires
            o.wf(),
        ensures
            r is Ok <==> ocaml_opaque_section(self@, name@, *o) is Some,
            r matches Ok(p) ==> ocaml_opaque_section(self@, name@, *o) == Some((p.0@, p.1@)),
            r matches Err(e) ==> e is UnsupportedType,
    {
        proof {
            reveal(ocaml_opaque_section);
        }
        let n = Self::opaque_name(name, o);
        let m = first_uppercase(n.as_str());
        let mut ml = emit_opaque_ml(m.as_str(), o.ops.free.as_str());
        let mut mli = emit_opaque_mli(m.as_str());
        match &o.record {
            None => {},
            Some(rec) => {
                let ghost st = self@;
                let ghost fs = rec.fields@;
                let mut params: Vec<String> = Vec::new();
                let mut args: Vec<String> = Vec::new();
                let mut types: Vec<String> = Vec::new();
                let mut projects: Vec<String> = Vec::new();
                let mut sigs: Vec<String> = Vec::new();
                let mut j: usize = 0;
                while j < rec.fields.len()
                    invariant
                        st == self@,
                        o.record == Some(*rec),
                        fs == rec.fields@,
                        j <= fs.len(),
                        forall|x: int| 0 <= x < j ==> (#[trigger] oinfo(st, fs[x].ty@)) is Some,
                        views(params@) =~= field_params(fs, j as nat),
                        views(args@) =~= field_args(st, fs, j as nat),
                        views(types@) =~= field_types(st, fs, j as nat),
                        views(projects@) =~= field_projects(st, fs, j as nat),
                        views(sigs@) =~= field_project_sigs(st, fs, j as nat),
                    decreases fs.len() - j,
                {
                    let f = &rec.fields[j];
                    let (v, k, c) = match self.info(&f.ty) {
                        Ok(p) => p,
                        Err(e) => {
                            assert(!fields_known(st, fs));
                            proof {
                                reveal(ocaml_opaque_section);
                            }
                            return Err(e);
                        },
                    };
                    let fname = f.name.as_str();
                    let param = cat2("field", fname);
                    let arg = if k == TypeKind::Array {
                        cat3("field", fname, ".ptr")
                    } else if k == TypeKind::Opaque {
                        cat3("field", fname, ".opaque_ptr")
                    } else {
                        cat2("field", fname)
                    };
                    let ty = if k != TypeKind::Scalar { cat2(v.as_str(), ".t") } else { v.clone() };
                    let alloc = if k != TypeKind::Scalar { cat2("Bindings.", c.as_str()) } else { c.clone() };
                    let output = if k != TypeKind::Scalar {
                        cat2(v.as_str(), ".of_ptr t.opaque_ctx !@out")
                    } else {
                        "!@out".to_owned()
                    };
                    let project = emit_project_ml(fname, alloc.as_str(), f.project.as_str(), output.as_str());
                    let sig = emit_project_mli(fname, ty.as_str());
                    proof {
                        lemma_views_push(params@, param);
                        lemma_views_push(args@, arg);
                        lemma_views_push(types@, ty);
                        lemma_views_push(projects@, project);
                        lemma_views_push(sigs@, sig);
                    }
                    params.push(param);
                    args.push(arg);
                    types.push(ty);
                    projects.push(project);
                    sigs.push(sig);
                    j += 1;
                }
                let t = "t".to_owned();
                proof {
                    lemma_views_push(types@, t);
                }
                types.push(t);
                let new_params = join(&params, " ");
                let new_args = join(&args, " ");
                let record = emit_record_ml(new_params.as_str(), rec.new.as_str(), new_args.as_str());
                ml.append(record.as_str());
                let all = join(&projects, "");
                ml.append(all.as_str());
                let new_sig = join(&types, " -> ");
                let record_sig = emit_record_mli(new_sig.as_str());
                mli.append(record_sig.as_str());
                let all_sigs = join(&sigs, "");
                mli.append(all_sigs.as_str());
            },
        }
        ml.append(END);
        mli.append(END);
        Ok((ml, mli))
    }

    /// The function that calls an entry point, and its signature. Fails
    /// where one of its types has no OCaml representation.
    pub fn entry_function(&self, name: &String, e: &Entry) -> (r: Result<(String, String), Error>)
        ensures
            r is Ok <==> ocaml_entry_section(self@, name@, *e) is Some,
            r matches Ok(p) ==> ocaml_entry_section(self@, name@, *e) == Some((p.0@, p.1@)),
            r matches Err(err) ==> err is UnsupportedType,
    {
        proof {
            reveal(ocaml_entry_section);
        }
        let ghost st = self@;
        let no = e.outputs.len();
        let mut slots: Vec<String> = Vec::new();
        let mut decls: Vec<String> = Vec::new();
        let mut values: Vec<String> = Vec::new();
        let mut out_types: Vec<String> = Vec::new();
        let mut i: usize = 0;
        while i < no
            invariant
                st == self@,
                no == e.outputs@.len(),
                i <= no,
                forall|x: int| 0 <= x < i ==> (#[trigger] oinfo(st, e.outputs@[x].ty@)) is Some,
                views(slots@) =~= slots_upto(no as nat, i as nat),
                views(decls@) =~= decls_upto(st, *e, i as nat),
                views(values@) =~= values_upto(st, *e, i as nat),
                views(out_types@) =~= out_types_upto(st, *e, i as nat),
            decreases no - i,
        {
            let (v, k, c) = match self.info(&e.outputs[i].ty) {
                Ok(p) => p,
                Err(err) => {
                    assert(!entry_known(st, *e));
                    proof {
                        reveal(ocaml_entry_section);
                    }
                    return Err(err);
                },
            };
            let slot = if no == 1 {
                "out_ptr".to_owned()
            } else {
                let d = decimal(i as u64);
                cat3("out", d.as_str(), "_ptr")
            };
            let decl = if k != TypeKind::Scalar {
                cat3("  let ", slot.as_str(), " = allocate (ptr void) null in")
            } else {
                let mut x = cat3("  let ", slot.as_str(), " = allocate_n ");
                x.append(c.as_str());
                x.append(" ~count:1 in");
                x
            };
            let value = if k != TypeKind::Scalar {
                let mut x = cat3("(", v.as_str(), ".of_ptr ctx !@");
                x.append(slot.as_str());
                x.append(")");
                x
            } else {
                cat2("!@", slot.as_str())
            };
            let ty = if k != TypeKind::Scalar { cat2(v.as_str(), ".t") } else { v };
            proof {
                lemma_views_push(slots@, slot);
                lemma_views_push(decls@, decl);
                lemma_views_push(values@, value);
                lemma_views_push(out_types@, ty);
            }
            slots.push(slot);
            decls.push(decl);
            values.push(value);
            out_types.push(ty);
            i += 1;
        }
        let ni = e.inputs.len();
        let mut args = slots;
        let mut params: Vec<String> = Vec::new();
        let mut sig: Vec<String> = vec!["Context.t".to_owned()];
        let mut j: usize = 0;
        assert(slots_upto(no as nat, no as nat) + in_args_upto(st, *e, 0) =~= slots_upto(no as nat, no as nat));
        assert(seq!["Context.t"@] + in_types_upto(st, *e, 0) =~= seq!["Context.t"@]);
        while j < ni
            invariant
                st == self@,
                no == e.outputs@.len(),
                ni == e.inputs@.len(),
                j <= ni,
                forall|x: int| 0 <= x < no ==> (#[trigger] oinfo(st, e.outputs@[x].ty@)) is Some,
                forall|x: int| 0 <= x < j ==> (#[trigger] oinfo(st, e.inputs@[x].ty@)) is Some,
                views(args@) =~= slots_upto(no as nat, no as nat) + in_args_upto(st, *e, j as nat),
                views(params@) =~= params_upto(st, *e, j as nat),
                views(sig@) =~= seq!["Context.t"@] + in_types_upto(st, *e, j as nat),
            decreases ni - j,
        {
            let (v, k, _c) = match self.info(&e.inputs[j].ty) {
                Ok(p) => p,
                Err(err) => {
                    assert(!entry_known(st, *e));
                    proof {
                        reveal(ocaml_entry_section);
                    }
                    return Err(err);
                },
            };
            let d = decimal(j as u64);
            let arg = if k == TypeKind::Array {
                cat3("input", d.as_str(), ".ptr")
            } else if k == TypeKind::Opaque {
                cat3("input", d.as_str(), ".opaque_ptr")
            } else {
                cat2("input", d.as_str())
            };
            let ty = if k != TypeKind::Scalar { cat2(v.as_str(), ".t") } else { v };
            let mut param = cat4("(input", d.as_str(), " : ", ty.as_str());
            param.append(")");
            proof {
                lemma_views_push(args@, arg);
                lemma_views_push(params@, param);
                lemma_views_push(sig@, ty);
            }
            args.push(arg);
            params.push(param);
            sig.push(ty);
            j += 1;
        }
        let ret = if no == 0 { "unit".to_owned() } else { join(&out_types, " * ") };
        proof {
            lemma_views_push(sig@, ret);
        }
        sig.push(ret);
        assert(views(sig@) =~= seq!["Context.t"@] + in_types_upto(st, *e, ni as nat) + seq![return_type(out_types_upto(st, *e, no as nat))]);
        assert(views(args@) =~= ocaml_call_args(st, *e));
        assert(entry_known(st, *e));
        let entry_params = join(&params, " ");
        let out_decl = join(&decls, "\n");
        let call_args = join(&args, " ");
        let out_return = join(&values, ", ");
        let signature = join(&sig, " -> ");
        let ml = emit_entry_ml(
            name.as_str(),
            entry_params.as_str(),
            out_decl.as_str(),
            e.cfun.as_str(),
            call_args.as_str(),
            out_return.as_str(),
        );
        let mli = emit_entry_mli(name.as_str(), signature.as_str());
        Ok((ml, mli))
    }

    /// The OCaml bindings of a manifest (`.ml`) and their interface
    /// (`.mli`): the foreign declarations, the context, each type's module
    /// and each entry point's function, in the manifest's order. Fails with
    /// `ManifestParse` where the manifest breaks its invariant, and with
    /// `UnsupportedType` where a type has no OCaml representation.
    pub fn generate(&mut self, m: &Manifest) -> (r: Result<(String, String), Error>)
        ensures
            !m.wf() ==> (r matches Err(e) && e is ManifestParse),
            m.wf() ==> (r is Ok <==> ocaml_output(old(self)@, *m) is Some),
            r matches Ok(p) ==> ocaml_output(old(self)@, *m) == Some((p.0@, p.1@)),
            m.wf() ==> (r matches Err(e) ==> e is UnsupportedType),
    {
        let decls = self.declarations(m)?;
        let ghost st = self@;
        let param = match m.backend {
            Backend::Multicore => "?(num_threads = 0)",
            Backend::CUDA | Backend::OpenCL => "?device",
            _ => "",
        };
        let line = match m.backend {
            Backend::Multicore => "    Bindings.futhark_context_config_set_num_threads config num_threads;",
            Backend::CUDA | Backend::OpenCL => "    Option.iter (Bindings.futhark_context_config_set_device config) device;",
            _ => "",
        };
        let sig = match m.backend {
            Backend::Multicore => "?num_threads:int ->",
            Backend::CUDA | Backend::OpenCL => "?device:string ->",
            _ => "",
        };
        let mut ml = emit_bindings(decls.as_str());
        let context = emit_context_ml(param, line);
        ml.append(context.as_str());
        let mut mli = emit_context_mli(sig);
        let ghost head_ml = ml@;
        let ghost head_mli = mli@;
        let ghost mut t_ml: Seq<char> = Seq::empty();
        let ghost mut t_mli: Seq<char> = Seq::empty();
        let nt = m.types.len();
        let mut i: usize = 0;
        assert(m.types@.take(0) =~= Seq::<(String, Type)>::empty());
        assert(head_ml + t_ml =~= head_ml);
        assert(head_mli + t_mli =~= head_mli);
        while i < nt
            invariant
                m.wf(),
                st == self@,
                ocaml_declarations(old(self)@, *m) == Some((decls@, st)),
                nt == m.types@.len(),
                i <= nt,
                types_modules(st, m.types@.take(i as int)) == Some((t_ml, t_mli)),
                ml@ == head_ml + t_ml,
                mli@ == head_mli + t_mli,
            decreases nt - i,
        {
            assert(m.types@.take(i as int + 1).drop_last() =~= m.types@.take(i as int));
            assert(m.types@.take(i as int + 1).last() == m.types@[i as int]);
            assert(m.types@[i as int].1.wf());
            let r = match &m.types[i].1 {
                Type::Array(a) => self.array_module(a),
                Type::Opaque(o) => self.opaque_module(&m.types[i].0, o),
            };
            let (a, b) = match r {
                Ok(p) => p,
                Err(e) => {
                    proof {
                        lemma_types_modules_none(st, m.types@, i as int + 1);
                    }
                    return Err(e);
                },
            };
            ml.append(a.as_str());
            mli.append(b.as_str());
            proof {
                assert(ml@ =~= head_ml + (t_ml + a@));
                assert(mli@ =~= head_mli + (t_mli + b@));
                t_ml = t_ml + a@;
                t_mli = t_mli + b@;
            }
            i += 1;
        }
        assert(m.types@.take(nt as int) =~= m.types@);
        let ghost mid_ml = ml@;
        let ghost mid_mli = mli@;
        let ghost mut f_ml: Seq<char> = Seq::empty();
        let ghost mut f_mli: Seq<char> = Seq::empty();
        let ne = m.entry_points.len();
        let mut i: usize = 0;
        assert(m.entry_points@.take(0) =~= Seq::<(String, Entry)>::empty());
        assert(mid_ml + f_ml =~= mid_ml);
        assert(mid_mli + f_mli =~= mid_mli);
        while i < ne
            invariant
                m.wf(),
                st == self@,
                ocaml_declarations(old(self)@, *m) == Some((decls@, st)),
                ne == m.entry_points@.len(),
                i <= ne,
                entries_functions(st, m.entry_points@.take(i as int)) == Some((f_ml, f_mli)),
                ml@ == mid_ml + f_ml,
                mli@ == mid_mli + f_mli,
            decreases ne - i,
        {
            assert(m.entry_points@.take(i as int + 1).drop_last() =~= m.entry_points@.take(i as int));
            assert(m.entry_points@.take(i as int + 1).last() == m.entry_points@[i as int]);
            let (a, b) = match self.entry_function(&m.entry_points[i].0, &m.entry_points[i].1) {
                Ok(p) => p,
                Err(e) => {
                    proof {
                        lemma_entries_functions_none(st, m.entry_points@, i as int + 1);
                    }
                    return Err(e);
                },
            };
            ml.append(a.as_str());
            mli.append(b.as_str());
            proof {
                assert(ml@ =~= mid_ml + (f_ml + a@));
                assert(mli@ =~= mid_mli + (f_mli + b@));
                f_ml = f_ml + a@;
                f_mli = f_mli + b@;
            }
            i += 1;
        }
        assert(m.entry_points@.take(ne as int) =~= m.entry_points@);
        assert(ml@ =~= bindings_text(decls@) + context_ml_text(extra_param(m.backend), extra_line(m.backend)) + t_ml + f_ml);
        assert(mli@ =~= context_mli_text(extra_mli(m.backend)) + t_mli + f_mli);
        Ok((ml, mli))
    }
}

} // verus!
