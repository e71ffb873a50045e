//! Rust bindings: a context type, a wrapper for each array and opaque type,
//! and a method of the context for each entry point.
use vstd::prelude::*;

use crate::error::Error;
use crate::manifest::{lemma_sorted_unique, ArrayType, Entry, Field, Manifest, OpaqueType, Type};
use crate::registry::{RegistryView, TypeKind, TypeRegistry};
use crate::rust_templates::{
    array_text, context_text, emit_array, emit_context, emit_entry, emit_opaque, emit_project,
    emit_record, entry_text, opaque_text, project_text, record_text,
};
use crate::text::{
    cat2, cat3, cat4, convert_struct_name, decimal, decimal_spec, first_upper_spec,
    first_uppercase, has_char, is_numeric, join, join_spec, lemma_views_push, numeric, strip_prefix,
    struct_name_spec, to_upper, upper_spec, views,
};
use crate::Backend;

verus! {

/// The registry a Rust generation run starts from: `f16` is `half::f16`.
pub open spec fn initial_registry() -> RegistryView {
    RegistryView { foreign: seq![("f16"@, "half::f16"@, TypeKind::Scalar)], wrapper: seq![] }
}

/// C type, kind and wrapper type of manifest type `ty`, if the target has them.
pub open spec fn resolve_full(reg: RegistryView, ty: Seq<char>) -> Option<(Seq<char>, TypeKind, Seq<char>)> {
    match reg.resolve(ty) {
        None => None,
        Some(p) => match reg.resolve_wrapper(p.0) {
            None => None,
            Some(t) => Some((p.0, p.1, t)),
        },
    }
}

pub open spec fn is_handle(k: TypeKind) -> bool {
    k != TypeKind::Scalar
}

// ---------------------------------------------------------------- arrays

pub open spec fn dim_param(i: int) -> Seq<char> {
    "dims["@ + decimal_spec(i as nat) + "]"@
}

pub open spec fn dim_arg(i: int) -> Seq<char> {
    "dim"@ + decimal_spec(i as nat) + ": i64"@
}

pub open spec fn array_futhark_type(a: ArrayType) -> Seq<char> {
    struct_name_spec(a.ctype@)->0
}

/// `Array`, the element type in upper case, `D` and the rank: `ArrayI64D1`.
pub open spec fn array_rust_type(a: ArrayType) -> Seq<char> {
    "Array"@ + upper_spec(a.elemtype.name_spec()) + "D"@ + decimal_spec(a.rank as nat)
}

/// The text emitted for an array type, its elements of the Rust type that
/// the registry gives their scalar type (`half::f16` for `f16`); `None`
/// where the target has none.
#[verifier::opaque]
pub open spec fn array_section(reg: RegistryView, a: ArrayType) -> Option<Seq<char>> {
    match reg.resolve(a.elemtype.name_spec()) {
        None => None,
        Some(p) => Some(array_text(
            array_futhark_type(a),
            array_rust_type(a),
            decimal_spec(a.rank as nat),
            p.0,
            a.ops.new@,
            a.ops.free@,
            a.ops.values@,
            a.ops.shape@,
            join_spec(Seq::new(a.rank as nat, |i: int| dim_param(i)), ", "@),
            join_spec(Seq::new(a.rank as nat, |i: int| dim_arg(i)), ", "@),
        )),
    }
}

// ---------------------------------------------------------------- opaque types

pub open spec fn opaque_futhark_type(o: OpaqueType) -> Seq<char> {
    struct_name_spec(o.ctype@)->0
}

/// The C struct's name less `futhark_opaque_`, its first letter upper case,
/// and `Type` in front where it starts with a numeral or the manifest's
/// name holds a space.
pub open spec fn opaque_rust_type(name: Seq<char>, o: OpaqueType) -> Seq<char> {
    let ft = opaque_futhark_type(o);
    let base = first_upper_spec(ft.subrange(15, ft.len() as int));
    if numeric(base[0]) || name.contains(' ') {
        "Type"@ + base
    } else {
        base
    }
}

pub open spec fn field_call_arg(f: Field, k: TypeKind) -> Seq<char> {
    if k == TypeKind::Opaque {
        "field"@ + f.name@ + ".data"@
    } else if k == TypeKind::Array {
        "field"@ + f.name@ + ".ptr"@
    } else {
        "field"@ + f.name@
    }
}

pub open spec fn field_extern_param(f: Field, a: Seq<char>, k: TypeKind) -> Seq<char> {
    if is_handle(k) {
        "field"@ + f.name@ + ": *const "@ + a
    } else {
        "field"@ + f.name@ + ": "@ + a
    }
}

pub open spec fn field_param(f: Field, k: TypeKind, t: Seq<char>) -> Seq<char> {
    if is_handle(k) {
        "field"@ + f.name@ + ": &"@ + t
    } else {
        "field"@ + f.name@ + ": "@ + t
    }
}

/// The accessor of field `f` of record type `rust_type`.
pub open spec fn field_project(rust_type: Seq<char>, futhark_type: Seq<char>, f: Field, a: Seq<char>, k: TypeKind, t: Seq<char>) -> Seq<char> {
    if is_handle(k) {
        project_text(rust_type, futhark_type, f.name@, f.project@, "*mut "@ + a, t, "Ok("@ + t + "::from_ptr(self.ctx, out))"@)
    } else {
        project_text(rust_type, futhark_type, f.name@, f.project@, a, t, "Ok(out)"@)
    }
}

/// Every field's type resolves.
pub open spec fn fields_resolve(reg: RegistryView, fields: Seq<Field>) -> bool {
    forall|j: int| 0 <= j < fields.len() ==> (#[trigger] resolve_full(reg, fields[j].ty@)) is Some
}

pub open spec fn rf(reg: RegistryView, ty: Seq<char>) -> (Seq<char>, TypeKind, Seq<char>) {
    resolve_full(reg, ty)->0
}

pub open spec fn projects_upto(reg: RegistryView, rt: Seq<char>, ft: Seq<char>, fs: Seq<Field>, n: nat) -> Seq<Seq<char>> {
    Seq::new(n, |j: int| field_project(rt, ft, fs[j], rf(reg, fs[j].ty@).0, rf(reg, fs[j].ty@).1, rf(reg, fs[j].ty@).2))
}

pub open spec fn params_upto(reg: RegistryView, fs: Seq<Field>, n: nat) -> Seq<Seq<char>> {
    Seq::new(n, |j: int| field_param(fs[j], rf(reg, fs[j].ty@).1, rf(reg, fs[j].ty@).2))
}

pub open spec fn args_upto(reg: RegistryView, fs: Seq<Field>, n: nat) -> Seq<Seq<char>> {
    Seq::new(n, |j: int| field_call_arg(fs[j], rf(reg, fs[j].ty@).1))
}

pub open spec fn externs_upto(reg: RegistryView, fs: Seq<Field>, n: nat) -> Seq<Seq<char>> {
    Seq::new(n, |j: int| field_extern_param(fs[j], rf(reg, fs[j].ty@).0, rf(reg, fs[j].ty@).1))
}

/// The text emitted for an opaque type, or `None` where a field's type has
/// no representation.
#[verifier::opaque]
pub open spec fn opaque_section(reg: RegistryView, name: Seq<char>, o: OpaqueType) -> Option<Seq<char>> {
    let ft = opaque_futhark_type(o);
    let rt = opaque_rust_type(name, o);
    let head = opaque_text(ft, rt, o.ops.free@);
    match o.record {
        None => Some(head),
        Some(rec) => {
            let fs = rec.fields@;
            let n = fs.len();
            if !fields_resolve(reg, fs) {
                None
            } else {
                Some(head + join_spec(projects_upto(reg, rt, ft, fs, n), ""@) + record_text(
                    rt,
                    ft,
                    rec.new@,
                    join_spec(params_upto(reg, fs, n), ", "@),
                    join_spec(args_upto(reg, fs, n), ", "@),
                    join_spec(externs_upto(reg, fs, n), ", "@),
                ))
            }
        },
    }
}

// ---------------------------------------------------------------- entry points

pub open spec fn out_extern_param(i: int, a: Seq<char>, k: TypeKind) -> Seq<char> {
    if is_handle(k) {
        "out"@ + decimal_spec(i as nat) + ": *mut *mut "@ + a
    } else {
        "out"@ + decimal_spec(i as nat) + ": *mut "@ + a
    }
}

pub open spec fn out_return(i: int, k: TypeKind, t: Seq<char>) -> Seq<char> {
    if is_handle(k) {
        t + "::from_ptr(self, out"@ + decimal_spec(i as nat) + ".assume_init())"@
    } else {
        "out"@ + decimal_spec(i as nat) + ".assume_init()"@
    }
}

pub open spec fn out_decl(i: int) -> Seq<char> {
    "let mut out"@ + decimal_spec(i as nat) + " = std::mem::MaybeUninit::zeroed();"@
}

/// The output slot handed to the C function for output `i`.
pub open spec fn out_arg(i: int) -> Seq<char> {
    "out"@ + decimal_spec(i as nat) + ".as_mut_ptr()"@
}

pub open spec fn input_extern_param(i: int, a: Seq<char>, k: TypeKind) -> Seq<char> {
    if is_handle(k) {
        "input"@ + decimal_spec(i as nat) + ": *const "@ + a
    } else {
        "input"@ + decimal_spec(i as nat) + ": "@ + a
    }
}

pub open spec fn input_param(i: int, k: TypeKind, t: Seq<char>) -> Seq<char> {
    if is_handle(k) {
        "input"@ + decimal_spec(i as nat) + ": &"@ + t
    } else {
        "input"@ + decimal_spec(i as nat) + ": "@ + t
    }
}

/// The argument handed to the C function for input `i`: the raw pointer of
/// an array or opaque value, a scalar as it is.
pub open spec fn input_arg(i: int, k: TypeKind) -> Seq<char> {
    if k == TypeKind::Array {
        "input"@ + decimal_spec(i as nat) + ".ptr as *mut _"@
    } else if k == TypeKind::Opaque {
        "input"@ + decimal_spec(i as nat) + ".data as *mut _"@
    } else {
        "input"@ + decimal_spec(i as nat)
    }
}

/// Every input and output type of the entry point resolves.
pub open spec fn entry_resolves(reg: RegistryView, e: Entry) -> bool {
    &&& forall|j: int| 0 <= j < e.outputs@.len() ==> (#[trigger] resolve_full(reg, e.outputs@[j].ty@)) is Some
    &&& forall|j: int| 0 <= j < e.inputs@.len() ==> (#[trigger] resolve_full(reg, e.inputs@[j].ty@)) is Some
}

pub open spec fn out_kind(reg: RegistryView, e: Entry, j: int) -> TypeKind {
    rf(reg, e.outputs@[j].ty@).1
}

pub open spec fn input_kind(reg: RegistryView, e: Entry, j: int) -> TypeKind {
    rf(reg, e.inputs@[j].ty@).1
}

pub open spec fn out_args_upto(n: nat) -> Seq<Seq<char>> {
    Seq::new(n, |j: int| out_arg(j))
}

pub open spec fn input_args_upto(reg: RegistryView, e: Entry, n: nat) -> Seq<Seq<char>> {
    Seq::new(n, |j: int| input_arg(j, input_kind(reg, e, j)))
}

pub open spec fn out_externs_upto(reg: RegistryView, e: Entry, n: nat) -> Seq<Seq<char>> {
    Seq::new(n, |j: int| out_extern_param(j, rf(reg, e.outputs@[j].ty@).0, out_kind(reg, e, j)))
}

pub open spec fn input_externs_upto(reg: RegistryView, e: Entry, n: nat) -> Seq<Seq<char>> {
    Seq::new(n, |j: int| input_extern_param(j, rf(reg, e.inputs@[j].ty@).0, input_kind(reg, e, j)))
}

pub open spec fn input_params_upto(reg: RegistryView, e: Entry, n: nat) -> Seq<Seq<char>> {
    Seq::new(n, |j: int| input_param(j, input_kind(reg, e, j), rf(reg, e.inputs@[j].ty@).2))
}

pub open spec fn out_types_upto(reg: RegistryView, e: Entry, n: nat) -> Seq<Seq<char>> {
    Seq::new(n, |j: int| rf(reg, e.outputs@[j].ty@).2)
}

pub open spec fn returns_upto(reg: RegistryView, e: Entry, n: nat) -> Seq<Seq<char>> {
    Seq::new(n, |j: int| out_return(j, out_kind(reg, e, j), rf(reg, e.outputs@[j].ty@).2))
}

pub open spec fn decls_upto(n: nat) -> Seq<Seq<char>> {
    Seq::new(n, |j: int| out_decl(j))
}

/// The arguments of the call to the entry point's C function, after the
/// context: one slot per output, then one argument per input, in order.
pub open spec fn entry_call_args(reg: RegistryView, e: Entry) -> Seq<Seq<char>> {
    out_args_upto(e.outputs@.len()) + input_args_upto(reg, e, e.inputs@.len())
}

pub open spec fn entry_extern_params(reg: RegistryView, e: Entry) -> Seq<Seq<char>> {
    out_externs_upto(reg, e, e.outputs@.len()) + input_externs_upto(reg, e, e.inputs@.len())
}

/// No output gives `()`, one gives itself, more give a tuple.
pub open spec fn tuple_of(parts: Seq<Seq<char>>) -> Seq<char> {
    if parts.len() == 0 {
        "()"@
    } else if parts.len() == 1 {
        join_spec(parts, ", "@)
    } else {
        "("@ + join_spec(parts, ", "@) + ")"@
    }
}

/// The text emitted for an entry point, or `None` where one of its types has
/// no representation.
#[verifier::opaque]
pub open spec fn entry_section(reg: RegistryView, name: Seq<char>, e: Entry) -> Option<Seq<char>> {
    if !entry_resolves(reg, e) {
        None
    } else {
        Some(entry_text(
            name,
            e.cfun@,
            join_spec(input_params_upto(reg, e, e.inputs@.len()), ", "@),
            tuple_of(out_types_upto(reg, e, e.outputs@.len())),
            join_spec(decls_upto(e.outputs@.len()), ";\n"@),
            join_spec(entry_call_args(reg, e), ", "@),
            tuple_of(returns_upto(reg, e, e.outputs@.len())),
            join_spec(entry_extern_params(reg, e), ", "@),
        ))
    }
}

// ---------------------------------------------------------------- bindings

pub const HEADER: &'static str = "// Generated by futhark-bindgen\n\n";

pub open spec fn backend_options(b: Backend) -> Seq<char> {
    match b {
        Backend::Multicore => "pub fn threads(mut self, n: u32) -> Options { self.num_threads = n as u32; self }"@,
        Backend::CUDA | Backend::OpenCL => "pub fn device(mut self, s: impl AsRef<str>) -> Options { self.device = Some(std::ffi::CString::new(s.as_ref()).expect(\"Invalid device\")); self }"@,
        _ => ""@,
    }
}

pub open spec fn configure_num_threads(b: Backend) -> Seq<char> {
    if b == Backend::Multicore {
        "futhark_context_config_set_num_threads(config, options.num_threads as std::os::raw::c_int);"@
    } else {
        "let _ = &options.num_threads;"@
    }
}

pub open spec fn configure_set_device(b: Backend) -> Seq<char> {
    if b == Backend::CUDA || b == Backend::OpenCL {
        "if let Some(d) = &options.device { futhark_context_config_set_device(config, d.as_ptr()); }"@
    } else {
        "let _ = &options.device;"@
    }
}

pub open spec fn backend_extern_functions(b: Backend) -> Seq<char> {
    match b {
        Backend::Multicore => "fn futhark_context_config_set_num_threads(_: *mut futhark_context_config, _: std::os::raw::c_int);"@,
        Backend::CUDA | Backend::OpenCL => "fn futhark_context_config_set_device(_: *mut futhark_context_config, _: *const std::os::raw::c_char);"@,
        _ => ""@,
    }
}

/// The text emitted before any type: a header line, then the context.
pub open spec fn bindings_section(b: Backend) -> Seq<char> {
    HEADER@ + context_text(backend_options(b), configure_num_threads(b), configure_set_device(b), backend_extern_functions(b))
}

// ---------------------------------------------------------------- folds over the manifest

/// The registry after declaring a type: manifest name to C type, and C
/// type to wrapper type.
pub open spec fn declare_spec(reg: RegistryView, name: Seq<char>, t: Type) -> RegistryView {
    match t {
        Type::Array(a) => reg.register(name, array_futhark_type(a), TypeKind::Array).register_wrapper(
            array_futhark_type(a),
            array_rust_type(a),
        ),
        Type::Opaque(o) => reg.register(name, opaque_futhark_type(o), TypeKind::Opaque).register_wrapper(
            opaque_futhark_type(o),
            opaque_rust_type(name, o),
        ),
    }
}

/// The registry after declaring the given types, in order.
pub open spec fn declare_all(reg: RegistryView, ts: Seq<(String, Type)>) -> RegistryView
    decreases ts.len(),
{
    if ts.len() == 0 {
        reg
    } else {
        declare_spec(declare_all(reg, ts.drop_last()), ts.last().0@, ts.last().1)
    }
}

/// The text emitted for one type of the manifest.
pub open spec fn type_section(reg: RegistryView, name: Seq<char>, t: Type) -> Option<Seq<char>> {
    match t {
        Type::Array(a) => array_section(reg, a),
        Type::Opaque(o) => opaque_section(reg, name, o),
    }
}

/// The text of the given types, in order.
pub open spec fn types_text(reg: RegistryView, ts: Seq<(String, Type)>) -> Option<Seq<char>>
    decreases ts.len(),
{
    if ts.len() == 0 {
        Some(Seq::empty())
    } else {
        match types_text(reg, ts.drop_last()) {
            None => None,
            Some(p) => match type_section(reg, ts.last().0@, ts.last().1) {
                None => None,
                Some(q) => Some(p + q),
            },
        }
    }
}

/// The text of the given entry points, in order.
pub open spec fn entries_text(reg: RegistryView, es: Seq<(String, Entry)>) -> Option<Seq<char>>
    decreases es.len(),
{
    if es.len() == 0 {
        Some(Seq::empty())
    } else {
        match entries_text(reg, es.drop_last()) {
            None => None,
            Some(p) => match entry_section(reg, es.last().0@, es.last().1) {
                None => None,
                Some(q) => Some(p + q),
            },
        }
    }
}

/// The Rust bindings of a manifest, starting from registry `reg`: every
/// type is declared first, then the context, each type and each entry point
/// are emitted in the manifest's order; `None` where a type has no
/// representation.
pub open spec fn rust_output(reg: RegistryView, m: Manifest) -> Option<Seq<char>> {
    let all = declare_all(reg, m.types@);
    match types_text(all, m.types@) {
        None => None,
        Some(t) => match entries_text(all, m.entry_points@) {
            None => None,
            Some(e) => Some(bindings_section(m.backend) + t + e),
        },
    }
}

/// Once a prefix of the types fails, so do all of them.
proof fn lemma_types_text_none(reg: RegistryView, ts: Seq<(String, Type)>, k: int)
    requires
        0 <= k <= ts.len(),
        types_text(reg, ts.take(k)) is None,
    ensures
        types_text(reg, ts) is None,
    decreases ts.len() - k,
{
    if k < ts.len() {
        assert(ts.take(k + 1).drop_last() =~= ts.take(k));
        lemma_types_text_none(reg, ts, k + 1);
    } else {
        assert(ts.take(k) =~= ts);
    }
}

/// Once a prefix of the entry points fails, so do all of them.
proof fn lemma_entries_text_none(reg: RegistryView, es: Seq<(String, Entry)>, k: int)
    requires
        0 <= k <= es.len(),
        entries_text(reg, es.take(k)) is None,
    ensures
        entries_text(reg, es) is None,
    decreases es.len() - k,
{
    if k < es.len() {
        assert(es.take(k + 1).drop_last() =~= es.take(k));
        lemma_entries_text_none(reg, es, k + 1);
    } else {
        assert(es.take(k) =~= es);
    }
}

// ---------------------------------------------------------------- laws

/// The method emitted for an entry point calls the entry point's C function
/// with the context, then exactly one output slot per declared output, then
/// exactly one argument per declared input, each in declared order: an
/// array or opaque input unwrapped to its raw pointer, a scalar as it is.
pub proof fn lemma_entry_call_shape(reg: RegistryView, name: Seq<char>, e: Entry)
    ensures
        entry_call_args(reg, e).len() == e.outputs@.len() + e.inputs@.len(),
        forall|i: int| 0 <= i < e.outputs@.len() ==> #[trigger] entry_call_args(reg, e)[i] == out_arg(i),
        forall|j: int|
            0 <= j < e.inputs@.len() ==> #[trigger] entry_call_args(reg, e)[e.outputs@.len() + j]
                == input_arg(j, input_kind(reg, e, j)),
        entry_section(reg, name, e) matches Some(txt) ==> txt == entry_text(
            name,
            e.cfun@,
            join_spec(input_params_upto(reg, e, e.inputs@.len()), ", "@),
            tuple_of(out_types_upto(reg, e, e.outputs@.len())),
            join_spec(decls_upto(e.outputs@.len()), ";\n"@),
            join_spec(entry_call_args(reg, e), ", "@),
            tuple_of(returns_upto(reg, e, e.outputs@.len())),
            join_spec(entry_extern_params(reg, e), ", "@),
        ),
{
    reveal(entry_section);
}

/// Generation depends on the contents of the manifest's maps, not on the
/// order in which they were built: two valid manifests with the same
/// backend, types and entry points give the same bindings.
pub proof fn lemma_generation_deterministic(reg: RegistryView, m1: Manifest, m2: Manifest)
    requires
        m1.wf(),
        m2.wf(),
        m1.backend == m2.backend,
        forall|p: (String, Type)| m1.types@.contains(p) <==> m2.types@.contains(p),
        forall|p: (String, Entry)| m1.entry_points@.contains(p) <==> m2.entry_points@.contains(p),
    ensures
        rust_output(reg, m1) == rust_output(reg, m2),
{
    lemma_sorted_unique(m1.types@, m2.types@);
    lemma_sorted_unique(m1.entry_points@, m2.entry_points@);
}

// ---------------------------------------------------------------- emission

fn tuple(parts: &Vec<String>) -> (r: String)
    ensures
        r@ == tuple_of(views(parts@)),
{
    if parts.len() == 0 {
        "()".to_owned()
    } else if parts.len() == 1 {
        join(parts, ", ")
    } else {
        let inner = join(parts, ", ");
        cat3("(", inner.as_str(), ")")
    }
}

fn emit_field_project(rt: &str, ft: &str, f: &Field, a: &str, k: TypeKind, t: &str) -> (r: String)
    ensures
        r@ == field_project(rt@, ft@, *f, a@, k, t@),
{
    if k != TypeKind::Scalar {
        let ffty = cat2("*mut ", a);
        let output = cat3("Ok(", t, "::from_ptr(self.ctx, out))");
        emit_project(rt, ft, f.name.as_str(), f.project.as_str(), ffty.as_str(), t, output.as_str())
    } else {
        emit_project(rt, ft, f.name.as_str(), f.project.as_str(), a, t, "Ok(out)")
    }
}

fn emit_field_parts(f: &Field, a: &str, k: TypeKind, t: &str) -> (r: (String, String, String))
    ensures
        r.0@ == field_param(*f, k, t@),
        r.1@ == field_call_arg(*f, k),
        r.2@ == field_extern_param(*f, a@, k),
{
    let n = f.name.as_str();
    let param = if k != TypeKind::Scalar { cat4("field", n, ": &", t) } else { cat4("field", n, ": ", t) };
    let arg = if k == TypeKind::Opaque {
        cat3("field", n, ".data")
    } else if k == TypeKind::Array {
        cat3("field", n, ".ptr")
    } else {
        cat2("field", n)
    };
    let ext = if k != TypeKind::Scalar { cat4("field", n, ": *const ", a) } else { cat4("field", n, ": ", a) };
    (param, arg, ext)
}

/// The pieces of output `i`: C parameter, returned expression, declaration
/// of its slot, and the slot handed to the call.
fn emit_output_parts(i: usize, a: &str, k: TypeKind, t: &str) -> (r: (String, String, String, String))
    ensures
        r.0@ == out_extern_param(i as int, a@, k),
        r.1@ == out_return(i as int, k, t@),
        r.2@ == out_decl(i as int),
        r.3@ == out_arg(i as int),
{
    let d = decimal(i as u64);
    let ds = d.as_str();
    let ext = if k != TypeKind::Scalar { cat4("out", ds, ": *mut *mut ", a) } else { cat4("out", ds, ": *mut ", a) };
    let ret = if k != TypeKind::Scalar {
        cat4(t, "::from_ptr(self, out", ds, ".assume_init())")
    } else {
        cat3("out", ds, ".assume_init()")
    };
    let decl = cat3("let mut out", ds, " = std::mem::MaybeUninit::zeroed();");
    let arg = cat3("out", ds, ".as_mut_ptr()");
    (ext, ret, decl, arg)
}

/// The pieces of input `i`: C parameter, method parameter and argument.
fn emit_input_parts(i: usize, a: &str, k: TypeKind, t: &str) -> (r: (String, String, String))
    ensures
        r.0@ == input_extern_param(i as int, a@, k),
        r.1@ == input_param(i as int, k, t@),
        r.2@ == input_arg(i as int, k),
{
    let d = decimal(i as u64);
    let ds = d.as_str();
    let ext = if k != TypeKind::Scalar { cat4("input", ds, ": *const ", a) } else { cat4("input", ds, ": ", a) };
    let param = if k != TypeKind::Scalar { cat4("input", ds, ": &", t) } else { cat4("input", ds, ": ", t) };
    let arg = if k == TypeKind::Array {
        cat3("input", ds, ".ptr as *mut _")
    } else if k == TypeKind::Opaque {
        cat3("input", ds, ".data as *mut _")
    } else {
        cat2("input", ds)
    };
    (ext, param, arg)
}

/// The Rust backend: the registry of the run's types.
pub struct Rust {
    registry: TypeRegistry,
}

impl View for Rust {
    type V = RegistryView;

    closed spec fn view(&self) -> RegistryView {
        self.registry@
    }
}

impl Default for Rust {
    fn default() -> (r: Rust)
        ensures
            r@ == initial_registry(),
    {
        let mut registry = TypeRegistry::new();
        registry.register(String::from_str("f16"), String::from_str("half::f16"), TypeKind::Scalar);
        let r = Rust { registry };
        assert(r@.foreign =~= initial_registry().foreign);
        assert(r@.wrapper =~= initial_registry().wrapper);
        r
    }
}

impl Rust {
    /// Resolves manifest type `ty` to its C type, kind and wrapper type.
    fn resolve(&self, ty: &String) -> (r: Result<(String, TypeKind, String), Error>)
        ensures
            r is Ok <==> resolve_full(self@, ty@) is Some,
            r matches Ok(p) ==> resolve_full(self@, ty@) == Some((p.0@, p.1, p.2@)),
            r matches Err(e) ==> e is UnsupportedType,
    {
        let (a, k) = self.registry.resolve(ty)?;
        let t = self.registry.resolve_wrapper(&a)?;
        Ok((a, k, t))
    }

    /// The context, its options and the error type, for the given backend.
    pub fn bindings(&self, backend: Backend) -> (r: String)
        ensures
            r@ == bindings_section(backend),
    {
        let options = match backend {
            Backend::Multicore => "pub fn threads(mut self, n: u32) -> Options { self.num_threads = n as u32; self }",
            Backend::CUDA | Backend::OpenCL => "pub fn device(mut self, s: impl AsRef<str>) -> Options { self.device = Some(std::ffi::CString::new(s.as_ref()).expect(\"Invalid device\")); self }",
            _ => "",
        };
        let threads = if backend == Backend::Multicore {
            "futhark_context_config_set_num_threads(config, options.num_threads as std::os::raw::c_int);"
        } else {
            "let _ = &options.num_threads;"
        };
        let device = if backend == Backend::CUDA || backend == Backend::OpenCL {
            "if let Some(d) = &options.device { futhark_context_config_set_device(config, d.as_ptr()); }"
        } else {
            "let _ = &options.device;"
        };
        let externs = match backend {
            Backend::Multicore => "fn futhark_context_config_set_num_threads(_: *mut futhark_context_config, _: std::os::raw::c_int);",
            Backend::CUDA | Backend::OpenCL => "fn futhark_context_config_set_device(_: *mut futhark_context_config, _: *const std::os::raw::c_char);",
            _ => "",
        };
        let ctx = emit_context(options, threads, device, externs);
        let mut r = HEADER.to_owned();
        r.append(ctx.as_str());
        r
    }

    /// The wrapper of an array type. Fails where its elements have no
    /// representation.
    pub fn array_type(&self, a: &ArrayType) -> (r: Result<String, Error>)
        requires
            a.wf(),
        ensures
            r is Ok <==> array_section(self@, *a) is Some,
            r matches Ok(s) ==> array_section(self@, *a) == Some(s@),
            r matches Err(e) ==> e is UnsupportedType,
    {
        proof {
            reveal(array_section);
        }
        let ft = convert_struct_name(a.ctype.as_str()).unwrap();
        let (elem, _) = self.registry.resolve(&String::from_str(a.elemtype.to_str()))?;
        let rank = decimal(a.rank as u64);
        let rt = Self::array_name(a);
        let mut params: Vec<String> = Vec::new();
        let mut args: Vec<String> = Vec::new();
        let mut i: i32 = 0;
        while i < a.rank
            invariant
                0 <= i <= a.rank,
                views(params@) =~= Seq::new(i as nat, |j: int| dim_param(j)),
                views(args@) =~= Seq::new(i as nat, |j: int| dim_arg(j)),
            decreases a.rank - i,
        {
            let d = decimal(i as u64);
            let p = cat3("dims[", d.as_str(), "]");
            let q = cat3("dim", d.as_str(), ": i64");
            proof {
                lemma_views_push(params@, p);
                lemma_views_push(args@, q);
            }
            params.push(p);
            args.push(q);
            i += 1;
        }
        let dim_params = join(&params, ", ");
        let dim_args = join(&args, ", ");
        let r = emit_array(
            ft,
            rt.as_str(),
            rank.as_str(),
            elem.as_str(),
            a.ops.new.as_str(),
            a.ops.free.as_str(),
            a.ops.values.as_str(),
            a.ops.shape.as_str(),
            dim_params.as_str(),
            dim_args.as_str(),
        );
        Ok(r)
    }

    /// The wrapper type of an array type.
    fn array_name(a: &ArrayType) -> (r: String)
        requires
            a.wf(),
        ensures
            r@ == array_rust_type(*a),
    {
        let rank = decimal(a.rank as u64);
        let upper = to_upper(a.elemtype.to_str());
        cat4("Array", upper.as_str(), "D", rank.as_str())
    }

    /// Declares a type: registers its C type under its manifest name and its
    /// wrapper type under its C type.
    pub fn declare(&mut self, name: &String, t: &Type)
        requires
            t.wf(),
        ensures
            final(self)@ == declare_spec(old(self)@, name@, *t),
    {
        match t {
            Type::Array(a) => {
                let ft = convert_struct_name(a.ctype.as_str()).unwrap();
                self.registry.register(name.clone(), ft.to_owned(), TypeKind::Array);
                self.registry.register_wrapper(ft.to_owned(), Self::array_name(a));
            },
            Type::Opaque(o) => {
                let ft = convert_struct_name(o.ctype.as_str()).unwrap();
                self.registry.register(name.clone(), ft.to_owned(), TypeKind::Opaque);
                self.registry.register_wrapper(ft.to_owned(), Self::opaque_name(name, o));
            },
        }
    }

    /// The name of the wrapper of an opaque type.
    fn opaque_name(name: &String, o: &OpaqueType) -> (r: String)
        requires
            o.wf(),
        ensures
            r@ == opaque_rust_type(name@, *o),
    {
        let ft = convert_struct_name(o.ctype.as_str()).unwrap();
        proof {
            reveal_strlit("futhark_opaque_");
        }
        let rest = strip_prefix(ft, "futhark_opaque_").unwrap();
        let base = first_uppercase(rest);
        assert(rest@ == opaque_futhark_type(*o).subrange(15, opaque_futhark_type(*o).len() as int));
        if is_numeric(base.as_str().get_char(0)) || has_char(name.as_str(), ' ') {
            cat2("Type", base.as_str())
        } else {
            base
        }
    }

    /// The wrapper of an opaque type, with the constructor and accessors of
    /// a record. Fails where a field's type has no representation.
    pub fn opaque_type(&self, name: &String, o: &OpaqueType) -> (r: Result<String, Error>)
        requires
            o.wf(),
        ensures
            r is Ok <==> opaque_section(self@, name@, *o) is Some,
            r matches Ok(s) ==> s@ == opaque_section(self@, name@, *o)->0,
            r matches Err(e) ==> e is UnsupportedType,
    {
        proof {
            reveal(opaque_section);
        }
        let ft = convert_struct_name(o.ctype.as_str()).unwrap();
        let rt = Self::opaque_name(name, o);
        let mut out = emit_opaque(ft, rt.as_str(), o.ops.free.as_str());
        match &o.record {
            None => {},
            Some(rec) => {
                let ghost reg = self@;
                let ghost fs = rec.fields@;
                let mut projects: Vec<String> = Vec::new();
                let mut params: Vec<String> = Vec::new();
                let mut args: Vec<String> = Vec::new();
                let mut externs: Vec<String> = Vec::new();
                let mut j: usize = 0;
                while j < rec.fields.len()
                    invariant
                        reg == self@,
                        o.record == Some(*rec),
                        fs == rec.fields@,
                        j <= fs.len(),
                        ft@ == opaque_futhark_type(*o),
                        rt@ == opaque_rust_type(name@, *o),
                        forall|x: int| 0 <= x < j ==> (#[trigger] resolve_full(reg, fs[x].ty@)) is Some,
                        views(projects@) =~= projects_upto(reg, rt@, ft@, fs, j as nat),
                        views(params@) =~= params_upto(reg, fs, j as nat),
                        views(args@) =~= args_upto(reg, fs, j as nat),
                        views(externs@) =~= externs_upto(reg, fs, j as nat),
                    decreases fs.len() - j,
                {
                    let f = &rec.fields[j];
                    let (a, k, t) = match self.resolve(&f.ty) {
                        Ok(p) => p,
                        Err(e) => {
                            assert(!fields_resolve(reg, fs));
                            proof {
                                reveal(opaque_section);
                            }
                            return Err(e);
                        },
                    };
                    let pr = emit_field_project(rt.as_str(), ft, f, a.as_str(), k, t.as_str());
                    let (p, c, x) = emit_field_parts(f, a.as_str(), k, t.as_str());
                    proof {
                        lemma_views_push(projects@, pr);
                        lemma_views_push(params@, p);
                        lemma_views_push(args@, c);
                        lemma_views_push(externs@, x);
                    }
                    projects.push(pr);
                    params.push(p);
                    args.push(c);
                    externs.push(x);
                    j += 1;
                }
                let all = join(&projects, "");
                out.append(all.as_str());
                let new_params = join(&params, ", ");
                let new_args = join(&args, ", ");
                let new_externs = join(&externs, ", ");
                let record = emit_record(rt.as_str(), ft, rec.new.as_str(), new_params.as_str(), new_args.as_str(), new_externs.as_str());
                out.append(record.as_str());
            },
        }
        Ok(out)
    }

    /// The method of the context that calls an entry point. Fails where one
    /// of its types has no representation.
    pub fn entry(&self, name: &String, e: &Entry) -> (r: Result<String, Error>)
        ensures
            r is Ok <==> entry_section(self@, name@, *e) is Some,
            r matches Ok(s) ==> s@ == entry_section(self@, name@, *e)->0,
            r matches Err(err) ==> err is UnsupportedType,
    {
        proof {
            reveal(entry_section);
        }
        let ghost reg = self@;
        let mut externs: Vec<String> = Vec::new();
        let mut rets: Vec<String> = Vec::new();
        let mut decls: Vec<String> = Vec::new();
        let mut args: Vec<String> = Vec::new();
        let mut types: Vec<String> = Vec::new();
        let no = e.outputs.len();
        let mut j: usize = 0;
        while j < no
            invariant
                reg == self@,
                no == e.outputs@.len(),
                j <= no,
                forall|x: int| 0 <= x < j ==> (#[trigger] resolve_full(reg, e.outputs@[x].ty@)) is Some,
                views(externs@) =~= out_externs_upto(reg, *e, j as nat),
                views(rets@) =~= returns_upto(reg, *e, j as nat),
                views(decls@) =~= decls_upto(j as nat),
                views(args@) =~= out_args_upto(j as nat),
                views(types@) =~= out_types_upto(reg, *e, j as nat),
            decreases no - j,
        {
            let (a, k, t) = match self.resolve(&e.outputs[j].ty) {
                Ok(p) => p,
                Err(err) => {
                    assert(!entry_resolves(reg, *e));
                    proof {
                        reveal(entry_section);
                    }
                    return Err(err);
                },
            };
            let (x, ret, decl, arg) = emit_output_parts(j, a.as_str(), k, t.as_str());
            proof {
                lemma_views_push(externs@, x);
                lemma_views_push(rets@, ret);
                lemma_views_push(decls@, decl);
                lemma_views_push(args@, arg);
                lemma_views_push(types@, t);
            }
            externs.push(x);
            rets.push(ret);
            decls.push(decl);
            args.push(arg);
            types.push(t);
            j += 1;
        }
        let mut params: Vec<String> = Vec::new();
        let ni = e.inputs.len();
        let mut j: usize = 0;
        assert(out_externs_upto(reg, *e, no as nat) + input_externs_upto(reg, *e, 0) =~= out_externs_upto(reg, *e, no as nat));
        assert(out_args_upto(no as nat) + input_args_upto(reg, *e, 0) =~= out_args_upto(no as nat));
        while j < ni
            invariant
                reg == self@,
                no == e.outputs@.len(),
                ni == e.inputs@.len(),
                j <= ni,
                forall|x: int| 0 <= x < no ==> (#[trigger] resolve_full(reg, e.outputs@[x].ty@)) is Some,
                forall|x: int| 0 <= x < j ==> (#[trigger] resolve_full(reg, e.inputs@[x].ty@)) is Some,
                views(externs@) =~= out_externs_upto(reg, *e, no as nat) + input_externs_upto(reg, *e, j as nat),
                views(args@) =~= out_args_upto(no as nat) + input_args_upto(reg, *e, j as nat),
                views(params@) =~= input_params_upto(reg, *e, j as nat),
            decreases ni - j,
        {
            let (a, k, t) = match self.resolve(&e.inputs[j].ty) {
                Ok(p) => p,
                Err(err) => {
                    assert(!entry_resolves(reg, *e));
                    proof {
                        reveal(entry_section);
                    }
                    return Err(err);
                },
            };
            let (x, param, arg) = emit_input_parts(j, a.as_str(), k, t.as_str());
            proof {
                lemma_views_push(externs@, x);
                lemma_views_push(params@, param);
                lemma_views_push(args@, arg);
            }
            externs.push(x);
            params.push(param);
            args.push(arg);
            j += 1;
        }
        let entry_params = join(&params, ", ");
        let return_type = tuple(&types);
        let out_decl = join(&decls, ";\n");
        let call_args = join(&args, ", ");
        let entry_return = tuple(&rets);
        let extern_params = join(&externs, ", ");
        Ok(emit_entry(
            name.as_str(),
            e.cfun.as_str(),
            entry_params.as_str(),
            return_type.as_str(),
            out_decl.as_str(),
            call_args.as_str(),
            entry_return.as_str(),
            extern_params.as_str(),
        ))
    }
    /// The bindings of a manifest: the context, then each type and each
    /// entry point in the manifest's order. Fails with `ManifestParse` where
    /// the manifest breaks its invariant, and with `UnsupportedType` where a
    /// type has no representation.
    pub fn generate(&mut self, m: &Manifest) -> (r: Result<String, Error>)
        ensures
            !m.wf() ==> (r matches Err(e) && e is ManifestParse),
            m.wf() ==> (r is Ok <==> rust_output(old(self)@, *m) is Some),
            r matches Ok(s) ==> s@ == rust_output(old(self)@, *m)->0,
            m.wf() ==> (r matches Err(e) ==> e is UnsupportedType),
    {
        m.validate()?;
        let ghost reg0 = self@;
        let ghost head = bindings_section(m.backend);
        let nt = m.types.len();
        let mut i: usize = 0;
        assert(m.types@.take(0) =~= Seq::<(String, Type)>::empty());
        while i < nt
            invariant
                m.wf(),
                reg0 == old(self)@,
                nt == m.types@.len(),
                i <= nt,
                self@ == declare_all(reg0, m.types@.take(i as int)),
            decreases nt - i,
        {
            assert(m.types@.take(i as int + 1).drop_last() =~= m.types@.take(i as int));
            assert(m.types@[i as int].1.wf());
            self.declare(&m.types[i].0, &m.types[i].1);
            i += 1;
        }
        assert(m.types@.take(nt as int) =~= m.types@);
        let mut out = self.bindings(m.backend);
        let ghost mut txt: Seq<char> = Seq::empty();
        let mut i: usize = 0;
        assert(head + txt =~= head);
        while i < nt
            invariant
                m.wf(),
                reg0 == old(self)@,
                nt == m.types@.len(),
                i <= nt,
                self@ == declare_all(reg0, m.types@),
                types_text(self@, m.types@.take(i as int)) == Some(txt),
                out@ == head + txt,
            decreases nt - i,
        {
            assert(m.types@.take(i as int + 1).drop_last() =~= m.types@.take(i as int));
            assert(m.types@.take(i as int + 1).last() == m.types@[i as int]);
            assert(m.types@[i as int].1.wf());
            let name = &m.types[i].0;
            let r = match &m.types[i].1 {
                Type::Array(a) => self.array_type(a),
                Type::Opaque(o) => self.opaque_type(name, o),
            };
            let piece = match r {
                Ok(p) => p,
                Err(e) => {
                    proof {
                        lemma_types_text_none(self@, m.types@, i as int + 1);
                    }
                    return Err(e);
                },
            };
            out.append(piece.as_str());
            proof {
                assert(out@ =~= head + (txt + piece@));
                txt = txt + piece@;
            }
            i += 1;
        }
        assert(m.types@.take(nt as int) =~= m.types@);
        let ghost types_txt = txt;
        let ghost mut etxt: Seq<char> = Seq::empty();
        let ne = m.entry_points.len();
        let mut i: usize = 0;
        assert(m.entry_points@.take(0) =~= Seq::<(String, Entry)>::empty());
        assert(head + types_txt + etxt =~= head + types_txt);
        while i < ne
            invariant
                m.wf(),
                reg0 == old(self)@,
                ne == m.entry_points@.len(),
                i <= ne,
                self@ == declare_all(reg0, m.types@),
                types_text(self@, m.types@) == Some(types_txt),
                entries_text(self@, m.entry_points@.take(i as int)) == Some(etxt),
                out@ == head + types_txt + etxt,
            decreases ne - i,
        {
            assert(m.entry_points@.take(i as int + 1).drop_last() =~= m.entry_points@.take(i as int));
            let piece = match self.entry(&m.entry_points[i].0, &m.entry_points[i].1) {
                Ok(p) => p,
                Err(e) => {
                    proof {
                        assert(m.entry_points@.take(i as int + 1).last() == m.entry_points@[i as int]);
                        assert(entries_text(self@, m.entry_points@.take(i as int + 1)) is None);
                        lemma_entries_text_none(self@, m.entry_points@, i as int + 1);
                    }
                    return Err(e);
                },
            };
            out.append(piece.as_str());
            proof {
                assert(out@ =~= head + types_txt + (etxt + piece@));
                etxt = etxt + piece@;
            }
            i += 1;
        }
        assert(m.entry_points@.take(ne as int) =~= m.entry_points@);
        Ok(out)
    }
}

} // verus!
