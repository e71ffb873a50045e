//! The text of the OCaml bindings and their interface, as pieces between the values that fill them.
use vstd::prelude::*;

verus! {

pub const OBIND_0: &'static str = "(* Generated by futhark-bindgen *)

open Ctypes
open! Unsigned
open! Signed

module Bindings = struct
  let fn = Foreign.foreign ~release_runtime_lock:true
  let context = typedef (ptr void) \"context\"
  let context_config = typedef (ptr void) \"context_config\"
  let futhark_context_config_new = fn \"futhark_context_config_new\" (void @-> returning context_config)
  let futhark_context_config_free = fn \"futhark_context_config_free\" (context_config @-> returning void)
  let futhark_context_config_set_debugging = fn \"futhark_context_config_set_debugging\" (context_config @-> int @-> returning void)
  let futhark_context_config_set_profiling = fn \"futhark_context_config_set_profiling\" (context_config @-> int @-> returning void)
  let futhark_context_config_set_logging = fn \"futhark_context_config_set_logging\" (context_config @-> int @-> returning void)
  let futhark_context_config_set_cache_file = fn \"futhark_context_config_set_cache_file\" (context_config @-> string @-> returning void)
  let futhark_context_new = fn \"futhark_context_new\" (context_config @-> returning context)
  let futhark_context_free = fn \"futhark_context_free\" (context @-> returning void)
  let futhark_context_sync = fn \"futhark_context_sync\" (context @-> returning int)
  let futhark_context_clear_caches = fn \"futhark_context_clear_caches\" (context @-> returning int)
  let futhark_context_pause_profiling = fn \"futhark_context_pause_profiling\" (context @-> returning void)
  let futhark_context_unpause_profiling = fn \"futhark_context_unpause_profiling\" (context @-> returning void)
";

pub const OBIND_1: &'static str = "
end

";

/// The head of the module: the opened libraries and the module of foreign declarations.
#[verifier::opaque]
pub open spec fn bindings_text(generated_foreign_functions: Seq<char>) -> Seq<char> {
    OBIND_0@
        + generated_foreign_functions
        + OBIND_1@
}

/// The head of the module: the opened libraries and the module of foreign declarations.
pub fn emit_bindings(generated_foreign_functions: &str) -> (r: String)
    ensures
        r@ == bindings_text(generated_foreign_functions@),
{
    proof {
        reveal(bindings_text);
    }
    let mut s = OBIND_0.to_owned();
    s.append(generated_foreign_functions);
    s.append(OBIND_1);
    s
}

pub const OCONTEXT_0: &'static str = "exception Error of int
exception Null_pointer
exception Invalid_shape

let check_rc rc = if rc <> 0 then raise (Error rc)

module Context = struct
  type t = { handle : unit ptr; config : unit ptr; auto_sync : bool }

  let free t =
    ignore (Bindings.futhark_context_sync t.handle);
    Bindings.futhark_context_free t.handle;
    Bindings.futhark_context_config_free t.config

  let v ?(debug = false) ?(log = false) ?(profile = false) ?cache_file ?(auto_sync = true) ";

pub const OCONTEXT_1: &'static str = " () =
    let config = Bindings.futhark_context_config_new () in
    if is_null config then raise Null_pointer;
    Bindings.futhark_context_config_set_debugging config (if debug then 1 else 0);
    Bindings.futhark_context_config_set_profiling config (if profile then 1 else 0);
    Bindings.futhark_context_config_set_logging config (if log then 1 else 0);
    Option.iter (Bindings.futhark_context_config_set_cache_file config) cache_file;
";

pub const OCONTEXT_2: &'static str = "
    let handle = Bindings.futhark_context_new config in
    if is_null handle then begin
      Bindings.futhark_context_config_free config;
      raise Null_pointer
    end;
    let t = { handle; config; auto_sync } in
    Gc.finalise free t;
    t

  let sync t = check_rc (Bindings.futhark_context_sync t.handle)

  let auto_sync t = if t.auto_sync then sync t

  let clear_caches t = check_rc (Bindings.futhark_context_clear_caches t.handle)

  let pause_profiling t = Bindings.futhark_context_pause_profiling t.handle

  let unpause_profiling t = Bindings.futhark_context_unpause_profiling t.handle
end

";

/// The exceptions and the context module, with the settings that depend on the backend.
#[verifier::opaque]
pub open spec fn context_ml_text(extra_param: Seq<char>, extra_line: Seq<char>) -> Seq<char> {
    OCONTEXT_0@
        + extra_param
        + OCONTEXT_1@
        + extra_line
        + OCONTEXT_2@
}

/// The exceptions and the context module, with the settings that depend on the backend.
pub fn emit_context_ml(extra_param: &str, extra_line: &str) -> (r: String)
    ensures
        r@ == context_ml_text(extra_param@, extra_line@),
{
    proof {
        reveal(context_ml_text);
    }
    let mut s = OCONTEXT_0.to_owned();
    s.append(extra_param);
    s.append(OCONTEXT_1);
    s.append(extra_line);
    s.append(OCONTEXT_2);
    s
}

pub const OCONTEXT_MLI_0: &'static str = "(* Generated by futhark-bindgen *)

open! Unsigned
open! Signed

exception Error of int
exception Null_pointer
exception Invalid_shape

module Context : sig
  type t
  val v : ?debug:bool -> ?log:bool -> ?profile:bool -> ?cache_file:string -> ?auto_sync:bool -> ";

pub const OCONTEXT_MLI_1: &'static str = " unit -> t
  val sync : t -> unit
  val auto_sync : t -> unit
  val clear_caches : t -> unit
  val pause_profiling : t -> unit
  val unpause_profiling : t -> unit
end

";

/// The head of the interface: the exceptions and the context module.
#[verifier::opaque]
pub open spec fn context_mli_text(extra_mli: Seq<char>) -> Seq<char> {
    OCONTEXT_MLI_0@
        + extra_mli
        + OCONTEXT_MLI_1@
}

/// The head of the interface: the exceptions and the context module.
pub fn emit_context_mli(extra_mli: &str) -> (r: String)
    ensures
        r@ == context_mli_text(extra_mli@),
{
    proof {
        reveal(context_mli_text);
    }
    let mut s = OCONTEXT_MLI_0.to_owned();
    s.append(extra_mli);
    s.append(OCONTEXT_MLI_1);
    s
}

pub const OARRAY_0: &'static str = "module ";

pub const OARRAY_1: &'static str = " = struct
  type t = { ptr : unit ptr; ctx : Context.t; shape : int array }

  let free t = ignore (Bindings.";

pub const OARRAY_2: &'static str = " t.ctx.Context.handle t.ptr)

  let of_ptr ctx p =
    if is_null p then raise Null_pointer;
    let s = Bindings.";

pub const OARRAY_3: &'static str = " ctx.Context.handle p in
    let shape = Array.init ";

pub const OARRAY_4: &'static str = " (fun i -> Int64.to_int !@(s +@ i)) in
    let t = { ptr = p; ctx; shape } in
    Gc.finalise free t;
    t

  let data_ptr (data : (";

pub const OARRAY_5: &'static str = ", ";

pub const OARRAY_6: &'static str = ", Bigarray.c_layout) Bigarray.Array1.t) =
    coerce (ptr void) (ptr ";

pub const OARRAY_7: &'static str = ") (to_voidp (bigarray_start array1 data))

  let v ctx dims data =
    if Array.length dims <> ";

pub const OARRAY_8: &'static str = " || Array.fold_left ( * ) 1 dims <> Bigarray.Array1.dim data then raise Invalid_shape;
    let p = Bindings.";

pub const OARRAY_9: &'static str = " ctx.Context.handle (data_ptr data) ";

pub const OARRAY_10: &'static str = " in
    if is_null p then raise Null_pointer;
    Context.auto_sync ctx;
    let t = { ptr = p; ctx; shape = Array.copy dims } in
    Gc.finalise free t;
    t

  let shape t = Array.copy t.shape

  let values t data =
    if Array.fold_left ( * ) 1 t.shape <> Bigarray.Array1.dim data then raise Invalid_shape;
    check_rc (Bindings.";

pub const OARRAY_11: &'static str = " t.ctx.Context.handle t.ptr (data_ptr data));
    Context.auto_sync t.ctx

  let get t =
    let data = Bigarray.Array1.create ";

pub const OARRAY_12: &'static str = " Bigarray.c_layout (Array.fold_left ( * ) 1 t.shape) in
    values t data;
    data
end

";

/// The module of an array type.
#[verifier::opaque]
pub open spec fn array_ml_text(module_name: Seq<char>, rank: Seq<char>, ocaml_elemtype: Seq<char>, ba_elemtype: Seq<char>, ba_kind: Seq<char>, ocaml_ctype: Seq<char>, new_fn: Seq<char>, free_fn: Seq<char>, values_fn: Seq<char>, shape_fn: Seq<char>, dim_args: Seq<char>) -> Seq<char> {
    OARRAY_0@
        + module_name
        + OARRAY_1@
        + free_fn
        + OARRAY_2@
        + shape_fn
        + OARRAY_3@
        + rank
        + OARRAY_4@
        + ocaml_elemtype
        + OARRAY_5@
        + ba_elemtype
        + OARRAY_6@
        + ocaml_ctype
        + OARRAY_7@
        + rank
        + OARRAY_8@
        + new_fn
        + OARRAY_9@
        + dim_args
        + OARRAY_10@
        + values_fn
        + OARRAY_11@
        + ba_kind
        + OARRAY_12@
}

/// The module of an array type.
pub fn emit_array_ml(module_name: &str, rank: &str, ocaml_elemtype: &str, ba_elemtype: &str, ba_kind: &str, ocaml_ctype: &str, new_fn: &str, free_fn: &str, values_fn: &str, shape_fn: &str, dim_args: &str) -> (r: String)
    ensures
        r@ == array_ml_text(module_name@, rank@, ocaml_elemtype@, ba_elemtype@, ba_kind@, ocaml_ctype@, new_fn@, free_fn@, values_fn@, shape_fn@, dim_args@),
{
    proof {
        reveal(array_ml_text);
    }
    let mut s = OARRAY_0.to_owned();
    s.append(module_name);
    s.append(OARRAY_1);
    s.append(free_fn);
    s.append(OARRAY_2);
    s.append(shape_fn);
    s.append(OARRAY_3);
    s.append(rank);
    s.append(OARRAY_4);
    s.append(ocaml_elemtype);
    s.append(OARRAY_5);
    s.append(ba_elemtype);
    s.append(OARRAY_6);
    s.append(ocaml_ctype);
    s.append(OARRAY_7);
    s.append(rank);
    s.append(OARRAY_8);
    s.append(new_fn);
    s.append(OARRAY_9);
    s.append(dim_args);
    s.append(OARRAY_10);
    s.append(values_fn);
    s.append(OARRAY_11);
    s.append(ba_kind);
    s.append(OARRAY_12);
    s
}

pub const OARRAY_MLI_0: &'static str = "module ";

pub const OARRAY_MLI_1: &'static str = " : sig
  type t
  val v : Context.t -> int array -> (";

pub const OARRAY_MLI_2: &'static str = ", ";

pub const OARRAY_MLI_3: &'static str = ", Bigarray.c_layout) Bigarray.Array1.t -> t
  val shape : t -> int array
  val values : t -> (";

pub const OARRAY_MLI_4: &'static str = ", ";

pub const OARRAY_MLI_5: &'static str = ", Bigarray.c_layout) Bigarray.Array1.t -> unit
  val get : t -> (";

pub const OARRAY_MLI_6: &'static str = ", ";

pub const OARRAY_MLI_7: &'static str = ", Bigarray.c_layout) Bigarray.Array1.t
  val of_ptr : Context.t -> unit Ctypes.ptr -> t
end

";

/// The signature of an array type's module.
#[verifier::opaque]
pub open spec fn array_mli_text(module_name: Seq<char>, ocaml_elemtype: Seq<char>, ba_elemtype: Seq<char>) -> Seq<char> {
    OARRAY_MLI_0@
        + module_name
        + OARRAY_MLI_1@
        + ocaml_elemtype
        + OARRAY_MLI_2@
        + ba_elemtype
        + OARRAY_MLI_3@
        + ocaml_elemtype
        + OARRAY_MLI_4@
        + ba_elemtype
        + OARRAY_MLI_5@
        + ocaml_elemtype
        + OARRAY_MLI_6@
        + ba_elemtype
        + OARRAY_MLI_7@
}

/// The signature of an array type's module.
pub fn emit_array_mli(module_name: &str, ocaml_elemtype: &str, ba_elemtype: &str) -> (r: String)
    ensures
        r@ == array_mli_text(module_name@, ocaml_elemtype@, ba_elemtype@),
{
    proof {
        reveal(array_mli_text);
    }
    let mut s = OARRAY_MLI_0.to_owned();
    s.append(module_name);
    s.append(OARRAY_MLI_1);
    s.append(ocaml_elemtype);
    s.append(OARRAY_MLI_2);
    s.append(ba_elemtype);
    s.append(OARRAY_MLI_3);
    s.append(ocaml_elemtype);
    s.append(OARRAY_MLI_4);
    s.append(ba_elemtype);
    s.append(OARRAY_MLI_5);
    s.append(ocaml_elemtype);
    s.append(OARRAY_MLI_6);
    s.append(ba_elemtype);
    s.append(OARRAY_MLI_7);
    s
}

pub const OOPAQUE_0: &'static str = "module ";

pub const OOPAQUE_1: &'static str = " = struct
  type t = { opaque_ptr : unit ptr; opaque_ctx : Context.t }

  let free t = ignore (Bindings.";

pub const OOPAQUE_2: &'static str = " t.opaque_ctx.Context.handle t.opaque_ptr)

  let of_ptr opaque_ctx p =
    if is_null p then raise Null_pointer;
    let t = { opaque_ptr = p; opaque_ctx } in
    Gc.finalise free t;
    t
";

/// The start of an opaque type's module: its handle, destructor and `of_ptr`.
#[verifier::opaque]
pub open spec fn opaque_ml_text(module_name: Seq<char>, free_fn: Seq<char>) -> Seq<char> {
    OOPAQUE_0@
        + module_name
        + OOPAQUE_1@
        + free_fn
        + OOPAQUE_2@
}

/// The start of an opaque type's module: its handle, destructor and `of_ptr`.
pub fn emit_opaque_ml(module_name: &str, free_fn: &str) -> (r: String)
    ensures
        r@ == opaque_ml_text(module_name@, free_fn@),
{
    proof {
        reveal(opaque_ml_text);
    }
    let mut s = OOPAQUE_0.to_owned();
    s.append(module_name);
    s.append(OOPAQUE_1);
    s.append(free_fn);
    s.append(OOPAQUE_2);
    s
}

pub const OOPAQUE_MLI_0: &'static str = "module ";

pub const OOPAQUE_MLI_1: &'static str = " : sig
  type t
  val of_ptr : Context.t -> unit Ctypes.ptr -> t
";

/// The start of an opaque type's signature.
#[verifier::opaque]
pub open spec fn opaque_mli_text(module_name: Seq<char>) -> Seq<char> {
    OOPAQUE_MLI_0@
        + module_name
        + OOPAQUE_MLI_1@
}

/// The start of an opaque type's signature.
pub fn emit_opaque_mli(module_name: &str) -> (r: String)
    ensures
        r@ == opaque_mli_text(module_name@),
{
    proof {
        reveal(opaque_mli_text);
    }
    let mut s = OOPAQUE_MLI_0.to_owned();
    s.append(module_name);
    s.append(OOPAQUE_MLI_1);
    s
}

pub const ORECORD_0: &'static str = "
  let v ctx ";

pub const ORECORD_1: &'static str = " =
    let out = allocate (ptr void) null in
    check_rc (Bindings.";

pub const ORECORD_2: &'static str = " ctx.Context.handle out ";

pub const ORECORD_3: &'static str = ");
    Context.auto_sync ctx;
    of_ptr ctx !@out
";

/// The constructor of a record from its fields.
#[verifier::opaque]
pub open spec fn record_ml_text(new_params: Seq<char>, new_fn: Seq<char>, new_call_args: Seq<char>) -> Seq<char> {
    ORECORD_0@
        + new_params
        + ORECORD_1@
        + new_fn
        + ORECORD_2@
        + new_call_args
        + ORECORD_3@
}

/// The constructor of a record from its fields.
pub fn emit_record_ml(new_params: &str, new_fn: &str, new_call_args: &str) -> (r: String)
    ensures
        r@ == record_ml_text(new_params@, new_fn@, new_call_args@),
{
    proof {
        reveal(record_ml_text);
    }
    let mut s = ORECORD_0.to_owned();
    s.append(new_params);
    s.append(ORECORD_1);
    s.append(new_fn);
    s.append(ORECORD_2);
    s.append(new_call_args);
    s.append(ORECORD_3);
    s
}

pub const ORECORD_MLI_0: &'static str = "  val v : Context.t -> ";

pub const ORECORD_MLI_1: &'static str = "
";

/// The signature of a record's constructor.
#[verifier::opaque]
pub open spec fn record_mli_text(new_sig: Seq<char>) -> Seq<char> {
    ORECORD_MLI_0@
        + new_sig
        + ORECORD_MLI_1@
}

/// The signature of a record's constructor.
pub fn emit_record_mli(new_sig: &str) -> (r: String)
    ensures
        r@ == record_mli_text(new_sig@),
{
    proof {
        reveal(record_mli_text);
    }
    let mut s = ORECORD_MLI_0.to_owned();
    s.append(new_sig);
    s.append(ORECORD_MLI_1);
    s
}

pub const OPROJECT_0: &'static str = "
  let get_";

pub const OPROJECT_1: &'static str = " t =
    let out = allocate_n ";

pub const OPROJECT_2: &'static str = " ~count:1 in
    check_rc (Bindings.";

pub const OPROJECT_3: &'static str = " t.opaque_ctx.Context.handle out t.opaque_ptr);
    Context.auto_sync t.opaque_ctx;
    ";

pub const OPROJECT_4: &'static str = "
";

/// The accessor of one field of a record.
#[verifier::opaque]
pub open spec fn project_ml_text(field_name: Seq<char>, alloc: Seq<char>, project_fn: Seq<char>, output: Seq<char>) -> Seq<char> {
    OPROJECT_0@
        + field_name
        + OPROJECT_1@
        + alloc
        + OPROJECT_2@
        + project_fn
        + OPROJECT_3@
        + output
        + OPROJECT_4@
}

/// The accessor of one field of a record.
pub fn emit_project_ml(field_name: &str, alloc: &str, project_fn: &str, output: &str) -> (r: String)
    ensures
        r@ == project_ml_text(field_name@, alloc@, project_fn@, output@),
{
    proof {
        reveal(project_ml_text);
    }
    let mut s = OPROJECT_0.to_owned();
    s.append(field_name);
    s.append(OPROJECT_1);
    s.append(alloc);
    s.append(OPROJECT_2);
    s.append(project_fn);
    s.append(OPROJECT_3);
    s.append(output);
    s.append(OPROJECT_4);
    s
}

pub const OPROJECT_MLI_0: &'static str = "  val get_";

pub const OPROJECT_MLI_1: &'static str = " : t -> ";

pub const OPROJECT_MLI_2: &'static str = "
";

/// The signature of a field's accessor.
#[verifier::opaque]
pub open spec fn project_mli_text(field_name: Seq<char>, out_type: Seq<char>) -> Seq<char> {
    OPROJECT_MLI_0@
        + field_name
        + OPROJECT_MLI_1@
        + out_type
        + OPROJECT_MLI_2@
}

/// The signature of a field's accessor.
pub fn emit_project_mli(field_name: &str, out_type: &str) -> (r: String)
    ensures
        r@ == project_mli_text(field_name@, out_type@),
{
    proof {
        reveal(project_mli_text);
    }
    let mut s = OPROJECT_MLI_0.to_owned();
    s.append(field_name);
    s.append(OPROJECT_MLI_1);
    s.append(out_type);
    s.append(OPROJECT_MLI_2);
    s
}

pub const OENTRY_0: &'static str = "let ";

pub const OENTRY_1: &'static str = " ctx ";

pub const OENTRY_2: &'static str = " =
";

pub const OENTRY_3: &'static str = "
  check_rc (Bindings.";

pub const OENTRY_4: &'static str = " ctx.Context.handle ";

pub const OENTRY_5: &'static str = ");
  Context.auto_sync ctx;
  (";

pub const OENTRY_6: &'static str = ")

";

/// The function that calls an entry point.
#[verifier::opaque]
pub open spec fn entry_ml_text(entry_name: Seq<char>, entry_params: Seq<char>, out_decl: Seq<char>, entry_fn: Seq<char>, call_args: Seq<char>, out_return: Seq<char>) -> Seq<char> {
    OENTRY_0@
        + entry_name
        + OENTRY_1@
        + entry_params
        + OENTRY_2@
        + out_decl
        + OENTRY_3@
        + entry_fn
        + OENTRY_4@
        + call_args
        + OENTRY_5@
        + out_return
        + OENTRY_6@
}

/// The function that calls an entry point.
pub fn emit_entry_ml(entry_name: &str, entry_params: &str, out_decl: &str, entry_fn: &str, call_args: &str, out_return: &str) -> (r: String)
    ensures
        r@ == entry_ml_text(entry_name@, entry_params@, out_decl@, entry_fn@, call_args@, out_return@),
{
    proof {
        reveal(entry_ml_text);
    }
    let mut s = OENTRY_0.to_owned();
    s.append(entry_name);
    s.append(OENTRY_1);
    s.append(entry_params);
    s.append(OENTRY_2);
    s.append(out_decl);
    s.append(OENTRY_3);
    s.append(entry_fn);
    s.append(OENTRY_4);
    s.append(call_args);
    s.append(OENTRY_5);
    s.append(out_return);
    s.append(OENTRY_6);
    s
}

pub const OENTRY_MLI_0: &'static str = "val ";

pub const OENTRY_MLI_1: &'static str = " : ";

pub const OENTRY_MLI_2: &'static str = "

";

/// The signature of an entry point's function.
#[verifier::opaque]
pub open spec fn entry_mli_text(entry_name: Seq<char>, signature: Seq<char>) -> Seq<char> {
    OENTRY_MLI_0@
        + entry_name
        + OENTRY_MLI_1@
        + signature
        + OENTRY_MLI_2@
}

/// The signature of an entry point's function.
pub fn emit_entry_mli(entry_name: &str, signature: &str) -> (r: String)
    ensures
        r@ == entry_mli_text(entry_name@, signature@),
{
    proof {
        reveal(entry_mli_text);
    }
    let mut s = OENTRY_MLI_0.to_owned();
    s.append(entry_name);
    s.append(OENTRY_MLI_1);
    s.append(signature);
    s.append(OENTRY_MLI_2);
    s
}

} // verus!
