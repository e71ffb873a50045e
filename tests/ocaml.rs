use futhark_bindgen::manifest::{
    ArrayOps, ArrayType, ElemType, Entry, Field, Input, OpaqueOps, OpaqueType, Output, Record, Type,
};
use futhark_bindgen::{Backend, Error, Manifest, OCaml};

fn s(x: &str) -> String {
    x.to_string()
}

fn array(elem: ElemType, rank: i32) -> Type {
    let e = elem.to_str();
    Type::Array(ArrayType {
        ctype: format!("struct futhark_{}_{}d *", e, rank),
        rank,
        elemtype: elem,
        ops: ArrayOps {
            free: format!("futhark_free_{}_{}d", e, rank),
            shape: format!("futhark_shape_{}_{}d", e, rank),
            values: format!("futhark_values_{}_{}d", e, rank),
            new: format!("futhark_new_{}_{}d", e, rank),
        },
    })
}

fn manifest(backend: Backend, types: Vec<(String, Type)>, entry_points: Vec<(String, Entry)>) -> Manifest {
    Manifest { backend, version: s("0.25.0"), entry_points, types }
}

#[test]
fn scenario_half_float_is_unsupported() {
    let m = manifest(
        Backend::C,
        vec![(s("[]f16"), array(ElemType::F16, 1))],
        vec![(
            s("sum"),
            Entry {
                cfun: s("futhark_entry_sum"),
                outputs: vec![Output { ty: s("f16"), unique: false }],
                inputs: vec![Input { name: s("xs"), ty: s("[]f16"), unique: false }],
            },
        )],
    );
    assert!(matches!(OCaml::new().declarations(&m), Err(Error::UnsupportedType(_))));
}

#[test]
fn half_float_entry_is_unsupported() {
    let m = manifest(
        Backend::C,
        vec![],
        vec![(
            s("h"),
            Entry { cfun: s("futhark_entry_h"), outputs: vec![], inputs: vec![Input { name: s("x"), ty: s("f16"), unique: true }] },
        )],
    );
    assert!(matches!(OCaml::new().declarations(&m), Err(Error::UnsupportedType(_))));
}

#[test]
fn ocaml_array_declarations() {
    let m = manifest(
        Backend::Multicore,
        vec![(s("[][]f32"), array(ElemType::F32, 2))],
        vec![(
            s("f"),
            Entry {
                cfun: s("futhark_entry_f"),
                outputs: vec![Output { ty: s("[][]f32"), unique: false }, Output { ty: s("i32"), unique: false }],
                inputs: vec![Input { name: s("a"), ty: s("[][]f32"), unique: false }, Input { name: s("b"), ty: s("u8"), unique: false }],
            },
        )],
    );
    let out = OCaml::new().declarations(&m).unwrap();
    let lines: Vec<&str> = out.split('\n').collect();
    assert_eq!(
        lines,
        vec![
            "  let futhark_context_config_set_num_threads = fn \"futhark_context_config_set_num_threads\" (context_config @-> int @-> returning (void))",
            "  let array_f32_2d = typedef (ptr void) \"array_f32_2d\"",
            "  let futhark_new_f32_2d = fn \"futhark_new_f32_2d\" (context @-> ptr float @-> int64_t @-> int64_t @-> returning (array_f32_2d))",
            "  let futhark_values_f32_2d = fn \"futhark_values_f32_2d\" (context @-> array_f32_2d @-> ptr float @-> returning (int))",
            "  let futhark_free_f32_2d = fn \"futhark_free_f32_2d\" (context @-> array_f32_2d @-> returning (int))",
            "  let futhark_shape_f32_2d = fn \"futhark_shape_f32_2d\" (context @-> array_f32_2d @-> returning (ptr int64_t))",
            "  let futhark_entry_f = fn \"futhark_entry_f\" (context @-> ptr array_f32_2d @-> ptr int32_t @-> array_f32_2d @-> uint8_t @-> returning (int))",
        ]
    );
}

#[test]
fn ocaml_record_declarations() {
    let record = Record {
        new: s("futhark_new_opaque_tup"),
        fields: vec![Field { name: s("0"), project: s("futhark_project_opaque_tup_0"), ty: s("f64") }],
    };
    let tup = Type::Opaque(OpaqueType {
        ctype: s("struct futhark_opaque_tup *"),
        ops: OpaqueOps { free: s("futhark_free_opaque_tup"), store: s("st"), restore: s("re") },
        record: Some(record),
    });
    let m = manifest(Backend::CUDA, vec![(s("tup"), tup)], vec![]);
    let out = OCaml::new().declarations(&m).unwrap();
    let lines: Vec<&str> = out.split('\n').collect();
    assert_eq!(
        lines,
        vec![
            "  let futhark_context_config_set_device = fn \"futhark_context_config_set_device\" (context_config @-> string @-> returning (void))",
            "  let tup = typedef (ptr void) \"futhark_opaque_tup\"",
            "  let futhark_free_opaque_tup = fn \"futhark_free_opaque_tup\" (context @-> tup @-> returning (int))",
            "  let futhark_project_opaque_tup_0 = fn \"futhark_project_opaque_tup_0\" (context @-> ptr double @-> tup @-> returning (int))",
            "  let futhark_new_opaque_tup = fn \"futhark_new_opaque_tup\" (context @-> ptr tup @-> double @-> returning (int))",
        ]
    );
}

#[test]
fn ocaml_numeric_opaque_names() {
    let t = Type::Opaque(OpaqueType {
        ctype: s("struct futhark_opaque_1a2b *"),
        ops: OpaqueOps { free: s("futhark_free_opaque_1a2b"), store: s("st"), restore: s("re") },
        record: None,
    });
    let m = manifest(Backend::C, vec![(s("(i32, i32)"), t)], vec![]);
    let out = OCaml::new().declarations(&m).unwrap();
    assert!(out.starts_with("  let type_1a2b = typedef (ptr void) \"futhark_opaque_1a2b\"\n"));
}

fn tup_manifest() -> Manifest {
    let record = Record {
        new: s("futhark_new_opaque_tup"),
        fields: vec![
            Field { name: s("x"), project: s("futhark_project_opaque_tup_x"), ty: s("f32") },
            Field { name: s("data"), project: s("futhark_project_opaque_tup_data"), ty: s("[]f32") },
        ],
    };
    let tup = Type::Opaque(OpaqueType {
        ctype: s("struct futhark_opaque_tup *"),
        ops: OpaqueOps { free: s("futhark_free_opaque_tup"), store: s("st"), restore: s("re") },
        record: Some(record),
    });
    manifest(
        Backend::C,
        vec![(s("[]f32"), array(ElemType::F32, 1)), (s("tup"), tup)],
        vec![(
            s("tup_mul"),
            Entry {
                cfun: s("futhark_entry_tup_mul"),
                outputs: vec![Output { ty: s("[]f32"), unique: false }, Output { ty: s("f32"), unique: false }],
                inputs: vec![Input { name: s("t"), ty: s("tup"), unique: false }],
            },
        )],
    )
}

#[test]
fn ocaml_array_module() {
    let m = manifest(Backend::C, vec![(s("[][]f32"), array(ElemType::F32, 2))], vec![]);
    let (ml, mli) = OCaml::new().generate(&m).unwrap();
    assert!(ml.starts_with("(* Generated by futhark-bindgen *)\n\nopen Ctypes\n"));
    assert!(ml.contains("module Bindings = struct\n"));
    assert!(ml.contains("  let futhark_shape_f32_2d = fn \"futhark_shape_f32_2d\" (context @-> array_f32_2d @-> returning (ptr int64_t))\nend\n"));
    assert!(ml.contains("module Array_f32_2d = struct\n"));
    assert!(ml.contains("if Array.length dims <> 2 || Array.fold_left ( * ) 1 dims <> Bigarray.Array1.dim data then raise Invalid_shape;"));
    assert!(ml.contains("Bindings.futhark_new_f32_2d ctx.Context.handle (data_ptr data) (Int64.of_int dims.(0)) (Int64.of_int dims.(1))"));
    assert!(ml.contains("check_rc (Bindings.futhark_values_f32_2d t.ctx.Context.handle t.ptr (data_ptr data));"));
    assert!(ml.contains("Bigarray.Array1.create Bigarray.float32 Bigarray.c_layout"));
    assert!(ml.contains("let s = Bindings.futhark_shape_f32_2d ctx.Context.handle p in"));
    assert!(ml.contains("coerce (ptr void) (ptr float) (to_voidp (bigarray_start array1 data))"));
    assert!(mli.contains("module Array_f32_2d : sig\n"));
    assert!(mli.contains("  val v : Context.t -> int array -> (float, Bigarray.float32_elt, Bigarray.c_layout) Bigarray.Array1.t -> t\n"));
}

#[test]
fn ocaml_bigarray_kinds() {
    let m = manifest(
        Backend::C,
        vec![(s("[]bool"), array(ElemType::Bool, 1)), (s("[]i8"), array(ElemType::I8, 1))],
        vec![],
    );
    let (ml, mli) = OCaml::new().generate(&m).unwrap();
    assert!(ml.contains("Bigarray.Array1.create Bigarray.int8_unsigned Bigarray.c_layout"));
    assert!(ml.contains("Bigarray.Array1.create Bigarray.int8_signed Bigarray.c_layout"));
    assert!(mli.contains("(int, Bigarray.int8_signed_elt, Bigarray.c_layout) Bigarray.Array1.t"));
}

#[test]
fn ocaml_record_module() {
    let (ml, mli) = OCaml::new().generate(&tup_manifest()).unwrap();
    assert!(ml.contains("module Tup = struct\n"));
    assert!(ml.contains("  let v ctx fieldx fielddata =\n"));
    assert!(ml.contains("check_rc (Bindings.futhark_new_opaque_tup ctx.Context.handle out fieldx fielddata.ptr);"));
    assert!(ml.contains("  let get_x t =\n    let out = allocate_n float ~count:1 in"));
    assert!(ml.contains("check_rc (Bindings.futhark_project_opaque_tup_x t.opaque_ctx.Context.handle out t.opaque_ptr);"));
    assert!(ml.contains("    !@out\n"));
    assert!(ml.contains("  let get_data t =\n    let out = allocate_n Bindings.array_f32_1d ~count:1 in"));
    assert!(ml.contains("    Array_f32_1d.of_ptr t.opaque_ctx !@out\n"));
    assert!(mli.contains("module Tup : sig\n  type t\n  val of_ptr : Context.t -> unit Ctypes.ptr -> t\n  val v : Context.t -> float -> Array_f32_1d.t -> t\n  val get_x : t -> float\n  val get_data : t -> Array_f32_1d.t\nend\n"));
}

#[test]
fn ocaml_entry_functions() {
    let (ml, mli) = OCaml::new().generate(&tup_manifest()).unwrap();
    assert!(ml.contains("let tup_mul ctx (input0 : Tup.t) =\n"));
    assert!(ml.contains("  let out0_ptr = allocate (ptr void) null in\n  let out1_ptr = allocate_n float ~count:1 in\n"));
    assert!(ml.contains("check_rc (Bindings.futhark_entry_tup_mul ctx.Context.handle out0_ptr out1_ptr input0.opaque_ptr);"));
    assert!(ml.contains("  ((Array_f32_1d.of_ptr ctx !@out0_ptr), !@out1_ptr)\n"));
    assert!(mli.contains("val tup_mul : Context.t -> Tup.t -> Array_f32_1d.t * float\n"));
}

#[test]
fn ocaml_scenario_binary_search() {
    let m = manifest(
        Backend::C,
        vec![(s("[]i64"), array(ElemType::I64, 1))],
        vec![(
            s("binary_search"),
            Entry {
                cfun: s("futhark_entry_binary_search"),
                outputs: vec![Output { ty: s("i64"), unique: false }],
                inputs: vec![Input { name: s("arr"), ty: s("[]i64"), unique: false }, Input { name: s("target"), ty: s("i64"), unique: false }],
            },
        )],
    );
    let (ml, mli) = OCaml::new().generate(&m).unwrap();
    assert!(ml.contains("let binary_search ctx (input0 : Array_i64_1d.t) (input1 : int64) =\n  let out_ptr = allocate_n int64_t ~count:1 in\n"));
    assert!(ml.contains("check_rc (Bindings.futhark_entry_binary_search ctx.Context.handle out_ptr input0.ptr input1);"));
    assert!(ml.contains("  (!@out_ptr)\n"));
    assert!(mli.contains("val binary_search : Context.t -> Array_i64_1d.t -> int64 -> int64\n"));
}

#[test]
fn ocaml_context_follows_backend() {
    let m = manifest(Backend::Multicore, vec![], vec![]);
    let (ml, mli) = OCaml::new().generate(&m).unwrap();
    assert!(ml.contains("?(auto_sync = true) ?(num_threads = 0) () ="));
    assert!(ml.contains("    Bindings.futhark_context_config_set_num_threads config num_threads;\n"));
    assert!(mli.contains("?auto_sync:bool -> ?num_threads:int -> unit -> t"));
    let m = manifest(Backend::OpenCL, vec![], vec![]);
    let (ml, mli) = OCaml::new().generate(&m).unwrap();
    assert!(ml.contains("Option.iter (Bindings.futhark_context_config_set_device config) device;"));
    assert!(mli.contains("?device:string -> unit -> t"));
    assert!(ml.contains("exception Invalid_shape\n"));
}

#[test]
fn ocaml_generation_rejects_half_floats() {
    let m = manifest(
        Backend::C,
        vec![(s("[]f16"), array(ElemType::F16, 1))],
        vec![],
    );
    assert!(matches!(OCaml::new().generate(&m), Err(Error::UnsupportedType(_))));
}
