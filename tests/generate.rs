use futhark_bindgen::manifest::{
    ArrayOps, ArrayType, ElemType, Entry, Field, Input, OpaqueOps, OpaqueType, Output, Record, Type,
};
use futhark_bindgen::registry::{TypeKind, TypeRegistry};
use futhark_bindgen::{Backend, Compiler, Error, Language, Manifest, Rust};

fn s(x: &str) -> String {
    x.to_string()
}

fn array(elem: ElemType, rank: i32) -> Type {
    let e = elem.to_str();
    Type::Array(ArrayType {
        ctype: format!("struct futhark_{}_{}d *", e, rank),
        rank,
        elemtype: elem,
        ops: ArrayOps {
            free: format!("futhark_free_{}_{}d", e, rank),
            shape: format!("futhark_shape_{}_{}d", e, rank),
            values: format!("futhark_values_{}_{}d", e, rank),
            new: format!("futhark_new_{}_{}d", e, rank),
        },
    })
}

fn output(ty: &str) -> Output {
    Output { ty: s(ty), unique: false }
}

fn input(name: &str, ty: &str) -> Input {
    Input { name: s(name), ty: s(ty), unique: false }
}

fn manifest(types: Vec<(String, Type)>, entry_points: Vec<(String, Entry)>) -> Manifest {
    Manifest { backend: Backend::C, version: s("0.25.0"), entry_points, types }
}

fn binary_search_manifest() -> Manifest {
    manifest(
        vec![(s("[]i64"), array(ElemType::I64, 1))],
        vec![(
            s("binary_search"),
            Entry {
                cfun: s("futhark_entry_binary_search"),
                outputs: vec![output("i64")],
                inputs: vec![input("arr", "[]i64"), input("target", "i64")],
            },
        )],
    )
}

fn tup_manifest() -> Manifest {
    let record = Record {
        new: s("futhark_new_opaque_tup"),
        fields: vec![
            Field { name: s("x"), project: s("futhark_project_opaque_tup_x"), ty: s("f32") },
            Field { name: s("data"), project: s("futhark_project_opaque_tup_data"), ty: s("[]f32") },
        ],
    };
    let tup = Type::Opaque(OpaqueType {
        ctype: s("struct futhark_opaque_tup *"),
        ops: OpaqueOps {
            free: s("futhark_free_opaque_tup"),
            store: s("futhark_store_opaque_tup"),
            restore: s("futhark_restore_opaque_tup"),
        },
        record: Some(record),
    });
    manifest(
        vec![(s("[]f32"), array(ElemType::F32, 1)), (s("tup"), tup)],
        vec![(
            s("tup_mul"),
            Entry {
                cfun: s("futhark_entry_tup_mul"),
                outputs: vec![output("[]f32")],
                inputs: vec![input("t", "tup")],
            },
        )],
    )
}

fn generate(m: &Manifest) -> Result<String, Error> {
    Rust::default().generate(m)
}

#[test]
fn backend_names() {
    assert_eq!(Backend::Multicore.to_str(), "multicore");
    assert_eq!(Backend::from_name("OpenCL"), Some(Backend::OpenCL));
    assert_eq!(Backend::from_name("CUDA"), Some(Backend::CUDA));
    assert_eq!(Backend::from_name("ispc"), Some(Backend::ISPC));
    assert_eq!(Backend::from_name("python"), None);
}

#[test]
fn backend_libraries() {
    assert_eq!(Backend::CUDA.required_c_libs(), vec!["cuda", "cudart", "nvrtc", "m"]);
    assert_eq!(Backend::OpenCL.required_c_libs(), vec!["OpenCL", "m"]);
    assert_eq!(Backend::ISPC.required_c_libs(), vec!["pthread", "m"]);
    assert!(Backend::C.required_c_libs().is_empty());
}

#[test]
fn scenario_binary_search_call() {
    let m = binary_search_manifest();
    let out = generate(&m).unwrap();
    assert!(out.starts_with("// Generated by futhark-bindgen\n\n"));
    assert!(out.contains("pub struct ArrayI64D1<'a> {"));
    assert!(out.contains(
        "pub fn binary_search(&self, input0: &ArrayI64D1, input1: i64) -> Result<i64, Error> {"
    ));
    assert!(out.contains(
        "futhark_entry_binary_search(self.context, out0.as_mut_ptr(), input0.ptr as *mut _, input1)"
    ));
    assert!(out.contains("out0: *mut i64, input0: *const futhark_i64_1d, input1: i64"));
    assert!(out.contains("Ok(out0.assume_init())"));
}

#[test]
fn array_constructor_checks_shape() {
    let out = generate(&binary_search_manifest()).unwrap();
    let check = "if data.len() as i64 != size {\n            return Err(Error::InvalidShape)\n        }";
    let new = out.find("pub fn new(ctx: &'a Context, dims: [i64; 1], data: impl AsRef<[i64]>)").unwrap();
    let checked = out[new..].find(check).unwrap();
    let call = out[new..].find("futhark_new_i64_1d(ctx.context, data.as_ptr(), dims[0])").unwrap();
    assert!(checked < call);
    assert!(out.contains("if ptr.is_null() { return Err(Error::NullPtr); }"));
}

#[test]
fn array_values_and_drop_use_manifest_ops() {
    let out = generate(&binary_search_manifest()).unwrap();
    assert!(out.contains("futhark_values_i64_1d(self.ctx.context, self.ptr, data.as_mut_ptr())"));
    assert!(out.contains("if rc != 0 {\n            return Err(Error::Code(rc));"));
    assert!(out.contains("futhark_free_i64_1d(self.ctx.context, self.ptr as *mut _);"));
    assert!(out.contains("let len_ptr = unsafe { futhark_shape_i64_1d(ctx.context, ptr) };"));
}

#[test]
fn array_of_rank_three() {
    let m = manifest(vec![(s("[][][]u8"), array(ElemType::U8, 3))], vec![]);
    let out = generate(&m).unwrap();
    assert!(out.contains("pub struct ArrayU8D3<'a>"));
    assert!(out.contains("futhark_new_u8_3d(ctx.context, data.as_ptr(), dims[0], dims[1], dims[2])"));
    assert!(out.contains("dim0: i64, dim1: i64, dim2: i64"));
    assert!(out.contains("pub shape: [i64; 3],"));
}

#[test]
fn scenario_record_projection() {
    let out = generate(&tup_manifest()).unwrap();
    assert!(out.contains("pub struct Tup<'a> {"));
    assert!(out.contains("pub fn new(ctx: &'a Context, fieldx: f32, fielddata: &ArrayF32D1)"));
    assert!(out.contains("futhark_new_opaque_tup(ctx.context, &mut out, fieldx, fielddata.ptr)"));
    assert!(out.contains("fieldx: f32, fielddata: *const futhark_f32_1d"));
    assert!(out.contains("pub fn get_data(&self) -> Result<ArrayF32D1, Error> {"));
    assert!(out.contains("Ok(ArrayF32D1::from_ptr(self.ctx, out))"));
    assert!(out.contains("pub fn get_x(&self) -> Result<f32, Error> {"));
    assert!(out.contains("futhark_project_opaque_tup_data(\n                self.ctx.context,"));
    assert!(out.contains("_: *mut *mut futhark_opaque_tup,\n        fieldx: f32"));
}

#[test]
fn opaque_entry_arguments() {
    let out = generate(&tup_manifest()).unwrap();
    assert!(out.contains("pub fn tup_mul(&self, input0: &Tup) -> Result<ArrayF32D1, Error> {"));
    assert!(out.contains("futhark_entry_tup_mul(self.context, out0.as_mut_ptr(), input0.data as *mut _)"));
    assert!(out.contains("ArrayF32D1::from_ptr(self, out0.assume_init())"));
    assert!(out.contains("out0: *mut *mut futhark_f32_1d, input0: *const futhark_opaque_tup"));
}

#[test]
fn entry_with_many_outputs_returns_tuple() {
    let m = manifest(
        vec![],
        vec![(
            s("pair"),
            Entry { cfun: s("futhark_entry_pair"), outputs: vec![output("i32"), output("bool")], inputs: vec![] },
        )],
    );
    let out = generate(&m).unwrap();
    assert!(out.contains("pub fn pair(&self, ) -> Result<(i32, bool), Error> {"));
    assert!(out.contains("futhark_entry_pair(self.context, out0.as_mut_ptr(), out1.as_mut_ptr())"));
    assert!(out.contains("Ok((out0.assume_init(), out1.assume_init()))"));
}

#[test]
fn entry_without_outputs_returns_unit() {
    let m = manifest(
        vec![],
        vec![(s("noop"), Entry { cfun: s("futhark_entry_noop"), outputs: vec![], inputs: vec![input("x", "f64")] })],
    );
    let out = generate(&m).unwrap();
    assert!(out.contains("pub fn noop(&self, input0: f64) -> Result<(), Error> {"));
    assert!(out.contains("futhark_entry_noop(self.context, input0)"));
}

#[test]
fn half_floats_use_the_half_crate() {
    let m = manifest(
        vec![(s("[]f16"), array(ElemType::F16, 1))],
        vec![(s("h"), Entry { cfun: s("futhark_entry_h"), outputs: vec![output("f16")], inputs: vec![] })],
    );
    let out = generate(&m).unwrap();
    assert!(out.contains("pub struct ArrayF16D1<'a>"));
    assert!(out.contains("Result<half::f16, Error>"));
}

#[test]
fn generation_is_deterministic() {
    let m = tup_manifest();
    let a = generate(&m).unwrap();
    let b = generate(&m.clone()).unwrap();
    assert_eq!(a, b);
}

#[test]
fn backend_knobs_follow_the_manifest() {
    let mut m = binary_search_manifest();
    m.backend = Backend::Multicore;
    let out = generate(&m).unwrap();
    assert!(out.contains("pub fn threads(mut self, n: u32) -> Options"));
    assert!(out.contains("futhark_context_config_set_num_threads(config, options.num_threads as std::os::raw::c_int);"));
    assert!(out.contains("let _ = &options.device;"));
    m.backend = Backend::CUDA;
    let out = generate(&m).unwrap();
    assert!(out.contains("pub fn device(mut self, s: impl AsRef<str>) -> Options"));
    assert!(out.contains("let _ = &options.num_threads;"));
    m.backend = Backend::C;
    let out = generate(&m).unwrap();
    assert!(!out.contains("pub fn threads"));
    assert!(!out.contains("pub fn device"));
}

#[test]
fn unsorted_types_are_rejected() {
    let m = manifest(
        vec![(s("[]i64"), array(ElemType::I64, 1)), (s("[]f32"), array(ElemType::F32, 1))],
        vec![],
    );
    assert!(matches!(m.validate(), Err(Error::ManifestParse(_))));
    assert!(matches!(generate(&m), Err(Error::ManifestParse(_))));
}

#[test]
fn unknown_types_are_rejected() {
    let m = manifest(
        vec![],
        vec![(s("f"), Entry { cfun: s("futhark_entry_f"), outputs: vec![output("[]i8")], inputs: vec![] })],
    );
    assert!(matches!(m.validate(), Err(Error::ManifestParse(_))));
}

#[test]
fn bad_ctype_and_rank_are_rejected() {
    let mut a = array(ElemType::I32, 1);
    if let Type::Array(x) = &mut a {
        x.ctype = s("futhark_i32_1d");
    }
    assert!(matches!(manifest(vec![(s("[]i32"), a)], vec![]).validate(), Err(Error::ManifestParse(_))));
    let mut b = array(ElemType::I32, 1);
    if let Type::Array(x) = &mut b {
        x.rank = 0;
    }
    assert!(matches!(manifest(vec![(s("[]i32"), b)], vec![]).validate(), Err(Error::ManifestParse(_))));
    assert!(binary_search_manifest().validate().is_ok());
    assert!(tup_manifest().validate().is_ok());
}

#[test]
fn registry_resolution() {
    let mut r = TypeRegistry::new();
    assert_eq!(r.resolve(&s("i32")).unwrap(), (s("i32"), TypeKind::Scalar));
    r.register(s("[]i32"), s("futhark_i32_1d"), TypeKind::Array);
    r.register_wrapper(s("futhark_i32_1d"), s("ArrayI32D1"));
    assert_eq!(r.resolve(&s("[]i32")).unwrap(), (s("futhark_i32_1d"), TypeKind::Array));
    assert_eq!(r.resolve_wrapper(&s("futhark_i32_1d")).unwrap(), s("ArrayI32D1"));
    assert_eq!(r.resolve_wrapper(&s("i32")).unwrap(), s("i32"));
    r.register(s("f16"), s(""), TypeKind::Scalar);
    assert!(matches!(r.resolve(&s("f16")), Err(Error::UnsupportedType(_))));
}

#[test]
fn compiler_arguments() {
    let c = Compiler::new(Backend::OpenCL, "prog.fut")
        .with_extra_args(vec![s("--safe")])
        .with_executable_name("/opt/futhark")
        .with_output_dir("/tmp/out");
    assert_eq!(c.exe(), "/opt/futhark");
    assert_eq!(c.output_dir(), Some("/tmp/out"));
    assert_eq!(c.args("/tmp/out/prog"), vec!["opencl", "--safe", "-o", "/tmp/out/prog", "--lib", "prog.fut"]);
    let d = Compiler::new(Backend::C, "a.fut");
    assert_eq!(d.exe(), "futhark");
    assert_eq!(d.output_dir(), None);
    assert_eq!(d.args("x"), vec!["c", "-o", "x", "--lib", "a.fut"]);
}

#[test]
fn record_field_of_a_later_opaque_type() {
    let inner = Type::Opaque(OpaqueType {
        ctype: s("struct futhark_opaque_zed *"),
        ops: OpaqueOps { free: s("futhark_free_opaque_zed"), store: s("st"), restore: s("re") },
        record: None,
    });
    let outer = Type::Opaque(OpaqueType {
        ctype: s("struct futhark_opaque_outer *"),
        ops: OpaqueOps { free: s("futhark_free_opaque_outer"), store: s("st"), restore: s("re") },
        record: Some(Record {
            new: s("futhark_new_opaque_outer"),
            fields: vec![Field { name: s("z"), project: s("futhark_project_opaque_outer_z"), ty: s("zed") }],
        }),
    });
    let m = manifest(vec![(s("outer"), outer), (s("zed"), inner)], vec![]);
    let out = generate(&m).unwrap();
    assert!(out.contains("pub fn new(ctx: &'a Context, fieldz: &Zed)"));
    assert!(out.contains("futhark_new_opaque_outer(ctx.context, &mut out, fieldz.data)"));
    assert!(out.contains("pub fn get_z(&self) -> Result<Zed, Error> {"));
    assert!(out.contains("Ok(Zed::from_ptr(self.ctx, out))"));
}

#[test]
fn output_languages() {
    assert_eq!(Language::detect("rs"), Some(Language::Rust));
    assert_eq!(Language::detect("ml"), Some(Language::OCaml));
    assert_eq!(Language::detect("py"), None);
}

#[test]
fn opaque_names_starting_with_a_numeral() {
    let t = Type::Opaque(OpaqueType {
        ctype: s("struct futhark_opaque_1a2b *"),
        ops: OpaqueOps { free: s("futhark_free_opaque_1a2b"), store: s("st"), restore: s("re") },
        record: None,
    });
    let u = Type::Opaque(OpaqueType {
        ctype: s("struct futhark_opaque_pair *"),
        ops: OpaqueOps { free: s("futhark_free_opaque_pair"), store: s("st"), restore: s("re") },
        record: None,
    });
    let m = manifest(vec![(s("(f32, f32)"), u), (s("x"), t)], vec![]);
    let out = generate(&m).unwrap();
    assert!(out.contains("pub struct Type1a2b<'a> {"));
    assert!(out.contains("pub struct TypePair<'a> {"));
}

#[test]
fn half_float_arrays_hold_half_floats() {
    let m = manifest(vec![(s("[]f16"), array(ElemType::F16, 1))], vec![]);
    let out = generate(&m).unwrap();
    assert!(out.contains("data: impl AsRef<[half::f16]>"));
    assert!(out.contains("Result<Vec<half::f16>, Error>"));
    assert!(out.contains("_: *const half::f16,"));
}
