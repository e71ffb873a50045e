//! The text of the Rust bindings, as pieces between the values that fill them.
use vstd::prelude::*;

verus! {

pub const CONTEXT_0: &'static str = "#[derive(Debug)]
pub enum Error {
    Code(std::os::raw::c_int),
    NullPtr,
    InvalidShape,
}

impl std::fmt::Display for Error {
    fn fmt(&self, fmt: &mut std::fmt::Formatter) -> std::fmt::Result {
        match self {
            Error::Code(code) => write!(fmt, \"Futhark error code: {code}\"),
            Error::NullPtr => write!(fmt, \"NULL pointer encountered\"),
            Error::InvalidShape => write!(fmt, \"Invalid image shape\"),
        }
    } 
}

impl std::error::Error for Error {}

#[derive(Debug, Clone)]
pub struct Options {
    debug: bool,
    profile: bool,
    logging: bool,
    num_threads: u32,
    cache_file: std::option::Option<std::ffi::CString>,
    device: std::option::Option<std::ffi::CString>,
    auto_sync: bool,
}

impl Default for Options {
    fn default() -> Self {
        Options::new()
    }
}

impl Options {
    /// Create new `Options` with default settings
    pub fn new() -> Self {
        Options {
            debug: false,
            profile: false,
            logging: false,
            num_threads: 0,
            cache_file: None,
            device: None,
            auto_sync: true,
        }
    }

    /// Enable debug
    pub fn debug(mut self) -> Self {
        self.debug = true;
        self
    }

    /// Enable profiling
    pub fn profile(mut self) -> Self {
        self.profile = true;
        self
    }

    /// Enable logging
    pub fn log(mut self) -> Self {
        self.logging = true;
        self
    }

    /// Set Futhark cache file
    pub fn cache_file(mut self, s: impl AsRef<str>) -> Self {
        self.cache_file = Some(std::ffi::CString::new(s.as_ref()).expect(\"Invalid cache file\"));
        self
    }

    pub fn auto_sync(mut self, sync: bool) -> Self {
        self.auto_sync = sync;
        self
    }


    ";

pub const CONTEXT_1: &'static str = "
}

/// Futhark context
pub struct Context {
    config: *mut futhark_context_config,
    context: *mut futhark_context,
    auto_sync: bool,
    _cache_file: std::option::Option<std::ffi::CString>,
}

impl Context {
    /// Create a new context with default options
    pub fn new() -> std::result::Result<Self, Error> {
        unsafe {
            let config = futhark_context_config_new();
            if config.is_null() { return Err(Error::NullPtr) }
            let context = futhark_context_new(config);
            if context.is_null() {
                futhark_context_config_free(config);
                return Err(Error::NullPtr);
            }
            Ok(Context { config, context, auto_sync: true, _cache_file: None })
        }
    }

    /// Create a new context with custom options
    pub fn new_with_options(options: Options) -> std::result::Result<Self, Error> {
        unsafe {
            let config = futhark_context_config_new();
            if config.is_null() { return Err(Error::NullPtr) }

            futhark_context_config_set_debugging(config, options.debug as std::os::raw::c_int);
            futhark_context_config_set_profiling(config, options.profile as std::os::raw::c_int);
            futhark_context_config_set_logging(config, options.logging as std::os::raw::c_int);

            if let Some(c) = &options.cache_file {
                futhark_context_config_set_cache_file(config, c.as_ptr());
            }

            ";

pub const CONTEXT_2: &'static str = "
            ";

pub const CONTEXT_3: &'static str = "

            let context = futhark_context_new(config);
            if context.is_null() {
                futhark_context_config_free(config);
                return Err(Error::NullPtr);
            }
            Ok(Context { config, context, auto_sync: options.auto_sync, _cache_file: options.cache_file })
        }
    }

    /// Sync the context, if `auto_sync` is enabled this shouldn't be needed
    pub fn sync(&self) {
        unsafe { futhark_context_sync(self.context); }
    }

    /// Sync if `auto_sync` is enabled, otherwise this is a noop
    pub fn auto_sync(&self) {
        if self.auto_sync {
            self.sync();
        }
    }

    /// Clear Futhark caches
    pub fn clear_caches(&self) -> std::result::Result<(), Error> {
        let rc = unsafe {
            futhark_context_clear_caches(self.context)
        };
        if rc != 0 { return Err(Error::Code(rc)) }
        Ok(())
    }

    /// Pause Futhark profiling
    pub fn pause_profiling(&self) {
        unsafe {
            futhark_context_pause_profiling(self.context);
        }
    }

    /// Resume profiling
    pub fn unpause_profiling(&self) {
        unsafe {
            futhark_context_unpause_profiling(self.context);
        }
    }

    /// Get the last error message or None
    pub fn get_error(&self) -> std::option::Option<String> {
        unsafe {
            let s = futhark_context_get_error(self.context);
            if s.is_null() { return None }
            let r = std::ffi::CStr::from_ptr(s).to_string_lossy().to_string();
            free(s as *mut _);
            Some(r)
        }
    }

    pub fn report(&self) -> std::option::Option<String> {
        unsafe {
            let s = futhark_context_report(self.context);
            if s.is_null() { return None }
            let r = std::ffi::CStr::from_ptr(s).to_string_lossy().to_string();
            free(s as *mut _);
            Some(r)
        }
    }
}

impl Drop for Context {
    fn drop(&mut self) {
        unsafe {
            futhark_context_sync(self.context);
            futhark_context_free(self.context);
            futhark_context_config_free(self.config);
        }
    }
}

#[repr(C)]
#[allow(non_camel_case_types)]
struct futhark_context_config {
    _private: [u8; 0]
}

#[repr(C)]
#[allow(non_camel_case_types)]
struct futhark_context {
    _private: [u8; 0]
}

extern \"C\" {
    fn futhark_context_config_new() -> *mut futhark_context_config;
    fn futhark_context_config_free(
        _: *mut futhark_context_config
    );
    fn futhark_context_config_set_debugging(
        _: *mut futhark_context_config,
        _: std::os::raw::c_int
    );

    fn futhark_context_config_set_profiling(
        _: *mut futhark_context_config,
        _: std::os::raw::c_int
    );

    fn futhark_context_config_set_logging(
        _: *mut futhark_context_config,
        _: std::os::raw::c_int
    );

    fn futhark_context_config_set_cache_file(
        _: *mut futhark_context_config,
        _: *const std::os::raw::c_char,
    );

    fn futhark_context_new(
        _: *mut futhark_context_config
    ) -> *mut futhark_context;

    fn futhark_context_free(
        _: *mut futhark_context
    );

    fn futhark_context_sync(
        _: *mut futhark_context,
    ) -> std::os::raw::c_int;

    fn futhark_context_clear_caches(
        _: *mut futhark_context,
    ) -> std::os::raw::c_int;

    fn futhark_context_pause_profiling(
        _: *mut futhark_context
    );

    fn futhark_context_unpause_profiling(
        _: *mut futhark_context
    );

    fn futhark_context_get_error(
        _: *mut futhark_context
    ) -> *mut std::os::raw::c_char;

    fn futhark_context_report(
        _: *mut futhark_context
    ) -> *mut std::os::raw::c_char;

    fn free(_: *mut std::ffi::c_void);

    ";

pub const CONTEXT_4: &'static str = "
}

";

/// The context, its options and the error type, with the lines that depend on the backend.
#[verifier::opaque]
pub open spec fn context_text(backend_options: Seq<char>, configure_num_threads: Seq<char>, configure_set_device: Seq<char>, backend_extern_functions: Seq<char>) -> Seq<char> {
    CONTEXT_0@
        + backend_options
        + CONTEXT_1@
        + configure_num_threads
        + CONTEXT_2@
        + configure_set_device
        + CONTEXT_3@
        + backend_extern_functions
        + CONTEXT_4@
}

/// The context, its options and the error type, with the lines that depend on the backend.
pub fn emit_context(backend_options: &str, configure_num_threads: &str, configure_set_device: &str, backend_extern_functions: &str) -> (r: String)
    ensures
        r@ == context_text(backend_options@, configure_num_threads@, configure_set_device@, backend_extern_functions@),
{
    proof {
        reveal(context_text);
    }
    let mut s = CONTEXT_0.to_owned();
    s.append(backend_options);
    s.append(CONTEXT_1);
    s.append(configure_num_threads);
    s.append(CONTEXT_2);
    s.append(configure_set_device);
    s.append(CONTEXT_3);
    s.append(backend_extern_functions);
    s.append(CONTEXT_4);
    s
}

pub const ARRAY_0: &'static str = "#[repr(C)]
#[allow(non_camel_case_types)]
struct ";

pub const ARRAY_1: &'static str = " {
    _private: [u8; 0]
}

/// Array type with ";

pub const ARRAY_2: &'static str = " dimensions and ";

pub const ARRAY_3: &'static str = " elements
pub struct ";

pub const ARRAY_4: &'static str = "<'a> {
    ptr: *mut ";

pub const ARRAY_5: &'static str = ",
    pub shape: [i64; ";

pub const ARRAY_6: &'static str = "],
    ctx: &'a Context,
}

impl<'a> ";

pub const ARRAY_7: &'static str = "<'a> {
    /// Create a new array of `dims` dimensions and initialize it with the values from `data`
    pub fn new(ctx: &'a Context, dims: [i64; ";

pub const ARRAY_8: &'static str = "], data: impl AsRef<[";

pub const ARRAY_9: &'static str = "]>) -> std::result::Result<Self, Error> {
        let size: i64 = dims.iter().product();
        let data = data.as_ref();
        if data.len() as i64 != size {
            return Err(Error::InvalidShape)
        }
        let ptr = unsafe {
            ";

pub const ARRAY_10: &'static str = "(ctx.context, data.as_ptr(), ";

pub const ARRAY_11: &'static str = ")
        };
        if ptr.is_null() { return Err(Error::NullPtr); }
        ctx.auto_sync();
        Ok(Self {
            ptr: ptr as *mut _,
            shape: dims,
            ctx,
        })
    }

    /// Get the array shape
    pub fn shape(&self) -> &[i64; ";

pub const ARRAY_12: &'static str = "] {
        &self.shape
    }

    /// Load values back into a slice
    pub fn values(&self, mut data: impl AsMut<[";

pub const ARRAY_13: &'static str = "]>) -> std::result::Result<(), Error> {
        let size: i64 = self.shape.iter().product();
        let data = data.as_mut();
        if data.len() as i64 != size {
            return Err(Error::InvalidShape);
        }
        let rc = unsafe {
            ";

pub const ARRAY_14: &'static str = "(self.ctx.context, self.ptr, data.as_mut_ptr())
        };
        if rc != 0 {
            return Err(Error::Code(rc));
        }
        self.ctx.auto_sync();
        Ok(())
    }

    /// Load values into a `Vec`
    pub fn get(&self) -> std::result::Result<Vec<";

pub const ARRAY_15: &'static str = ">, Error> {
        let size: i64 = self.shape.iter().product();
        let mut vec = vec![";

pub const ARRAY_16: &'static str = "::default(); size as usize];
        self.values(&mut vec)?;
        Ok(vec)
    }


    #[allow(unused)]
    fn from_ptr(ctx: &'a Context, ptr: *mut ";

pub const ARRAY_17: &'static str = ") -> Self {
        let len_ptr = unsafe { ";

pub const ARRAY_18: &'static str = "(ctx.context, ptr) };
        let mut shape = [0i64; ";

pub const ARRAY_19: &'static str = "];
        unsafe {
            for (i, s) in shape.iter_mut().enumerate() {
                *s = *len_ptr.add(i);
            }
        }
        Self { ctx, shape, ptr }
    }
}


impl<'a> Drop for ";

pub const ARRAY_20: &'static str = "<'a> {
    fn drop(&mut self){
        unsafe {
            ";

pub const ARRAY_21: &'static str = "(self.ctx.context, self.ptr as *mut _);
        }
    }
}

#[allow(unused)]
extern \"C\" {
    fn ";

pub const ARRAY_22: &'static str = "(
        _: *mut futhark_context,
        _: *mut ";

pub const ARRAY_23: &'static str = "
    ) -> *const i64;

    fn ";

pub const ARRAY_24: &'static str = "(
        _: *mut futhark_context,
        _: *const ";

pub const ARRAY_25: &'static str = ",
        ";

pub const ARRAY_26: &'static str = "
    ) -> *mut ";

pub const ARRAY_27: &'static str = ";

    fn ";

pub const ARRAY_28: &'static str = "(
        _: *mut futhark_context,
        _: *mut ";

pub const ARRAY_29: &'static str = "
    ) -> std::os::raw::c_int;

    fn ";

pub const ARRAY_30: &'static str = "(
        _: *mut futhark_context,
        _: *mut ";

pub const ARRAY_31: &'static str = ",
        _: *mut ";

pub const ARRAY_32: &'static str = "
    ) -> std::os::raw::c_int;
}

";

/// An array type: the C struct, the wrapper that owns a pointer to it, and the C functions it calls.
#[verifier::opaque]
pub open spec fn array_text(futhark_type: Seq<char>, rust_type: Seq<char>, rank: Seq<char>, elemtype: Seq<char>, new_fn: Seq<char>, free_fn: Seq<char>, values_fn: Seq<char>, shape_fn: Seq<char>, dim_params: Seq<char>, new_dim_args: Seq<char>) -> Seq<char> {
    ARRAY_0@
        + futhark_type
        + ARRAY_1@
        + rank
        + ARRAY_2@
        + elemtype
        + ARRAY_3@
        + rust_type
        + ARRAY_4@
        + futhark_type
        + ARRAY_5@
        + rank
        + ARRAY_6@
        + rust_type
        + ARRAY_7@
        + rank
        + ARRAY_8@
        + elemtype
        + ARRAY_9@
        + new_fn
        + ARRAY_10@
        + dim_params
        + ARRAY_11@
        + rank
        + ARRAY_12@
        + elemtype
        + ARRAY_13@
        + values_fn
        + ARRAY_14@
        + elemtype
        + ARRAY_15@
        + elemtype
        + ARRAY_16@
        + futhark_type
        + ARRAY_17@
        + shape_fn
        + ARRAY_18@
        + rank
        + ARRAY_19@
        + rust_type
        + ARRAY_20@
        + free_fn
        + ARRAY_21@
        + shape_fn
        + ARRAY_22@
        + futhark_type
        + ARRAY_23@
        + new_fn
        + ARRAY_24@
        + elemtype
        + ARRAY_25@
        + new_dim_args
        + ARRAY_26@
        + futhark_type
        + ARRAY_27@
        + free_fn
        + ARRAY_28@
        + futhark_type
        + ARRAY_29@
        + values_fn
        + ARRAY_30@
        + futhark_type
        + ARRAY_31@
        + elemtype
        + ARRAY_32@
}

/// An array type: the C struct, the wrapper that owns a pointer to it, and the C functions it calls.
pub fn emit_array(futhark_type: &str, rust_type: &str, rank: &str, elemtype: &str, new_fn: &str, free_fn: &str, values_fn: &str, shape_fn: &str, dim_params: &str, new_dim_args: &str) -> (r: String)
    ensures
        r@ == array_text(futhark_type@, rust_type@, rank@, elemtype@, new_fn@, free_fn@, values_fn@, shape_fn@, dim_params@, new_dim_args@),
{
    proof {
        reveal(array_text);
    }
    let mut s = ARRAY_0.to_owned();
    s.append(futhark_type);
    s.append(ARRAY_1);
    s.append(rank);
    s.append(ARRAY_2);
    s.append(elemtype);
    s.append(ARRAY_3);
    s.append(rust_type);
    s.append(ARRAY_4);
    s.append(futhark_type);
    s.append(ARRAY_5);
    s.append(rank);
    s.append(ARRAY_6);
    s.append(rust_type);
    s.append(ARRAY_7);
    s.append(rank);
    s.append(ARRAY_8);
    s.append(elemtype);
    s.append(ARRAY_9);
    s.append(new_fn);
    s.append(ARRAY_10);
    s.append(dim_params);
    s.append(ARRAY_11);
    s.append(rank);
    s.append(ARRAY_12);
    s.append(elemtype);
    s.append(ARRAY_13);
    s.append(values_fn);
    s.append(ARRAY_14);
    s.append(elemtype);
    s.append(ARRAY_15);
    s.append(elemtype);
    s.append(ARRAY_16);
    s.append(futhark_type);
    s.append(ARRAY_17);
    s.append(shape_fn);
    s.append(ARRAY_18);
    s.append(rank);
    s.append(ARRAY_19);
    s.append(rust_type);
    s.append(ARRAY_20);
    s.append(free_fn);
    s.append(ARRAY_21);
    s.append(shape_fn);
    s.append(ARRAY_22);
    s.append(futhark_type);
    s.append(ARRAY_23);
    s.append(new_fn);
    s.append(ARRAY_24);
    s.append(elemtype);
    s.append(ARRAY_25);
    s.append(new_dim_args);
    s.append(ARRAY_26);
    s.append(futhark_type);
    s.append(ARRAY_27);
    s.append(free_fn);
    s.append(ARRAY_28);
    s.append(futhark_type);
    s.append(ARRAY_29);
    s.append(values_fn);
    s.append(ARRAY_30);
    s.append(futhark_type);
    s.append(ARRAY_31);
    s.append(elemtype);
    s.append(ARRAY_32);
    s
}

pub const OPAQUE_0: &'static str = "#[repr(C)]
#[allow(non_camel_case_types)]
struct ";

pub const OPAQUE_1: &'static str = " {
    _private: [u8; 0]
}

extern \"C\" {
    fn ";

pub const OPAQUE_2: &'static str = "(
        _: *mut futhark_context,
        _: *mut ";

pub const OPAQUE_3: &'static str = "
    ) -> std::os::raw::c_int;
}

/// Futhark type
pub struct ";

pub const OPAQUE_4: &'static str = "<'a> {
    data: *mut ";

pub const OPAQUE_5: &'static str = ",
    ctx: &'a Context,
}

impl<'a> ";

pub const OPAQUE_6: &'static str = "<'a> {
    #[allow(unused)]
    fn from_ptr(ctx: &'a Context, data: *mut ";

pub const OPAQUE_7: &'static str = ") -> Self {
        Self { ctx, data }
    }
}

impl<'a> Drop for ";

pub const OPAQUE_8: &'static str = "<'a> {
    fn drop(&mut self) {
        unsafe {
            ";

pub const OPAQUE_9: &'static str = "(self.ctx.context, self.data);
        }
    }
}
";

/// An opaque type: the C struct, its destructor and the wrapper that owns a pointer to it.
#[verifier::opaque]
pub open spec fn opaque_text(futhark_type: Seq<char>, rust_type: Seq<char>, free_fn: Seq<char>) -> Seq<char> {
    OPAQUE_0@
        + futhark_type
        + OPAQUE_1@
        + free_fn
        + OPAQUE_2@
        + futhark_type
        + OPAQUE_3@
        + rust_type
        + OPAQUE_4@
        + futhark_type
        + OPAQUE_5@
        + rust_type
        + OPAQUE_6@
        + futhark_type
        + OPAQUE_7@
        + rust_type
        + OPAQUE_8@
        + free_fn
        + OPAQUE_9@
}

/// An opaque type: the C struct, its destructor and the wrapper that owns a pointer to it.
pub fn emit_opaque(futhark_type: &str, rust_type: &str, free_fn: &str) -> (r: String)
    ensures
        r@ == opaque_text(futhark_type@, rust_type@, free_fn@),
{
    proof {
        reveal(opaque_text);
    }
    let mut s = OPAQUE_0.to_owned();
    s.append(futhark_type);
    s.append(OPAQUE_1);
    s.append(free_fn);
    s.append(OPAQUE_2);
    s.append(futhark_type);
    s.append(OPAQUE_3);
    s.append(rust_type);
    s.append(OPAQUE_4);
    s.append(futhark_type);
    s.append(OPAQUE_5);
    s.append(rust_type);
    s.append(OPAQUE_6);
    s.append(futhark_type);
    s.append(OPAQUE_7);
    s.append(rust_type);
    s.append(OPAQUE_8);
    s.append(free_fn);
    s.append(OPAQUE_9);
    s
}

pub const RECORD_0: &'static str = "impl<'a> ";

pub const RECORD_1: &'static str = "<'a> {
    /// Create new ";

pub const RECORD_2: &'static str = "
    pub fn new(ctx: &'a Context, ";

pub const RECORD_3: &'static str = ") -> std::result::Result<Self, Error> {
        unsafe {
            let mut out = std::ptr::null_mut();
            let rc = ";

pub const RECORD_4: &'static str = "(ctx.context, &mut out, ";

pub const RECORD_5: &'static str = ");
            if rc != 0 { return Err(Error::Code(rc)); }
            ctx.auto_sync();
            Ok(Self { data: out, ctx })
        }
    }
}

extern \"C\" {
    fn ";

pub const RECORD_6: &'static str = "(
        _: *mut futhark_context,
        _: *mut *mut ";

pub const RECORD_7: &'static str = ",
        ";

pub const RECORD_8: &'static str = "
    ) -> std::os::raw::c_int;
}
";

/// The constructor of a record from its fields.
#[verifier::opaque]
pub open spec fn record_text(rust_type: Seq<char>, futhark_type: Seq<char>, new_fn: Seq<char>, new_params: Seq<char>, new_call_args: Seq<char>, new_extern_params: Seq<char>) -> Seq<char> {
    RECORD_0@
        + rust_type
        + RECORD_1@
        + rust_type
        + RECORD_2@
        + new_params
        + RECORD_3@
        + new_fn
        + RECORD_4@
        + new_call_args
        + RECORD_5@
        + new_fn
        + RECORD_6@
        + futhark_type
        + RECORD_7@
        + new_extern_params
        + RECORD_8@
}

/// The constructor of a record from its fields.
pub fn emit_record(rust_type: &str, futhark_type: &str, new_fn: &str, new_params: &str, new_call_args: &str, new_extern_params: &str) -> (r: String)
    ensures
        r@ == record_text(rust_type@, futhark_type@, new_fn@, new_params@, new_call_args@, new_extern_params@),
{
    proof {
        reveal(record_text);
    }
    let mut s = RECORD_0.to_owned();
    s.append(rust_type);
    s.append(RECORD_1);
    s.append(rust_type);
    s.append(RECORD_2);
    s.append(new_params);
    s.append(RECORD_3);
    s.append(new_fn);
    s.append(RECORD_4);
    s.append(new_call_args);
    s.append(RECORD_5);
    s.append(new_fn);
    s.append(RECORD_6);
    s.append(futhark_type);
    s.append(RECORD_7);
    s.append(new_extern_params);
    s.append(RECORD_8);
    s
}

pub const PROJECT_0: &'static str = "impl<'a> ";

pub const PROJECT_1: &'static str = "<'a> {
    pub fn get_";

pub const PROJECT_2: &'static str = "(&self) -> Result<";

pub const PROJECT_3: &'static str = ", Error> {
        let mut out = std::mem::MaybeUninit::zeroed();
        let rc = unsafe {
            ";

pub const PROJECT_4: &'static str = "(
                self.ctx.context,
                out.as_mut_ptr(),
                self.data
            )
        };
        if rc != 0 { return Err(Error::Code(rc)); }
        self.ctx.auto_sync();
        let out = unsafe { out.assume_init() };
        ";

pub const PROJECT_5: &'static str = "
    }
}

extern \"C\" {
    fn ";

pub const PROJECT_6: &'static str = "(
        _: *mut futhark_context,
        _: *mut ";

pub const PROJECT_7: &'static str = ",
        _: *const ";

pub const PROJECT_8: &'static str = "
    ) -> std::os::raw::c_int;
}
";

/// The accessor of one field of a record.
#[verifier::opaque]
pub open spec fn project_text(rust_type: Seq<char>, futhark_type: Seq<char>, field_name: Seq<char>, project_fn: Seq<char>, futhark_field_type: Seq<char>, rust_field_type: Seq<char>, output: Seq<char>) -> Seq<char> {
    PROJECT_0@
        + rust_type
        + PROJECT_1@
        + field_name
        + PROJECT_2@
        + rust_field_type
        + PROJECT_3@
        + project_fn
        + PROJECT_4@
        + output
        + PROJECT_5@
        + project_fn
        + PROJECT_6@
        + futhark_field_type
        + PROJECT_7@
        + futhark_type
        + PROJECT_8@
}

/// The accessor of one field of a record.
pub fn emit_project(rust_type: &str, futhark_type: &str, field_name: &str, project_fn: &str, futhark_field_type: &str, rust_field_type: &str, output: &str) -> (r: String)
    ensures
        r@ == project_text(rust_type@, futhark_type@, field_name@, project_fn@, futhark_field_type@, rust_field_type@, output@),
{
    proof {
        reveal(project_text);
    }
    let mut s = PROJECT_0.to_owned();
    s.append(rust_type);
    s.append(PROJECT_1);
    s.append(field_name);
    s.append(PROJECT_2);
    s.append(rust_field_type);
    s.append(PROJECT_3);
    s.append(project_fn);
    s.append(PROJECT_4);
    s.append(output);
    s.append(PROJECT_5);
    s.append(project_fn);
    s.append(PROJECT_6);
    s.append(futhark_field_type);
    s.append(PROJECT_7);
    s.append(futhark_type);
    s.append(PROJECT_8);
    s
}

pub const ENTRY_0: &'static str = "impl Context {
    pub fn ";

pub const ENTRY_1: &'static str = "(&self, ";

pub const ENTRY_2: &'static str = ") -> Result<";

pub const ENTRY_3: &'static str = ", Error> {
        ";

pub const ENTRY_4: &'static str = "
        let rc = unsafe {
            ";

pub const ENTRY_5: &'static str = "(self.context, ";

pub const ENTRY_6: &'static str = ")
        };
        if rc != 0 { return Err(Error::Code(rc)); }
    
        unsafe {
            Ok(";

pub const ENTRY_7: &'static str = ")
        }
    }
}

extern \"C\" {
    fn ";

pub const ENTRY_8: &'static str = "(
        _: *mut futhark_context,
        ";

pub const ENTRY_9: &'static str = "
    ) -> std::os::raw::c_int;
}

";

/// The method of the context that calls an entry point.
#[verifier::opaque]
pub open spec fn entry_text(entry_name: Seq<char>, entry_fn: Seq<char>, entry_params: Seq<char>, entry_return_type: Seq<char>, out_decl: Seq<char>, call_args: Seq<char>, entry_return: Seq<char>, futhark_entry_params: Seq<char>) -> Seq<char> {
    ENTRY_0@
        + entry_name
        + ENTRY_1@
        + entry_params
        + ENTRY_2@
        + entry_return_type
        + ENTRY_3@
        + out_decl
        + ENTRY_4@
        + entry_fn
        + ENTRY_5@
        + call_args
        + ENTRY_6@
        + entry_return
        + ENTRY_7@
        + entry_fn
        + ENTRY_8@
        + futhark_entry_params
        + ENTRY_9@
}

/// The method of the context that calls an entry point.
pub fn emit_entry(entry_name: &str, entry_fn: &str, entry_params: &str, entry_return_type: &str, out_decl: &str, call_args: &str, entry_return: &str, futhark_entry_params: &str) -> (r: String)
    ensures
        r@ == entry_text(entry_name@, entry_fn@, entry_params@, entry_return_type@, out_decl@, call_args@, entry_return@, futhark_entry_params@),
{
    proof {
        reveal(entry_text);
    }
    let mut s = ENTRY_0.to_owned();
    s.append(entry_name);
    s.append(ENTRY_1);
    s.append(entry_params);
    s.append(ENTRY_2);
    s.append(entry_return_type);
    s.append(ENTRY_3);
    s.append(out_decl);
    s.append(ENTRY_4);
    s.append(entry_fn);
    s.append(ENTRY_5);
    s.append(call_args);
    s.append(ENTRY_6);
    s.append(entry_return);
    s.append(ENTRY_7);
    s.append(entry_fn);
    s.append(ENTRY_8);
    s.append(futhark_entry_params);
    s.append(ENTRY_9);
    s
}

} // verus!
