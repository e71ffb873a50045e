use futhark_bindgen::manifest::ElemType;
use futhark_bindgen::text::{
    convert_struct_name, decimal, first_uppercase, join, less_than, strip_prefix, to_lower, to_upper,
};

#[test]
fn decimal_numerals() {
    assert_eq!(decimal(0), "0");
    assert_eq!(decimal(7), "7");
    assert_eq!(decimal(120), "120");
    assert_eq!(decimal(18446744073709551615), "18446744073709551615");
}

#[test]
fn joining() {
    let v = vec!["a".to_string(), "bc".to_string(), "".to_string()];
    assert_eq!(join(&v, ", "), "a, bc, ");
    assert_eq!(join(&vec![], ", "), "");
    assert_eq!(join(&vec!["x".to_string()], ";\n"), "x");
}

#[test]
fn ascii_case() {
    assert_eq!(first_uppercase("tup"), "Tup");
    assert_eq!(first_uppercase("1x"), "1x");
    assert_eq!(first_uppercase(""), "");
    assert_eq!(to_upper("i64"), "I64");
    assert_eq!(to_lower("OpenCL"), "opencl");
}

#[test]
fn struct_names() {
    assert_eq!(convert_struct_name("struct futhark_i64_1d *"), Some("futhark_i64_1d"));
    assert_eq!(convert_struct_name("struct\tfoo\t*"), Some("foo"));
    assert_eq!(convert_struct_name("struct foo*"), None);
    assert_eq!(convert_struct_name("int64_t"), None);
    assert_eq!(strip_prefix("futhark_opaque_tup", "futhark_opaque_"), Some("tup"));
    assert_eq!(strip_prefix("futhark_tup", "futhark_opaque_"), None);
}

#[test]
fn text_order() {
    assert!(less_than("[]f32", "[]i64"));
    assert!(less_than("ab", "abc"));
    assert!(!less_than("abc", "abc"));
    assert!(!less_than("b", "a"));
}

#[test]
fn elem_type_names() {
    assert_eq!(ElemType::I8.to_str(), "i8");
    assert_eq!(ElemType::F16.to_str(), "f16");
    assert_eq!(ElemType::Bool.to_str(), "bool");
    assert!(ElemType::is_scalar(&"u64".to_string()));
    assert!(!ElemType::is_scalar(&"[]u64".to_string()));
}
