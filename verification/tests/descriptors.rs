//! Descriptor grammar tests.

use classfile::descriptor::BaseType;
use classfile::descriptor::MethodDescriptor;
use classfile::descriptor::ReturnDescriptor;
use classfile::descriptor::TypeDescriptor;
use classfile::jstr::JStr;

fn jstr(text: &str) -> JStr {
    JStr::from_jutf8(text.as_bytes()).unwrap()
}

#[test]
fn primitive_descriptor_parses() {
    let td = TypeDescriptor::from_jstr(&jstr("I")).unwrap();
    assert_eq!(td.dimensions, 0);
    assert!(matches!(td.base, BaseType::Int));
}

#[test]
fn object_descriptor_parses() {
    let td = TypeDescriptor::from_jstr(&jstr("Ljava/lang/Object;")).unwrap();
    assert_eq!(td.dimensions, 0);
    match td.base {
        BaseType::Object(name) => assert_eq!(name.as_slice(), b"java/lang/Object"),
        other => panic!("wrong base: {other:?}"),
    }
}

#[test]
fn array_descriptor_parses() {
    let td = TypeDescriptor::from_jstr(&jstr("[[I")).unwrap();
    assert_eq!(td.dimensions, 2);
    assert!(matches!(td.base, BaseType::Int));
}

#[test]
fn malformed_descriptors_rejected() {
    assert!(TypeDescriptor::from_jstr(&jstr("L;")).is_err()); // empty name
    assert!(TypeDescriptor::from_jstr(&jstr("[")).is_err()); // no base
    assert!(TypeDescriptor::from_jstr(&jstr("")).is_err());
    assert!(TypeDescriptor::from_jstr(&jstr("X")).is_err());
    assert!(TypeDescriptor::from_jstr(&jstr("La;b;")).is_err()); // stray `;`
    let mut deep = String::new();
    for _ in 0..256 {
        deep.push('[');
    }
    deep.push('I');
    assert!(TypeDescriptor::from_jstr(&jstr(&deep)).is_err());
    let mut depth_ok = String::new();
    for _ in 0..255 {
        depth_ok.push('[');
    }
    depth_ok.push('I');
    let td = TypeDescriptor::from_jstr(&jstr(&depth_ok)).unwrap();
    assert_eq!(td.dimensions, 255);
}

#[test]
fn method_descriptor_parses_and_iterates() {
    let md = MethodDescriptor::from_jstr(&jstr("(IJLjava/lang/Object;[D)V")).unwrap();
    let mut params = md.parameters_iter();
    let p1 = params.next().unwrap();
    assert_eq!(p1.dimensions, 0);
    assert!(matches!(p1.base, BaseType::Int));
    let p2 = params.next().unwrap();
    assert!(matches!(p2.base, BaseType::Long));
    let p3 = params.next().unwrap();
    match p3.base {
        BaseType::Object(name) => assert_eq!(name.as_slice(), b"java/lang/Object"),
        other => panic!("wrong base: {other:?}"),
    }
    let p4 = params.next().unwrap();
    assert_eq!(p4.dimensions, 1);
    assert!(matches!(p4.base, BaseType::Double));
    assert!(params.next().is_none());
    assert!(matches!(md.return_type(), ReturnDescriptor::VoidDescriptor));
}

#[test]
fn method_descriptor_field_return() {
    let md = MethodDescriptor::from_jstr(&jstr("()I")).unwrap();
    let mut params = md.parameters_iter();
    assert!(params.next().is_none());
    match md.return_type() {
        ReturnDescriptor::FieldType(td) => assert!(matches!(td.base, BaseType::Int)),
        other => panic!("wrong return: {other:?}"),
    }
}

#[test]
fn malformed_method_descriptors_rejected() {
    assert!(MethodDescriptor::from_jstr(&jstr("")).is_err());
    assert!(MethodDescriptor::from_jstr(&jstr("I")).is_err());
    assert!(MethodDescriptor::from_jstr(&jstr("(")).is_err());
    assert!(MethodDescriptor::from_jstr(&jstr("()")).is_err());
    assert!(MethodDescriptor::from_jstr(&jstr("()VX")).is_err());
    assert!(MethodDescriptor::from_jstr(&jstr("(V)V")).is_err());
    assert!(MethodDescriptor::from_jstr(&jstr("(L;)V")).is_err());
}
