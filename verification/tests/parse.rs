//! Decoder tests: framing, dispatch failures, and a full round trip.

use classfile::attrinfo::AttributeInfoType;
use classfile::cpinfo::CpInfoType;
use classfile::parser::ClassFileParser;
use classfile::parser::ParseError;

fn push_u2(v: &mut Vec<u8>, x: u16) {
    v.push((x >> 8) as u8);
    v.push((x & 0xFF) as u8);
}

fn push_u4(v: &mut Vec<u8>, x: u32) {
    v.push((x >> 24) as u8);
    v.push(((x >> 16) & 0xFF) as u8);
    v.push(((x >> 8) & 0xFF) as u8);
    v.push((x & 0xFF) as u8);
}

fn push_utf8(v: &mut Vec<u8>, text: &str) {
    v.push(1);
    push_u2(v, text.len() as u16);
    v.extend_from_slice(text.as_bytes());
}

/// A minimal single-method class file: constant pool with the texts the
/// attributes need, one `<init>` method carrying a `Code` attribute with a
/// five-byte body and a one-entry line-number table, and one `SourceFile`
/// attribute on the class.
fn minimal_class_bytes() -> Vec<u8> {
    let mut v = Vec::new();
    push_u4(&mut v, 0xCAFEBABE);
    push_u2(&mut v, 0); // minor
    push_u2(&mut v, 61); // major
    push_u2(&mut v, 9); // constant pool count: 8 entries
    push_utf8(&mut v, "<init>"); // 1
    push_utf8(&mut v, "()V"); // 2
    push_utf8(&mut v, "Code"); // 3
    push_utf8(&mut v, "LineNumberTable"); // 4
    push_utf8(&mut v, "SourceFile"); // 5
    push_utf8(&mut v, "Main.java"); // 6
    push_utf8(&mut v, "Main"); // 7
    v.push(7); // 8: Class
    push_u2(&mut v, 7);
    push_u2(&mut v, 0x0021); // access flags: public | super
    push_u2(&mut v, 8); // this_class
    push_u2(&mut v, 0); // super_class
    push_u2(&mut v, 0); // interfaces
    push_u2(&mut v, 0); // fields
    push_u2(&mut v, 1); // methods
    push_u2(&mut v, 0x0001); // method access flags: public
    push_u2(&mut v, 1); // name <init>
    push_u2(&mut v, 2); // descriptor ()V
    push_u2(&mut v, 1); // one attribute
    push_u2(&mut v, 3); // Code
    push_u4(&mut v, 29); // declared length
    push_u2(&mut v, 1); // max_stack
    push_u2(&mut v, 1); // max_locals
    push_u4(&mut v, 5); // code_length
    v.extend_from_slice(&[0x2A, 0xB7, 0x00, 0x01, 0xB1]); // opaque body
    push_u2(&mut v, 0); // exception table
    push_u2(&mut v, 1); // nested attributes
    push_u2(&mut v, 4); // LineNumberTable
    push_u4(&mut v, 6);
    push_u2(&mut v, 1); // one entry
    push_u2(&mut v, 0); // start_pc
    push_u2(&mut v, 7); // line_number
    push_u2(&mut v, 1); // class attributes
    push_u2(&mut v, 5); // SourceFile
    push_u4(&mut v, 2);
    push_u2(&mut v, 6); // Main.java
    v
}

#[test]
fn bad_magic_always_invalid_magic() {
    let mut parser = ClassFileParser::new(&[0xCA, 0xFE, 0xBA, 0xBF, 1, 2, 3]);
    assert_eq!(parser.parse().unwrap_err(), ParseError::InvalidMagic);
    let mut parser = ClassFileParser::new(&[0, 0, 0, 0]);
    assert_eq!(parser.parse().unwrap_err(), ParseError::InvalidMagic);
}

#[test]
fn truncated_buffer_unexpected_end() {
    let mut parser = ClassFileParser::new(&[]);
    assert_eq!(parser.parse().unwrap_err(), ParseError::UnexpectedEndOfInput);
    let mut parser = ClassFileParser::new(&[0xCA, 0xFE, 0xBA, 0xBE]);
    assert_eq!(parser.parse().unwrap_err(), ParseError::UnexpectedEndOfInput);
}

#[test]
fn unknown_constant_pool_tag_rejected() {
    let mut v = Vec::new();
    push_u4(&mut v, 0xCAFEBABE);
    push_u2(&mut v, 0);
    push_u2(&mut v, 61);
    push_u2(&mut v, 2); // one entry
    v.push(2); // tag 2 is undefined
    let mut parser = ClassFileParser::new(&v);
    assert_eq!(parser.parse().unwrap_err(), ParseError::UnknownConstantPoolTag);
}

fn class_with_attr(attr_name: &str, payload: &[u8]) -> Vec<u8> {
    let mut v = Vec::new();
    push_u4(&mut v, 0xCAFEBABE);
    push_u2(&mut v, 0);
    push_u2(&mut v, 61);
    push_u2(&mut v, 2);
    push_utf8(&mut v, attr_name); // 1
    push_u2(&mut v, 0); // access flags
    push_u2(&mut v, 0); // this
    push_u2(&mut v, 0); // super
    push_u2(&mut v, 0); // interfaces
    push_u2(&mut v, 0); // fields
    push_u2(&mut v, 0); // methods
    push_u2(&mut v, 1); // attributes
    push_u2(&mut v, 1); // name index
    push_u4(&mut v, payload.len() as u32);
    v.extend_from_slice(payload);
    v
}

#[test]
fn unknown_attribute_name_rejected() {
    let mut parser = ClassFileParser::new(&class_with_attr("NoSuchAttribute", &[]));
    assert_eq!(parser.parse().unwrap_err(), ParseError::UnknownAttributeName);
}

#[test]
fn attribute_name_index_out_of_range_rejected() {
    let mut v = Vec::new();
    push_u4(&mut v, 0xCAFEBABE);
    push_u2(&mut v, 0);
    push_u2(&mut v, 61);
    push_u2(&mut v, 1); // empty pool
    push_u2(&mut v, 0);
    push_u2(&mut v, 0);
    push_u2(&mut v, 0);
    push_u2(&mut v, 0);
    push_u2(&mut v, 0);
    push_u2(&mut v, 0);
    push_u2(&mut v, 1); // one attribute
    push_u2(&mut v, 1); // index 1 resolves to nothing
    push_u4(&mut v, 0);
    let mut parser = ClassFileParser::new(&v);
    assert_eq!(parser.parse().unwrap_err(), ParseError::InvalidConstantPoolIndex);
}

#[test]
fn unknown_stack_map_frame_type_rejected() {
    // frame types 128..=246 are reserved
    let mut payload = Vec::new();
    push_u2(&mut payload, 1);
    payload.push(200);
    let mut parser = ClassFileParser::new(&class_with_attr("StackMapTable", &payload));
    assert_eq!(parser.parse().unwrap_err(), ParseError::UnknownStackMapFrameType);
}

#[test]
fn unknown_verification_type_tag_rejected() {
    // frame type 64 carries one verification-type entry; tag 9 is undefined
    let mut payload = Vec::new();
    push_u2(&mut payload, 1);
    payload.push(64);
    payload.push(9);
    let mut parser = ClassFileParser::new(&class_with_attr("StackMapTable", &payload));
    assert_eq!(parser.parse().unwrap_err(), ParseError::UnknownVerificationTypeTag);
}

#[test]
fn unknown_element_value_tag_rejected() {
    // one annotation with one pair whose element value carries tag 'x'
    let mut payload = Vec::new();
    push_u2(&mut payload, 1); // num_annotations
    push_u2(&mut payload, 1); // type_index
    push_u2(&mut payload, 1); // one pair
    push_u2(&mut payload, 1); // element_name_index
    payload.push(b'x');
    let mut parser = ClassFileParser::new(&class_with_attr("RuntimeVisibleAnnotations", &payload));
    assert_eq!(parser.parse().unwrap_err(), ParseError::UnknownElementValueTag);
}

#[test]
fn unknown_type_annotation_target_rejected() {
    let mut payload = Vec::new();
    push_u2(&mut payload, 1); // num_annotations
    payload.push(0x80); // undefined target type
    let mut parser = ClassFileParser::new(
        &class_with_attr("RuntimeVisibleTypeAnnotations", &payload),
    );
    assert_eq!(parser.parse().unwrap_err(), ParseError::UnknownTypeAnnotationTargetType);
}

#[test]
fn stack_map_frames_decode_by_range() {
    let mut payload = Vec::new();
    push_u2(&mut payload, 4);
    payload.push(0); // same frame
    payload.push(251); // same frame extended
    push_u2(&mut payload, 10);
    payload.push(252); // append frame with one local
    push_u2(&mut payload, 3);
    payload.push(7); // object variable info
    push_u2(&mut payload, 1);
    payload.push(255); // full frame
    push_u2(&mut payload, 4);
    push_u2(&mut payload, 1); // one local
    payload.push(1); // integer
    push_u2(&mut payload, 0); // no stack items
    let mut parser = ClassFileParser::new(&class_with_attr("StackMapTable", &payload));
    let cf = parser.parse().expect("the table decodes");
    match &cf.attributes[0].info {
        AttributeInfoType::StackMapTableAttribute { number_of_entries, stack_map_table } => {
            assert_eq!(*number_of_entries, 4);
            assert_eq!(stack_map_table.len(), 4);
        }
        other => panic!("wrong payload: {other:?}"),
    }
}

#[test]
fn minimal_class_round_trips_exactly() {
    let bytes = minimal_class_bytes();
    let mut parser = ClassFileParser::new(&bytes);
    let cf = parser.parse().expect("the minimal class decodes");

    assert_eq!(cf.magic, 0xCAFEBABE);
    assert_eq!(cf.minor_version, 0);
    assert_eq!(cf.major_version, 61);
    assert_eq!(cf.constant_pool_count, 9);
    assert_eq!(cf.constant_pool.len(), 8);
    match &cf.constant_pool[0].info {
        CpInfoType::ConstantUtf8 { length, bytes } => {
            assert_eq!(*length, 6);
            assert_eq!(bytes.as_slice(), b"<init>");
        }
        other => panic!("wrong first entry: {other:?}"),
    }
    assert_eq!(cf.constant_pool[7].tag, 7);
    match &cf.constant_pool[7].info {
        CpInfoType::ConstantClass { name_index } => assert_eq!(*name_index, 7),
        other => panic!("wrong class entry: {other:?}"),
    }
    assert_eq!(cf.access_flags, 0x0021);
    assert_eq!(cf.this_class, 8);
    assert_eq!(cf.super_class, 0);
    assert_eq!(cf.interfaces_count, 0);
    assert_eq!(cf.interfaces.len(), 0);
    assert_eq!(cf.fields_count, 0);
    assert_eq!(cf.fields.len(), 0);
    assert_eq!(cf.methods_count, 1);
    assert_eq!(cf.methods.len(), 1);

    let method = &cf.methods[0];
    assert_eq!(method.access_flags, 0x0001);
    assert_eq!(method.name_index, 1);
    assert_eq!(method.descriptor_index, 2);
    assert_eq!(method.attributes_count, 1);
    assert_eq!(method.attributes.len(), 1);
    assert_eq!(method.attributes[0].attribute_name_index, 3);
    assert_eq!(method.attributes[0].attribute_length, 29);
    match &method.attributes[0].info {
        AttributeInfoType::CodeAttribute {
            max_stack,
            max_locals,
            code_length,
            code,
            exception_table_length,
            exception_table,
            attributes_count,
            attributes,
        } => {
            assert_eq!(*max_stack, 1);
            assert_eq!(*max_locals, 1);
            assert_eq!(*code_length, 5);
            assert_eq!(code.as_slice(), &[0x2A, 0xB7, 0x00, 0x01, 0xB1]);
            assert_eq!(*exception_table_length, 0);
            assert_eq!(exception_table.len(), 0);
            assert_eq!(*attributes_count, 1);
            assert_eq!(attributes.len(), 1);
            match &attributes[0].info {
                AttributeInfoType::LineNumberTableAttribute {
                    line_number_table_length,
                    line_number_table,
                } => {
                    assert_eq!(*line_number_table_length, 1);
                    assert_eq!(line_number_table.len(), 1);
                    assert_eq!(line_number_table[0].start_pc, 0);
                    assert_eq!(line_number_table[0].line_number, 7);
                }
                other => panic!("wrong nested attribute: {other:?}"),
            }
        }
        other => panic!("wrong method attribute: {other:?}"),
    }

    assert_eq!(cf.attributes_count, 1);
    assert_eq!(cf.attributes.len(), 1);
    assert_eq!(cf.attributes[0].attribute_name_index, 5);
    assert_eq!(cf.attributes[0].attribute_length, 2);
    match &cf.attributes[0].info {
        AttributeInfoType::SourceFileAttribute { sourcefile_index } => {
            assert_eq!(*sourcefile_index, 6);
        }
        other => panic!("wrong class attribute: {other:?}"),
    }
}

#[test]
fn identical_bytes_decode_identically() {
    let bytes = minimal_class_bytes();
    let mut first = ClassFileParser::new(&bytes);
    let mut second = ClassFileParser::new(&bytes);
    let a = first.parse().expect("decodes");
    let b = second.parse().expect("decodes");
    assert_eq!(format!("{a:?}"), format!("{b:?}"));
}

#[test]
fn minimal_class_passes_check() {
    let bytes = minimal_class_bytes();
    let mut parser = ClassFileParser::new(&bytes);
    let cf = parser.parse().expect("decodes");
    let mut checker = classfile::checker::ClassFileChecker::new(cf);
    assert_eq!(checker.check(), Ok(()));
}
