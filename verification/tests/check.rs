//! Checker tests: every pass and every error condition on hand-built
//! structures.

use classfile::checker::CheckError;
use classfile::checker::ClassFileChecker;
use classfile::classfile::ClassFile;
use classfile::classfile::CpInfo;
use classfile::classfile::FieldInfo;
use classfile::classfile::MethodInfo;
use classfile::attrinfo::AttributeInfo;
use classfile::attrinfo::AttributeInfoType;
use classfile::cf::JavaCfUtil;
use classfile::cpinfo::CpInfoType;
use classfile::flags::ClassAccessFlags;
use classfile::flags::FlagsExt;

fn utf8_entry(text: &str) -> CpInfo {
    CpInfo {
        tag: 1,
        info: CpInfoType::ConstantUtf8 {
            length: text.len() as u16,
            bytes: text.as_bytes().to_vec(),
        },
    }
}

fn class_entry(name_index: u16) -> CpInfo {
    CpInfo { tag: 7, info: CpInfoType::ConstantClass { name_index } }
}

fn int_entry() -> CpInfo {
    CpInfo { tag: 3, info: CpInfoType::ConstantInteger { bytes: 7 } }
}

/// A class that passes every check: pool `[Utf8 "A", Class -> 1]`, public
/// class, `this_class` 2, no superclass, nothing else.
fn base_class() -> ClassFile {
    ClassFile {
        magic: 0xCAFEBABE,
        minor_version: 0,
        major_version: 61,
        constant_pool_count: 3,
        constant_pool: vec![utf8_entry("A"), class_entry(1)],
        access_flags: 0x0001,
        this_class: 2,
        super_class: 0,
        interfaces_count: 0,
        interfaces: Vec::new(),
        fields_count: 0,
        fields: Vec::new(),
        methods_count: 0,
        methods: Vec::new(),
        attributes_count: 0,
        attributes: Vec::new(),
    }
}

fn field(access_flags: u16, name_index: u16, descriptor_index: u16) -> FieldInfo {
    FieldInfo { access_flags, name_index, descriptor_index, attributes_count: 0, attributes: Vec::new() }
}

fn method(access_flags: u16, name_index: u16, descriptor_index: u16) -> MethodInfo {
    MethodInfo { access_flags, name_index, descriptor_index, attributes_count: 0, attributes: Vec::new() }
}

fn check_of(cf: ClassFile) -> Result<(), CheckError> {
    let mut checker = ClassFileChecker::new(cf);
    checker.check()
}

#[test]
fn base_class_passes() {
    assert_eq!(check_of(base_class()), Ok(()));
}

#[test]
fn unsupported_major_rejected() {
    let mut cf = base_class();
    cf.major_version = 44;
    assert_eq!(check_of(cf), Err(CheckError::UnsupportedMajor { major: 44 }));
    let mut cf = base_class();
    cf.major_version = 63;
    assert_eq!(check_of(cf), Err(CheckError::UnsupportedMajor { major: 63 }));
}

#[test]
fn preview_minor_rules() {
    // major 61 with minor 1 fails; minor 0 and minor 65535 pass
    let mut cf = base_class();
    cf.minor_version = 1;
    assert_eq!(check_of(cf), Err(CheckError::InvalidMinor { minor: 1 }));
    let mut cf = base_class();
    cf.minor_version = 65535;
    assert_eq!(check_of(cf), Ok(()));
    // below major 57 any minor passes the version rule
    let mut cf = base_class();
    cf.major_version = 52;
    cf.minor_version = 3;
    assert_eq!(check_of(cf), Ok(()));
}

#[test]
fn module_flag_must_stand_alone() {
    let mut cf = base_class();
    cf.access_flags = 0x8000 | 0x0001;
    assert_eq!(check_of(cf), Err(CheckError::NotOnlyModuleFlagSet));
}

#[test]
fn module_flag_needs_major_53() {
    let mut cf = base_class();
    cf.access_flags = 0x8000;
    cf.major_version = 52;
    assert_eq!(check_of(cf), Err(CheckError::UnsupportedModuleFlagForVersion));
    let mut cf = base_class();
    cf.access_flags = 0x8000;
    cf.major_version = 53;
    assert_eq!(check_of(cf), Ok(()));
}

#[test]
fn interface_needs_abstract() {
    let mut cf = base_class();
    cf.access_flags = 0x0200;
    assert_eq!(check_of(cf), Err(CheckError::InterfaceFlagWithoutAbstractFlag));
    let mut cf = base_class();
    cf.access_flags = 0x0200 | 0x0400;
    assert_eq!(check_of(cf), Ok(()));
}

#[test]
fn interface_rejects_final_super_enum() {
    for extra in [0x0010u16, 0x0020, 0x4000] {
        let mut cf = base_class();
        cf.access_flags = 0x0200 | 0x0400 | extra;
        assert_eq!(check_of(cf), Err(CheckError::InvalidFlagsWithInterfaceFlag));
    }
}

#[test]
fn final_and_abstract_never_combine() {
    let mut cf = base_class();
    cf.access_flags = 0x0400 | 0x0010;
    assert_eq!(check_of(cf), Err(CheckError::FinalAbstractFlagsSetSimultaneously));
}

#[test]
fn annotation_needs_interface() {
    let mut cf = base_class();
    cf.access_flags = 0x2000;
    assert_eq!(check_of(cf), Err(CheckError::AnnotationFlagWithoutInterfaceFlag));
}

#[test]
fn this_class_must_resolve() {
    let mut cf = base_class();
    cf.this_class = 0;
    assert_eq!(check_of(cf), Err(CheckError::InvalidConstantPoolIndex));
    let mut cf = base_class();
    cf.this_class = 9;
    assert_eq!(check_of(cf), Err(CheckError::InvalidConstantPoolIndex));
    let mut cf = base_class();
    cf.this_class = 1; // a UTF-8 entry, not a class
    assert_eq!(check_of(cf), Err(CheckError::ThisClassIndexNotConstantClass));
}

#[test]
fn super_class_zero_passes_nonclass_rejected() {
    let mut cf = base_class();
    cf.super_class = 2;
    assert_eq!(check_of(cf), Ok(()));
    let mut cf = base_class();
    cf.super_class = 1;
    assert_eq!(check_of(cf), Err(CheckError::SuperClassIndexNotConstantClass));
    let mut cf = base_class();
    cf.super_class = 9;
    assert_eq!(check_of(cf), Err(CheckError::InvalidConstantPoolIndex));
}

#[test]
fn interfaces_must_resolve_to_classes() {
    let mut cf = base_class();
    cf.interfaces_count = 1;
    cf.interfaces = vec![1];
    assert_eq!(check_of(cf), Err(CheckError::InvalidConstantPoolIndex));
    let mut cf = base_class();
    cf.interfaces_count = 1;
    cf.interfaces = vec![2];
    assert_eq!(check_of(cf), Ok(()));
}

fn class_with_fields(fields: Vec<FieldInfo>) -> ClassFile {
    let mut cf = base_class();
    cf.constant_pool = vec![
        utf8_entry("A"),   // 1
        class_entry(1),    // 2
        utf8_entry("x"),   // 3
        utf8_entry("y"),   // 4
        utf8_entry("I"),   // 5: a valid descriptor
        utf8_entry("L;"),  // 6: a malformed descriptor
        int_entry(),       // 7: not UTF-8
        utf8_entry("x"),   // 8: the same text as 3
    ];
    cf.constant_pool_count = 9;
    cf.fields_count = fields.len() as u16;
    cf.fields = fields;
    cf
}

#[test]
fn duplicated_field_names_rejected() {
    // two fields whose name indices resolve to identical bytes, with
    // different descriptors and flags
    let cf = class_with_fields(vec![field(0x0001, 3, 5), field(0x0002, 8, 6)]);
    assert_eq!(check_of(cf), Err(CheckError::DuplicatedField));
    // the same index twice is likewise a duplicate
    let cf = class_with_fields(vec![field(0, 3, 5), field(0, 3, 5)]);
    assert_eq!(check_of(cf), Err(CheckError::DuplicatedField));
    // distinct names pass
    let cf = class_with_fields(vec![field(0, 3, 5), field(0, 4, 5)]);
    assert_eq!(check_of(cf), Ok(()));
}

#[test]
fn class_field_flag_exclusions() {
    // public and private together
    let cf = class_with_fields(vec![field(0x0003, 3, 5)]);
    assert_eq!(check_of(cf), Err(CheckError::InvalidFieldFlags));
    // final and volatile together
    let cf = class_with_fields(vec![field(0x0050, 3, 5)]);
    assert_eq!(check_of(cf), Err(CheckError::InvalidFieldFlags));
}

#[test]
fn interface_field_flags_exact() {
    let mut cf = class_with_fields(vec![field(0x0001, 3, 5)]);
    cf.access_flags = 0x0200 | 0x0400;
    assert_eq!(check_of(cf), Err(CheckError::InvalidInterfaceFieldFlags));
    // exactly public static final passes
    let mut cf = class_with_fields(vec![field(0x0019, 3, 5)]);
    cf.access_flags = 0x0200 | 0x0400;
    assert_eq!(check_of(cf), Ok(()));
    // synthetic may be added
    let mut cf = class_with_fields(vec![field(0x1019, 3, 5)]);
    cf.access_flags = 0x0200 | 0x0400;
    assert_eq!(check_of(cf), Ok(()));
}

#[test]
fn field_name_must_be_utf8() {
    let cf = class_with_fields(vec![field(0, 7, 5)]);
    assert_eq!(check_of(cf), Err(CheckError::FieldNameIndexNotConstantUtf8));
}

#[test]
fn malformed_field_descriptor_rejected() {
    let cf = class_with_fields(vec![field(0, 3, 6)]);
    assert_eq!(check_of(cf), Err(CheckError::InvalidFieldDescriptor));
    // a descriptor index that is not UTF-8 takes no part in the check
    let cf = class_with_fields(vec![field(0, 3, 7)]);
    assert_eq!(check_of(cf), Ok(()));
}

#[test]
fn field_attributes_gated_by_version() {
    let signature = AttributeInfo {
        attribute_name_index: 1,
        attribute_length: 2,
        info: AttributeInfoType::SignatureAttribute { signature_index: 1 },
    };
    let mut f = field(0, 3, 5);
    f.attributes_count = 1;
    f.attributes = vec![signature];
    let mut cf = class_with_fields(vec![f]);
    cf.major_version = 48;
    assert_eq!(check_of(cf), Err(CheckError::InvalidFieldAttributes));

    let signature = AttributeInfo {
        attribute_name_index: 1,
        attribute_length: 2,
        info: AttributeInfoType::SignatureAttribute { signature_index: 1 },
    };
    let mut f = field(0, 3, 5);
    f.attributes_count = 1;
    f.attributes = vec![signature];
    let cf = class_with_fields(vec![f]);
    assert_eq!(check_of(cf), Ok(()));

    // a Code attribute is never field-legal
    let code = AttributeInfo {
        attribute_name_index: 1,
        attribute_length: 0,
        info: AttributeInfoType::CodeAttribute {
            max_stack: 0,
            max_locals: 0,
            code_length: 0,
            code: Vec::new(),
            exception_table_length: 0,
            exception_table: Vec::new(),
            attributes_count: 0,
            attributes: Vec::new(),
        },
    };
    let mut f = field(0, 3, 5);
    f.attributes_count = 1;
    f.attributes = vec![code];
    let cf = class_with_fields(vec![f]);
    assert_eq!(check_of(cf), Err(CheckError::InvalidFieldAttributes));
}

fn class_with_methods(methods: Vec<MethodInfo>) -> ClassFile {
    let mut cf = base_class();
    cf.constant_pool = vec![
        utf8_entry("A"),        // 1
        class_entry(1),         // 2
        utf8_entry("run"),      // 3
        utf8_entry("walk"),     // 4
        utf8_entry("<clinit>"), // 5
    ];
    cf.constant_pool_count = 6;
    cf.methods_count = methods.len() as u16;
    cf.methods = methods;
    cf
}

#[test]
fn duplicated_method_names_rejected() {
    let cf = class_with_methods(vec![method(0x0001, 3, 1), method(0x0002, 3, 1)]);
    assert_eq!(check_of(cf), Err(CheckError::DuplicatedMethod));
    let cf = class_with_methods(vec![method(0x0001, 3, 1), method(0x0002, 4, 1)]);
    assert_eq!(check_of(cf), Ok(()));
}

#[test]
fn class_method_visibility_exclusive() {
    let cf = class_with_methods(vec![method(0x0005, 3, 1)]);
    assert_eq!(check_of(cf), Err(CheckError::InvalidMethodFlags));
}

#[test]
fn interface_methods_reject_forbidden_flags() {
    for flags in [0x0004u16, 0x0010, 0x0020, 0x0100] {
        let mut cf = class_with_methods(vec![method(0x0001 | 0x0400 | flags, 3, 1)]);
        cf.access_flags = 0x0200 | 0x0400;
        assert_eq!(check_of(cf), Err(CheckError::InvalidInterfaceMethodFlags));
    }
}

#[test]
fn old_interface_methods_exactly_public_abstract() {
    let mut cf = class_with_methods(vec![method(0x0001, 3, 1)]);
    cf.access_flags = 0x0200 | 0x0400;
    cf.major_version = 51;
    assert_eq!(check_of(cf), Err(CheckError::InvalidInterfaceMethodFlags));
    let mut cf = class_with_methods(vec![method(0x0401, 3, 1)]);
    cf.access_flags = 0x0200 | 0x0400;
    cf.major_version = 51;
    assert_eq!(check_of(cf), Ok(()));
}

#[test]
fn new_interface_methods_not_public_and_private() {
    let mut cf = class_with_methods(vec![method(0x0003, 3, 1)]);
    cf.access_flags = 0x0200 | 0x0400;
    assert_eq!(check_of(cf), Err(CheckError::InvalidInterfaceMethodFlags));
    let mut cf = class_with_methods(vec![method(0x0002, 3, 1)]);
    cf.access_flags = 0x0200 | 0x0400;
    assert_eq!(check_of(cf), Ok(()));
}

#[test]
fn abstract_methods_reject_conflicting_flags() {
    for flags in [0x0002u16, 0x0008, 0x0010, 0x0020, 0x0100] {
        let cf = class_with_methods(vec![method(0x0400 | flags, 3, 1)]);
        assert_eq!(check_of(cf), Err(CheckError::InvalidMethodFlags));
    }
}

#[test]
fn abstract_strict_gated_by_version() {
    let mut cf = class_with_methods(vec![method(0x0C00, 3, 1)]);
    cf.major_version = 50;
    assert_eq!(check_of(cf), Err(CheckError::InvalidMethodFlags));
    // outside the 46..=60 range the strict flag no longer conflicts
    let cf = class_with_methods(vec![method(0x0C00, 3, 1)]);
    assert_eq!(check_of(cf), Ok(()));
}

#[test]
fn field_descriptor_grammar_cases() {
    let checker = ClassFileChecker::new(base_class());
    assert!(checker.check_field_descriptor(b"I"));
    assert!(checker.check_field_descriptor(b"Ljava/lang/Object;"));
    assert!(checker.check_field_descriptor(b"[[I"));
    assert!(!checker.check_field_descriptor(b"L;"));
    assert!(!checker.check_field_descriptor(b"["));
    let mut deep = vec![b'['; 256];
    deep.push(b'I');
    assert!(!checker.check_field_descriptor(&deep));
    let mut depth_ok = vec![b'['; 255];
    depth_ok.push(b'I');
    assert!(checker.check_field_descriptor(&depth_ok));
    assert!(!checker.check_field_descriptor(b""));
    assert!(!checker.check_field_descriptor(b"X"));
}

#[test]
fn clinit_lookup_finds_first() {
    let cf = class_with_methods(vec![method(0x0001, 3, 1), method(0x0008, 5, 1)]);
    let mut checker = ClassFileChecker::new(cf);
    assert_eq!(checker.check(), Ok(()));
    let clinit = checker.check_methods_get_clinit().expect("one is declared");
    assert_eq!(clinit.name_index, 5);
    let cf = class_with_methods(vec![method(0x0001, 3, 1)]);
    let checker = ClassFileChecker::new(cf);
    assert!(checker.check_methods_get_clinit().is_none());
}

#[test]
fn init_methods_collected_in_order() {
    let mut cf = class_with_methods(vec![method(0x0001, 3, 1), method(0x0002, 4, 1)]);
    cf.constant_pool[2] = utf8_entry("<init>");
    let inits = cf.instance_initialization_methods();
    assert_eq!(inits.len(), 1);
    assert_eq!(inits[0].name_index, 3);
    assert_eq!(inits[0].access_flags, 0x0001);
}

#[test]
fn flag_masks_test_bits() {
    let flags: u16 = ClassAccessFlags::ACC_INTERFACE | ClassAccessFlags::ACC_ABSTRACT;
    assert!(flags.flag_set(ClassAccessFlags::ACC_INTERFACE));
    assert!(flags.flag_set(ClassAccessFlags::ACC_ABSTRACT));
    assert!(!flags.flag_set(ClassAccessFlags::ACC_FINAL));
    assert!(!0u16.flag_set(ClassAccessFlags::ACC_PUBLIC));
}
