//! Attribute-name dispatch.
//!
//! Each attribute's payload shape is selected by the exact text of its
//! resolved name.  The names are modeled as byte sequences; `attr_kind`
//! classifies a resolved name, and a name matching no known attribute
//! is classified `Unknown` (a hard decode failure for the parser).

use vstd::prelude::*;

verus! {

/// The attribute name `ConstantValue` as bytes.
pub open spec fn nm_constant_value() -> Seq<u8> {
    seq!['C' as u8, 'o' as u8, 'n' as u8, 's' as u8, 't' as u8, 'a' as u8, 'n' as u8, 't' as u8, 'V' as u8, 'a' as u8, 'l' as u8, 'u' as u8, 'e' as u8]
}

/// The attribute name `Code` as bytes.
pub open spec fn nm_code() -> Seq<u8> {
    seq!['C' as u8, 'o' as u8, 'd' as u8, 'e' as u8]
}

/// The attribute name `StackMapTable` as bytes.
pub open spec fn nm_stack_map_table() -> Seq<u8> {
    seq!['S' as u8, 't' as u8, 'a' as u8, 'c' as u8, 'k' as u8, 'M' as u8, 'a' as u8, 'p' as u8, 'T' as u8, 'a' as u8, 'b' as u8, 'l' as u8, 'e' as u8]
}

/// The attribute name `Exceptions` as bytes.
pub open spec fn nm_exceptions() -> Seq<u8> {
    seq!['E' as u8, 'x' as u8, 'c' as u8, 'e' as u8, 'p' as u8, 't' as u8, 'i' as u8, 'o' as u8, 'n' as u8, 's' as u8]
}

/// The attribute name `InnerClasses` as bytes.
pub open spec fn nm_inner_classes() -> Seq<u8> {
    seq!['I' as u8, 'n' as u8, 'n' as u8, 'e' as u8, 'r' as u8, 'C' as u8, 'l' as u8, 'a' as u8, 's' as u8, 's' as u8, 'e' as u8, 's' as u8]
}

/// The attribute name `EnclosingMethod` as bytes.
pub open spec fn nm_enclosing_method() -> Seq<u8> {
    seq!['E' as u8, 'n' as u8, 'c' as u8, 'l' as u8, 'o' as u8, 's' as u8, 'i' as u8, 'n' as u8, 'g' as u8, 'M' as u8, 'e' as u8, 't' as u8, 'h' as u8, 'o' as u8, 'd' as u8]
}

/// The attribute name `Synthetic` as bytes.
pub open spec fn nm_synthetic() -> Seq<u8> {
    seq!['S' as u8, 'y' as u8, 'n' as u8, 't' as u8, 'h' as u8, 'e' as u8, 't' as u8, 'i' as u8, 'c' as u8]
}

/// The attribute name `Signature` as bytes.
pub open spec fn nm_signature() -> Seq<u8> {
    seq!['S' as u8, 'i' as u8, 'g' as u8, 'n' as u8, 'a' as u8, 't' as u8, 'u' as u8, 'r' as u8, 'e' as u8]
}

/// The attribute name `SourceFile` as bytes.
pub open spec fn nm_source_file() -> Seq<u8> {
    seq!['S' as u8, 'o' as u8, 'u' as u8, 'r' as u8, 'c' as u8, 'e' as u8, 'F' as u8, 'i' as u8, 'l' as u8, 'e' as u8]
}

/// The attribute name `SourceDebugExtension` as bytes.
pub open spec fn nm_source_debug_extension() -> Seq<u8> {
    seq!['S' as u8, 'o' as u8, 'u' as u8, 'r' as u8, 'c' as u8, 'e' as u8, 'D' as u8, 'e' as u8, 'b' as u8, 'u' as u8, 'g' as u8, 'E' as u8, 'x' as u8, 't' as u8, 'e' as u8, 'n' as u8, 's' as u8, 'i' as u8, 'o' as u8, 'n' as u8]
}

/// The attribute name `LineNumberTable` as bytes.
pub open spec fn nm_line_number_table() -> Seq<u8> {
    seq!['L' as u8, 'i' as u8, 'n' as u8, 'e' as u8, 'N' as u8, 'u' as u8, 'm' as u8, 'b' as u8, 'e' as u8, 'r' as u8, 'T' as u8, 'a' as u8, 'b' as u8, 'l' as u8, 'e' as u8]
}

/// The attribute name `LocalVariableTable` as bytes.
pub open spec fn nm_local_variable_table() -> Seq<u8> {
    seq!['L' as u8, 'o' as u8, 'c' as u8, 'a' as u8, 'l' as u8, 'V' as u8, 'a' as u8, 'r' as u8, 'i' as u8, 'a' as u8, 'b' as u8, 'l' as u8, 'e' as u8, 'T' as u8, 'a' as u8, 'b' as u8, 'l' as u8, 'e' as u8]
}

/// The attribute name `LocalVariableTypeTable` as bytes.
pub open spec fn nm_local_variable_type_table() -> Seq<u8> {
    seq!['L' as u8, 'o' as u8, 'c' as u8, 'a' as u8, 'l' as u8, 'V' as u8, 'a' as u8, 'r' as u8, 'i' as u8, 'a' as u8, 'b' as u8, 'l' as u8, 'e' as u8, 'T' as u8, 'y' as u8, 'p' as u8, 'e' as u8, 'T' as u8, 'a' as u8, 'b' as u8, 'l' as u8, 'e' as u8]
}

/// The attribute name `Deprecated` as bytes.
pub open spec fn nm_deprecated() -> Seq<u8> {
    seq!['D' as u8, 'e' as u8, 'p' as u8, 'r' as u8, 'e' as u8, 'c' as u8, 'a' as u8, 't' as u8, 'e' as u8, 'd' as u8]
}

/// The attribute name `RuntimeVisibleAnnotations` as bytes.
pub open spec fn nm_runtime_visible_annotations() -> Seq<u8> {
    seq!['R' as u8, 'u' as u8, 'n' as u8, 't' as u8, 'i' as u8, 'm' as u8, 'e' as u8, 'V' as u8, 'i' as u8, 's' as u8, 'i' as u8, 'b' as u8, 'l' as u8, 'e' as u8, 'A' as u8, 'n' as u8, 'n' as u8, 'o' as u8, 't' as u8, 'a' as u8, 't' as u8, 'i' as u8, 'o' as u8, 'n' as u8, 's' as u8]
}

/// The attribute name `RuntimeInvisibleAnnotations` as bytes.
pub open spec fn nm_runtime_invisible_annotations() -> Seq<u8> {
    seq!['R' as u8, 'u' as u8, 'n' as u8, 't' as u8, 'i' as u8, 'm' as u8, 'e' as u8, 'I' as u8, 'n' as u8, 'v' as u8, 'i' as u8, 's' as u8, 'i' as u8, 'b' as u8, 'l' as u8, 'e' as u8, 'A' as u8, 'n' as u8, 'n' as u8, 'o' as u8, 't' as u8, 'a' as u8, 't' as u8, 'i' as u8, 'o' as u8, 'n' as u8, 's' as u8]
}

/// The attribute name `RuntimeVisibleParameterAnnotations` as bytes.
pub open spec fn nm_runtime_visible_parameter_annotations() -> Seq<u8> {
    seq!['R' as u8, 'u' as u8, 'n' as u8, 't' as u8, 'i' as u8, 'm' as u8, 'e' as u8, 'V' as u8, 'i' as u8, 's' as u8, 'i' as u8, 'b' as u8, 'l' as u8, 'e' as u8, 'P' as u8, 'a' as u8, 'r' as u8, 'a' as u8, 'm' as u8, 'e' as u8, 't' as u8, 'e' as u8, 'r' as u8, 'A' as u8, 'n' as u8, 'n' as u8, 'o' as u8, 't' as u8, 'a' as u8, 't' as u8, 'i' as u8, 'o' as u8, 'n' as u8, 's' as u8]
}

/// The attribute name `RuntimeInvisibleParameterAnnotations` as bytes.
pub open spec fn nm_runtime_invisible_parameter_annotations() -> Seq<u8> {
    seq!['R' as u8, 'u' as u8, 'n' as u8, 't' as u8, 'i' as u8, 'm' as u8, 'e' as u8, 'I' as u8, 'n' as u8, 'v' as u8, 'i' as u8, 's' as u8, 'i' as u8, 'b' as u8, 'l' as u8, 'e' as u8, 'P' as u8, 'a' as u8, 'r' as u8, 'a' as u8, 'm' as u8, 'e' as u8, 't' as u8, 'e' as u8, 'r' as u8, 'A' as u8, 'n' as u8, 'n' as u8, 'o' as u8, 't' as u8, 'a' as u8, 't' as u8, 'i' as u8, 'o' as u8, 'n' as u8, 's' as u8]
}

/// The attribute name `RuntimeVisibleTypeAnnotations` as bytes.
pub open spec fn nm_runtime_visible_type_annotations() -> Seq<u8> {
    seq!['R' as u8, 'u' as u8, 'n' as u8, 't' as u8, 'i' as u8, 'm' as u8, 'e' as u8, 'V' as u8, 'i' as u8, 's' as u8, 'i' as u8, 'b' as u8, 'l' as u8, 'e' as u8, 'T' as u8, 'y' as u8, 'p' as u8, 'e' as u8, 'A' as u8, 'n' as u8, 'n' as u8, 'o' as u8, 't' as u8, 'a' as u8, 't' as u8, 'i' as u8, 'o' as u8, 'n' as u8, 's' as u8]
}

/// The attribute name `RuntimeInvisibleTypeAnnotations` as bytes.
pub open spec fn nm_runtime_invisible_type_annotations() -> Seq<u8> {
    seq!['R' as u8, 'u' as u8, 'n' as u8, 't' as u8, 'i' as u8, 'm' as u8, 'e' as u8, 'I' as u8, 'n' as u8, 'v' as u8, 'i' as u8, 's' as u8, 'i' as u8, 'b' as u8, 'l' as u8, 'e' as u8, 'T' as u8, 'y' as u8, 'p' as u8, 'e' as u8, 'A' as u8, 'n' as u8, 'n' as u8, 'o' as u8, 't' as u8, 'a' as u8, 't' as u8, 'i' as u8, 'o' as u8, 'n' as u8, 's' as u8]
}

/// The attribute name `AnnotationDefault` as bytes.
pub open spec fn nm_annotation_default() -> Seq<u8> {
    seq!['A' as u8, 'n' as u8, 'n' as u8, 'o' as u8, 't' as u8, 'a' as u8, 't' as u8, 'i' as u8, 'o' as u8, 'n' as u8, 'D' as u8, 'e' as u8, 'f' as u8, 'a' as u8, 'u' as u8, 'l' as u8, 't' as u8]
}

/// The attribute name `BootstrapMethods` as bytes.
pub open spec fn nm_bootstrap_methods() -> Seq<u8> {
    seq!['B' as u8, 'o' as u8, 'o' as u8, 't' as u8, 's' as u8, 't' as u8, 'r' as u8, 'a' as u8, 'p' as u8, 'M' as u8, 'e' as u8, 't' as u8, 'h' as u8, 'o' as u8, 'd' as u8, 's' as u8]
}

/// The attribute name `MethodParameters` as bytes.
pub open spec fn nm_method_parameters() -> Seq<u8> {
    seq!['M' as u8, 'e' as u8, 't' as u8, 'h' as u8, 'o' as u8, 'd' as u8, 'P' as u8, 'a' as u8, 'r' as u8, 'a' as u8, 'm' as u8, 'e' as u8, 't' as u8, 'e' as u8, 'r' as u8, 's' as u8]
}

/// The attribute name `Module` as bytes.
pub open spec fn nm_module() -> Seq<u8> {
    seq!['M' as u8, 'o' as u8, 'd' as u8, 'u' as u8, 'l' as u8, 'e' as u8]
}

/// The attribute name `ModulePackages` as bytes.
pub open spec fn nm_module_packages() -> Seq<u8> {
    seq!['M' as u8, 'o' as u8, 'd' as u8, 'u' as u8, 'l' as u8, 'e' as u8, 'P' as u8, 'a' as u8, 'c' as u8, 'k' as u8, 'a' as u8, 'g' as u8, 'e' as u8, 's' as u8]
}

/// The attribute name `ModuleMainClass` as bytes.
pub open spec fn nm_module_main_class() -> Seq<u8> {
    seq!['M' as u8, 'o' as u8, 'd' as u8, 'u' as u8, 'l' as u8, 'e' as u8, 'M' as u8, 'a' as u8, 'i' as u8, 'n' as u8, 'C' as u8, 'l' as u8, 'a' as u8, 's' as u8, 's' as u8]
}

/// The attribute name `NestHost` as bytes.
pub open spec fn nm_nest_host() -> Seq<u8> {
    seq!['N' as u8, 'e' as u8, 's' as u8, 't' as u8, 'H' as u8, 'o' as u8, 's' as u8, 't' as u8]
}

/// The attribute name `NestMembers` as bytes.
pub open spec fn nm_nest_members() -> Seq<u8> {
    seq!['N' as u8, 'e' as u8, 's' as u8, 't' as u8, 'M' as u8, 'e' as u8, 'm' as u8, 'b' as u8, 'e' as u8, 'r' as u8, 's' as u8]
}

/// The attribute name `Record` as bytes.
pub open spec fn nm_record() -> Seq<u8> {
    seq!['R' as u8, 'e' as u8, 'c' as u8, 'o' as u8, 'r' as u8, 'd' as u8]
}

/// The attribute name `PermittedSubclasses` as bytes.
pub open spec fn nm_permitted_subclasses() -> Seq<u8> {
    seq!['P' as u8, 'e' as u8, 'r' as u8, 'm' as u8, 'i' as u8, 't' as u8, 't' as u8, 'e' as u8, 'd' as u8, 'S' as u8, 'u' as u8, 'b' as u8, 'c' as u8, 'l' as u8, 'a' as u8, 's' as u8, 's' as u8, 'e' as u8, 's' as u8]
}

/// The known attribute shapes, plus `Unknown` for any other name.
#[derive(Debug, PartialEq, Eq, Structural, Clone, Copy)]
pub enum AttrKind {
    ConstantValue,
    Code,
    StackMapTable,
    Exceptions,
    InnerClasses,
    EnclosingMethod,
    Synthetic,
    Signature,
    SourceFile,
    SourceDebugExtension,
    LineNumberTable,
    LocalVariableTable,
    LocalVariableTypeTable,
    Deprecated,
    RuntimeVisibleAnnotations,
    RuntimeInvisibleAnnotations,
    RuntimeVisibleParameterAnnotations,
    RuntimeInvisibleParameterAnnotations,
    RuntimeVisibleTypeAnnotations,
    RuntimeInvisibleTypeAnnotations,
    AnnotationDefault,
    BootstrapMethods,
    MethodParameters,
    Module,
    ModulePackages,
    ModuleMainClass,
    NestHost,
    NestMembers,
    Record,
    PermittedSubclasses,
    Unknown,
}

/// Classifies a resolved attribute name.
pub open spec fn sp_attr_kind(name: Seq<u8>) -> AttrKind {
    if name == nm_constant_value() {
        AttrKind::ConstantValue
    } else if name == nm_code() {
        AttrKind::Code
    } else if name == nm_stack_map_table() {
        AttrKind::StackMapTable
    } else if name == nm_exceptions() {
        AttrKind::Exceptions
    } else if name == nm_inner_classes() {
        AttrKind::InnerClasses
    } else if name == nm_enclosing_method() {
        AttrKind::EnclosingMethod
    } else if name == nm_synthetic() {
        AttrKind::Synthetic
    } else if name == nm_signature() {
        AttrKind::Signature
    } else if name == nm_source_file() {
        AttrKind::SourceFile
    } else if name == nm_source_debug_extension() {
        AttrKind::SourceDebugExtension
    } else if name == nm_line_number_table() {
        AttrKind::LineNumberTable
    } else if name == nm_local_variable_table() {
        AttrKind::LocalVariableTable
    } else if name == nm_local_variable_type_table() {
        AttrKind::LocalVariableTypeTable
    } else if name == nm_deprecated() {
        AttrKind::Deprecated
    } else if name == nm_runtime_visible_annotations() {
        AttrKind::RuntimeVisibleAnnotations
    } else if name == nm_runtime_invisible_annotations() {
        AttrKind::RuntimeInvisibleAnnotations
    } else if name == nm_runtime_visible_parameter_annotations() {
        AttrKind::RuntimeVisibleParameterAnnotations
    } else if name == nm_runtime_invisible_parameter_annotations() {
        AttrKind::RuntimeInvisibleParameterAnnotations
    } else if name == nm_runtime_visible_type_annotations() {
        AttrKind::RuntimeVisibleTypeAnnotations
    } else if name == nm_runtime_invisible_type_annotations() {
        AttrKind::RuntimeInvisibleTypeAnnotations
    } else if name == nm_annotation_default() {
        AttrKind::AnnotationDefault
    } else if name == nm_bootstrap_methods() {
        AttrKind::BootstrapMethods
    } else if name == nm_method_parameters() {
        AttrKind::MethodParameters
    } else if name == nm_module() {
        AttrKind::Module
    } else if name == nm_module_packages() {
        AttrKind::ModulePackages
    } else if name == nm_module_main_class() {
        AttrKind::ModuleMainClass
    } else if name == nm_nest_host() {
        AttrKind::NestHost
    } else if name == nm_nest_members() {
        AttrKind::NestMembers
    } else if name == nm_record() {
        AttrKind::Record
    } else if name == nm_permitted_subclasses() {
        AttrKind::PermittedSubclasses
    } else {
        AttrKind::Unknown
    }
}

/// Whether two byte strings hold the same bytes.
pub fn name_eq(name: &Vec<u8>, lit: &Vec<u8>) -> (r: bool)
    ensures
        r == (name@ == lit@),
{
    if name.len() != lit.len() {
        return false;
    }
    let mut i: usize = 0;
    while i < lit.len()
        invariant
            0 <= i <= lit.len(),
            name@.len() == lit@.len(),
            forall|j: int| 0 <= j < i ==> name@[j] == lit@[j],
        decreases lit.len() - i,
    {
        if name[i] != lit[i] {
            return false;
        }
        i += 1;
    }
    proof {
        assert(name@ =~= lit@);
    }
    true
}

/// Classifies a resolved attribute name, byte for byte.
pub fn attr_kind(name: &Vec<u8>) -> (k: AttrKind)
    ensures
        k == sp_attr_kind(name@),
{
    let lit: Vec<u8> = vec!['C' as u8, 'o' as u8, 'n' as u8, 's' as u8, 't' as u8, 'a' as u8, 'n' as u8, 't' as u8, 'V' as u8, 'a' as u8, 'l' as u8, 'u' as u8, 'e' as u8];
    proof {
        assert(lit@ =~= nm_constant_value());
    }
    if name_eq(name, &lit) {
        return AttrKind::ConstantValue;
    }
    let lit: Vec<u8> = vec!['C' as u8, 'o' as u8, 'd' as u8, 'e' as u8];
    proof {
        assert(lit@ =~= nm_code());
    }
    if name_eq(name, &lit) {
        return AttrKind::Code;
    }
    let lit: Vec<u8> = vec!['S' as u8, 't' as u8, 'a' as u8, 'c' as u8, 'k' as u8, 'M' as u8, 'a' as u8, 'p' as u8, 'T' as u8, 'a' as u8, 'b' as u8, 'l' as u8, 'e' as u8];
    proof {
        assert(lit@ =~= nm_stack_map_table());
    }
    if name_eq(name, &lit) {
        return AttrKind::StackMapTable;
    }
    let lit: Vec<u8> = vec!['E' as u8, 'x' as u8, 'c' as u8, 'e' as u8, 'p' as u8, 't' as u8, 'i' as u8, 'o' as u8, 'n' as u8, 's' as u8];
    proof {
        assert(lit@ =~= nm_exceptions());
    }
    if name_eq(name, &lit) {
        return AttrKind::Exceptions;
    }
    let lit: Vec<u8> = vec!['I' as u8, 'n' as u8, 'n' as u8, 'e' as u8, 'r' as u8, 'C' as u8, 'l' as u8, 'a' as u8, 's' as u8, 's' as u8, 'e' as u8, 's' as u8];
    proof {
        assert(lit@ =~= nm_inner_classes());
    }
    if name_eq(name, &lit) {
        return AttrKind::InnerClasses;
    }
    let lit: Vec<u8> = vec!['E' as u8, 'n' as u8, 'c' as u8, 'l' as u8, 'o' as u8, 's' as u8, 'i' as u8, 'n' as u8, 'g' as u8, 'M' as u8, 'e' as u8, 't' as u8, 'h' as u8, 'o' as u8, 'd' as u8];
    proof {
        assert(lit@ =~= nm_enclosing_method());
    }
    if name_eq(name, &lit) {
        return AttrKind::EnclosingMethod;
    }
    let lit: Vec<u8> = vec!['S' as u8, 'y' as u8, 'n' as u8, 't' as u8, 'h' as u8, 'e' as u8, 't' as u8, 'i' as u8, 'c' as u8];
    proof {
        assert(lit@ =~= nm_synthetic());
    }
    if name_eq(name, &lit) {
        return AttrKind::Synthetic;
    }
    let lit: Vec<u8> = vec!['S' as u8, 'i' as u8, 'g' as u8, 'n' as u8, 'a' as u8, 't' as u8, 'u' as u8, 'r' as u8, 'e' as u8];
    proof {
        assert(lit@ =~= nm_signature());
    }
    if name_eq(name, &lit) {
        return AttrKind::Signature;
    }
    let lit: Vec<u8> = vec!['S' as u8, 'o' as u8, 'u' as u8, 'r' as u8, 'c' as u8, 'e' as u8, 'F' as u8, 'i' as u8, 'l' as u8, 'e' as u8];
    proof {
        assert(lit@ =~= nm_source_file());
    }
    if name_eq(name, &lit) {
        return AttrKind::SourceFile;
    }
    let lit: Vec<u8> = vec!['S' as u8, 'o' as u8, 'u' as u8, 'r' as u8, 'c' as u8, 'e' as u8, 'D' as u8, 'e' as u8, 'b' as u8, 'u' as u8, 'g' as u8, 'E' as u8, 'x' as u8, 't' as u8, 'e' as u8, 'n' as u8, 's' as u8, 'i' as u8, 'o' as u8, 'n' as u8];
    proof {
        assert(lit@ =~= nm_source_debug_extension());
    }
    if name_eq(name, &lit) {
        return AttrKind::SourceDebugExtension;
    }
    let lit: Vec<u8> = vec!['L' as u8, 'i' as u8, 'n' as u8, 'e' as u8, 'N' as u8, 'u' as u8, 'm' as u8, 'b' as u8, 'e' as u8, 'r' as u8, 'T' as u8, 'a' as u8, 'b' as u8, 'l' as u8, 'e' as u8];
    proof {
        assert(lit@ =~= nm_line_number_table());
    }
    if name_eq(name, &lit) {
        return AttrKind::LineNumberTable;
    }
    let lit: Vec<u8> = vec!['L' as u8, 'o' as u8, 'c' as u8, 'a' as u8, 'l' as u8, 'V' as u8, 'a' as u8, 'r' as u8, 'i' as u8, 'a' as u8, 'b' as u8, 'l' as u8, 'e' as u8, 'T' as u8, 'a' as u8, 'b' as u8, 'l' as u8, 'e' as u8];
    proof {
        assert(lit@ =~= nm_local_variable_table());
    }
    if name_eq(name, &lit) {
        return AttrKind::LocalVariableTable;
    }
    let lit: Vec<u8> = vec!['L' as u8, 'o' as u8, 'c' as u8, 'a' as u8, 'l' as u8, 'V' as u8, 'a' as u8, 'r' as u8, 'i' as u8, 'a' as u8, 'b' as u8, 'l' as u8, 'e' as u8, 'T' as u8, 'y' as u8, 'p' as u8, 'e' as u8, 'T' as u8, 'a' as u8, 'b' as u8, 'l' as u8, 'e' as u8];
    proof {
        assert(lit@ =~= nm_local_variable_type_table());
    }
    if name_eq(name, &lit) {
        return AttrKind::LocalVariableTypeTable;
    }
    let lit: Vec<u8> = vec!['D' as u8, 'e' as u8, 'p' as u8, 'r' as u8, 'e' as u8, 'c' as u8, 'a' as u8, 't' as u8, 'e' as u8, 'd' as u8];
    proof {
        assert(lit@ =~= nm_deprecated());
    }
    if name_eq(name, &lit) {
        return AttrKind::Deprecated;
    }
    let lit: Vec<u8> = vec!['R' as u8, 'u' as u8, 'n' as u8, 't' as u8, 'i' as u8, 'm' as u8, 'e' as u8, 'V' as u8, 'i' as u8, 's' as u8, 'i' as u8, 'b' as u8, 'l' as u8, 'e' as u8, 'A' as u8, 'n' as u8, 'n' as u8, 'o' as u8, 't' as u8, 'a' as u8, 't' as u8, 'i' as u8, 'o' as u8, 'n' as u8, 's' as u8];
    proof {
        assert(lit@ =~= nm_runtime_visible_annotations());
    }
    if name_eq(name, &lit) {
        return AttrKind::RuntimeVisibleAnnotations;
    }
    let lit: Vec<u8> = vec!['R' as u8, 'u' as u8, 'n' as u8, 't' as u8, 'i' as u8, 'm' as u8, 'e' as u8, 'I' as u8, 'n' as u8, 'v' as u8, 'i' as u8, 's' as u8, 'i' as u8, 'b' as u8, 'l' as u8, 'e' as u8, 'A' as u8, 'n' as u8, 'n' as u8, 'o' as u8, 't' as u8, 'a' as u8, 't' as u8, 'i' as u8, 'o' as u8, 'n' as u8, 's' as u8];
    proof {
        assert(lit@ =~= nm_runtime_invisible_annotations());
    }
    if name_eq(name, &lit) {
        return AttrKind::RuntimeInvisibleAnnotations;
    }
    let lit: Vec<u8> = vec!['R' as u8, 'u' as u8, 'n' as u8, 't' as u8, 'i' as u8, 'm' as u8, 'e' as u8, 'V' as u8, 'i' as u8, 's' as u8, 'i' as u8, 'b' as u8, 'l' as u8, 'e' as u8, 'P' as u8, 'a' as u8, 'r' as u8, 'a' as u8, 'm' as u8, 'e' as u8, 't' as u8, 'e' as u8, 'r' as u8, 'A' as u8, 'n' as u8, 'n' as u8, 'o' as u8, 't' as u8, 'a' as u8, 't' as u8, 'i' as u8, 'o' as u8, 'n' as u8, 's' as u8];
    proof {
        assert(lit@ =~= nm_runtime_visible_parameter_annotations());
    }
    if name_eq(name, &lit) {
        return AttrKind::RuntimeVisibleParameterAnnotations;
    }
    let lit: Vec<u8> = vec!['R' as u8, 'u' as u8, 'n' as u8, 't' as u8, 'i' as u8, 'm' as u8, 'e' as u8, 'I' as u8, 'n' as u8, 'v' as u8, 'i' as u8, 's' as u8, 'i' as u8, 'b' as u8, 'l' as u8, 'e' as u8, 'P' as u8, 'a' as u8, 'r' as u8, 'a' as u8, 'm' as u8, 'e' as u8, 't' as u8, 'e' as u8, 'r' as u8, 'A' as u8, 'n' as u8, 'n' as u8, 'o' as u8, 't' as u8, 'a' as u8, 't' as u8, 'i' as u8, 'o' as u8, 'n' as u8, 's' as u8];
    proof {
        assert(lit@ =~= nm_runtime_invisible_parameter_annotations());
    }
    if name_eq(name, &lit) {
        return AttrKind::RuntimeInvisibleParameterAnnotations;
    }
    let lit: Vec<u8> = vec!['R' as u8, 'u' as u8, 'n' as u8, 't' as u8, 'i' as u8, 'm' as u8, 'e' as u8, 'V' as u8, 'i' as u8, 's' as u8, 'i' as u8, 'b' as u8, 'l' as u8, 'e' as u8, 'T' as u8, 'y' as u8, 'p' as u8, 'e' as u8, 'A' as u8, 'n' as u8, 'n' as u8, 'o' as u8, 't' as u8, 'a' as u8, 't' as u8, 'i' as u8, 'o' as u8, 'n' as u8, 's' as u8];
    proof {
        assert(lit@ =~= nm_runtime_visible_type_annotations());
    }
    if name_eq(name, &lit) {
        return AttrKind::RuntimeVisibleTypeAnnotations;
    }
    let lit: Vec<u8> = vec!['R' as u8, 'u' as u8, 'n' as u8, 't' as u8, 'i' as u8, 'm' as u8, 'e' as u8, 'I' as u8, 'n' as u8, 'v' as u8, 'i' as u8, 's' as u8, 'i' as u8, 'b' as u8, 'l' as u8, 'e' as u8, 'T' as u8, 'y' as u8, 'p' as u8, 'e' as u8, 'A' as u8, 'n' as u8, 'n' as u8, 'o' as u8, 't' as u8, 'a' as u8, 't' as u8, 'i' as u8, 'o' as u8, 'n' as u8, 's' as u8];
    proof {
        assert(lit@ =~= nm_runtime_invisible_type_annotations());
    }
    if name_eq(name, &lit) {
        return AttrKind::RuntimeInvisibleTypeAnnotations;
    }
    let lit: Vec<u8> = vec!['A' as u8, 'n' as u8, 'n' as u8, 'o' as u8, 't' as u8, 'a' as u8, 't' as u8, 'i' as u8, 'o' as u8, 'n' as u8, 'D' as u8, 'e' as u8, 'f' as u8, 'a' as u8, 'u' as u8, 'l' as u8, 't' as u8];
    proof {
        assert(lit@ =~= nm_annotation_default());
    }
    if name_eq(name, &lit) {
        return AttrKind::AnnotationDefault;
    }
    let lit: Vec<u8> = vec!['B' as u8, 'o' as u8, 'o' as u8, 't' as u8, 's' as u8, 't' as u8, 'r' as u8, 'a' as u8, 'p' as u8, 'M' as u8, 'e' as u8, 't' as u8, 'h' as u8, 'o' as u8, 'd' as u8, 's' as u8];
    proof {
        assert(lit@ =~= nm_bootstrap_methods());
    }
    if name_eq(name, &lit) {
        return AttrKind::BootstrapMethods;
    }
    let lit: Vec<u8> = vec!['M' as u8, 'e' as u8, 't' as u8, 'h' as u8, 'o' as u8, 'd' as u8, 'P' as u8, 'a' as u8, 'r' as u8, 'a' as u8, 'm' as u8, 'e' as u8, 't' as u8, 'e' as u8, 'r' as u8, 's' as u8];
    proof {
        assert(lit@ =~= nm_method_parameters());
    }
    if name_eq(name, &lit) {
        return AttrKind::MethodParameters;
    }
    let lit: Vec<u8> = vec!['M' as u8, 'o' as u8, 'd' as u8, 'u' as u8, 'l' as u8, 'e' as u8];
    proof {
        assert(lit@ =~= nm_module());
    }
    if name_eq(name, &lit) {
        return AttrKind::Module;
    }
    let lit: Vec<u8> = vec!['M' as u8, 'o' as u8, 'd' as u8, 'u' as u8, 'l' as u8, 'e' as u8, 'P' as u8, 'a' as u8, 'c' as u8, 'k' as u8, 'a' as u8, 'g' as u8, 'e' as u8, 's' as u8];
    proof {
        assert(lit@ =~= nm_module_packages());
    }
    if name_eq(name, &lit) {
        return AttrKind::ModulePackages;
    }
    let lit: Vec<u8> = vec!['M' as u8, 'o' as u8, 'd' as u8, 'u' as u8, 'l' as u8, 'e' as u8, 'M' as u8, 'a' as u8, 'i' as u8, 'n' as u8, 'C' as u8, 'l' as u8, 'a' as u8, 's' as u8, 's' as u8];
    proof {
        assert(lit@ =~= nm_module_main_class());
    }
    if name_eq(name, &lit) {
        return AttrKind::ModuleMainClass;
    }
    let lit: Vec<u8> = vec!['N' as u8, 'e' as u8, 's' as u8, 't' as u8, 'H' as u8, 'o' as u8, 's' as u8, 't' as u8];
    proof {
        assert(lit@ =~= nm_nest_host());
    }
    if name_eq(name, &lit) {
        return AttrKind::NestHost;
    }
    let lit: Vec<u8> = vec!['N' as u8, 'e' as u8, 's' as u8, 't' as u8, 'M' as u8, 'e' as u8, 'm' as u8, 'b' as u8, 'e' as u8, 'r' as u8, 's' as u8];
    proof {
        assert(lit@ =~= nm_nest_members());
    }
    if name_eq(name, &lit) {
        return AttrKind::NestMembers;
    }
    let lit: Vec<u8> = vec!['R' as u8, 'e' as u8, 'c' as u8, 'o' as u8, 'r' as u8, 'd' as u8];
    proof {
        assert(lit@ =~= nm_record());
    }
    if name_eq(name, &lit) {
        return AttrKind::Record;
    }
    let lit: Vec<u8> = vec!['P' as u8, 'e' as u8, 'r' as u8, 'm' as u8, 'i' as u8, 't' as u8, 't' as u8, 'e' as u8, 'd' as u8, 'S' as u8, 'u' as u8, 'b' as u8, 'c' as u8, 'l' as u8, 'a' as u8, 's' as u8, 's' as u8, 'e' as u8, 's' as u8];
    proof {
        assert(lit@ =~= nm_permitted_subclasses());
    }
    if name_eq(name, &lit) {
        return AttrKind::PermittedSubclasses;
    }
    AttrKind::Unknown
}

} // verus!
