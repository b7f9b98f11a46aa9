//! Attribute records and their payload shapes.
//!
//! An attribute is a named, self-length-prefixed auxiliary record attachable
//! to a class, a field, a method, or another attribute.  The payload shape is
//! selected by resolving the attribute's name index against the constant pool
//! and dispatching on the text.  `Code` and `Record` payloads carry nested
//! attribute lists, and annotation element values nest recursively, so the
//! attribute tree is a genuinely recursive structure.

use vstd::prelude::*;

verus! {

/// One entry of a `Code` attribute's exception table.
#[derive(Debug, PartialEq, Eq, Structural, Clone, Copy)]
pub struct CodeAttributeExceptionTableEntry {
    pub start_pc: u16,
    pub end_pc: u16,
    pub handler_pc: u16,
    pub catch_type: u16,
}

/// One entry of an `InnerClasses` attribute.
#[derive(Debug, PartialEq, Eq, Structural, Clone, Copy)]
pub struct InnerClass {
    pub inner_class_info_index: u16,
    pub outer_class_info_index: u16,
    pub inner_name_index: u16,
    pub inner_class_access_flags: u16,
}

/// One entry of a `LineNumberTable` attribute.
#[derive(Debug, PartialEq, Eq, Structural, Clone, Copy)]
pub struct LineNumber {
    pub start_pc: u16,
    pub line_number: u16,
}

/// One entry of a `LocalVariableTable` attribute.
#[derive(Debug, PartialEq, Eq, Structural, Clone, Copy)]
pub struct LocalVariable {
    pub start_pc: u16,
    pub length: u16,
    pub name_index: u16,
    pub descriptor_index: u16,
    pub index: u16,
}

/// One entry of a `LocalVariableTypeTable` attribute.
#[derive(Debug, PartialEq, Eq, Structural, Clone, Copy)]
pub struct LocalVariableType {
    pub start_pc: u16,
    pub length: u16,
    pub name_index: u16,
    pub signature_index: u16,
    pub index: u16,
}

/// One entry of a `MethodParameters` attribute.
#[derive(Debug, PartialEq, Eq, Structural, Clone, Copy)]
pub struct MethodParameter {
    pub name_index: u16,
    pub access_flags: u16,
}

/// One entry of a `Module` attribute's requires table.
#[derive(Debug, PartialEq, Eq, Structural, Clone, Copy)]
pub struct ModuleRequire {
    pub requires_index: u16,
    pub requires_flags: u16,
    pub requires_version_index: u16,
}

/// One entry of a `Module` attribute's exports table.
#[derive(Debug)]
pub struct ModuleExport {
    pub exports_index: u16,
    pub exports_flags: u16,
    pub exports_to_count: u16,
    pub exports_to_index: Vec<u16>,
}

/// Model of a `ModuleExport`.
#[verifier::ext_equal]
pub struct ModuleExportV {
    pub exports_index: u16,
    pub exports_flags: u16,
    pub exports_to_count: u16,
    pub exports_to_index: Seq<u16>,
}

impl View for ModuleExport {
    type V = ModuleExportV;

    open spec fn view(&self) -> ModuleExportV {
        ModuleExportV {
            exports_index: self.exports_index,
            exports_flags: self.exports_flags,
            exports_to_count: self.exports_to_count,
            exports_to_index: self.exports_to_index@,
        }
    }
}

/// One entry of a `Module` attribute's opens table.
#[derive(Debug)]
pub struct ModuleOpen {
    pub opens_index: u16,
    pub opens_flags: u16,
    pub opens_to_count: u16,
    pub opens_to_index: Vec<u16>,
}

/// Model of a `ModuleOpen`.
#[verifier::ext_equal]
pub struct ModuleOpenV {
    pub opens_index: u16,
    pub opens_flags: u16,
    pub opens_to_count: u16,
    pub opens_to_index: Seq<u16>,
}

impl View for ModuleOpen {
    type V = ModuleOpenV;

    open spec fn view(&self) -> ModuleOpenV {
        ModuleOpenV {
            opens_index: self.opens_index,
            opens_flags: self.opens_flags,
            opens_to_count: self.opens_to_count,
            opens_to_index: self.opens_to_index@,
        }
    }
}

/// One entry of a `Module` attribute's provides table.
#[derive(Debug)]
pub struct ModuleProvide {
    pub provides_index: u16,
    pub provides_with_count: u16,
    pub provides_with_index: Vec<u16>,
}

/// Model of a `ModuleProvide`.
#[verifier::ext_equal]
pub struct ModuleProvideV {
    pub provides_index: u16,
    pub provides_with_count: u16,
    pub provides_with_index: Seq<u16>,
}

impl View for ModuleProvide {
    type V = ModuleProvideV;

    open spec fn view(&self) -> ModuleProvideV {
        ModuleProvideV {
            provides_index: self.provides_index,
            provides_with_count: self.provides_with_count,
            provides_with_index: self.provides_with_index@,
        }
    }
}

/// One entry of a `BootstrapMethods` attribute.
#[derive(Debug)]
pub struct BootstrapMethod {
    pub bootstrap_method_ref: u16,
    pub num_bootstrap_arguments: u16,
    pub bootstrap_arguments: Vec<u16>,
}

/// Model of a `BootstrapMethod`.
#[verifier::ext_equal]
pub struct BootstrapMethodV {
    pub bootstrap_method_ref: u16,
    pub num_bootstrap_arguments: u16,
    pub bootstrap_arguments: Seq<u16>,
}

impl View for BootstrapMethod {
    type V = BootstrapMethodV;

    open spec fn view(&self) -> BootstrapMethodV {
        BootstrapMethodV {
            bootstrap_method_ref: self.bootstrap_method_ref,
            num_bootstrap_arguments: self.num_bootstrap_arguments,
            bootstrap_arguments: self.bootstrap_arguments@,
        }
    }
}

/// An annotation: a type index plus named element values.
#[derive(Debug)]
pub struct Annotation {
    pub type_index: u16,
    pub num_element_value_pairs: u16,
    pub element_value_pairs: Vec<ElementValuePair>,
}

/// One named element value of an annotation.
#[derive(Debug)]
pub struct ElementValuePair {
    pub element_name_index: u16,
    pub value: ElementValue,
}

/// A tagged element value of an annotation.
#[derive(Debug)]
pub struct ElementValue {
    pub tag: u8,
    pub value: ElementValueValue,
}

/// Payload of an element value, selected by the one-byte tag.
#[derive(Debug)]
pub enum ElementValueValue {
    ConstValueIndex { const_value_index: u16 },
    EnumConstValue { type_name_index: u16, const_name_index: u16 },
    ClassInfoIndex { class_info_index: u16 },
    AnnotationValue { annotation_value: Annotation },
    ArrayValue { num_values: u16, values: Vec<ElementValue> },
}

/// Model of an `Annotation`.
#[verifier::ext_equal]
pub struct AnnotationV {
    pub type_index: u16,
    pub num_element_value_pairs: u16,
    pub element_value_pairs: Seq<ElementValuePairV>,
}

/// Model of an `ElementValuePair`.
#[verifier::ext_equal]
pub struct ElementValuePairV {
    pub element_name_index: u16,
    pub value: ElementValueV,
}

/// Model of an `ElementValue`.
#[verifier::ext_equal]
pub struct ElementValueV {
    pub tag: u8,
    pub value: ElementValueValueV,
}

/// Model of an `ElementValueValue`.
#[verifier::ext_equal]
pub enum ElementValueValueV {
    ConstValueIndex { const_value_index: u16 },
    EnumConstValue { type_name_index: u16, const_name_index: u16 },
    ClassInfoIndex { class_info_index: u16 },
    AnnotationValue { annotation_value: AnnotationV },
    ArrayValue { num_values: u16, values: Seq<ElementValueV> },
}

/// Model of an `Annotation`, element by element.
pub open spec fn annotation_view(a: Annotation) -> AnnotationV
    decreases a,
{
    AnnotationV {
        type_index: a.type_index,
        num_element_value_pairs: a.num_element_value_pairs,
        element_value_pairs: element_value_pairs_view(a.element_value_pairs@),
    }
}

/// Model of a sequence of annotations.
pub open spec fn annotations_view(s: Seq<Annotation>) -> Seq<AnnotationV>
    decreases s,
{
    if s.len() == 0 {
        Seq::empty()
    } else {
        seq![annotation_view(s[0])] + annotations_view(s.subrange(1, s.len() as int))
    }
}

/// Model of a sequence of element-value pairs.
pub open spec fn element_value_pairs_view(s: Seq<ElementValuePair>) -> Seq<ElementValuePairV>
    decreases s,
{
    if s.len() == 0 {
        Seq::empty()
    } else {
        seq![element_value_pair_view(s[0])] + element_value_pairs_view(
            s.subrange(1, s.len() as int),
        )
    }
}

/// Model of one element-value pair.
pub open spec fn element_value_pair_view(p: ElementValuePair) -> ElementValuePairV
    decreases p,
{
    ElementValuePairV {
        element_name_index: p.element_name_index,
        value: element_value_view(p.value),
    }
}

/// Model of one element value.
pub open spec fn element_value_view(e: ElementValue) -> ElementValueV
    decreases e,
{
    ElementValueV { tag: e.tag, value: element_value_value_view(e.value) }
}

/// Model of an element-value payload.
pub open spec fn element_value_value_view(v: ElementValueValue) -> ElementValueValueV
    decreases v,
{
    match v {
        ElementValueValue::ConstValueIndex { const_value_index } => {
            ElementValueValueV::ConstValueIndex { const_value_index }
        },
        ElementValueValue::EnumConstValue { type_name_index, const_name_index } => {
            ElementValueValueV::EnumConstValue { type_name_index, const_name_index }
        },
        ElementValueValue::ClassInfoIndex { class_info_index } => {
            ElementValueValueV::ClassInfoIndex { class_info_index }
        },
        ElementValueValue::AnnotationValue { annotation_value } => {
            ElementValueValueV::AnnotationValue {
                annotation_value: annotation_view(annotation_value),
            }
        },
        ElementValueValue::ArrayValue { num_values, values } => ElementValueValueV::ArrayValue {
            num_values,
            values: element_values_view(values@),
        },
    }
}

/// Model of a sequence of element values.
pub open spec fn element_values_view(s: Seq<ElementValue>) -> Seq<ElementValueV>
    decreases s,
{
    if s.len() == 0 {
        Seq::empty()
    } else {
        seq![element_value_view(s[0])] + element_values_view(s.subrange(1, s.len() as int))
    }
}

impl View for Annotation {
    type V = AnnotationV;

    open spec fn view(&self) -> AnnotationV {
        annotation_view(*self)
    }
}

impl View for ElementValuePair {
    type V = ElementValuePairV;

    open spec fn view(&self) -> ElementValuePairV {
        element_value_pair_view(*self)
    }
}

impl View for ElementValue {
    type V = ElementValueV;

    open spec fn view(&self) -> ElementValueV {
        element_value_view(*self)
    }
}

impl View for ElementValueValue {
    type V = ElementValueValueV;

    open spec fn view(&self) -> ElementValueValueV {
        element_value_value_view(*self)
    }
}

/// Per-parameter annotation list of a parameter-annotations attribute.
#[derive(Debug)]
pub struct ParameterAnnotation {
    pub num_annotations: u16,
    pub annotations: Vec<Annotation>,
}

/// Model of a `ParameterAnnotation`.
#[verifier::ext_equal]
pub struct ParameterAnnotationV {
    pub num_annotations: u16,
    pub annotations: Seq<AnnotationV>,
}

impl View for ParameterAnnotation {
    type V = ParameterAnnotationV;

    open spec fn view(&self) -> ParameterAnnotationV {
        ParameterAnnotationV {
            num_annotations: self.num_annotations,
            annotations: annotations_view(self.annotations@),
        }
    }
}

/// One entry of the table of a local-variable type-annotation target.
#[derive(Debug, PartialEq, Eq, Structural, Clone, Copy)]
pub struct TypeAnnotationLocalVarTargetTableEntry {
    pub start_pc: u16,
    pub length: u16,
    pub index: u16,
}

/// Target of a type annotation, selected by the one-byte target type.
#[derive(Debug)]
pub enum TypeAnnotationTargetInfo {
    TypeParameterTarget { type_parameter_index: u8 },
    SupertypeTarget { supertype_index: u16 },
    TypeParameterBoundTarget { type_parameter_index: u8, bound_index: u8 },
    EmptyTarget,
    FormalParameterTarget { formal_parameter_index: u8 },
    ThrowsTarget { throws_type_index: u16 },
    LocalVarTarget { table_length: u16, table: Vec<TypeAnnotationLocalVarTargetTableEntry> },
    CatchTarget { catch_index: u16 },
    OffsetTarget { offset: u16 },
    TypeArgumentTarget { offset: u16, type_argument_index: u8 },
}

/// Model of a `TypeAnnotationTargetInfo`.
#[verifier::ext_equal]
pub enum TypeAnnotationTargetInfoV {
    TypeParameterTarget { type_parameter_index: u8 },
    SupertypeTarget { supertype_index: u16 },
    TypeParameterBoundTarget { type_parameter_index: u8, bound_index: u8 },
    EmptyTarget,
    FormalParameterTarget { formal_parameter_index: u8 },
    ThrowsTarget { throws_type_index: u16 },
    LocalVarTarget { table_length: u16, table: Seq<TypeAnnotationLocalVarTargetTableEntry> },
    CatchTarget { catch_index: u16 },
    OffsetTarget { offset: u16 },
    TypeArgumentTarget { offset: u16, type_argument_index: u8 },
}

impl View for TypeAnnotationTargetInfo {
    type V = TypeAnnotationTargetInfoV;

    open spec fn view(&self) -> TypeAnnotationTargetInfoV {
        match *self {
            TypeAnnotationTargetInfo::TypeParameterTarget { type_parameter_index } => {
                TypeAnnotationTargetInfoV::TypeParameterTarget { type_parameter_index }
            },
            TypeAnnotationTargetInfo::SupertypeTarget { supertype_index } => {
                TypeAnnotationTargetInfoV::SupertypeTarget { supertype_index }
            },
            TypeAnnotationTargetInfo::TypeParameterBoundTarget {
                type_parameter_index,
                bound_index,
            } => {
                TypeAnnotationTargetInfoV::TypeParameterBoundTarget {
                    type_parameter_index,
                    bound_index,
                }
            },
            TypeAnnotationTargetInfo::EmptyTarget => TypeAnnotationTargetInfoV::EmptyTarget,
            TypeAnnotationTargetInfo::FormalParameterTarget { formal_parameter_index } => {
                TypeAnnotationTargetInfoV::FormalParameterTarget { formal_parameter_index }
            },
            TypeAnnotationTargetInfo::ThrowsTarget { throws_type_index } => {
                TypeAnnotationTargetInfoV::ThrowsTarget { throws_type_index }
            },
            TypeAnnotationTargetInfo::LocalVarTarget { table_length, ref table } => {
                TypeAnnotationTargetInfoV::LocalVarTarget { table_length, table: table@ }
            },
            TypeAnnotationTargetInfo::CatchTarget { catch_index } => {
                TypeAnnotationTargetInfoV::CatchTarget { catch_index }
            },
            TypeAnnotationTargetInfo::OffsetTarget { offset } => {
                TypeAnnotationTargetInfoV::OffsetTarget { offset }
            },
            TypeAnnotationTargetInfo::TypeArgumentTarget { offset, type_argument_index } => {
                TypeAnnotationTargetInfoV::TypeArgumentTarget { offset, type_argument_index }
            },
        }
    }
}

/// One step of a type-annotation type path.
#[derive(Debug, PartialEq, Eq, Structural, Clone, Copy)]
pub struct TypeAnnotationTypePathSegment {
    pub type_path_kind: u8,
    pub type_argument_index: u8,
}

/// The type path of a type annotation.
#[derive(Debug)]
pub struct TypeAnnotationTypePath {
    pub path_length: u8,
    pub path: Vec<TypeAnnotationTypePathSegment>,
}

/// Model of a `TypeAnnotationTypePath`.
#[verifier::ext_equal]
pub struct TypeAnnotationTypePathV {
    pub path_length: u8,
    pub path: Seq<TypeAnnotationTypePathSegment>,
}

impl View for TypeAnnotationTypePath {
    type V = TypeAnnotationTypePathV;

    open spec fn view(&self) -> TypeAnnotationTypePathV {
        TypeAnnotationTypePathV { path_length: self.path_length, path: self.path@ }
    }
}

/// A type annotation: target, type path, and element values.
#[derive(Debug)]
pub struct TypeAnnotation {
    pub target_type: u8,
    pub target_info: TypeAnnotationTargetInfo,
    pub target_path: TypeAnnotationTypePath,
    pub type_index: u16,
    pub num_element_value_pairs: u16,
    pub element_value_pairs: Vec<ElementValuePair>,
}

/// Model of a `TypeAnnotation`.
#[verifier::ext_equal]
pub struct TypeAnnotationV {
    pub target_type: u8,
    pub target_info: TypeAnnotationTargetInfoV,
    pub target_path: TypeAnnotationTypePathV,
    pub type_index: u16,
    pub num_element_value_pairs: u16,
    pub element_value_pairs: Seq<ElementValuePairV>,
}

impl View for TypeAnnotation {
    type V = TypeAnnotationV;

    open spec fn view(&self) -> TypeAnnotationV {
        TypeAnnotationV {
            target_type: self.target_type,
            target_info: self.target_info@,
            target_path: self.target_path@,
            type_index: self.type_index,
            num_element_value_pairs: self.num_element_value_pairs,
            element_value_pairs: element_value_pairs_view(self.element_value_pairs@),
        }
    }
}

/// One component of a `Record` attribute, with its own attribute list.
#[derive(Debug)]
pub struct RecordComponentInfo {
    pub name_index: u16,
    pub descriptor_index: u16,
    pub attributes_count: u16,
    pub attributes: Vec<AttributeInfo>,
}

/// Model of a `RecordComponentInfo`.
#[verifier::ext_equal]
pub struct RecordComponentInfoV {
    pub name_index: u16,
    pub descriptor_index: u16,
    pub attributes_count: u16,
    pub attributes: Seq<AttributeInfoV>,
}

/// A named attribute record: name index, declared byte length, payload.
#[derive(Debug)]
pub struct AttributeInfo {
    pub attribute_name_index: u16,
    pub attribute_length: u32,
    pub info: AttributeInfoType,
}

/// Model of an `AttributeInfo`.
#[verifier::ext_equal]
pub struct AttributeInfoV {
    pub attribute_name_index: u16,
    pub attribute_length: u32,
    pub info: AttributeInfoTypeV,
}

/// Payload of an attribute, one variant per known attribute name.
#[derive(Debug)]
pub enum AttributeInfoType {
    ConstantValueAttribute {
        constantvalue_index: u16,
    },
    CodeAttribute {
        max_stack: u16,
        max_locals: u16,
        code_length: u32,
        code: Vec<u8>,
        exception_table_length: u16,
        exception_table: Vec<CodeAttributeExceptionTableEntry>,
        attributes_count: u16,
        attributes: Vec<AttributeInfo>,
    },
    StackMapTableAttribute {
        number_of_entries: u16,
        stack_map_table: Vec<crate::smtattr::StackMapFrame>,
    },
    ExceptionsAttribute {
        number_of_exceptions: u16,
        exception_index_table: Vec<u16>,
    },
    InnerClassesAttribute {
        number_of_classes: u16,
        classes: Vec<InnerClass>,
    },
    EnclosingMethodAttribute {
        class_index: u16,
        method_index: u16,
    },
    SyntheticAttribute,
    SignatureAttribute {
        signature_index: u16,
    },
    SourceFileAttribute {
        sourcefile_index: u16,
    },
    SourceDebugExtensionAttribute {
        debug_extension: Vec<u8>,
    },
    LineNumberTableAttribute {
        line_number_table_length: u16,
        line_number_table: Vec<LineNumber>,
    },
    LocalVariableTableAttribute {
        local_variable_table_length: u16,
        local_variable_table: Vec<LocalVariable>,
    },
    LocalVariableTypeTableAttribute {
        local_variable_type_table_length: u16,
        local_variable_type_table: Vec<LocalVariableType>,
    },
    DeprecatedAttribute,
    RuntimeVisibleAnnotationsAttribute {
        num_annotations: u16,
        annotations: Vec<Annotation>,
    },
    RuntimeInvisibleAnnotationsAttribute {
        num_annotations: u16,
        annotations: Vec<Annotation>,
    },
    RuntimeVisibleParameterAnnotationsAttribute {
        num_parameters: u8,
        parameter_annotations: Vec<ParameterAnnotation>,
    },
    RuntimeInvisibleParameterAnnotationsAttribute {
        num_parameters: u8,
        parameter_annotations: Vec<ParameterAnnotation>,
    },
    RuntimeVisibleTypeAnnotationsAttribute {
        num_annotations: u16,
        annotations: Vec<TypeAnnotation>,
    },
    RuntimeInvisibleTypeAnnotationsAttribute {
        num_annotations: u16,
        annotations: Vec<TypeAnnotation>,
    },
    AnnotationDefaultAttribute {
        default_value: ElementValue,
    },
    BootstrapMethodsAttribute {
        num_bootstrap_methods: u16,
        bootstrap_methods: Vec<BootstrapMethod>,
    },
    MethodParametersAttribute {
        parameters_count: u8,
        parameters: Vec<MethodParameter>,
    },
    ModuleAttribute {
        module_name_index: u16,
        module_flags: u16,
        module_version_index: u16,
        requires_count: u16,
        requires_entries: Vec<ModuleRequire>,
        exports_count: u16,
        exports: Vec<ModuleExport>,
        opens_count: u16,
        opens: Vec<ModuleOpen>,
        uses_count: u16,
        uses_index: Vec<u16>,
        provides_count: u16,
        provides: Vec<ModuleProvide>,
    },
    ModulePackagesAttribute {
        package_count: u16,
        package_index: Vec<u16>,
    },
    ModuleMainClassAttribute {
        main_class_index: u16,
    },
    NestHostAttribute {
        host_class_index: u16,
    },
    NestMembersAttribute {
        number_of_classes: u16,
        classes: Vec<u16>,
    },
    RecordAttribute {
        components_count: u16,
        components: Vec<RecordComponentInfo>,
    },
    PermittedSubclassesAttribute {
        number_of_classes: u16,
        classes: Vec<u16>,
    },
}

/// Model of an `AttributeInfoType`.
#[verifier::ext_equal]
pub enum AttributeInfoTypeV {
    ConstantValueAttribute {
        constantvalue_index: u16,
    },
    CodeAttribute {
        max_stack: u16,
        max_locals: u16,
        code_length: u32,
        code: Seq<u8>,
        exception_table_length: u16,
        exception_table: Seq<CodeAttributeExceptionTableEntry>,
        attributes_count: u16,
        attributes: Seq<AttributeInfoV>,
    },
    StackMapTableAttribute {
        number_of_entries: u16,
        stack_map_table: Seq<crate::smtattr::StackMapFrameV>,
    },
    ExceptionsAttribute {
        number_of_exceptions: u16,
        exception_index_table: Seq<u16>,
    },
    InnerClassesAttribute {
        number_of_classes: u16,
        classes: Seq<InnerClass>,
    },
    EnclosingMethodAttribute {
        class_index: u16,
        method_index: u16,
    },
    SyntheticAttribute,
    SignatureAttribute {
        signature_index: u16,
    },
    SourceFileAttribute {
        sourcefile_index: u16,
    },
    SourceDebugExtensionAttribute {
        debug_extension: Seq<u8>,
    },
    LineNumberTableAttribute {
        line_number_table_length: u16,
        line_number_table: Seq<LineNumber>,
    },
    LocalVariableTableAttribute {
        local_variable_table_length: u16,
        local_variable_table: Seq<LocalVariable>,
    },
    LocalVariableTypeTableAttribute {
        local_variable_type_table_length: u16,
        local_variable_type_table: Seq<LocalVariableType>,
    },
    DeprecatedAttribute,
    RuntimeVisibleAnnotationsAttribute {
        num_annotations: u16,
        annotations: Seq<AnnotationV>,
    },
    RuntimeInvisibleAnnotationsAttribute {
        num_annotations: u16,
        annotations: Seq<AnnotationV>,
    },
    RuntimeVisibleParameterAnnotationsAttribute {
        num_parameters: u8,
        parameter_annotations: Seq<ParameterAnnotationV>,
    },
    RuntimeInvisibleParameterAnnotationsAttribute {
        num_parameters: u8,
        parameter_annotations: Seq<ParameterAnnotationV>,
    },
    RuntimeVisibleTypeAnnotationsAttribute {
        num_annotations: u16,
        annotations: Seq<TypeAnnotationV>,
    },
    RuntimeInvisibleTypeAnnotationsAttribute {
        num_annotations: u16,
        annotations: Seq<TypeAnnotationV>,
    },
    AnnotationDefaultAttribute {
        default_value: ElementValueV,
    },
    BootstrapMethodsAttribute {
        num_bootstrap_methods: u16,
        bootstrap_methods: Seq<BootstrapMethodV>,
    },
    MethodParametersAttribute {
        parameters_count: u8,
        parameters: Seq<MethodParameter>,
    },
    ModuleAttribute {
        module_name_index: u16,
        module_flags: u16,
        module_version_index: u16,
        requires_count: u16,
        requires_entries: Seq<ModuleRequire>,
        exports_count: u16,
        exports: Seq<ModuleExportV>,
        opens_count: u16,
        opens: Seq<ModuleOpenV>,
        uses_count: u16,
        uses_index: Seq<u16>,
        provides_count: u16,
        provides: Seq<ModuleProvideV>,
    },
    ModulePackagesAttribute {
        package_count: u16,
        package_index: Seq<u16>,
    },
    ModuleMainClassAttribute {
        main_class_index: u16,
    },
    NestHostAttribute {
        host_class_index: u16,
    },
    NestMembersAttribute {
        number_of_classes: u16,
        classes: Seq<u16>,
    },
    RecordAttribute {
        components_count: u16,
        components: Seq<RecordComponentInfoV>,
    },
    PermittedSubclassesAttribute {
        number_of_classes: u16,
        classes: Seq<u16>,
    },
}

/// Model of a sequence of parameter annotations.
pub open spec fn parameter_annotations_view(s: Seq<ParameterAnnotation>) -> Seq<
    ParameterAnnotationV,
>
    decreases s,
{
    if s.len() == 0 {
        Seq::empty()
    } else {
        seq![s[0]@] + parameter_annotations_view(s.subrange(1, s.len() as int))
    }
}

/// Model of a sequence of type annotations.
pub open spec fn type_annotations_view(s: Seq<TypeAnnotation>) -> Seq<TypeAnnotationV>
    decreases s,
{
    if s.len() == 0 {
        Seq::empty()
    } else {
        seq![s[0]@] + type_annotations_view(s.subrange(1, s.len() as int))
    }
}

/// Model of a sequence of module exports.
pub open spec fn module_exports_view(s: Seq<ModuleExport>) -> Seq<ModuleExportV>
    decreases s,
{
    if s.len() == 0 {
        Seq::empty()
    } else {
        seq![s[0]@] + module_exports_view(s.subrange(1, s.len() as int))
    }
}

/// Model of a sequence of module opens.
pub open spec fn module_opens_view(s: Seq<ModuleOpen>) -> Seq<ModuleOpenV>
    decreases s,
{
    if s.len() == 0 {
        Seq::empty()
    } else {
        seq![s[0]@] + module_opens_view(s.subrange(1, s.len() as int))
    }
}

/// Model of a sequence of module provides.
pub open spec fn module_provides_view(s: Seq<ModuleProvide>) -> Seq<ModuleProvideV>
    decreases s,
{
    if s.len() == 0 {
        Seq::empty()
    } else {
        seq![s[0]@] + module_provides_view(s.subrange(1, s.len() as int))
    }
}

/// Model of a sequence of bootstrap methods.
pub open spec fn bootstrap_methods_view(s: Seq<BootstrapMethod>) -> Seq<BootstrapMethodV>
    decreases s,
{
    if s.len() == 0 {
        Seq::empty()
    } else {
        seq![s[0]@] + bootstrap_methods_view(s.subrange(1, s.len() as int))
    }
}

/// Model of one attribute record.
pub open spec fn attribute_view(a: AttributeInfo) -> AttributeInfoV
    decreases a,
{
    AttributeInfoV {
        attribute_name_index: a.attribute_name_index,
        attribute_length: a.attribute_length,
        info: attribute_type_view(a.info),
    }
}

/// Model of a sequence of attribute records.
pub open spec fn attributes_view(s: Seq<AttributeInfo>) -> Seq<AttributeInfoV>
    decreases s,
{
    if s.len() == 0 {
        Seq::empty()
    } else {
        seq![attribute_view(s[0])] + attributes_view(s.subrange(1, s.len() as int))
    }
}

/// Model of one record component.
pub open spec fn record_component_view(c: RecordComponentInfo) -> RecordComponentInfoV
    decreases c,
{
    RecordComponentInfoV {
        name_index: c.name_index,
        descriptor_index: c.descriptor_index,
        attributes_count: c.attributes_count,
        attributes: attributes_view(c.attributes@),
    }
}

/// Model of a sequence of record components.
pub open spec fn record_components_view(s: Seq<RecordComponentInfo>) -> Seq<RecordComponentInfoV>
    decreases s,
{
    if s.len() == 0 {
        Seq::empty()
    } else {
        seq![record_component_view(s[0])] + record_components_view(s.subrange(1, s.len() as int))
    }
}

/// Model of an attribute payload.
pub open spec fn attribute_type_view(t: AttributeInfoType) -> AttributeInfoTypeV
    decreases t,
{
    match t {
        AttributeInfoType::ConstantValueAttribute { constantvalue_index } => {
            AttributeInfoTypeV::ConstantValueAttribute { constantvalue_index }
        },
        AttributeInfoType::CodeAttribute {
            max_stack,
            max_locals,
            code_length,
            code,
            exception_table_length,
            exception_table,
            attributes_count,
            attributes,
        } => {
            AttributeInfoTypeV::CodeAttribute {
                max_stack,
                max_locals,
                code_length,
                code: code@,
                exception_table_length,
                exception_table: exception_table@,
                attributes_count,
                attributes: attributes_view(attributes@),
            }
        },
        AttributeInfoType::StackMapTableAttribute { number_of_entries, stack_map_table } => {
            AttributeInfoTypeV::StackMapTableAttribute {
                number_of_entries,
                stack_map_table: crate::smtattr::stack_map_frames_view(stack_map_table@),
            }
        },
        AttributeInfoType::ExceptionsAttribute { number_of_exceptions, exception_index_table } => {
            AttributeInfoTypeV::ExceptionsAttribute {
                number_of_exceptions,
                exception_index_table: exception_index_table@,
            }
        },
        AttributeInfoType::InnerClassesAttribute { number_of_classes, classes } => {
            AttributeInfoTypeV::InnerClassesAttribute { number_of_classes, classes: classes@ }
        },
        AttributeInfoType::EnclosingMethodAttribute { class_index, method_index } => {
            AttributeInfoTypeV::EnclosingMethodAttribute { class_index, method_index }
        },
        AttributeInfoType::SyntheticAttribute => AttributeInfoTypeV::SyntheticAttribute,
        AttributeInfoType::SignatureAttribute { signature_index } => {
            AttributeInfoTypeV::SignatureAttribute { signature_index }
        },
        AttributeInfoType::SourceFileAttribute { sourcefile_index } => {
            AttributeInfoTypeV::SourceFileAttribute { sourcefile_index }
        },
        AttributeInfoType::SourceDebugExtensionAttribute { debug_extension } => {
            AttributeInfoTypeV::SourceDebugExtensionAttribute {
                debug_extension: debug_extension@,
            }
        },
        AttributeInfoType::LineNumberTableAttribute {
            line_number_table_length,
            line_number_table,
        } => {
            AttributeInfoTypeV::LineNumberTableAttribute {
                line_number_table_length,
                line_number_table: line_number_table@,
            }
        },
        AttributeInfoType::LocalVariableTableAttribute {
            local_variable_table_length,
            local_variable_table,
        } => {
            AttributeInfoTypeV::LocalVariableTableAttribute {
                local_variable_table_length,
                local_variable_table: local_variable_table@,
            }
        },
        AttributeInfoType::LocalVariableTypeTableAttribute {
            local_variable_type_table_length,
            local_variable_type_table,
        } => {
            AttributeInfoTypeV::LocalVariableTypeTableAttribute {
                local_variable_type_table_length,
                local_variable_type_table: local_variable_type_table@,
            }
        },
        AttributeInfoType::DeprecatedAttribute => AttributeInfoTypeV::DeprecatedAttribute,
        AttributeInfoType::RuntimeVisibleAnnotationsAttribute { num_annotations, annotations } => {
            AttributeInfoTypeV::RuntimeVisibleAnnotationsAttribute {
                num_annotations,
                annotations: annotations_view(annotations@),
            }
        },
        AttributeInfoType::RuntimeInvisibleAnnotationsAttribute {
            num_annotations,
            annotations,
        } => {
            AttributeInfoTypeV::RuntimeInvisibleAnnotationsAttribute {
                num_annotations,
                annotations: annotations_view(annotations@),
            }
        },
        AttributeInfoType::RuntimeVisibleParameterAnnotationsAttribute {
            num_parameters,
            parameter_annotations,
        } => {
            AttributeInfoTypeV::RuntimeVisibleParameterAnnotationsAttribute {
                num_parameters,
                parameter_annotations: parameter_annotations_view(parameter_annotations@),
            }
        },
        AttributeInfoType::RuntimeInvisibleParameterAnnotationsAttribute {
            num_parameters,
            parameter_annotations,
        } => {
            AttributeInfoTypeV::RuntimeInvisibleParameterAnnotationsAttribute {
                num_parameters,
                parameter_annotations: parameter_annotations_view(parameter_annotations@),
            }
        },
        AttributeInfoType::RuntimeVisibleTypeAnnotationsAttribute {
            num_annotations,
            annotations,
        } => {
            AttributeInfoTypeV::RuntimeVisibleTypeAnnotationsAttribute {
                num_annotations,
                annotations: type_annotations_view(annotations@),
            }
        },
        AttributeInfoType::RuntimeInvisibleTypeAnnotationsAttribute {
            num_annotations,
            annotations,
        } => {
            AttributeInfoTypeV::RuntimeInvisibleTypeAnnotationsAttribute {
                num_annotations,
                annotations: type_annotations_view(annotations@),
            }
        },
        AttributeInfoType::AnnotationDefaultAttribute { default_value } => {
            AttributeInfoTypeV::AnnotationDefaultAttribute {
                default_value: element_value_view(default_value),
            }
        },
        AttributeInfoType::BootstrapMethodsAttribute {
            num_bootstrap_methods,
            bootstrap_methods,
        } => {
            AttributeInfoTypeV::BootstrapMethodsAttribute {
                num_bootstrap_methods,
                bootstrap_methods: bootstrap_methods_view(bootstrap_methods@),
            }
        },
        AttributeInfoType::MethodParametersAttribute { parameters_count, parameters } => {
            AttributeInfoTypeV::MethodParametersAttribute {
                parameters_count,
                parameters: parameters@,
            }
        },
        AttributeInfoType::ModuleAttribute {
            module_name_index,
            module_flags,
            module_version_index,
            requires_count,
            requires_entries,
            exports_count,
            exports,
            opens_count,
            opens,
            uses_count,
            uses_index,
            provides_count,
            provides,
        } => {
            AttributeInfoTypeV::ModuleAttribute {
                module_name_index,
                module_flags,
                module_version_index,
                requires_count,
                requires_entries: requires_entries@,
                exports_count,
                exports: module_exports_view(exports@),
                opens_count,
                opens: module_opens_view(opens@),
                uses_count,
                uses_index: uses_index@,
                provides_count,
                provides: module_provides_view(provides@),
            }
        },
        AttributeInfoType::ModulePackagesAttribute { package_count, package_index } => {
            AttributeInfoTypeV::ModulePackagesAttribute {
                package_count,
                package_index: package_index@,
            }
        },
        AttributeInfoType::ModuleMainClassAttribute { main_class_index } => {
            AttributeInfoTypeV::ModuleMainClassAttribute { main_class_index }
        },
        AttributeInfoType::NestHostAttribute { host_class_index } => {
            AttributeInfoTypeV::NestHostAttribute { host_class_index }
        },
        AttributeInfoType::NestMembersAttribute { number_of_classes, classes } => {
            AttributeInfoTypeV::NestMembersAttribute { number_of_classes, classes: classes@ }
        },
        AttributeInfoType::RecordAttribute { components_count, components } => {
            AttributeInfoTypeV::RecordAttribute {
                components_count,
                components: record_components_view(components@),
            }
        },
        AttributeInfoType::PermittedSubclassesAttribute { number_of_classes, classes } => {
            AttributeInfoTypeV::PermittedSubclassesAttribute {
                number_of_classes,
                classes: classes@,
            }
        },
    }
}

impl View for AttributeInfo {
    type V = AttributeInfoV;

    open spec fn view(&self) -> AttributeInfoV {
        attribute_view(*self)
    }
}

impl View for AttributeInfoType {
    type V = AttributeInfoTypeV;

    open spec fn view(&self) -> AttributeInfoTypeV {
        attribute_type_view(*self)
    }
}

impl View for RecordComponentInfo {
    type V = RecordComponentInfoV;

    open spec fn view(&self) -> RecordComponentInfoV {
        record_component_view(*self)
    }
}


/// Element-by-element reading of `annotations_view`.
pub broadcast proof fn lemma_annotations_view(s: Seq<Annotation>)
    ensures
        (#[trigger] annotations_view(s)).len() == s.len(),
        forall|i: int| 0 <= i < s.len() ==> annotations_view(s)[i] == annotation_view(s[i]),
    decreases s.len(),
{
    if s.len() > 0 {
        lemma_annotations_view(s.subrange(1, s.len() as int));
        assert forall|i: int| 0 <= i < s.len() implies annotations_view(s)[i] == annotation_view(s[i]) by {
            if i > 0 {
                assert(s.subrange(1, s.len() as int)[i - 1] == s[i]);
            }
        }
    }
}

/// Element-by-element reading of `element_value_pairs_view`.
pub broadcast proof fn lemma_element_value_pairs_view(s: Seq<ElementValuePair>)
    ensures
        (#[trigger] element_value_pairs_view(s)).len() == s.len(),
        forall|i: int| 0 <= i < s.len() ==> element_value_pairs_view(s)[i] == element_value_pair_view(s[i]),
    decreases s.len(),
{
    if s.len() > 0 {
        lemma_element_value_pairs_view(s.subrange(1, s.len() as int));
        assert forall|i: int| 0 <= i < s.len() implies element_value_pairs_view(s)[i] == element_value_pair_view(s[i]) by {
            if i > 0 {
                assert(s.subrange(1, s.len() as int)[i - 1] == s[i]);
            }
        }
    }
}

/// Element-by-element reading of `element_values_view`.
pub broadcast proof fn lemma_element_values_view(s: Seq<ElementValue>)
    ensures
        (#[trigger] element_values_view(s)).len() == s.len(),
        forall|i: int| 0 <= i < s.len() ==> element_values_view(s)[i] == element_value_view(s[i]),
    decreases s.len(),
{
    if s.len() > 0 {
        lemma_element_values_view(s.subrange(1, s.len() as int));
        assert forall|i: int| 0 <= i < s.len() implies element_values_view(s)[i] == element_value_view(s[i]) by {
            if i > 0 {
                assert(s.subrange(1, s.len() as int)[i - 1] == s[i]);
            }
        }
    }
}

/// Element-by-element reading of `parameter_annotations_view`.
pub broadcast proof fn lemma_parameter_annotations_view(s: Seq<ParameterAnnotation>)
    ensures
        (#[trigger] parameter_annotations_view(s)).len() == s.len(),
        forall|i: int| 0 <= i < s.len() ==> parameter_annotations_view(s)[i] == s[i]@,
    decreases s.len(),
{
    if s.len() > 0 {
        lemma_parameter_annotations_view(s.subrange(1, s.len() as int));
        assert forall|i: int| 0 <= i < s.len() implies parameter_annotations_view(s)[i] == s[i]@ by {
            if i > 0 {
                assert(s.subrange(1, s.len() as int)[i - 1] == s[i]);
            }
        }
    }
}

/// Element-by-element reading of `type_annotations_view`.
pub broadcast proof fn lemma_type_annotations_view(s: Seq<TypeAnnotation>)
    ensures
        (#[trigger] type_annotations_view(s)).len() == s.len(),
        forall|i: int| 0 <= i < s.len() ==> type_annotations_view(s)[i] == s[i]@,
    decreases s.len(),
{
    if s.len() > 0 {
        lemma_type_annotations_view(s.subrange(1, s.len() as int));
        assert forall|i: int| 0 <= i < s.len() implies type_annotations_view(s)[i] == s[i]@ by {
            if i > 0 {
                assert(s.subrange(1, s.len() as int)[i - 1] == s[i]);
            }
        }
    }
}

/// Element-by-element reading of `module_exports_view`.
pub broadcast proof fn lemma_module_exports_view(s: Seq<ModuleExport>)
    ensures
        (#[trigger] module_exports_view(s)).len() == s.len(),
        forall|i: int| 0 <= i < s.len() ==> module_exports_view(s)[i] == s[i]@,
    decreases s.len(),
{
    if s.len() > 0 {
        lemma_module_exports_view(s.subrange(1, s.len() as int));
        assert forall|i: int| 0 <= i < s.len() implies module_exports_view(s)[i] == s[i]@ by {
            if i > 0 {
                assert(s.subrange(1, s.len() as int)[i - 1] == s[i]);
            }
        }
    }
}

/// Element-by-element reading of `module_opens_view`.
pub broadcast proof fn lemma_module_opens_view(s: Seq<ModuleOpen>)
    ensures
        (#[trigger] module_opens_view(s)).len() == s.len(),
        forall|i: int| 0 <= i < s.len() ==> module_opens_view(s)[i] == s[i]@,
    decreases s.len(),
{
    if s.len() > 0 {
        lemma_module_opens_view(s.subrange(1, s.len() as int));
        assert forall|i: int| 0 <= i < s.len() implies module_opens_view(s)[i] == s[i]@ by {
            if i > 0 {
                assert(s.subrange(1, s.len() as int)[i - 1] == s[i]);
            }
        }
    }
}

/// Element-by-element reading of `module_provides_view`.
pub broadcast proof fn lemma_module_provides_view(s: Seq<ModuleProvide>)
    ensures
        (#[trigger] module_provides_view(s)).len() == s.len(),
        forall|i: int| 0 <= i < s.len() ==> module_provides_view(s)[i] == s[i]@,
    decreases s.len(),
{
    if s.len() > 0 {
        lemma_module_provides_view(s.subrange(1, s.len() as int));
        assert forall|i: int| 0 <= i < s.len() implies module_provides_view(s)[i] == s[i]@ by {
            if i > 0 {
                assert(s.subrange(1, s.len() as int)[i - 1] == s[i]);
            }
        }
    }
}

/// Element-by-element reading of `bootstrap_methods_view`.
pub broadcast proof fn lemma_bootstrap_methods_view(s: Seq<BootstrapMethod>)
    ensures
        (#[trigger] bootstrap_methods_view(s)).len() == s.len(),
        forall|i: int| 0 <= i < s.len() ==> bootstrap_methods_view(s)[i] == s[i]@,
    decreases s.len(),
{
    if s.len() > 0 {
        lemma_bootstrap_methods_view(s.subrange(1, s.len() as int));
        assert forall|i: int| 0 <= i < s.len() implies bootstrap_methods_view(s)[i] == s[i]@ by {
            if i > 0 {
                assert(s.subrange(1, s.len() as int)[i - 1] == s[i]);
            }
        }
    }
}

/// Element-by-element reading of `attributes_view`.
pub broadcast proof fn lemma_attributes_view(s: Seq<AttributeInfo>)
    ensures
        (#[trigger] attributes_view(s)).len() == s.len(),
        forall|i: int| 0 <= i < s.len() ==> attributes_view(s)[i] == attribute_view(s[i]),
    decreases s.len(),
{
    if s.len() > 0 {
        lemma_attributes_view(s.subrange(1, s.len() as int));
        assert forall|i: int| 0 <= i < s.len() implies attributes_view(s)[i] == attribute_view(s[i]) by {
            if i > 0 {
                assert(s.subrange(1, s.len() as int)[i - 1] == s[i]);
            }
        }
    }
}

/// Element-by-element reading of `record_components_view`.
pub broadcast proof fn lemma_record_components_view(s: Seq<RecordComponentInfo>)
    ensures
        (#[trigger] record_components_view(s)).len() == s.len(),
        forall|i: int| 0 <= i < s.len() ==> record_components_view(s)[i] == record_component_view(s[i]),
    decreases s.len(),
{
    if s.len() > 0 {
        lemma_record_components_view(s.subrange(1, s.len() as int));
        assert forall|i: int| 0 <= i < s.len() implies record_components_view(s)[i] == record_component_view(s[i]) by {
            if i > 0 {
                assert(s.subrange(1, s.len() as int)[i - 1] == s[i]);
            }
        }
    }
}

/// All element-by-element view facts of the attribute tree.
pub broadcast group group_view_lemmas {
    lemma_annotations_view,
    lemma_element_value_pairs_view,
    lemma_element_values_view,
    lemma_parameter_annotations_view,
    lemma_type_annotations_view,
    lemma_module_exports_view,
    lemma_module_opens_view,
    lemma_module_provides_view,
    lemma_bootstrap_methods_view,
    lemma_attributes_view,
    lemma_record_components_view,
    crate::smtattr::lemma_stack_map_frames_view,
}

} // verus!
