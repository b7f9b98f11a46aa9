//! The structural and semantic checker.
//!
//! The checker consumes a fully decoded `ClassFile` and runs a fixed
//! sequence of validation passes over it, short-circuiting on the first
//! violated rule: version, class access flags, `this_class`, `super_class`,
//! interfaces, fields, methods.  Each pass is specified by a direct
//! mathematical predicate over the decoded model, and the executable
//! checker is proved to return exactly the first violated rule, or success
//! when every pass holds.  The verdict is a pure function of the decoded
//! structure.

use vstd::prelude::*;

use crate::attrinfo::AttributeInfoV;
use crate::attrnames::name_eq;
use crate::classfile::ClassFile;
use crate::classfile::ClassFileV;
use crate::classfile::CpInfo;
use crate::classfile::CpInfoV;
use crate::classfile::FieldInfoV;
use crate::classfile::MethodInfo;
use crate::classfile::RetrievalApiVector;
use crate::classfile::cp_entry;
use crate::classfile::cp_infos_view;
use crate::cpinfo::CpInfoType;
use crate::cpinfo::CpInfoTypeV;
use crate::flags::ClassAccessFlags;
use crate::flags::FieldAccessFlags;
use crate::flags::MethodAccessFlags;

verus! {

/// A check failure: the first violated rule of the first failing pass.
#[derive(Debug, PartialEq, Eq, Structural, Clone, Copy)]
pub enum CheckError {
    AnnotationFlagWithoutInterfaceFlag,
    DuplicatedField,
    DuplicatedMethod,
    FieldNameIndexNotConstantUtf8,
    FinalAbstractFlagsSetSimultaneously,
    InterfaceFlagWithoutAbstractFlag,
    InvalidConstantPoolIndex,
    InvalidFieldAttributes,
    InvalidFieldDescriptor,
    InvalidFieldFlags,
    InvalidFlagsWithInterfaceFlag,
    InvalidInterfaceFieldFlags,
    InvalidInterfaceMethodFlags,
    InvalidMethodFlags,
    InvalidMinor { minor: u16 },
    NotOnlyModuleFlagSet,
    SuperClassIndexNotConstantClass,
    ThisClassIndexNotConstantClass,
    UnsupportedMajor { major: u16 },
    UnsupportedModuleFlagForVersion,
}

/// Result of a check pass.
pub type CheckResult<T> = Result<T, CheckError>;

/// The version pass: the major version must lie in the supported inclusive
/// range, and once the major version exceeds 56 the minor version must be
/// exactly 0 or exactly 65535.
pub open spec fn sp_check_version(cf: ClassFileV) -> CheckResult<()> {
    if !(45 <= cf.major_version && cf.major_version <= 62) {
        Err(CheckError::UnsupportedMajor { major: cf.major_version })
    } else if cf.major_version > 56 && cf.minor_version != 0 && cf.minor_version != 65535 {
        Err(CheckError::InvalidMinor { minor: cf.minor_version })
    } else {
        Ok(())
    }
}

/// The class access-flag pass.  On success it yields the context the later
/// passes consult: whether the class is an interface and whether it is a
/// module.  A module-flagged class must carry no other flag and demands
/// major version 53 or above; an interface must be abstract and must not be
/// final, super, or enum; abstract and final never combine; the annotation
/// flag demands the interface flag.
pub open spec fn sp_check_class_flags(cf: ClassFileV) -> CheckResult<(bool, bool)> {
    let f = cf.access_flags;
    if f & ClassAccessFlags::ACC_MODULE != 0 {
        if f != ClassAccessFlags::ACC_MODULE {
            Err(CheckError::NotOnlyModuleFlagSet)
        } else if cf.major_version < 53 {
            Err(CheckError::UnsupportedModuleFlagForVersion)
        } else {
            Ok((false, true))
        }
    } else {
        let is_interface = f & ClassAccessFlags::ACC_INTERFACE != 0;
        if is_interface && f & ClassAccessFlags::ACC_ABSTRACT == 0 {
            Err(CheckError::InterfaceFlagWithoutAbstractFlag)
        } else if is_interface && (f & ClassAccessFlags::ACC_FINAL != 0 || f
            & ClassAccessFlags::ACC_SUPER != 0 || f & ClassAccessFlags::ACC_ENUM != 0) {
            Err(CheckError::InvalidFlagsWithInterfaceFlag)
        } else if f & ClassAccessFlags::ACC_ABSTRACT != 0 && f & ClassAccessFlags::ACC_FINAL != 0 {
            Err(CheckError::FinalAbstractFlagsSetSimultaneously)
        } else if f & ClassAccessFlags::ACC_ANNOTATION != 0 && !is_interface {
            Err(CheckError::AnnotationFlagWithoutInterfaceFlag)
        } else {
            Ok((is_interface, false))
        }
    }
}

/// Whether the 1-based pool index resolves to a class constant.
pub open spec fn sp_is_class_entry(pool: Seq<CpInfoV>, index: u16) -> bool {
    match cp_entry(pool, index) {
        Some(e) => e.info is ConstantClass,
        None => false,
    }
}

/// The UTF-8 bytes the 1-based pool index resolves to, if it names a UTF-8
/// constant.
pub open spec fn sp_resolved_utf8(pool: Seq<CpInfoV>, index: u16) -> Option<Seq<u8>> {
    match cp_entry(pool, index) {
        Some(e) => match e.info {
            CpInfoTypeV::ConstantUtf8 { bytes, .. } => Some(bytes),
            _ => None,
        },
        None => None,
    }
}

/// The `this_class` pass: the index must resolve to a class constant.
pub open spec fn sp_check_this_class(cf: ClassFileV) -> CheckResult<()> {
    match cp_entry(cf.constant_pool, cf.this_class) {
        None => Err(CheckError::InvalidConstantPoolIndex),
        Some(e) => if e.info is ConstantClass {
            Ok(())
        } else {
            Err(CheckError::ThisClassIndexNotConstantClass)
        },
    }
}

/// The `super_class` pass: index 0 signals no superclass and passes;
/// otherwise the index must resolve to a class constant.
pub open spec fn sp_check_super_class(cf: ClassFileV) -> CheckResult<()> {
    if cf.super_class == 0 {
        Ok(())
    } else {
        match cp_entry(cf.constant_pool, cf.super_class) {
            None => Err(CheckError::InvalidConstantPoolIndex),
            Some(e) => if e.info is ConstantClass {
                Ok(())
            } else {
                Err(CheckError::SuperClassIndexNotConstantClass)
            },
        }
    }
}

/// The interfaces pass: every declared interface index must resolve to a
/// class constant.
pub open spec fn sp_check_interfaces(cf: ClassFileV) -> CheckResult<()> {
    if forall|i: int|
        0 <= i < cf.interfaces.len() ==> sp_is_class_entry(
            cf.constant_pool,
            #[trigger] cf.interfaces[i],
        ) {
        Ok(())
    } else {
        Err(CheckError::InvalidConstantPoolIndex)
    }
}

/// The resolved UTF-8 name of the field at `i`.
pub open spec fn sp_field_name(cf: ClassFileV, i: int) -> Option<Seq<u8>> {
    sp_resolved_utf8(cf.constant_pool, cf.fields[i].name_index)
}

/// Whether the fields at `i` and `j` resolve to the same UTF-8 name.
pub open spec fn sp_field_pair_dup(cf: ClassFileV, i: int, j: int) -> bool {
    sp_field_name(cf, i) is Some && sp_field_name(cf, i) == sp_field_name(cf, j)
}

/// Whether two fields share a resolved name.  Fields whose name index does
/// not resolve to a UTF-8 constant take no part in the comparison.
pub open spec fn sp_fields_have_duplicate(cf: ClassFileV) -> bool {
    exists|i: int, j: int| 0 <= i < j < cf.fields.len() && #[trigger] sp_field_pair_dup(cf, i, j)
}

/// The resolved UTF-8 name of the method at `i`.
pub open spec fn sp_method_name(cf: ClassFileV, i: int) -> Option<Seq<u8>> {
    sp_resolved_utf8(cf.constant_pool, cf.methods[i].name_index)
}

/// Whether the methods at `i` and `j` resolve to the same UTF-8 name.
pub open spec fn sp_method_pair_dup(cf: ClassFileV, i: int, j: int) -> bool {
    sp_method_name(cf, i) is Some && sp_method_name(cf, i) == sp_method_name(cf, j)
}

/// Whether two methods share a resolved name; descriptors take no part in
/// the comparison.
pub open spec fn sp_methods_have_duplicate(cf: ClassFileV) -> bool {
    exists|i: int, j: int| 0 <= i < j < cf.methods.len() && #[trigger] sp_method_pair_dup(cf, i, j)
}

/// Legal flags of an interface-owned field: exactly public, static, and
/// final, optionally with synthetic added.
pub open spec fn sp_interface_field_flags_ok(f: u16) -> bool {
    f == FieldAccessFlags::ACC_PUBLIC | FieldAccessFlags::ACC_STATIC | FieldAccessFlags::ACC_FINAL
        || f == FieldAccessFlags::ACC_PUBLIC | FieldAccessFlags::ACC_STATIC
        | FieldAccessFlags::ACC_FINAL | FieldAccessFlags::ACC_SYNTHETIC
}

/// Legal flags of a class-owned field: at most one of public, private, and
/// protected, and never final together with volatile.
pub open spec fn sp_class_field_flags_ok(f: u16) -> bool {
    &&& !(f & FieldAccessFlags::ACC_PUBLIC != 0 && f & FieldAccessFlags::ACC_PRIVATE != 0)
    &&& !(f & FieldAccessFlags::ACC_PUBLIC != 0 && f & FieldAccessFlags::ACC_PROTECTED != 0)
    &&& !(f & FieldAccessFlags::ACC_PRIVATE != 0 && f & FieldAccessFlags::ACC_PROTECTED != 0)
    &&& !(f & FieldAccessFlags::ACC_FINAL != 0 && f & FieldAccessFlags::ACC_VOLATILE != 0)
}

/// Whether one attribute is legal on a field under the declared major
/// version: constant-value, deprecated, and synthetic always; signature and
/// annotations from version 49; type annotations from version 52.
pub open spec fn sp_field_attr_ok(a: AttributeInfoV, major: u16) -> bool {
    match a.info {
        crate::attrinfo::AttributeInfoTypeV::ConstantValueAttribute { .. } => true,
        crate::attrinfo::AttributeInfoTypeV::DeprecatedAttribute => true,
        crate::attrinfo::AttributeInfoTypeV::SyntheticAttribute => true,
        crate::attrinfo::AttributeInfoTypeV::SignatureAttribute { .. } => major >= 49,
        crate::attrinfo::AttributeInfoTypeV::RuntimeVisibleAnnotationsAttribute { .. } => major
            >= 49,
        crate::attrinfo::AttributeInfoTypeV::RuntimeInvisibleAnnotationsAttribute { .. } => major
            >= 49,
        crate::attrinfo::AttributeInfoTypeV::RuntimeVisibleTypeAnnotationsAttribute { .. } => major
            >= 52,
        crate::attrinfo::AttributeInfoTypeV::RuntimeInvisibleTypeAnnotationsAttribute { .. } => major
            >= 52,
        _ => false,
    }
}

/// Whether every attribute of the field is field-legal under the version.
pub open spec fn sp_field_attrs_ok(fld: FieldInfoV, major: u16) -> bool {
    forall|k: int| 0 <= k < fld.attributes.len() ==> sp_field_attr_ok(
        #[trigger] fld.attributes[k],
        major,
    )
}

/// How many `[` characters the descriptor starts with.
pub open spec fn sp_descriptor_dims(s: Seq<u8>) -> int
    decreases s.len(),
{
    if s.len() > 0 && s[0] == '[' as u8 {
        1 + sp_descriptor_dims(s.subrange(1, s.len() as int))
    } else {
        0
    }
}

/// A field descriptor with its array dimensions stripped: one of the eight
/// primitive codes, or `L`, a nonempty class name, and a closing `;`.
pub open spec fn sp_base_descriptor_ok(s: Seq<u8>) -> bool {
    ||| (s.len() == 1 && (s[0] == 'B' as u8 || s[0] == 'C' as u8 || s[0] == 'D' as u8 || s[0]
        == 'F' as u8 || s[0] == 'I' as u8 || s[0] == 'J' as u8 || s[0] == 'S' as u8 || s[0]
        == 'Z' as u8))
    ||| (s.len() >= 3 && s[0] == 'L' as u8 && s[s.len() - 1] == ';' as u8)
}

/// The field-descriptor grammar: up to 255 leading `[` characters followed
/// by a primitive code or a class reference.
pub open spec fn sp_valid_field_descriptor(s: Seq<u8>) -> bool {
    sp_descriptor_dims(s) <= 255 && sp_base_descriptor_ok(
        s.subrange(sp_descriptor_dims(s), s.len() as int),
    )
}

/// The field-duplicate pass.
pub open spec fn sp_check_field_duplicates(cf: ClassFileV) -> CheckResult<()> {
    if sp_fields_have_duplicate(cf) {
        Err(CheckError::DuplicatedField)
    } else {
        Ok(())
    }
}

/// The field access-flag pass, by class kind.
pub open spec fn sp_check_field_flags(cf: ClassFileV, is_interface: bool) -> CheckResult<()> {
    if is_interface {
        if forall|i: int|
            0 <= i < cf.fields.len() ==> sp_interface_field_flags_ok(
                (#[trigger] cf.fields[i]).access_flags,
            ) {
            Ok(())
        } else {
            Err(CheckError::InvalidInterfaceFieldFlags)
        }
    } else {
        if forall|i: int|
            0 <= i < cf.fields.len() ==> sp_class_field_flags_ok(
                (#[trigger] cf.fields[i]).access_flags,
            ) {
            Ok(())
        } else {
            Err(CheckError::InvalidFieldFlags)
        }
    }
}

/// The field-name pass: every name index resolves to a UTF-8 constant.
pub open spec fn sp_check_field_names(cf: ClassFileV) -> CheckResult<()> {
    if forall|i: int| 0 <= i < cf.fields.len() ==> #[trigger] sp_field_name(cf, i) is Some {
        Ok(())
    } else {
        Err(CheckError::FieldNameIndexNotConstantUtf8)
    }
}

/// Whether the descriptor of the field at `i` is acceptable: a descriptor
/// index that does not resolve to a UTF-8 constant takes no part, and one
/// that does must match the descriptor grammar.
pub open spec fn sp_field_descriptor_ok(cf: ClassFileV, i: int) -> bool {
    match sp_resolved_utf8(cf.constant_pool, cf.fields[i].descriptor_index) {
        Some(d) => sp_valid_field_descriptor(d),
        None => true,
    }
}

/// The field-descriptor pass.
pub open spec fn sp_check_field_descriptors(cf: ClassFileV) -> CheckResult<()> {
    if forall|i: int| 0 <= i < cf.fields.len() ==> #[trigger] sp_field_descriptor_ok(cf, i) {
        Ok(())
    } else {
        Err(CheckError::InvalidFieldDescriptor)
    }
}

/// The field-attribute pass.
pub open spec fn sp_check_field_attributes(cf: ClassFileV) -> CheckResult<()> {
    if forall|i: int|
        0 <= i < cf.fields.len() ==> sp_field_attrs_ok(#[trigger] cf.fields[i], cf.major_version) {
        Ok(())
    } else {
        Err(CheckError::InvalidFieldAttributes)
    }
}

/// The field pass, in order: duplicated names, access flags (by class
/// kind), name indices resolving to UTF-8, descriptor grammar (for each
/// descriptor index that resolves to a UTF-8 constant), and per-version
/// attribute legality.
pub open spec fn sp_check_fields(cf: ClassFileV, is_interface: bool) -> CheckResult<()> {
    match sp_check_field_duplicates(cf) {
        Err(e) => Err(e),
        Ok(_) => match sp_check_field_flags(cf, is_interface) {
            Err(e) => Err(e),
            Ok(_) => match sp_check_field_names(cf) {
                Err(e) => Err(e),
                Ok(_) => match sp_check_field_descriptors(cf) {
                    Err(e) => Err(e),
                    Ok(_) => sp_check_field_attributes(cf),
                },
            },
        },
    }
}

/// Flags no interface-owned method may carry.
pub open spec fn sp_interface_method_forbidden(f: u16) -> bool {
    f & MethodAccessFlags::ACC_PROTECTED != 0 || f & MethodAccessFlags::ACC_FINAL != 0 || f
        & MethodAccessFlags::ACC_SYNCHRONIZED != 0 || f & MethodAccessFlags::ACC_NATIVE != 0
}

/// Legal visibility of a class-owned method: at most one of public,
/// private, and protected.
pub open spec fn sp_class_method_flags_ok(f: u16) -> bool {
    &&& !(f & MethodAccessFlags::ACC_PUBLIC != 0 && f & MethodAccessFlags::ACC_PRIVATE != 0)
    &&& !(f & MethodAccessFlags::ACC_PUBLIC != 0 && f & MethodAccessFlags::ACC_PROTECTED != 0)
    &&& !(f & MethodAccessFlags::ACC_PRIVATE != 0 && f & MethodAccessFlags::ACC_PROTECTED != 0)
}

/// Whether an abstract method carries a flag it must not: private, static,
/// final, synchronized, native, or, for major versions 46 through 60,
/// strict.
pub open spec fn sp_abstract_method_bad(f: u16, major: u16) -> bool {
    f & MethodAccessFlags::ACC_ABSTRACT != 0 && (f & MethodAccessFlags::ACC_PRIVATE != 0 || f
        & MethodAccessFlags::ACC_STATIC != 0 || f & MethodAccessFlags::ACC_FINAL != 0 || f
        & MethodAccessFlags::ACC_SYNCHRONIZED != 0 || f & MethodAccessFlags::ACC_NATIVE != 0 || (46
        <= major && major <= 60 && f & MethodAccessFlags::ACC_STRICT != 0))
}

/// The method-duplicate pass.
pub open spec fn sp_check_method_duplicates(cf: ClassFileV) -> CheckResult<()> {
    if sp_methods_have_duplicate(cf) {
        Err(CheckError::DuplicatedMethod)
    } else {
        Ok(())
    }
}

/// The method access-flag pass: for interface methods, no forbidden flag,
/// exactly public and abstract below major 52, and never public together
/// with private from 52 on; for class methods, at most one visibility flag;
/// then, for either kind, the abstract-method rule.
pub open spec fn sp_check_method_flags(cf: ClassFileV, is_interface: bool) -> CheckResult<()> {
    if is_interface && !(forall|i: int|
        0 <= i < cf.methods.len() ==> !sp_interface_method_forbidden(
            (#[trigger] cf.methods[i]).access_flags,
        )) {
        Err(CheckError::InvalidInterfaceMethodFlags)
    } else if is_interface && cf.major_version < 52 && !(forall|i: int|
        0 <= i < cf.methods.len() ==> (#[trigger] cf.methods[i]).access_flags
            == MethodAccessFlags::ACC_PUBLIC | MethodAccessFlags::ACC_ABSTRACT) {
        Err(CheckError::InvalidInterfaceMethodFlags)
    } else if is_interface && cf.major_version >= 52 && !(forall|i: int|
        0 <= i < cf.methods.len() ==> !((#[trigger] cf.methods[i]).access_flags
            & MethodAccessFlags::ACC_PUBLIC != 0 && cf.methods[i].access_flags
            & MethodAccessFlags::ACC_PRIVATE != 0)) {
        Err(CheckError::InvalidInterfaceMethodFlags)
    } else if !is_interface && !(forall|i: int|
        0 <= i < cf.methods.len() ==> sp_class_method_flags_ok(
            (#[trigger] cf.methods[i]).access_flags,
        )) {
        Err(CheckError::InvalidMethodFlags)
    } else if !(forall|i: int|
        0 <= i < cf.methods.len() ==> !sp_abstract_method_bad(
            (#[trigger] cf.methods[i]).access_flags,
            cf.major_version,
        )) {
        Err(CheckError::InvalidMethodFlags)
    } else {
        Ok(())
    }
}

/// The method pass: duplicated names, then access flags.
pub open spec fn sp_check_methods(cf: ClassFileV, is_interface: bool) -> CheckResult<()> {
    match sp_check_method_duplicates(cf) {
        Err(e) => Err(e),
        Ok(_) => sp_check_method_flags(cf, is_interface),
    }
}

/// The whole check: every pass in its fixed order, stopping at the first
/// violated rule.  This is the whole meaning of `check`.
pub open spec fn sp_check(cf: ClassFileV) -> CheckResult<()> {
    match sp_check_version(cf) {
        Err(e) => Err(e),
        Ok(_) => match sp_check_class_flags(cf) {
            Err(e) => Err(e),
            Ok((is_interface, _is_module)) => match sp_check_this_class(cf) {
                Err(e) => Err(e),
                Ok(_) => match sp_check_super_class(cf) {
                    Err(e) => Err(e),
                    Ok(_) => match sp_check_interfaces(cf) {
                        Err(e) => Err(e),
                        Ok(_) => match sp_check_fields(cf, is_interface) {
                            Err(e) => Err(e),
                            Ok(_) => match sp_check_methods(cf, is_interface) {
                                Err(e) => Err(e),
                                Ok(_) => Ok(()),
                            },
                        },
                    },
                },
            },
        },
    }
}


/// The method name `<clinit>` as bytes.
pub open spec fn nm_clinit() -> Seq<u8> {
    seq![
        '<' as u8,
        'c' as u8,
        'l' as u8,
        'i' as u8,
        'n' as u8,
        'i' as u8,
        't' as u8,
        '>' as u8,
    ]
}

/// The first method whose name resolves to `<clinit>`, if any.
pub open spec fn sp_first_clinit(cf: ClassFileV) -> Option<int> {
    if exists|i: int| 0 <= i < cf.methods.len() && #[trigger] sp_method_name(cf, i) == Some(
        nm_clinit(),
    ) {
        Some(
            choose|i: int|
                0 <= i < cf.methods.len() && (#[trigger] sp_method_name(cf, i)) == Some(nm_clinit())
                    && forall|j: int|
                    0 <= j < i ==> #[trigger] sp_method_name(cf, j) != Some(nm_clinit()),
        )
    } else {
        None
    }
}

/// Resolves a 1-based pool index to the bytes of a UTF-8 constant.
fn resolved_utf8_name<'a>(pool: &'a Vec<CpInfo>, index: u16) -> (r: Option<&'a Vec<u8>>)
    ensures
        match r {
            Some(b) => sp_resolved_utf8(cp_infos_view(pool@), index) == Some(b@),
            None => sp_resolved_utf8(cp_infos_view(pool@), index) is None,
        },
{
    match pool.element_at(index) {
        Some(c) => match &c.info {
            CpInfoType::ConstantUtf8 { bytes, .. } => Some(bytes),
            _ => None,
        },
        None => None,
    }
}

/// The context carried between passes: the class kind derived from the
/// access-flag pass, and the declared major version.
struct ClassFileCheckerState {
    is_interface: bool,
    is_module: bool,
    major: u16,
}

impl ClassFileCheckerState {
    /// A fresh context for a class of the given major version.
    fn new(major: u16) -> (r: Self)
        ensures
            !r.is_interface,
            !r.is_module,
            r.major == major,
    {
        Self { is_interface: false, is_module: false, major }
    }
}

/// Runs the validation passes over one decoded class file.
pub struct ClassFileChecker {
    classfile: ClassFile,
    state: ClassFileCheckerState,
}

impl ClassFileChecker {
    /// The decoded structure under check.
    pub closed spec fn cfv(&self) -> ClassFileV {
        self.classfile@
    }

    /// Whether the flag pass has recorded the interface kind.
    pub closed spec fn st_interface(&self) -> bool {
        self.state.is_interface
    }

    /// Whether the flag pass has recorded the module kind.
    pub closed spec fn st_module(&self) -> bool {
        self.state.is_module
    }

    /// The carried major version agrees with the structure.
    pub closed spec fn wf(&self) -> bool {
        self.state.major == self.classfile.major_version
    }

    /// Makes a checker over the given decoded structure.
    pub fn new(classfile: ClassFile) -> (r: Self)
        ensures
            r.wf(),
            r.cfv() == classfile@,
            !r.st_interface(),
            !r.st_module(),
    {
        let major = classfile.major_version;
        Self { classfile, state: ClassFileCheckerState::new(major) }
    }

    /// Runs every pass in its fixed order and returns the first violated
    /// rule, or success; the verdict is exactly `sp_check` of the structure.
    pub fn check(&mut self) -> (r: CheckResult<()>)
        requires
            old(self).wf(),
        ensures
            final(self).wf(),
            final(self).cfv() == old(self).cfv(),
            r == sp_check(old(self).cfv()),
    {
        self.check_classfile_version()?;
        self.check_class_access_flags()?;
        self.check_this_class()?;
        self.check_super_class()?;
        self.check_interfaces()?;
        self.check_fields()?;
        self.check_methods()?;
        Ok(())
    }

    /// The version pass.
    fn check_classfile_version(&self) -> (r: CheckResult<()>)
        requires
            self.wf(),
        ensures
            r == sp_check_version(self.cfv()),
    {
        let minor = self.classfile.minor_version;
        if !(45 <= self.state.major && self.state.major <= 62) {
            return Err(CheckError::UnsupportedMajor { major: self.state.major });
        }
        if self.state.major > 56 && !(minor == 0 || minor == 65535) {
            return Err(CheckError::InvalidMinor { minor });
        }
        Ok(())
    }

    /// The class access-flag pass; on success the context records the class
    /// kind for the later passes.
    fn check_class_access_flags(&mut self) -> (r: CheckResult<()>)
        requires
            old(self).wf(),
        ensures
            final(self).wf(),
            final(self).cfv() == old(self).cfv(),
            match sp_check_class_flags(old(self).cfv()) {
                Ok((is_interface, is_module)) => r == Ok::<(), CheckError>(())
                    && final(self).st_interface() == is_interface
                    && final(self).st_module() == is_module,
                Err(e) => r == Err::<(), CheckError>(e),
            },
    {
        let access_flags = self.classfile.access_flags;
        if access_flags & ClassAccessFlags::ACC_MODULE != 0 {
            if access_flags != ClassAccessFlags::ACC_MODULE {
                return Err(CheckError::NotOnlyModuleFlagSet);
            }
            if self.state.major < 53 {
                return Err(CheckError::UnsupportedModuleFlagForVersion);
            }
            self.state.is_interface = false;
            self.state.is_module = true;
            return Ok(());
        }
        if access_flags & ClassAccessFlags::ACC_INTERFACE != 0 {
            if access_flags & ClassAccessFlags::ACC_ABSTRACT == 0 {
                return Err(CheckError::InterfaceFlagWithoutAbstractFlag);
            }
            if access_flags & ClassAccessFlags::ACC_FINAL != 0 || access_flags
                & ClassAccessFlags::ACC_SUPER != 0 || access_flags & ClassAccessFlags::ACC_ENUM
                != 0 {
                return Err(CheckError::InvalidFlagsWithInterfaceFlag);
            }
        }
        self.state.is_interface = access_flags & ClassAccessFlags::ACC_INTERFACE != 0;
        self.state.is_module = false;
        if access_flags & ClassAccessFlags::ACC_ABSTRACT != 0 && access_flags
            & ClassAccessFlags::ACC_FINAL != 0 {
            return Err(CheckError::FinalAbstractFlagsSetSimultaneously);
        }
        if access_flags & ClassAccessFlags::ACC_ANNOTATION != 0 && access_flags
            & ClassAccessFlags::ACC_INTERFACE == 0 {
            return Err(CheckError::AnnotationFlagWithoutInterfaceFlag);
        }
        Ok(())
    }

    /// The `this_class` pass.
    fn check_this_class(&self) -> (r: CheckResult<()>)
        ensures
            r == sp_check_this_class(self.cfv()),
    {
        match self.classfile.constant_pool.element_at(self.classfile.this_class) {
            None => Err(CheckError::InvalidConstantPoolIndex),
            Some(entry) => match &entry.info {
                CpInfoType::ConstantClass { .. } => Ok(()),
                _ => Err(CheckError::ThisClassIndexNotConstantClass),
            },
        }
    }

    /// The `super_class` pass.
    fn check_super_class(&self) -> (r: CheckResult<()>)
        ensures
            r == sp_check_super_class(self.cfv()),
    {
        if self.classfile.super_class == 0 {
            return Ok(());
        }
        match self.classfile.constant_pool.element_at(self.classfile.super_class) {
            None => Err(CheckError::InvalidConstantPoolIndex),
            Some(entry) => match &entry.info {
                CpInfoType::ConstantClass { .. } => Ok(()),
                _ => Err(CheckError::SuperClassIndexNotConstantClass),
            },
        }
    }

    /// The interfaces pass.
    fn check_interfaces(&self) -> (r: CheckResult<()>)
        ensures
            r == sp_check_interfaces(self.cfv()),
    {
        let n = self.classfile.interfaces.len();
        let mut i: usize = 0;
        while i < n
            invariant
                n == self.classfile.interfaces.len(),
                i <= n,
                forall|a: int|
                    0 <= a < i ==> sp_is_class_entry(
                        self.cfv().constant_pool,
                        #[trigger] self.cfv().interfaces[a],
                    ),
            decreases n - i,
        {
            let index = self.classfile.interfaces[i];
            let ok = match self.classfile.constant_pool.element_at(index) {
                Some(entry) => match &entry.info {
                    CpInfoType::ConstantClass { .. } => true,
                    _ => false,
                },
                None => false,
            };
            if !ok {
                proof {
                    assert(!sp_is_class_entry(self.cfv().constant_pool, self.cfv().interfaces[
                    i as int]));
                }
                return Err(CheckError::InvalidConstantPoolIndex);
            }
            i = i + 1;
        }
        Ok(())
    }

    /// The field pass.
    #[verifier::loop_isolation(false)]
    fn check_fields(&self) -> (r: CheckResult<()>)
        requires
            self.wf(),
        ensures
            r == sp_check_fields(self.cfv(), self.st_interface()),
    {
        self.check_field_duplicates()?;
        self.check_field_access_flags()?;
        self.check_field_names()?;
        self.check_field_descriptors()?;
        let n = self.classfile.fields.len();
        let mut i: usize = 0;
        while i < n
            invariant
                self.wf(),
                n == self.classfile.fields.len(),
                i <= n,
                forall|a: int|
                    0 <= a < i ==> sp_field_attrs_ok(
                        #[trigger] self.cfv().fields[a],
                        self.cfv().major_version,
                    ),
            decreases n - i,
        {
            if !self.check_field_attributes(&self.classfile.fields[i]) {
                proof {
                    assert(self.cfv().fields[i as int] == self.classfile.fields@[i as int]@);
                }
                return Err(CheckError::InvalidFieldAttributes);
            }
            i = i + 1;
        }
        Ok(())
    }

    /// The field-duplicate pass: no two fields may share a resolved name.
    fn check_field_duplicates(&self) -> (r: CheckResult<()>)
        ensures
            r == sp_check_field_duplicates(self.cfv()),
    {
        let n = self.classfile.fields.len();
        let mut j: usize = 0;
        while j < n
            invariant
                n == self.classfile.fields.len(),
                j <= n,
                forall|a: int, b: int| 0 <= a < b < j ==> !#[trigger] sp_field_pair_dup(
                    self.cfv(),
                    a,
                    b,
                ),
            decreases n - j,
        {
            let mut i: usize = 0;
            while i < j
                invariant
                    n == self.classfile.fields.len(),
                    i <= j < n,
                    forall|a: int, b: int| 0 <= a < b < j ==> !#[trigger] sp_field_pair_dup(
                        self.cfv(),
                        a,
                        b,
                    ),
                    forall|a: int| 0 <= a < i ==> !#[trigger] sp_field_pair_dup(
                        self.cfv(),
                        a,
                        j as int,
                    ),
                decreases j - i,
            {
                let name_i = resolved_utf8_name(
                    &self.classfile.constant_pool,
                    self.classfile.fields[i].name_index,
                );
                let name_j = resolved_utf8_name(
                    &self.classfile.constant_pool,
                    self.classfile.fields[j].name_index,
                );
                let dup = match (name_i, name_j) {
                    (Some(a), Some(b)) => name_eq(a, b),
                    _ => false,
                };
                if dup {
                    proof {
                        assert(sp_field_pair_dup(self.cfv(), i as int, j as int));
                    }
                    return Err(CheckError::DuplicatedField);
                }
                proof {
                    assert(!sp_field_pair_dup(self.cfv(), i as int, j as int));
                }
                i = i + 1;
            }
            j = j + 1;
        }
        Ok(())
    }

    /// The field access-flag pass.
    #[verifier::loop_isolation(false)]
    fn check_field_access_flags(&self) -> (r: CheckResult<()>)
        ensures
            r == sp_check_field_flags(self.cfv(), self.st_interface()),
    {
        let n = self.classfile.fields.len();
        if self.state.is_interface {
            let mut i: usize = 0;
            while i < n
                invariant
                    n == self.classfile.fields.len(),
                    i <= n,
                    forall|a: int|
                        0 <= a < i ==> sp_interface_field_flags_ok(
                            (#[trigger] self.cfv().fields[a]).access_flags,
                        ),
                decreases n - i,
            {
                let f = self.classfile.fields[i].access_flags;
                let base = FieldAccessFlags::ACC_PUBLIC | FieldAccessFlags::ACC_STATIC
                    | FieldAccessFlags::ACC_FINAL;
                if !(f == base || f == base | FieldAccessFlags::ACC_SYNTHETIC) {
                    proof {
                        assert(self.cfv().fields[i as int].access_flags == f);
                    }
                    return Err(CheckError::InvalidInterfaceFieldFlags);
                }
                i = i + 1;
            }
            Ok(())
        } else {
            let mut i: usize = 0;
            while i < n
                invariant
                    n == self.classfile.fields.len(),
                    i <= n,
                    forall|a: int|
                        0 <= a < i ==> sp_class_field_flags_ok(
                            (#[trigger] self.cfv().fields[a]).access_flags,
                        ),
                decreases n - i,
            {
                let f = self.classfile.fields[i].access_flags;
                let bad = (f & FieldAccessFlags::ACC_PUBLIC != 0 && f
                    & FieldAccessFlags::ACC_PRIVATE != 0) || (f & FieldAccessFlags::ACC_PUBLIC != 0
                    && f & FieldAccessFlags::ACC_PROTECTED != 0) || (f
                    & FieldAccessFlags::ACC_PRIVATE != 0 && f & FieldAccessFlags::ACC_PROTECTED
                    != 0) || (f & FieldAccessFlags::ACC_FINAL != 0 && f
                    & FieldAccessFlags::ACC_VOLATILE != 0);
                if bad {
                    proof {
                        assert(self.cfv().fields[i as int].access_flags == f);
                    }
                    return Err(CheckError::InvalidFieldFlags);
                }
                i = i + 1;
            }
            Ok(())
        }
    }

    /// The field-name pass.
    fn check_field_names(&self) -> (r: CheckResult<()>)
        ensures
            r == sp_check_field_names(self.cfv()),
    {
        let n = self.classfile.fields.len();
        let mut i: usize = 0;
        while i < n
            invariant
                n == self.classfile.fields.len(),
                i <= n,
                forall|a: int| 0 <= a < i ==> #[trigger] sp_field_name(self.cfv(), a) is Some,
            decreases n - i,
        {
            let name = resolved_utf8_name(
                &self.classfile.constant_pool,
                self.classfile.fields[i].name_index,
            );
            if name.is_none() {
                proof {
                    assert(sp_field_name(self.cfv(), i as int) is None);
                }
                return Err(CheckError::FieldNameIndexNotConstantUtf8);
            }
            i = i + 1;
        }
        Ok(())
    }

    /// The field-descriptor pass.
    fn check_field_descriptors(&self) -> (r: CheckResult<()>)
        ensures
            r == sp_check_field_descriptors(self.cfv()),
    {
        let n = self.classfile.fields.len();
        let mut i: usize = 0;
        while i < n
            invariant
                n == self.classfile.fields.len(),
                i <= n,
                forall|a: int| 0 <= a < i ==> #[trigger] sp_field_descriptor_ok(self.cfv(), a),
            decreases n - i,
        {
            let ok = match resolved_utf8_name(
                &self.classfile.constant_pool,
                self.classfile.fields[i].descriptor_index,
            ) {
                Some(d) => self.check_field_descriptor(d.as_slice()),
                None => true,
            };
            if !ok {
                proof {
                    assert(!sp_field_descriptor_ok(self.cfv(), i as int));
                }
                return Err(CheckError::InvalidFieldDescriptor);
            }
            i = i + 1;
        }
        Ok(())
    }

    /// Whether every attribute of the given field is field-legal under the
    /// declared version.
    pub fn check_field_attributes(&self, field: &crate::classfile::FieldInfo) -> (r: bool)
        requires
            self.wf(),
        ensures
            r == sp_field_attrs_ok(field@, self.cfv().major_version),
    {
        let n = field.attributes.len();
        let mut k: usize = 0;
        proof {
            crate::attrinfo::lemma_attributes_view(field.attributes@);
        }
        while k < n
            invariant
                self.wf(),
                n == field.attributes.len(),
                k <= n,
                field@.attributes.len() == n,
                forall|a: int| 0 <= a < k ==> sp_field_attr_ok(
                    #[trigger] field@.attributes[a],
                    self.cfv().major_version,
                ),
                forall|a: int|
                    0 <= a < n ==> field@.attributes[a] == crate::attrinfo::attribute_view(
                        #[trigger] field.attributes@[a],
                    ),
            decreases n - k,
        {
            let legal: bool = match &field.attributes[k].info {
                crate::attrinfo::AttributeInfoType::ConstantValueAttribute { .. } => true,
                crate::attrinfo::AttributeInfoType::DeprecatedAttribute => true,
                crate::attrinfo::AttributeInfoType::SyntheticAttribute => true,
                crate::attrinfo::AttributeInfoType::SignatureAttribute { .. } => self.state.major
                    >= 49,
                crate::attrinfo::AttributeInfoType::RuntimeVisibleAnnotationsAttribute {
                    ..
                } => self.state.major >= 49,
                crate::attrinfo::AttributeInfoType::RuntimeInvisibleAnnotationsAttribute {
                    ..
                } => self.state.major >= 49,
                crate::attrinfo::AttributeInfoType::RuntimeVisibleTypeAnnotationsAttribute {
                    ..
                } => self.state.major >= 52,
                crate::attrinfo::AttributeInfoType::RuntimeInvisibleTypeAnnotationsAttribute {
                    ..
                } => self.state.major >= 52,
                _ => false,
            };
            if !legal {
                proof {
                    assert(!sp_field_attr_ok(field@.attributes[k as int], self.cfv().major_version));
                }
                return false;
            }
            k = k + 1;
        }
        true
    }

    /// Whether the bytes match the field-descriptor grammar: up to 255
    /// leading `[` characters followed by a primitive code or `L`, a
    /// nonempty class name, and `;`.
    pub fn check_field_descriptor(&self, descriptor: &[u8]) -> (r: bool)
        ensures
            r == sp_valid_field_descriptor(descriptor@),
    {
        let len = descriptor.len();
        let mut d: usize = 0;
        while d < len && descriptor[d] == '[' as u8
            invariant
                d <= len,
                len == descriptor@.len(),
                forall|a: int| 0 <= a < d ==> descriptor@[a] == '[' as u8,
            decreases len - d,
        {
            d = d + 1;
        }
        proof {
            lemma_descriptor_dims(descriptor@, d as int);
        }
        if d > 255 {
            return false;
        }
        let ghost base = descriptor@.subrange(d as int, descriptor@.len() as int);
        if len - d == 1 {
            let c = descriptor[d];
            let r = c == 'B' as u8 || c == 'C' as u8 || c == 'D' as u8 || c == 'F' as u8 || c
                == 'I' as u8 || c == 'J' as u8 || c == 'S' as u8 || c == 'Z' as u8;
            proof {
                assert(base.len() == 1 && base[0] == descriptor@[d as int]);
            }
            r
        } else if len - d >= 3 {
            let r = descriptor[d] == 'L' as u8 && descriptor[len - 1] == ';' as u8;
            proof {
                assert(base.len() >= 3);
                assert(base[0] == descriptor@[d as int]);
                assert(base[base.len() - 1] == descriptor@[len - 1]);
                assert(base.len() != 1);
            }
            r
        } else {
            proof {
                assert(base.len() < 3 && base.len() != 1);
            }
            false
        }
    }

    /// The method pass.
    fn check_methods(&self) -> (r: CheckResult<()>)
        requires
            self.wf(),
        ensures
            r == sp_check_methods(self.cfv(), self.st_interface()),
    {
        self.check_method_duplicates()?;
        self.check_method_access_flags()?;
        Ok(())
    }

    /// The method-duplicate pass: no two methods may share a resolved name;
    /// descriptors take no part in the comparison.
    fn check_method_duplicates(&self) -> (r: CheckResult<()>)
        ensures
            r == sp_check_method_duplicates(self.cfv()),
    {
        let n = self.classfile.methods.len();
        let mut j: usize = 0;
        while j < n
            invariant
                n == self.classfile.methods.len(),
                j <= n,
                forall|a: int, b: int| 0 <= a < b < j ==> !#[trigger] sp_method_pair_dup(
                    self.cfv(),
                    a,
                    b,
                ),
            decreases n - j,
        {
            let mut i: usize = 0;
            while i < j
                invariant
                    n == self.classfile.methods.len(),
                    i <= j < n,
                    forall|a: int, b: int| 0 <= a < b < j ==> !#[trigger] sp_method_pair_dup(
                        self.cfv(),
                        a,
                        b,
                    ),
                    forall|a: int| 0 <= a < i ==> !#[trigger] sp_method_pair_dup(
                        self.cfv(),
                        a,
                        j as int,
                    ),
                decreases j - i,
            {
                let name_i = resolved_utf8_name(
                    &self.classfile.constant_pool,
                    self.classfile.methods[i].name_index,
                );
                let name_j = resolved_utf8_name(
                    &self.classfile.constant_pool,
                    self.classfile.methods[j].name_index,
                );
                let dup = match (name_i, name_j) {
                    (Some(a), Some(b)) => name_eq(a, b),
                    _ => false,
                };
                if dup {
                    proof {
                        assert(sp_method_pair_dup(self.cfv(), i as int, j as int));
                    }
                    return Err(CheckError::DuplicatedMethod);
                }
                proof {
                    assert(!sp_method_pair_dup(self.cfv(), i as int, j as int));
                }
                i = i + 1;
            }
            j = j + 1;
        }
        Ok(())
    }

    /// The method access-flag pass.
    #[verifier::loop_isolation(false)]
    fn check_method_access_flags(&self) -> (r: CheckResult<()>)
        requires
            self.wf(),
        ensures
            r == sp_check_method_flags(self.cfv(), self.st_interface()),
    {
        let n = self.classfile.methods.len();
        if self.state.is_interface {
            let mut i: usize = 0;
            while i < n
                invariant
                    n == self.classfile.methods.len(),
                    i <= n,
                    forall|a: int|
                        0 <= a < i ==> !sp_interface_method_forbidden(
                            (#[trigger] self.cfv().methods[a]).access_flags,
                        ),
                decreases n - i,
            {
                let f = self.classfile.methods[i].access_flags;
                if f & MethodAccessFlags::ACC_PROTECTED != 0 || f & MethodAccessFlags::ACC_FINAL
                    != 0 || f & MethodAccessFlags::ACC_SYNCHRONIZED != 0 || f
                    & MethodAccessFlags::ACC_NATIVE != 0 {
                    proof {
                        assert(self.cfv().methods[i as int].access_flags == f);
                    }
                    return Err(CheckError::InvalidInterfaceMethodFlags);
                }
                i = i + 1;
            }
            if self.state.major < 52 {
                let mut i: usize = 0;
                while i < n
                    invariant
                        self.wf(),
                        n == self.classfile.methods.len(),
                        i <= n,
                        forall|a: int|
                            0 <= a < i ==> (#[trigger] self.cfv().methods[a]).access_flags
                                == MethodAccessFlags::ACC_PUBLIC | MethodAccessFlags::ACC_ABSTRACT,
                    decreases n - i,
                {
                    let f = self.classfile.methods[i].access_flags;
                    if f != MethodAccessFlags::ACC_PUBLIC | MethodAccessFlags::ACC_ABSTRACT {
                        proof {
                            assert(self.cfv().methods[i as int].access_flags == f);
                        }
                        return Err(CheckError::InvalidInterfaceMethodFlags);
                    }
                    i = i + 1;
                }
            } else {
                let mut i: usize = 0;
                while i < n
                    invariant
                        self.wf(),
                        n == self.classfile.methods.len(),
                        i <= n,
                        forall|a: int|
                            0 <= a < i ==> !((#[trigger] self.cfv().methods[a]).access_flags
                                & MethodAccessFlags::ACC_PUBLIC != 0 && self.cfv().methods[
                            a].access_flags & MethodAccessFlags::ACC_PRIVATE != 0),
                    decreases n - i,
                {
                    let f = self.classfile.methods[i].access_flags;
                    if f & MethodAccessFlags::ACC_PUBLIC != 0 && f & MethodAccessFlags::ACC_PRIVATE
                        != 0 {
                        proof {
                            assert(self.cfv().methods[i as int].access_flags == f);
                        }
                        return Err(CheckError::InvalidInterfaceMethodFlags);
                    }
                    i = i + 1;
                }
            }
        } else {
            let mut i: usize = 0;
            while i < n
                invariant
                    n == self.classfile.methods.len(),
                    i <= n,
                    forall|a: int|
                        0 <= a < i ==> sp_class_method_flags_ok(
                            (#[trigger] self.cfv().methods[a]).access_flags,
                        ),
                decreases n - i,
            {
                let f = self.classfile.methods[i].access_flags;
                let bad = (f & MethodAccessFlags::ACC_PUBLIC != 0 && f
                    & MethodAccessFlags::ACC_PRIVATE != 0) || (f & MethodAccessFlags::ACC_PUBLIC
                    != 0 && f & MethodAccessFlags::ACC_PROTECTED != 0) || (f
                    & MethodAccessFlags::ACC_PRIVATE != 0 && f & MethodAccessFlags::ACC_PROTECTED
                    != 0);
                if bad {
                    proof {
                        assert(self.cfv().methods[i as int].access_flags == f);
                    }
                    return Err(CheckError::InvalidMethodFlags);
                }
                i = i + 1;
            }
        }
        let mut i: usize = 0;
        while i < n
            invariant
                self.wf(),
                n == self.classfile.methods.len(),
                i <= n,
                forall|a: int|
                    0 <= a < i ==> !sp_abstract_method_bad(
                        (#[trigger] self.cfv().methods[a]).access_flags,
                        self.cfv().major_version,
                    ),
            decreases n - i,
        {
            let f = self.classfile.methods[i].access_flags;
            let strict_applies = 46 <= self.state.major && self.state.major <= 60;
            if f & MethodAccessFlags::ACC_ABSTRACT != 0 && (f & MethodAccessFlags::ACC_PRIVATE != 0
                || f & MethodAccessFlags::ACC_STATIC != 0 || f & MethodAccessFlags::ACC_FINAL != 0
                || f & MethodAccessFlags::ACC_SYNCHRONIZED != 0 || f
                & MethodAccessFlags::ACC_NATIVE != 0 || (strict_applies && f
                & MethodAccessFlags::ACC_STRICT != 0)) {
                proof {
                    assert(self.cfv().methods[i as int].access_flags == f);
                }
                return Err(CheckError::InvalidMethodFlags);
            }
            i = i + 1;
        }
        Ok(())
    }

    /// The first method named `<clinit>`, if the class declares one.
    pub fn check_methods_get_clinit(&self) -> (r: Option<&MethodInfo>)
        ensures
            match r {
                Some(m) => sp_first_clinit(self.cfv()) matches Some(i) && 0 <= i
                    < self.cfv().methods.len() && m@ == self.cfv().methods[i],
                None => sp_first_clinit(self.cfv()) is None,
            },
    {
        let n = self.classfile.methods.len();
        let mut i: usize = 0;
        while i < n
            invariant
                n == self.classfile.methods.len(),
                i <= n,
                forall|a: int| 0 <= a < i ==> #[trigger] sp_method_name(self.cfv(), a) != Some(
                    nm_clinit(),
                ),
            decreases n - i,
        {
            let name = resolved_utf8_name(
                &self.classfile.constant_pool,
                self.classfile.methods[i].name_index,
            );
            let found = match name {
                Some(b) => {
                    let lit: Vec<u8> = vec![
                        '<' as u8,
                        'c' as u8,
                        'l' as u8,
                        'i' as u8,
                        'n' as u8,
                        'i' as u8,
                        't' as u8,
                        '>' as u8,
                    ];
                    proof {
                        assert(lit@ =~= nm_clinit());
                    }
                    name_eq(b, &lit)
                },
                None => false,
            };
            if found {
                proof {
                    assert(sp_method_name(self.cfv(), i as int) == Some(nm_clinit()));
                    assert(sp_first_clinit(self.cfv()) == Some(i as int));
                }
                return Some(&self.classfile.methods[i]);
            }
            i = i + 1;
        }
        proof {
            assert(sp_first_clinit(self.cfv()) is None);
        }
        None
    }
}

/// A run of `i` leading `[` characters that stops at `i` pins the
/// descriptor's dimension count to `i`.
pub proof fn lemma_descriptor_dims(s: Seq<u8>, i: int)
    requires
        0 <= i <= s.len(),
        forall|a: int| 0 <= a < i ==> s[a] == '[' as u8,
        i == s.len() || s[i] != '[' as u8,
    ensures
        sp_descriptor_dims(s) == i,
    decreases i,
{
    if i == 0 {
    } else {
        lemma_descriptor_dims(s.subrange(1, s.len() as int), i - 1);
    }
}


// ---- what checking guarantees ----

/// A class declaring major version 61 and minor version 1 is always
/// rejected with the invalid-minor condition: above major 56 only minor 0
/// and minor 65535 are legal.
pub proof fn lemma_preview_minor_rejected(cf: ClassFileV)
    requires
        cf.major_version == 61,
        cf.minor_version == 1,
    ensures
        sp_check(cf) == Err::<(), CheckError>(CheckError::InvalidMinor { minor: 1 }),
{
}

/// The same class with minor version 0 passes the version pass.
pub proof fn lemma_preview_minor_zero_passes(cf: ClassFileV)
    requires
        cf.major_version == 61,
        cf.minor_version == 0,
    ensures
        sp_check_version(cf) == Ok::<(), CheckError>(()),
{
}

/// An interface class missing the abstract flag is always rejected with the
/// interface-without-abstract condition, whatever the rest of the structure
/// holds, provided the version pass succeeds and the module flag is clear
/// (those earlier rules would otherwise claim the verdict first).
pub proof fn lemma_interface_without_abstract_rejected(cf: ClassFileV)
    requires
        sp_check_version(cf) is Ok,
        cf.access_flags & ClassAccessFlags::ACC_MODULE == 0,
        cf.access_flags & ClassAccessFlags::ACC_INTERFACE != 0,
        cf.access_flags & ClassAccessFlags::ACC_ABSTRACT == 0,
    ensures
        sp_check(cf) == Err::<(), CheckError>(CheckError::InterfaceFlagWithoutAbstractFlag),
{
}

/// Two fields whose name indices resolve to identical UTF-8 bytes are
/// always rejected with the duplicated-field condition, independent of
/// their descriptors and flags, provided the passes that run before the
/// field pass all succeed (those earlier rules would otherwise claim the
/// verdict first).
pub proof fn lemma_duplicated_field_rejected(cf: ClassFileV)
    requires
        sp_check_version(cf) is Ok,
        sp_check_class_flags(cf) is Ok,
        sp_check_this_class(cf) is Ok,
        sp_check_super_class(cf) is Ok,
        sp_check_interfaces(cf) is Ok,
        sp_fields_have_duplicate(cf),
    ensures
        sp_check(cf) == Err::<(), CheckError>(CheckError::DuplicatedField),
{
}


/// What decoding and then checking a byte buffer yields: the decode error,
/// or the checker's verdict on the decoded structure.
pub open spec fn sp_pipeline(s: Seq<u8>) -> Result<CheckResult<()>, crate::parser::ParseError> {
    match crate::parser::sp_parse(s) {
        Err(e) => Err(e),
        Ok(cf) => Ok(sp_check(cf)),
    }
}

/// Decoding followed by checking is deterministic: identical bytes always
/// yield an identical structure and verdict, or an identical failure.
pub proof fn lemma_pipeline_deterministic(b1: Seq<u8>, b2: Seq<u8>)
    requires
        b1 == b2,
    ensures
        sp_pipeline(b1) == sp_pipeline(b2),
        crate::parser::sp_parse(b1) == crate::parser::sp_parse(b2),
{
}

} // verus!
