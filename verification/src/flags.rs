//! Access-flag masks for classes, fields, methods, and module components.
//!
//! Each flag set is a plain `u16` bitmask; the structs below only carry the
//! named mask constants of the format.

use vstd::prelude::*;

verus! {

/// Class access flags.
pub struct ClassAccessFlags;

impl ClassAccessFlags {
    pub const ACC_PUBLIC: u16 = 0x0001;
    pub const ACC_FINAL: u16 = 0x0010;
    pub const ACC_SUPER: u16 = 0x0020;
    pub const ACC_INTERFACE: u16 = 0x0200;
    pub const ACC_ABSTRACT: u16 = 0x0400;
    pub const ACC_SYNTHETIC: u16 = 0x1000;
    pub const ACC_ANNOTATION: u16 = 0x2000;
    pub const ACC_ENUM: u16 = 0x4000;
    pub const ACC_MODULE: u16 = 0x8000;
}

/// Field access flags.
pub struct FieldAccessFlags;

impl FieldAccessFlags {
    pub const ACC_PUBLIC: u16 = 0x0001;
    pub const ACC_PRIVATE: u16 = 0x0002;
    pub const ACC_PROTECTED: u16 = 0x0004;
    pub const ACC_STATIC: u16 = 0x0008;
    pub const ACC_FINAL: u16 = 0x0010;
    pub const ACC_VOLATILE: u16 = 0x0040;
    pub const ACC_TRANSIENT: u16 = 0x0080;
    pub const ACC_SYNTHETIC: u16 = 0x1000;
    pub const ACC_ENUM: u16 = 0x4000;
}

/// Access flags of an entry of an `InnerClasses` attribute.
pub struct InnerClassAccessFlags;

impl InnerClassAccessFlags {
    pub const ACC_PUBLIC: u16 = 0x0001;
    pub const ACC_PRIVATE: u16 = 0x0002;
    pub const ACC_PROTECTED: u16 = 0x0004;
    pub const ACC_STATIC: u16 = 0x0008;
    pub const ACC_FINAL: u16 = 0x0010;
    pub const ACC_INTERFACE: u16 = 0x0200;
    pub const ACC_ABSTRACT: u16 = 0x0400;
    pub const ACC_SYNTHETIC: u16 = 0x1000;
    pub const ACC_ANNOTATION: u16 = 0x2000;
    pub const ACC_ENUM: u16 = 0x4000;
}

/// Method access flags.
pub struct MethodAccessFlags;

impl MethodAccessFlags {
    pub const ACC_PUBLIC: u16 = 0x0001;
    pub const ACC_PRIVATE: u16 = 0x0002;
    pub const ACC_PROTECTED: u16 = 0x0004;
    pub const ACC_STATIC: u16 = 0x0008;
    pub const ACC_FINAL: u16 = 0x0010;
    pub const ACC_SYNCHRONIZED: u16 = 0x0020;
    pub const ACC_BRIDGE: u16 = 0x0040;
    pub const ACC_VARARGS: u16 = 0x0080;
    pub const ACC_NATIVE: u16 = 0x0100;
    pub const ACC_ABSTRACT: u16 = 0x0400;
    pub const ACC_STRICT: u16 = 0x0800;
    pub const ACC_SYNTHETIC: u16 = 0x1000;
}

/// Access flags of an entry of a `MethodParameters` attribute.
pub struct MethodParameterAccessFlags;

impl MethodParameterAccessFlags {
    pub const ACC_FINAL: u16 = 0x0010;
    pub const ACC_SYNTHETIC: u16 = 0x1000;
    pub const ACC_MANDATED: u16 = 0x8000;
}

/// Flags of a `Module` attribute.
pub struct ModuleFlags;

impl ModuleFlags {
    pub const ACC_OPEN: u16 = 0x0020;
    pub const SYNTHETIC: u16 = 0x1000;
    pub const ACC_MANDATED: u16 = 0x8000;
}

/// Flags of a module export.
pub struct ModuleExportFlags;

impl ModuleExportFlags {
    pub const SYNTHETIC: u16 = 0x1000;
    pub const ACC_MANDATED: u16 = 0x8000;
}

/// Flags of a module open.
pub struct ModuleOpenFlags;

impl ModuleOpenFlags {
    pub const SYNTHETIC: u16 = 0x1000;
    pub const ACC_MANDATED: u16 = 0x8000;
}

/// Flags of a module require.
pub struct ModuleRequireFlags;

impl ModuleRequireFlags {
    pub const ACC_TRANSITIVE: u16 = 0x0020;
    pub const ACC_STATIC_PHASE: u16 = 0x0040;
    pub const SYNTHETIC: u16 = 0x1000;
    pub const ACC_MANDATED: u16 = 0x8000;
}

/// Whether any bit of `flag` is set in `flags`.
pub open spec fn flag_set_spec(flags: u16, flag: u16) -> bool {
    flags & flag != 0
}

/// Testing bits of a flag mask.
pub trait FlagsExt: Sized {
    /// What `flag_set` means on this type.
    spec fn flag_set_model(self, flag: Self) -> bool;

    /// Whether any bit of `flag` is set in `self`.
    fn flag_set(self, flag: Self) -> (r: bool)
        ensures
            r == self.flag_set_model(flag),
    ;
}

impl FlagsExt for u16 {
    open spec fn flag_set_model(self, flag: u16) -> bool {
        flag_set_spec(self, flag)
    }

    fn flag_set(self, flag: u16) -> (r: bool) {
        self & flag != 0
    }
}

} // verus!
