//! Constant-pool entry kinds.
//!
//! The constant pool is the flat, 1-indexed table of shared constants that
//! the rest of a class file refers to by index.  Each entry is keyed by a
//! one-byte tag; the payload shape depends on the tag.  Long and double
//! constants keep their raw 32-bit halves; float constants keep their raw
//! bits, so no floating-point value is ever materialized here.

use vstd::prelude::*;

verus! {

/// Payload of one constant-pool entry, one variant per defined tag
/// (1, 3..=12, 15..=20).
#[derive(Debug)]
pub enum CpInfoType {
    ConstantUtf8 { length: u16, bytes: Vec<u8> },
    ConstantInteger { bytes: u32 },
    ConstantFloat { bytes: u32 },
    ConstantLong { high_bytes: u32, low_bytes: u32 },
    ConstantDouble { high_bytes: u32, low_bytes: u32 },
    ConstantClass { name_index: u16 },
    ConstantString { string_index: u16 },
    ConstantFieldRef { class_index: u16, name_and_type_index: u16 },
    ConstantMethodRef { class_index: u16, name_and_type_index: u16 },
    ConstantInterfaceMethodRef { class_index: u16, name_and_type_index: u16 },
    ConstantNameAndType { name_index: u16, descriptor_index: u16 },
    ConstantMethodHandle { reference_kind: u8, reference_index: u16 },
    ConstantMethodType { descriptor_index: u16 },
    ConstantDynamic { bootstrap_method_attr_index: u16, name_and_type_index: u16 },
    ConstantInvokeDynamic { bootstrap_method_attr_index: u16, name_and_type_index: u16 },
    ConstantModule { name_index: u16 },
    ConstantPackage { name_index: u16 },
}

/// Mathematical model of a constant-pool payload: identical to
/// `CpInfoType` except that the UTF-8 bytes are a `Seq<u8>`.
#[verifier::ext_equal]
pub enum CpInfoTypeV {
    ConstantUtf8 { length: u16, bytes: Seq<u8> },
    ConstantInteger { bytes: u32 },
    ConstantFloat { bytes: u32 },
    ConstantLong { high_bytes: u32, low_bytes: u32 },
    ConstantDouble { high_bytes: u32, low_bytes: u32 },
    ConstantClass { name_index: u16 },
    ConstantString { string_index: u16 },
    ConstantFieldRef { class_index: u16, name_and_type_index: u16 },
    ConstantMethodRef { class_index: u16, name_and_type_index: u16 },
    ConstantInterfaceMethodRef { class_index: u16, name_and_type_index: u16 },
    ConstantNameAndType { name_index: u16, descriptor_index: u16 },
    ConstantMethodHandle { reference_kind: u8, reference_index: u16 },
    ConstantMethodType { descriptor_index: u16 },
    ConstantDynamic { bootstrap_method_attr_index: u16, name_and_type_index: u16 },
    ConstantInvokeDynamic { bootstrap_method_attr_index: u16, name_and_type_index: u16 },
    ConstantModule { name_index: u16 },
    ConstantPackage { name_index: u16 },
}

impl View for CpInfoType {
    type V = CpInfoTypeV;

    open spec fn view(&self) -> CpInfoTypeV {
        match *self {
            CpInfoType::ConstantUtf8 { length, ref bytes } => CpInfoTypeV::ConstantUtf8 {
                length,
                bytes: bytes@,
            },
            CpInfoType::ConstantInteger { bytes } => CpInfoTypeV::ConstantInteger { bytes },
            CpInfoType::ConstantFloat { bytes } => CpInfoTypeV::ConstantFloat { bytes },
            CpInfoType::ConstantLong { high_bytes, low_bytes } => CpInfoTypeV::ConstantLong {
                high_bytes,
                low_bytes,
            },
            CpInfoType::ConstantDouble { high_bytes, low_bytes } => CpInfoTypeV::ConstantDouble {
                high_bytes,
                low_bytes,
            },
            CpInfoType::ConstantClass { name_index } => CpInfoTypeV::ConstantClass { name_index },
            CpInfoType::ConstantString { string_index } => CpInfoTypeV::ConstantString {
                string_index,
            },
            CpInfoType::ConstantFieldRef { class_index, name_and_type_index } => {
                CpInfoTypeV::ConstantFieldRef { class_index, name_and_type_index }
            },
            CpInfoType::ConstantMethodRef { class_index, name_and_type_index } => {
                CpInfoTypeV::ConstantMethodRef { class_index, name_and_type_index }
            },
            CpInfoType::ConstantInterfaceMethodRef { class_index, name_and_type_index } => {
                CpInfoTypeV::ConstantInterfaceMethodRef { class_index, name_and_type_index }
            },
            CpInfoType::ConstantNameAndType { name_index, descriptor_index } => {
                CpInfoTypeV::ConstantNameAndType { name_index, descriptor_index }
            },
            CpInfoType::ConstantMethodHandle { reference_kind, reference_index } => {
                CpInfoTypeV::ConstantMethodHandle { reference_kind, reference_index }
            },
            CpInfoType::ConstantMethodType { descriptor_index } => {
                CpInfoTypeV::ConstantMethodType { descriptor_index }
            },
            CpInfoType::ConstantDynamic { bootstrap_method_attr_index, name_and_type_index } => {
                CpInfoTypeV::ConstantDynamic { bootstrap_method_attr_index, name_and_type_index }
            },
            CpInfoType::ConstantInvokeDynamic {
                bootstrap_method_attr_index,
                name_and_type_index,
            } => {
                CpInfoTypeV::ConstantInvokeDynamic {
                    bootstrap_method_attr_index,
                    name_and_type_index,
                }
            },
            CpInfoType::ConstantModule { name_index } => CpInfoTypeV::ConstantModule { name_index },
            CpInfoType::ConstantPackage { name_index } => CpInfoTypeV::ConstantPackage {
                name_index,
            },
        }
    }
}

} // verus!
