//! The decoded class-file structure.
//!
//! A `ClassFile` is the aggregate root produced by the parser: header
//! values, the ordered 1-indexed constant pool (index 0 is never
//! materialized, so the pool holds `constant_pool_count - 1` entries, and
//! every entry occupies exactly one index, 64-bit constants included),
//! access flags, class references, interfaces, fields, methods, and
//! top-level attributes.  The structure is built once by the parser and
//! only read afterwards.

use vstd::prelude::*;

use crate::attrinfo::AttributeInfo;
use crate::attrinfo::AttributeInfoV;
use crate::attrinfo::attributes_view;
use crate::cpinfo::CpInfoType;
use crate::cpinfo::CpInfoTypeV;

verus! {

/// One constant-pool entry: its tag byte and the tag-specific payload.
#[derive(Debug)]
pub struct CpInfo {
    pub tag: u8,
    pub info: CpInfoType,
}

/// Model of a `CpInfo`.
#[verifier::ext_equal]
pub struct CpInfoV {
    pub tag: u8,
    pub info: CpInfoTypeV,
}

impl View for CpInfo {
    type V = CpInfoV;

    open spec fn view(&self) -> CpInfoV {
        CpInfoV { tag: self.tag, info: self.info@ }
    }
}

/// Model of a sequence of constant-pool entries.
pub open spec fn cp_infos_view(s: Seq<CpInfo>) -> Seq<CpInfoV> {
    s.map_values(|c: CpInfo| c@)
}

/// One field record: flags, name and descriptor indices, attributes.
#[derive(Debug)]
pub struct FieldInfo {
    pub access_flags: u16,
    pub name_index: u16,
    pub descriptor_index: u16,
    pub attributes_count: u16,
    pub attributes: Vec<AttributeInfo>,
}

/// Model of a `FieldInfo`.
#[verifier::ext_equal]
pub struct FieldInfoV {
    pub access_flags: u16,
    pub name_index: u16,
    pub descriptor_index: u16,
    pub attributes_count: u16,
    pub attributes: Seq<AttributeInfoV>,
}

impl View for FieldInfo {
    type V = FieldInfoV;

    open spec fn view(&self) -> FieldInfoV {
        FieldInfoV {
            access_flags: self.access_flags,
            name_index: self.name_index,
            descriptor_index: self.descriptor_index,
            attributes_count: self.attributes_count,
            attributes: attributes_view(self.attributes@),
        }
    }
}

/// Model of a sequence of field records.
pub open spec fn field_infos_view(s: Seq<FieldInfo>) -> Seq<FieldInfoV> {
    s.map_values(|f: FieldInfo| f@)
}

/// One method record: same shape as a field record.
#[derive(Debug)]
pub struct MethodInfo {
    pub access_flags: u16,
    pub name_index: u16,
    pub descriptor_index: u16,
    pub attributes_count: u16,
    pub attributes: Vec<AttributeInfo>,
}

/// Model of a `MethodInfo`.
#[verifier::ext_equal]
pub struct MethodInfoV {
    pub access_flags: u16,
    pub name_index: u16,
    pub descriptor_index: u16,
    pub attributes_count: u16,
    pub attributes: Seq<AttributeInfoV>,
}

impl View for MethodInfo {
    type V = MethodInfoV;

    open spec fn view(&self) -> MethodInfoV {
        MethodInfoV {
            access_flags: self.access_flags,
            name_index: self.name_index,
            descriptor_index: self.descriptor_index,
            attributes_count: self.attributes_count,
            attributes: attributes_view(self.attributes@),
        }
    }
}

/// Model of a sequence of method records.
pub open spec fn method_infos_view(s: Seq<MethodInfo>) -> Seq<MethodInfoV> {
    s.map_values(|m: MethodInfo| m@)
}

/// The decoded class file.
#[derive(Debug)]
pub struct ClassFile {
    pub magic: u32,
    pub minor_version: u16,
    pub major_version: u16,
    pub constant_pool_count: u16,
    pub constant_pool: Vec<CpInfo>,
    pub access_flags: u16,
    pub this_class: u16,
    pub super_class: u16,
    pub interfaces_count: u16,
    pub interfaces: Vec<u16>,
    pub fields_count: u16,
    pub fields: Vec<FieldInfo>,
    pub methods_count: u16,
    pub methods: Vec<MethodInfo>,
    pub attributes_count: u16,
    pub attributes: Vec<AttributeInfo>,
}

/// Model of a `ClassFile`.
#[verifier::ext_equal]
pub struct ClassFileV {
    pub magic: u32,
    pub minor_version: u16,
    pub major_version: u16,
    pub constant_pool_count: u16,
    pub constant_pool: Seq<CpInfoV>,
    pub access_flags: u16,
    pub this_class: u16,
    pub super_class: u16,
    pub interfaces_count: u16,
    pub interfaces: Seq<u16>,
    pub fields_count: u16,
    pub fields: Seq<FieldInfoV>,
    pub methods_count: u16,
    pub methods: Seq<MethodInfoV>,
    pub attributes_count: u16,
    pub attributes: Seq<AttributeInfoV>,
}

impl View for ClassFile {
    type V = ClassFileV;

    open spec fn view(&self) -> ClassFileV {
        ClassFileV {
            magic: self.magic,
            minor_version: self.minor_version,
            major_version: self.major_version,
            constant_pool_count: self.constant_pool_count,
            constant_pool: cp_infos_view(self.constant_pool@),
            access_flags: self.access_flags,
            this_class: self.this_class,
            super_class: self.super_class,
            interfaces_count: self.interfaces_count,
            interfaces: self.interfaces@,
            fields_count: self.fields_count,
            fields: field_infos_view(self.fields@),
            methods_count: self.methods_count,
            methods: method_infos_view(self.methods@),
            attributes_count: self.attributes_count,
            attributes: attributes_view(self.attributes@),
        }
    }
}

/// Looks one entry up in a modeled constant pool by its 1-based index;
/// index 0 and indices past the pool resolve to nothing.
pub open spec fn cp_entry(pool: Seq<CpInfoV>, index: u16) -> Option<CpInfoV> {
    if 1 <= index && index as int <= pool.len() {
        Some(pool[index as int - 1])
    } else {
        None
    }
}

/// Retrieval over a 1-indexed constant pool.
pub trait RetrievalApiVector {
    /// Hands out the element at the given 1-based index, or nothing when
    /// the index is 0 or past the end.
    fn element_at(&self, index: u16) -> Option<&CpInfo>;
}

impl RetrievalApiVector for Vec<CpInfo> {
    fn element_at(&self, index: u16) -> (r: Option<&CpInfo>)
        ensures
            match r {
                Some(c) => cp_entry(cp_infos_view(self@), index) == Some(c@),
                None => cp_entry(cp_infos_view(self@), index) is None,
            },
    {
        if index >= 1 && (index as usize) <= self.len() {
            let entry = &self[(index - 1) as usize];
            proof {
                assert(cp_infos_view(self@)[index as int - 1] == self@[index as int - 1]@);
            }
            Some(entry)
        } else {
            None
        }
    }
}

} // verus!
