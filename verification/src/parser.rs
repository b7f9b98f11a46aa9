//! The class-file decoder.
//!
//! The decoder is specified twice: a family of `sp_*` spec functions gives
//! the mathematical meaning of decoding at a position of a byte sequence
//! (each returns the decoded model value and the position after it, or the
//! decode error), and the executable `ClassFileParser` is proved to return
//! exactly what the corresponding spec function says.  Decoding is therefore
//! a pure function of the input bytes: same bytes, same structure or same
//! failure.
//!
//! Every read is bounds-checked; running past the end of the buffer is the
//! `UnexpectedEndOfInput` failure, never a panic.  Recursive payloads
//! (nested attribute lists, nested annotations) are bounded by an explicit
//! nesting limit as a hardening measure; the limit is far beyond what the
//! format's own rules can produce.

use vstd::prelude::*;
use vstd::slice::slice_to_vec;

use crate::classfile::ClassFile;
use crate::classfile::ClassFileV;
use crate::classfile::CpInfo;
use crate::classfile::CpInfoV;
use crate::classfile::cp_infos_view;
use crate::cpinfo::CpInfoType;
use crate::cpinfo::CpInfoTypeV;
use crate::attrinfo::AttributeInfo;
use crate::attrinfo::AttributeInfoType;
use crate::attrinfo::AttributeInfoV;
use crate::attrinfo::AttributeInfoTypeV;
use crate::attrinfo::Annotation;
use crate::attrinfo::AnnotationV;
use crate::attrinfo::BootstrapMethod;
use crate::attrinfo::BootstrapMethodV;
use crate::attrinfo::CodeAttributeExceptionTableEntry;
use crate::attrinfo::ElementValue;
use crate::attrinfo::ElementValueV;
use crate::attrinfo::ElementValuePair;
use crate::attrinfo::ElementValuePairV;
use crate::attrinfo::ElementValueValue;
use crate::attrinfo::ElementValueValueV;
use crate::attrinfo::InnerClass;
use crate::attrinfo::LineNumber;
use crate::attrinfo::LocalVariable;
use crate::attrinfo::LocalVariableType;
use crate::attrinfo::MethodParameter;
use crate::attrinfo::ModuleExport;
use crate::attrinfo::ModuleExportV;
use crate::attrinfo::ModuleOpen;
use crate::attrinfo::ModuleOpenV;
use crate::attrinfo::ModuleProvide;
use crate::attrinfo::ModuleProvideV;
use crate::attrinfo::ModuleRequire;
use crate::attrinfo::ParameterAnnotation;
use crate::attrinfo::ParameterAnnotationV;
use crate::attrinfo::RecordComponentInfo;
use crate::attrinfo::RecordComponentInfoV;
use crate::attrinfo::TypeAnnotation;
use crate::attrinfo::TypeAnnotationV;
use crate::attrinfo::TypeAnnotationLocalVarTargetTableEntry;
use crate::attrinfo::TypeAnnotationTargetInfo;
use crate::attrinfo::TypeAnnotationTargetInfoV;
use crate::attrinfo::TypeAnnotationTypePath;
use crate::attrinfo::TypeAnnotationTypePathV;
use crate::attrinfo::TypeAnnotationTypePathSegment;
use crate::attrinfo::annotations_view;
use crate::attrinfo::attributes_view;
use crate::attrinfo::bootstrap_methods_view;
use crate::attrinfo::element_value_pairs_view;
use crate::attrinfo::element_values_view;
use crate::attrinfo::module_exports_view;
use crate::attrinfo::module_opens_view;
use crate::attrinfo::module_provides_view;
use crate::attrinfo::parameter_annotations_view;
use crate::attrinfo::record_components_view;
use crate::attrinfo::type_annotations_view;
use crate::attrnames::AttrKind;
use crate::attrnames::attr_kind;
use crate::attrnames::sp_attr_kind;
use crate::classfile::FieldInfo;
use crate::classfile::FieldInfoV;
use crate::classfile::MethodInfo;
use crate::classfile::MethodInfoV;
use crate::classfile::RetrievalApiVector;
use crate::classfile::cp_entry;
use crate::classfile::field_infos_view;
use crate::classfile::method_infos_view;
use crate::smtattr::StackMapFrame;
use crate::smtattr::StackMapFrameV;
use crate::smtattr::VerificationTypeInfo;
use crate::smtattr::stack_map_frames_view;

verus! {

broadcast use crate::attrinfo::group_view_lemmas;

/// A decode failure; any failure aborts the whole parse.
#[derive(Debug, PartialEq, Eq, Structural, Clone, Copy)]
pub enum ParseError {
    /// The first four bytes are not the fixed magic number.
    InvalidMagic,
    /// The buffer ended before the data a declared count or width demanded.
    UnexpectedEndOfInput,
    /// A constant-pool entry carries a tag outside the defined set.
    UnknownConstantPoolTag,
    /// An attribute name index is out of the pool's range.
    InvalidConstantPoolIndex,
    /// An attribute name resolves to no known attribute shape.
    UnknownAttributeName,
    /// A stack-map frame type falls in the reserved range.
    UnknownStackMapFrameType,
    /// A verification-type tag is outside the defined range.
    UnknownVerificationTypeTag,
    /// An element-value tag is none of the defined tag characters.
    UnknownElementValueTag,
    /// A type-annotation target type matches no defined target shape.
    UnknownTypeAnnotationTargetType,
    /// Nesting deeper than the hardening limit allows.
    NestingLimitExceeded,
}

/// Result of a decode step.
pub type ParseResult<T> = Result<T, ParseError>;

/// How deep nested attribute lists and nested annotations may go.
pub const ATTRIBUTE_NESTING_LIMIT: u8 = 64;

/// The value of the big-endian 16-bit integer at `i`.
pub open spec fn u2v(s: Seq<u8>, i: int) -> u16 {
    (s[i] as int * 256 + s[i + 1] as int) as u16
}

/// The value of the big-endian 32-bit integer at `i`.
pub open spec fn u4v(s: Seq<u8>, i: int) -> u32 {
    (s[i] as int * 16777216 + s[i + 1] as int * 65536 + s[i + 2] as int * 256 + s[i + 3] as int)
        as u32
}

/// Decodes one byte.
pub open spec fn sp_u1(s: Seq<u8>, i: int) -> ParseResult<(u8, int)> {
    if i + 1 <= s.len() {
        Ok((s[i], i + 1))
    } else {
        Err(ParseError::UnexpectedEndOfInput)
    }
}

/// Decodes one big-endian 16-bit integer.
pub open spec fn sp_u2(s: Seq<u8>, i: int) -> ParseResult<(u16, int)> {
    if i + 2 <= s.len() {
        Ok((u2v(s, i), i + 2))
    } else {
        Err(ParseError::UnexpectedEndOfInput)
    }
}

/// Decodes one big-endian 32-bit integer.
pub open spec fn sp_u4(s: Seq<u8>, i: int) -> ParseResult<(u32, int)> {
    if i + 4 <= s.len() {
        Ok((u4v(s, i), i + 4))
    } else {
        Err(ParseError::UnexpectedEndOfInput)
    }
}

/// Decodes `n` raw bytes.
pub open spec fn sp_bytes(s: Seq<u8>, i: int, n: int) -> ParseResult<(Seq<u8>, int)> {
    if i + n <= s.len() {
        Ok((s.subrange(i, i + n), i + n))
    } else {
        Err(ParseError::UnexpectedEndOfInput)
    }
}

/// Prepends an already-decoded prefix to the rest of a list decode.
pub open spec fn sp_cont<T>(prefix: Seq<T>, r: ParseResult<(Seq<T>, int)>) -> ParseResult<
    (Seq<T>, int),
> {
    match r {
        Ok((v, end)) => Ok((prefix + v, end)),
        Err(e) => Err(e),
    }
}

/// An empty prefix changes nothing about a list decode.
pub proof fn lemma_cont_empty<T>(r: ParseResult<(Seq<T>, int)>)
    ensures
        sp_cont(Seq::<T>::empty(), r) == r,
{
    match r {
        Ok((v, end)) => {
            assert(Seq::<T>::empty() + v =~= v);
        },
        Err(_) => {},
    }
}

/// Moving one decoded element from the rest into the prefix keeps the
/// combined decode the same.
pub proof fn lemma_cont_step<T>(prefix: Seq<T>, v: T, r: ParseResult<(Seq<T>, int)>)
    ensures
        sp_cont(prefix, sp_cont(seq![v], r)) == sp_cont(prefix.push(v), r),
{
    match r {
        Ok((rest, end)) => {
            assert(prefix + (seq![v] + rest) =~= prefix.push(v) + rest);
        },
        Err(_) => {},
    }
}

/// A finished list decode combined with its prefix is just the prefix.
pub proof fn lemma_cont_nil<T>(prefix: Seq<T>, p: int)
    ensures
        sp_cont(prefix, Ok::<(Seq<T>, int), ParseError>((Seq::empty(), p))) == Ok::<
            (Seq<T>, int),
            ParseError,
        >((prefix, p)),
{
    assert(prefix + Seq::<T>::empty() =~= prefix);
}

/// Decodes `n` big-endian 16-bit integers.
pub open spec fn sp_u2_items(s: Seq<u8>, i: int, n: int) -> ParseResult<(Seq<u16>, int)>
    decreases n,
{
    if n <= 0 {
        Ok((Seq::empty(), i))
    } else {
        match sp_u2(s, i) {
            Err(e) => Err(e),
            Ok((v, j)) => sp_cont(seq![v], sp_u2_items(s, j, n - 1)),
        }
    }
}

/// Decodes one constant-pool entry: a tag byte and its payload.
pub open spec fn sp_cp_entry_at(s: Seq<u8>, i: int) -> ParseResult<(CpInfoV, int)> {
    match sp_u1(s, i) {
        Err(e) => Err(e),
        Ok((tag, j)) => match sp_cp_payload(s, j, tag) {
            Err(e) => Err(e),
            Ok((info, k)) => Ok((CpInfoV { tag, info }, k)),
        },
    }
}

/// Decodes the payload of a constant-pool entry with the given tag.
pub open spec fn sp_cp_payload(s: Seq<u8>, i: int, tag: u8) -> ParseResult<(CpInfoTypeV, int)> {
    if tag == 1 {
        match sp_u2(s, i) {
            Err(e) => Err(e),
            Ok((length, j)) => match sp_bytes(s, j, length as int) {
                Err(e) => Err(e),
                Ok((bytes, k)) => Ok((CpInfoTypeV::ConstantUtf8 { length, bytes }, k)),
            },
        }
    } else if tag == 3 {
        match sp_u4(s, i) {
            Err(e) => Err(e),
            Ok((bytes, j)) => Ok((CpInfoTypeV::ConstantInteger { bytes }, j)),
        }
    } else if tag == 4 {
        match sp_u4(s, i) {
            Err(e) => Err(e),
            Ok((bytes, j)) => Ok((CpInfoTypeV::ConstantFloat { bytes }, j)),
        }
    } else if tag == 5 {
        match sp_u4(s, i) {
            Err(e) => Err(e),
            Ok((high_bytes, j)) => match sp_u4(s, j) {
                Err(e) => Err(e),
                Ok((low_bytes, k)) => Ok((CpInfoTypeV::ConstantLong { high_bytes, low_bytes }, k)),
            },
        }
    } else if tag == 6 {
        match sp_u4(s, i) {
            Err(e) => Err(e),
            Ok((high_bytes, j)) => match sp_u4(s, j) {
                Err(e) => Err(e),
                Ok((low_bytes, k)) => Ok(
                    (CpInfoTypeV::ConstantDouble { high_bytes, low_bytes }, k),
                ),
            },
        }
    } else if tag == 7 {
        match sp_u2(s, i) {
            Err(e) => Err(e),
            Ok((name_index, j)) => Ok((CpInfoTypeV::ConstantClass { name_index }, j)),
        }
    } else if tag == 8 {
        match sp_u2(s, i) {
            Err(e) => Err(e),
            Ok((string_index, j)) => Ok((CpInfoTypeV::ConstantString { string_index }, j)),
        }
    } else if tag == 9 {
        match sp_u2(s, i) {
            Err(e) => Err(e),
            Ok((class_index, j)) => match sp_u2(s, j) {
                Err(e) => Err(e),
                Ok((name_and_type_index, k)) => Ok(
                    (CpInfoTypeV::ConstantFieldRef { class_index, name_and_type_index }, k),
                ),
            },
        }
    } else if tag == 10 {
        match sp_u2(s, i) {
            Err(e) => Err(e),
            Ok((class_index, j)) => match sp_u2(s, j) {
                Err(e) => Err(e),
                Ok((name_and_type_index, k)) => Ok(
                    (CpInfoTypeV::ConstantMethodRef { class_index, name_and_type_index }, k),
                ),
            },
        }
    } else if tag == 11 {
        match sp_u2(s, i) {
            Err(e) => Err(e),
            Ok((class_index, j)) => match sp_u2(s, j) {
                Err(e) => Err(e),
                Ok((name_and_type_index, k)) => Ok(
                    (
                        CpInfoTypeV::ConstantInterfaceMethodRef {
                            class_index,
                            name_and_type_index,
                        },
                        k,
                    ),
                ),
            },
        }
    } else if tag == 12 {
        match sp_u2(s, i) {
            Err(e) => Err(e),
            Ok((name_index, j)) => match sp_u2(s, j) {
                Err(e) => Err(e),
                Ok((descriptor_index, k)) => Ok(
                    (CpInfoTypeV::ConstantNameAndType { name_index, descriptor_index }, k),
                ),
            },
        }
    } else if tag == 15 {
        match sp_u1(s, i) {
            Err(e) => Err(e),
            Ok((reference_kind, j)) => match sp_u2(s, j) {
                Err(e) => Err(e),
                Ok((reference_index, k)) => Ok(
                    (CpInfoTypeV::ConstantMethodHandle { reference_kind, reference_index }, k),
                ),
            },
        }
    } else if tag == 16 {
        match sp_u2(s, i) {
            Err(e) => Err(e),
            Ok((descriptor_index, j)) => Ok((CpInfoTypeV::ConstantMethodType { descriptor_index }, j)),
        }
    } else if tag == 17 {
        match sp_u2(s, i) {
            Err(e) => Err(e),
            Ok((bootstrap_method_attr_index, j)) => match sp_u2(s, j) {
                Err(e) => Err(e),
                Ok((name_and_type_index, k)) => Ok(
                    (
                        CpInfoTypeV::ConstantDynamic {
                            bootstrap_method_attr_index,
                            name_and_type_index,
                        },
                        k,
                    ),
                ),
            },
        }
    } else if tag == 18 {
        match sp_u2(s, i) {
            Err(e) => Err(e),
            Ok((bootstrap_method_attr_index, j)) => match sp_u2(s, j) {
                Err(e) => Err(e),
                Ok((name_and_type_index, k)) => Ok(
                    (
                        CpInfoTypeV::ConstantInvokeDynamic {
                            bootstrap_method_attr_index,
                            name_and_type_index,
                        },
                        k,
                    ),
                ),
            },
        }
    } else if tag == 19 {
        match sp_u2(s, i) {
            Err(e) => Err(e),
            Ok((name_index, j)) => Ok((CpInfoTypeV::ConstantModule { name_index }, j)),
        }
    } else if tag == 20 {
        match sp_u2(s, i) {
            Err(e) => Err(e),
            Ok((name_index, j)) => Ok((CpInfoTypeV::ConstantPackage { name_index }, j)),
        }
    } else {
        Err(ParseError::UnknownConstantPoolTag)
    }
}

/// Decodes `n` constant-pool entries in sequence.
pub open spec fn sp_cp_items(s: Seq<u8>, i: int, n: int) -> ParseResult<(Seq<CpInfoV>, int)>
    decreases n,
{
    if n <= 0 {
        Ok((Seq::empty(), i))
    } else {
        match sp_cp_entry_at(s, i) {
            Err(e) => Err(e),
            Ok((entry, j)) => match sp_cp_items(s, j, n - 1) {
                Err(e) => Err(e),
                Ok((rest, k)) => Ok((seq![entry] + rest, k)),
            },
        }
    }
}

/// Decodes the whole constant pool given its declared count; a pool of
/// declared count `c` holds `c - 1` entries (and a count of 0 holds none).
pub open spec fn sp_constant_pool(s: Seq<u8>, i: int, count: u16) -> ParseResult<
    (Seq<CpInfoV>, int),
> {
    sp_cp_items(s, i, if count == 0 { 0int } else { count - 1 })
}

/// A forward-only, bounds-checked reader over the class-file bytes.
pub struct ClassFileParser {
    classfile: Vec<u8>,
    pos: usize,
}

impl ClassFileParser {
    /// The bytes being decoded.
    pub closed spec fn buf(&self) -> Seq<u8> {
        self.classfile@
    }

    /// The current read position.
    pub closed spec fn at(&self) -> int {
        self.pos as int
    }

    /// The reader never stands past the end of its buffer.
    pub closed spec fn wf(&self) -> bool {
        self.pos <= self.classfile.len()
    }

    /// Makes a parser over a copy of the given bytes, positioned at the start.
    pub fn new(classfile: &[u8]) -> (r: Self)
        ensures
            r.wf(),
            r.buf() == classfile@,
            r.at() == 0,
    {
        Self { classfile: slice_to_vec(classfile), pos: 0 }
    }

    /// Reads one byte.
    fn next_u1(&mut self) -> (r: ParseResult<u8>)
        requires
            old(self).wf(),
        ensures
            final(self).wf(),
            final(self).buf() == old(self).buf(),
            match sp_u1(old(self).buf(), old(self).at()) {
                Ok((v, p)) => r == Ok::<u8, ParseError>(v) && final(self).at() == p,
                Err(e) => r == Err::<u8, ParseError>(e),
            },
    {
        if self.pos < self.classfile.len() {
            let b = self.classfile[self.pos];
            self.pos = self.pos + 1;
            Ok(b)
        } else {
            Err(ParseError::UnexpectedEndOfInput)
        }
    }

    /// Reads one big-endian 16-bit integer.
    fn next_u2(&mut self) -> (r: ParseResult<u16>)
        requires
            old(self).wf(),
        ensures
            final(self).wf(),
            final(self).buf() == old(self).buf(),
            match sp_u2(old(self).buf(), old(self).at()) {
                Ok((v, p)) => r == Ok::<u16, ParseError>(v) && final(self).at() == p,
                Err(e) => r == Err::<u16, ParseError>(e),
            },
    {
        if self.classfile.len() - self.pos >= 2 {
            let b0 = self.classfile[self.pos];
            let b1 = self.classfile[self.pos + 1];
            self.pos = self.pos + 2;
            Ok((b0 as u16) * 256 + (b1 as u16))
        } else {
            Err(ParseError::UnexpectedEndOfInput)
        }
    }

    /// Reads one big-endian 32-bit integer.
    fn next_u4(&mut self) -> (r: ParseResult<u32>)
        requires
            old(self).wf(),
        ensures
            final(self).wf(),
            final(self).buf() == old(self).buf(),
            match sp_u4(old(self).buf(), old(self).at()) {
                Ok((v, p)) => r == Ok::<u32, ParseError>(v) && final(self).at() == p,
                Err(e) => r == Err::<u32, ParseError>(e),
            },
    {
        if self.classfile.len() - self.pos >= 4 {
            let b0 = self.classfile[self.pos];
            let b1 = self.classfile[self.pos + 1];
            let b2 = self.classfile[self.pos + 2];
            let b3 = self.classfile[self.pos + 3];
            self.pos = self.pos + 4;
            Ok((b0 as u32) * 16777216 + (b1 as u32) * 65536 + (b2 as u32) * 256 + (b3 as u32))
        } else {
            Err(ParseError::UnexpectedEndOfInput)
        }
    }

    /// Reads `len` raw bytes.
    fn next_u1_many(&mut self, len: usize) -> (r: ParseResult<Vec<u8>>)
        requires
            old(self).wf(),
        ensures
            final(self).wf(),
            final(self).buf() == old(self).buf(),
            match sp_bytes(old(self).buf(), old(self).at(), len as int) {
                Ok((v, p)) => r matches Ok(out) && out@ == v && final(self).at() == p,
                Err(e) => r == Err::<Vec<u8>, ParseError>(e),
            },
    {
        if self.classfile.len() - self.pos >= len {
            let out = slice_to_vec(
                vstd::slice::slice_subrange(self.classfile.as_slice(), self.pos, self.pos + len),
            );
            self.pos = self.pos + len;
            Ok(out)
        } else {
            Err(ParseError::UnexpectedEndOfInput)
        }
    }

    /// Reads `length` big-endian 16-bit integers.
    fn next_u2_many(&mut self, length: usize) -> (r: ParseResult<Vec<u16>>)
        requires
            old(self).wf(),
        ensures
            final(self).wf(),
            final(self).buf() == old(self).buf(),
            match sp_u2_items(old(self).buf(), old(self).at(), length as int) {
                Ok((v, p)) => r matches Ok(out) && out@ == v && final(self).at() == p,
                Err(e) => r == Err::<Vec<u16>, ParseError>(e),
            },
    {
        let ghost s = self.buf();
        let ghost i0 = self.at();
        let mut out: Vec<u16> = Vec::new();
        let mut k: usize = 0;
        proof {
            lemma_cont_empty(sp_u2_items(s, i0, length as int));
        }
        while k < length
            invariant
                self.wf(),
                self.buf() == s,
                s == old(self).buf(),
                i0 == old(self).at(),
                k <= length,
                out@.len() == k,
                sp_cont(out@, sp_u2_items(s, self.at(), length - k)) == sp_u2_items(
                    s,
                    i0,
                    length as int,
                ),
            decreases length - k,
        {
            let ghost pos_before = self.at();
            match self.next_u2() {
                Ok(v) => {
                    proof {
                        assert(sp_u2_items(s, pos_before, length - k) == sp_cont(
                            seq![v],
                            sp_u2_items(s, self.at(), length - k - 1),
                        ));
                        lemma_cont_step(out@, v, sp_u2_items(s, self.at(), length - k - 1));
                    }
                    out.push(v);
                    k = k + 1;
                },
                Err(e) => {
                    return Err(e);
                },
            }
        }
        proof {
            lemma_cont_nil(out@, self.at());
        }
        Ok(out)
    }

    /// Reads the magic number and rejects any value but the fixed one.
    fn parse_magic(&mut self) -> (r: ParseResult<u32>)
        requires
            old(self).wf(),
        ensures
            final(self).wf(),
            final(self).buf() == old(self).buf(),
            match sp_magic(old(self).buf(), old(self).at()) {
                Ok((v, p)) => r == Ok::<u32, ParseError>(v) && final(self).at() == p,
                Err(e) => r == Err::<u32, ParseError>(e),
            },
    {
        let output = self.next_u4()?;
        if output != 0xCAFEBABE {
            return Err(ParseError::InvalidMagic);
        }
        Ok(output)
    }

    /// Reads one constant-pool entry.
    fn parse_cp_entry(&mut self) -> (r: ParseResult<CpInfo>)
        requires
            old(self).wf(),
        ensures
            final(self).wf(),
            final(self).buf() == old(self).buf(),
            match sp_cp_entry_at(old(self).buf(), old(self).at()) {
                Ok((v, p)) => r matches Ok(c) && c@ == v && final(self).at() == p,
                Err(e) => r == Err::<CpInfo, ParseError>(e),
            },
    {
        let tag = self.next_u1()?;
        let info: CpInfoType = if tag == 1 {
            let length = self.next_u2()?;
            let bytes = self.next_u1_many(length as usize)?;
            CpInfoType::ConstantUtf8 { length, bytes }
        } else if tag == 3 {
            CpInfoType::ConstantInteger { bytes: self.next_u4()? }
        } else if tag == 4 {
            CpInfoType::ConstantFloat { bytes: self.next_u4()? }
        } else if tag == 5 {
            let high_bytes = self.next_u4()?;
            let low_bytes = self.next_u4()?;
            CpInfoType::ConstantLong { high_bytes, low_bytes }
        } else if tag == 6 {
            let high_bytes = self.next_u4()?;
            let low_bytes = self.next_u4()?;
            CpInfoType::ConstantDouble { high_bytes, low_bytes }
        } else if tag == 7 {
            CpInfoType::ConstantClass { name_index: self.next_u2()? }
        } else if tag == 8 {
            CpInfoType::ConstantString { string_index: self.next_u2()? }
        } else if tag == 9 {
            let class_index = self.next_u2()?;
            let name_and_type_index = self.next_u2()?;
            CpInfoType::ConstantFieldRef { class_index, name_and_type_index }
        } else if tag == 10 {
            let class_index = self.next_u2()?;
            let name_and_type_index = self.next_u2()?;
            CpInfoType::ConstantMethodRef { class_index, name_and_type_index }
        } else if tag == 11 {
            let class_index = self.next_u2()?;
            let name_and_type_index = self.next_u2()?;
            CpInfoType::ConstantInterfaceMethodRef { class_index, name_and_type_index }
        } else if tag == 12 {
            let name_index = self.next_u2()?;
            let descriptor_index = self.next_u2()?;
            CpInfoType::ConstantNameAndType { name_index, descriptor_index }
        } else if tag == 15 {
            let reference_kind = self.next_u1()?;
            let reference_index = self.next_u2()?;
            CpInfoType::ConstantMethodHandle { reference_kind, reference_index }
        } else if tag == 16 {
            CpInfoType::ConstantMethodType { descriptor_index: self.next_u2()? }
        } else if tag == 17 {
            let bootstrap_method_attr_index = self.next_u2()?;
            let name_and_type_index = self.next_u2()?;
            CpInfoType::ConstantDynamic { bootstrap_method_attr_index, name_and_type_index }
        } else if tag == 18 {
            let bootstrap_method_attr_index = self.next_u2()?;
            let name_and_type_index = self.next_u2()?;
            CpInfoType::ConstantInvokeDynamic { bootstrap_method_attr_index, name_and_type_index }
        } else if tag == 19 {
            CpInfoType::ConstantModule { name_index: self.next_u2()? }
        } else if tag == 20 {
            CpInfoType::ConstantPackage { name_index: self.next_u2()? }
        } else {
            return Err(ParseError::UnknownConstantPoolTag);
        };
        Ok(CpInfo { tag, info })
    }

    /// Reads the whole constant pool given its declared count.
    fn parse_constant_pool(&mut self, count: u16) -> (r: ParseResult<Vec<CpInfo>>)
        requires
            old(self).wf(),
        ensures
            final(self).wf(),
            final(self).buf() == old(self).buf(),
            match sp_constant_pool(old(self).buf(), old(self).at(), count) {
                Ok((v, p)) => r matches Ok(pool) && cp_infos_view(pool@) == v && final(self).at()
                    == p,
                Err(e) => r == Err::<Vec<CpInfo>, ParseError>(e),
            },
    {
        let ghost s = self.buf();
        let ghost i0 = self.at();
        let n: usize = if count == 0 {
            0
        } else {
            (count - 1) as usize
        };
        let mut pool: Vec<CpInfo> = Vec::new();
        let mut k: usize = 0;
        proof {
            lemma_cont_empty(sp_cp_items(s, i0, n as int));
            assert(cp_infos_view(pool@) =~= Seq::<CpInfoV>::empty());
        }
        while k < n
            invariant
                self.wf(),
                self.buf() == s,
                s == old(self).buf(),
                i0 == old(self).at(),
                n as int == (if count == 0 { 0int } else { count - 1 }),
                k <= n,
                pool@.len() == k,
                sp_cont(cp_infos_view(pool@), sp_cp_items(s, self.at(), n - k)) == sp_cp_items(
                    s,
                    i0,
                    n as int,
                ),
            decreases n - k,
        {
            let ghost pos_before = self.at();
            match self.parse_cp_entry() {
                Ok(entry) => {
                    proof {
                        assert(sp_cp_items(s, pos_before, n - k) == sp_cont(
                            seq![entry@],
                            sp_cp_items(s, self.at(), n - k - 1),
                        ));
                        lemma_cont_step(
                            cp_infos_view(pool@),
                            entry@,
                            sp_cp_items(s, self.at(), n - k - 1),
                        );
                        assert(cp_infos_view(pool@.push(entry)) =~= cp_infos_view(pool@).push(
                            entry@,
                        ));
                    }
                    pool.push(entry);
                    k = k + 1;
                },
                Err(e) => {
                    return Err(e);
                },
            }
        }
        proof {
            lemma_cont_nil(cp_infos_view(pool@), self.at());
        }
        Ok(pool)
    }

    /// Reads the interface index list.
    fn parse_interfaces(&mut self, count: u16) -> (r: ParseResult<Vec<u16>>)
        requires
            old(self).wf(),
        ensures
            final(self).wf(),
            final(self).buf() == old(self).buf(),
            match sp_u2_items(old(self).buf(), old(self).at(), count as int) {
                Ok((v, p)) => r matches Ok(out) && out@ == v && final(self).at() == p,
                Err(e) => r == Err::<Vec<u16>, ParseError>(e),
            },
    {
        self.next_u2_many(count as usize)
    }
}

/// Decodes the magic number, rejecting any value but `0xCAFEBABE`.
pub open spec fn sp_magic(s: Seq<u8>, i: int) -> ParseResult<(u32, int)> {
    match sp_u4(s, i) {
        Err(e) => Err(e),
        Ok((v, j)) => if v == 0xCAFEBABE {
            Ok((v, j))
        } else {
            Err(ParseError::InvalidMagic)
        },
    }
}



// ---- flat record decoders ----

/// Decodes one `CodeAttributeExceptionTableEntry` record.
pub open spec fn sp_exception_table_entry(s: Seq<u8>, i: int) -> ParseResult<(CodeAttributeExceptionTableEntry, int)> {
    match sp_u2(s, i) {
        Err(e) => Err(e),
        Ok((start_pc, j1)) => {
            match sp_u2(s, j1) {
                Err(e) => Err(e),
                Ok((end_pc, j2)) => {
                    match sp_u2(s, j2) {
                        Err(e) => Err(e),
                        Ok((handler_pc, j3)) => {
                            match sp_u2(s, j3) {
                                Err(e) => Err(e),
                                Ok((catch_type, j4)) => {
                                    Ok((CodeAttributeExceptionTableEntry { start_pc, end_pc, handler_pc, catch_type }, j4))
                                },
                            }
                        },
                    }
                },
            }
        },
    }
}

/// Decodes `n` `CodeAttributeExceptionTableEntry` records.
pub open spec fn sp_exception_table_entry_items(s: Seq<u8>, i: int, n: int) -> ParseResult<(Seq<CodeAttributeExceptionTableEntry>, int)>
    decreases n,
{
    if n <= 0 {
        Ok((Seq::empty(), i))
    } else {
        match sp_exception_table_entry(s, i) {
            Err(e) => Err(e),
            Ok((v, j)) => sp_cont(seq![v], sp_exception_table_entry_items(s, j, n - 1)),
        }
    }
}

/// Decodes one `InnerClass` record.
pub open spec fn sp_inner_class(s: Seq<u8>, i: int) -> ParseResult<(InnerClass, int)> {
    match sp_u2(s, i) {
        Err(e) => Err(e),
        Ok((inner_class_info_index, j1)) => {
            match sp_u2(s, j1) {
                Err(e) => Err(e),
                Ok((outer_class_info_index, j2)) => {
                    match sp_u2(s, j2) {
                        Err(e) => Err(e),
                        Ok((inner_name_index, j3)) => {
                            match sp_u2(s, j3) {
                                Err(e) => Err(e),
                                Ok((inner_class_access_flags, j4)) => {
                                    Ok((InnerClass { inner_class_info_index, outer_class_info_index, inner_name_index, inner_class_access_flags }, j4))
                                },
                            }
                        },
                    }
                },
            }
        },
    }
}

/// Decodes `n` `InnerClass` records.
pub open spec fn sp_inner_class_items(s: Seq<u8>, i: int, n: int) -> ParseResult<(Seq<InnerClass>, int)>
    decreases n,
{
    if n <= 0 {
        Ok((Seq::empty(), i))
    } else {
        match sp_inner_class(s, i) {
            Err(e) => Err(e),
            Ok((v, j)) => sp_cont(seq![v], sp_inner_class_items(s, j, n - 1)),
        }
    }
}

/// Decodes one `LineNumber` record.
pub open spec fn sp_line_number(s: Seq<u8>, i: int) -> ParseResult<(LineNumber, int)> {
    match sp_u2(s, i) {
        Err(e) => Err(e),
        Ok((start_pc, j1)) => {
            match sp_u2(s, j1) {
                Err(e) => Err(e),
                Ok((line_number, j2)) => {
                    Ok((LineNumber { start_pc, line_number }, j2))
                },
            }
        },
    }
}

/// Decodes `n` `LineNumber` records.
pub open spec fn sp_line_number_items(s: Seq<u8>, i: int, n: int) -> ParseResult<(Seq<LineNumber>, int)>
    decreases n,
{
    if n <= 0 {
        Ok((Seq::empty(), i))
    } else {
        match sp_line_number(s, i) {
            Err(e) => Err(e),
            Ok((v, j)) => sp_cont(seq![v], sp_line_number_items(s, j, n - 1)),
        }
    }
}

/// Decodes one `LocalVariable` record.
pub open spec fn sp_local_variable(s: Seq<u8>, i: int) -> ParseResult<(LocalVariable, int)> {
    match sp_u2(s, i) {
        Err(e) => Err(e),
        Ok((start_pc, j1)) => {
            match sp_u2(s, j1) {
                Err(e) => Err(e),
                Ok((length, j2)) => {
                    match sp_u2(s, j2) {
                        Err(e) => Err(e),
                        Ok((name_index, j3)) => {
                            match sp_u2(s, j3) {
                                Err(e) => Err(e),
                                Ok((descriptor_index, j4)) => {
                                    match sp_u2(s, j4) {
                                        Err(e) => Err(e),
                                        Ok((index, j5)) => {
                                            Ok((LocalVariable { start_pc, length, name_index, descriptor_index, index }, j5))
                                        },
                                    }
                                },
                            }
                        },
                    }
                },
            }
        },
    }
}

/// Decodes `n` `LocalVariable` records.
pub open spec fn sp_local_variable_items(s: Seq<u8>, i: int, n: int) -> ParseResult<(Seq<LocalVariable>, int)>
    decreases n,
{
    if n <= 0 {
        Ok((Seq::empty(), i))
    } else {
        match sp_local_variable(s, i) {
            Err(e) => Err(e),
            Ok((v, j)) => sp_cont(seq![v], sp_local_variable_items(s, j, n - 1)),
        }
    }
}

/// Decodes one `LocalVariableType` record.
pub open spec fn sp_local_variable_type(s: Seq<u8>, i: int) -> ParseResult<(LocalVariableType, int)> {
    match sp_u2(s, i) {
        Err(e) => Err(e),
        Ok((start_pc, j1)) => {
            match sp_u2(s, j1) {
                Err(e) => Err(e),
                Ok((length, j2)) => {
                    match sp_u2(s, j2) {
                        Err(e) => Err(e),
                        Ok((name_index, j3)) => {
                            match sp_u2(s, j3) {
                                Err(e) => Err(e),
                                Ok((signature_index, j4)) => {
                                    match sp_u2(s, j4) {
                                        Err(e) => Err(e),
                                        Ok((index, j5)) => {
                                            Ok((LocalVariableType { start_pc, length, name_index, signature_index, index }, j5))
                                        },
                                    }
                                },
                            }
                        },
                    }
                },
            }
        },
    }
}

/// Decodes `n` `LocalVariableType` records.
pub open spec fn sp_local_variable_type_items(s: Seq<u8>, i: int, n: int) -> ParseResult<(Seq<LocalVariableType>, int)>
    decreases n,
{
    if n <= 0 {
        Ok((Seq::empty(), i))
    } else {
        match sp_local_variable_type(s, i) {
            Err(e) => Err(e),
            Ok((v, j)) => sp_cont(seq![v], sp_local_variable_type_items(s, j, n - 1)),
        }
    }
}

/// Decodes one `MethodParameter` record.
pub open spec fn sp_method_parameter(s: Seq<u8>, i: int) -> ParseResult<(MethodParameter, int)> {
    match sp_u2(s, i) {
        Err(e) => Err(e),
        Ok((name_index, j1)) => {
            match sp_u2(s, j1) {
                Err(e) => Err(e),
                Ok((access_flags, j2)) => {
                    Ok((MethodParameter { name_index, access_flags }, j2))
                },
            }
        },
    }
}

/// Decodes `n` `MethodParameter` records.
pub open spec fn sp_method_parameter_items(s: Seq<u8>, i: int, n: int) -> ParseResult<(Seq<MethodParameter>, int)>
    decreases n,
{
    if n <= 0 {
        Ok((Seq::empty(), i))
    } else {
        match sp_method_parameter(s, i) {
            Err(e) => Err(e),
            Ok((v, j)) => sp_cont(seq![v], sp_method_parameter_items(s, j, n - 1)),
        }
    }
}

/// Decodes one `ModuleRequire` record.
pub open spec fn sp_module_require(s: Seq<u8>, i: int) -> ParseResult<(ModuleRequire, int)> {
    match sp_u2(s, i) {
        Err(e) => Err(e),
        Ok((requires_index, j1)) => {
            match sp_u2(s, j1) {
                Err(e) => Err(e),
                Ok((requires_flags, j2)) => {
                    match sp_u2(s, j2) {
                        Err(e) => Err(e),
                        Ok((requires_version_index, j3)) => {
                            Ok((ModuleRequire { requires_index, requires_flags, requires_version_index }, j3))
                        },
                    }
                },
            }
        },
    }
}

/// Decodes `n` `ModuleRequire` records.
pub open spec fn sp_module_require_items(s: Seq<u8>, i: int, n: int) -> ParseResult<(Seq<ModuleRequire>, int)>
    decreases n,
{
    if n <= 0 {
        Ok((Seq::empty(), i))
    } else {
        match sp_module_require(s, i) {
            Err(e) => Err(e),
            Ok((v, j)) => sp_cont(seq![v], sp_module_require_items(s, j, n - 1)),
        }
    }
}

/// Decodes one `ModuleExport` record.
pub open spec fn sp_module_export(s: Seq<u8>, i: int) -> ParseResult<(ModuleExportV, int)> {
    match sp_u2(s, i) {
        Err(e) => Err(e),
        Ok((exports_index, j1)) => {
            match sp_u2(s, j1) {
                Err(e) => Err(e),
                Ok((exports_flags, j2)) => {
                    match sp_u2(s, j2) {
                        Err(e) => Err(e),
                        Ok((exports_to_count, j3)) => {
                            match sp_u2_items(s, j3, exports_to_count as int) {
                                Err(e) => Err(e),
                                Ok((exports_to_index, j4)) => {
                                    Ok((ModuleExportV { exports_index, exports_flags, exports_to_count, exports_to_index }, j4))
                                },
                            }
                        },
                    }
                },
            }
        },
    }
}

/// Decodes `n` `ModuleExport` records.
pub open spec fn sp_module_export_items(s: Seq<u8>, i: int, n: int) -> ParseResult<(Seq<ModuleExportV>, int)>
    decreases n,
{
    if n <= 0 {
        Ok((Seq::empty(), i))
    } else {
        match sp_module_export(s, i) {
            Err(e) => Err(e),
            Ok((v, j)) => sp_cont(seq![v], sp_module_export_items(s, j, n - 1)),
        }
    }
}

/// Decodes one `ModuleOpen` record.
pub open spec fn sp_module_open(s: Seq<u8>, i: int) -> ParseResult<(ModuleOpenV, int)> {
    match sp_u2(s, i) {
        Err(e) => Err(e),
        Ok((opens_index, j1)) => {
            match sp_u2(s, j1) {
                Err(e) => Err(e),
                Ok((opens_flags, j2)) => {
                    match sp_u2(s, j2) {
                        Err(e) => Err(e),
                        Ok((opens_to_count, j3)) => {
                            match sp_u2_items(s, j3, opens_to_count as int) {
                                Err(e) => Err(e),
                                Ok((opens_to_index, j4)) => {
                                    Ok((ModuleOpenV { opens_index, opens_flags, opens_to_count, opens_to_index }, j4))
                                },
                            }
                        },
                    }
                },
            }
        },
    }
}

/// Decodes `n` `ModuleOpen` records.
pub open spec fn sp_module_open_items(s: Seq<u8>, i: int, n: int) -> ParseResult<(Seq<ModuleOpenV>, int)>
    decreases n,
{
    if n <= 0 {
        Ok((Seq::empty(), i))
    } else {
        match sp_module_open(s, i) {
            Err(e) => Err(e),
            Ok((v, j)) => sp_cont(seq![v], sp_module_open_items(s, j, n - 1)),
        }
    }
}

/// Decodes one `ModuleProvide` record.
pub open spec fn sp_module_provide(s: Seq<u8>, i: int) -> ParseResult<(ModuleProvideV, int)> {
    match sp_u2(s, i) {
        Err(e) => Err(e),
        Ok((provides_index, j1)) => {
            match sp_u2(s, j1) {
                Err(e) => Err(e),
                Ok((provides_with_count, j2)) => {
                    match sp_u2_items(s, j2, provides_with_count as int) {
                        Err(e) => Err(e),
                        Ok((provides_with_index, j3)) => {
                            Ok((ModuleProvideV { provides_index, provides_with_count, provides_with_index }, j3))
                        },
                    }
                },
            }
        },
    }
}

/// Decodes `n` `ModuleProvide` records.
pub open spec fn sp_module_provide_items(s: Seq<u8>, i: int, n: int) -> ParseResult<(Seq<ModuleProvideV>, int)>
    decreases n,
{
    if n <= 0 {
        Ok((Seq::empty(), i))
    } else {
        match sp_module_provide(s, i) {
            Err(e) => Err(e),
            Ok((v, j)) => sp_cont(seq![v], sp_module_provide_items(s, j, n - 1)),
        }
    }
}

/// Decodes one `BootstrapMethod` record.
pub open spec fn sp_bootstrap_method(s: Seq<u8>, i: int) -> ParseResult<(BootstrapMethodV, int)> {
    match sp_u2(s, i) {
        Err(e) => Err(e),
        Ok((num_bootstrap_arguments, j1)) => {
            match sp_u2(s, j1) {
                Err(e) => Err(e),
                Ok((bootstrap_method_ref, j2)) => {
                    match sp_u2_items(s, j2, num_bootstrap_arguments as int) {
                        Err(e) => Err(e),
                        Ok((bootstrap_arguments, j3)) => {
                            Ok((BootstrapMethodV { bootstrap_method_ref, num_bootstrap_arguments, bootstrap_arguments }, j3))
                        },
                    }
                },
            }
        },
    }
}

/// Decodes `n` `BootstrapMethod` records.
pub open spec fn sp_bootstrap_method_items(s: Seq<u8>, i: int, n: int) -> ParseResult<(Seq<BootstrapMethodV>, int)>
    decreases n,
{
    if n <= 0 {
        Ok((Seq::empty(), i))
    } else {
        match sp_bootstrap_method(s, i) {
            Err(e) => Err(e),
            Ok((v, j)) => sp_cont(seq![v], sp_bootstrap_method_items(s, j, n - 1)),
        }
    }
}

/// Decodes one `TypeAnnotationLocalVarTargetTableEntry` record.
pub open spec fn sp_local_var_target_entry(s: Seq<u8>, i: int) -> ParseResult<(TypeAnnotationLocalVarTargetTableEntry, int)> {
    match sp_u2(s, i) {
        Err(e) => Err(e),
        Ok((start_pc, j1)) => {
            match sp_u2(s, j1) {
                Err(e) => Err(e),
                Ok((length, j2)) => {
                    match sp_u2(s, j2) {
                        Err(e) => Err(e),
                        Ok((index, j3)) => {
                            Ok((TypeAnnotationLocalVarTargetTableEntry { start_pc, length, index }, j3))
                        },
                    }
                },
            }
        },
    }
}

/// Decodes `n` `TypeAnnotationLocalVarTargetTableEntry` records.
pub open spec fn sp_local_var_target_entry_items(s: Seq<u8>, i: int, n: int) -> ParseResult<(Seq<TypeAnnotationLocalVarTargetTableEntry>, int)>
    decreases n,
{
    if n <= 0 {
        Ok((Seq::empty(), i))
    } else {
        match sp_local_var_target_entry(s, i) {
            Err(e) => Err(e),
            Ok((v, j)) => sp_cont(seq![v], sp_local_var_target_entry_items(s, j, n - 1)),
        }
    }
}

/// Decodes one `TypeAnnotationTypePathSegment` record.
pub open spec fn sp_type_path_segment(s: Seq<u8>, i: int) -> ParseResult<(TypeAnnotationTypePathSegment, int)> {
    match sp_u1(s, i) {
        Err(e) => Err(e),
        Ok((type_path_kind, j1)) => {
            match sp_u1(s, j1) {
                Err(e) => Err(e),
                Ok((type_argument_index, j2)) => {
                    Ok((TypeAnnotationTypePathSegment { type_path_kind, type_argument_index }, j2))
                },
            }
        },
    }
}

/// Decodes `n` `TypeAnnotationTypePathSegment` records.
pub open spec fn sp_type_path_segment_items(s: Seq<u8>, i: int, n: int) -> ParseResult<(Seq<TypeAnnotationTypePathSegment>, int)>
    decreases n,
{
    if n <= 0 {
        Ok((Seq::empty(), i))
    } else {
        match sp_type_path_segment(s, i) {
            Err(e) => Err(e),
            Ok((v, j)) => sp_cont(seq![v], sp_type_path_segment_items(s, j, n - 1)),
        }
    }
}

impl ClassFileParser {
    /// Reads one `CodeAttributeExceptionTableEntry` record.
    fn parse_exception_table_entry(&mut self) -> (r: ParseResult<CodeAttributeExceptionTableEntry>)
        requires
            old(self).wf(),
        ensures
            final(self).wf(),
            final(self).buf() == old(self).buf(),
            match sp_exception_table_entry(old(self).buf(), old(self).at()) {
                Ok((v, p)) => r matches Ok(c) && c == v && final(self).at() == p,
                Err(e) => r == Err::<CodeAttributeExceptionTableEntry, ParseError>(e),
            },
    {
        let start_pc = self.next_u2()?;
        let end_pc = self.next_u2()?;
        let handler_pc = self.next_u2()?;
        let catch_type = self.next_u2()?;
        Ok(CodeAttributeExceptionTableEntry { start_pc, end_pc, handler_pc, catch_type })
    }

    /// Reads `count` `CodeAttributeExceptionTableEntry` records.
    fn parse_exception_table(&mut self, count: u16) -> (r: ParseResult<Vec<CodeAttributeExceptionTableEntry>>)
        requires
            old(self).wf(),
        ensures
            final(self).wf(),
            final(self).buf() == old(self).buf(),
            match sp_exception_table_entry_items(old(self).buf(), old(self).at(), count as int) {
                Ok((v, p)) => r matches Ok(out) && out@ == v && final(self).at() == p,
                Err(e) => r == Err::<Vec<CodeAttributeExceptionTableEntry>, ParseError>(e),
            },
    {
        let ghost s = self.buf();
        let ghost i0 = self.at();
        let n: usize = count as usize;
        let mut out: Vec<CodeAttributeExceptionTableEntry> = Vec::new();
        let mut k: usize = 0;
        proof {
            lemma_cont_empty(sp_exception_table_entry_items(s, i0, n as int));
        }
        while k < n
            invariant
                self.wf(),
                self.buf() == s,
                s == old(self).buf(),
                i0 == old(self).at(),
                n == count as usize,
                k <= n,
                out@.len() == k,
                sp_cont(out@, sp_exception_table_entry_items(s, self.at(), n - k)) == sp_exception_table_entry_items(
                    s,
                    i0,
                    n as int,
                ),
            decreases n - k,
        {
            let ghost pos_before = self.at();
            match self.parse_exception_table_entry() {
                Ok(item) => {
                    proof {
                        assert(sp_exception_table_entry_items(s, pos_before, n - k) == sp_cont(
                            seq![item],
                            sp_exception_table_entry_items(s, self.at(), n - k - 1),
                        ));
                        lemma_cont_step(out@, item, sp_exception_table_entry_items(s, self.at(), n - k - 1));
                    }
                    out.push(item);
                    k = k + 1;
                },
                Err(e) => {
                    return Err(e);
                },
            }
        }
        proof {
            lemma_cont_nil(out@, self.at());
        }
        Ok(out)
    }

    /// Reads one `InnerClass` record.
    fn parse_inner_class(&mut self) -> (r: ParseResult<InnerClass>)
        requires
            old(self).wf(),
        ensures
            final(self).wf(),
            final(self).buf() == old(self).buf(),
            match sp_inner_class(old(self).buf(), old(self).at()) {
                Ok((v, p)) => r matches Ok(c) && c == v && final(self).at() == p,
                Err(e) => r == Err::<InnerClass, ParseError>(e),
            },
    {
        let inner_class_info_index = self.next_u2()?;
        let outer_class_info_index = self.next_u2()?;
        let inner_name_index = self.next_u2()?;
        let inner_class_access_flags = self.next_u2()?;
        Ok(InnerClass { inner_class_info_index, outer_class_info_index, inner_name_index, inner_class_access_flags })
    }

    /// Reads `count` `InnerClass` records.
    fn parse_inner_classes(&mut self, count: u16) -> (r: ParseResult<Vec<InnerClass>>)
        requires
            old(self).wf(),
        ensures
            final(self).wf(),
            final(self).buf() == old(self).buf(),
            match sp_inner_class_items(old(self).buf(), old(self).at(), count as int) {
                Ok((v, p)) => r matches Ok(out) && out@ == v && final(self).at() == p,
                Err(e) => r == Err::<Vec<InnerClass>, ParseError>(e),
            },
    {
        let ghost s = self.buf();
        let ghost i0 = self.at();
        let n: usize = count as usize;
        let mut out: Vec<InnerClass> = Vec::new();
        let mut k: usize = 0;
        proof {
            lemma_cont_empty(sp_inner_class_items(s, i0, n as int));
        }
        while k < n
            invariant
                self.wf(),
                self.buf() == s,
                s == old(self).buf(),
                i0 == old(self).at(),
                n == count as usize,
                k <= n,
                out@.len() == k,
                sp_cont(out@, sp_inner_class_items(s, self.at(), n - k)) == sp_inner_class_items(
                    s,
                    i0,
                    n as int,
                ),
            decreases n - k,
        {
            let ghost pos_before = self.at();
            match self.parse_inner_class() {
                Ok(item) => {
                    proof {
                        assert(sp_inner_class_items(s, pos_before, n - k) == sp_cont(
                            seq![item],
                            sp_inner_class_items(s, self.at(), n - k - 1),
                        ));
                        lemma_cont_step(out@, item, sp_inner_class_items(s, self.at(), n - k - 1));
                    }
                    out.push(item);
                    k = k + 1;
                },
                Err(e) => {
                    return Err(e);
                },
            }
        }
        proof {
            lemma_cont_nil(out@, self.at());
        }
        Ok(out)
    }

    /// Reads one `LineNumber` record.
    fn parse_line_number(&mut self) -> (r: ParseResult<LineNumber>)
        requires
            old(self).wf(),
        ensures
            final(self).wf(),
            final(self).buf() == old(self).buf(),
            match sp_line_number(old(self).buf(), old(self).at()) {
                Ok((v, p)) => r matches Ok(c) && c == v && final(self).at() == p,
                Err(e) => r == Err::<LineNumber, ParseError>(e),
            },
    {
        let start_pc = self.next_u2()?;
        let line_number = self.next_u2()?;
        Ok(LineNumber { start_pc, line_number })
    }

    /// Reads `count` `LineNumber` records.
    fn parse_line_number_table(&mut self, count: u16) -> (r: ParseResult<Vec<LineNumber>>)
        requires
            old(self).wf(),
        ensures
            final(self).wf(),
            final(self).buf() == old(self).buf(),
            match sp_line_number_items(old(self).buf(), old(self).at(), count as int) {
                Ok((v, p)) => r matches Ok(out) && out@ == v && final(self).at() == p,
                Err(e) => r == Err::<Vec<LineNumber>, ParseError>(e),
            },
    {
        let ghost s = self.buf();
        let ghost i0 = self.at();
        let n: usize = count as usize;
        let mut out: Vec<LineNumber> = Vec::new();
        let mut k: usize = 0;
        proof {
            lemma_cont_empty(sp_line_number_items(s, i0, n as int));
        }
        while k < n
            invariant
                self.wf(),
                self.buf() == s,
                s == old(self).buf(),
                i0 == old(self).at(),
                n == count as usize,
                k <= n,
                out@.len() == k,
                sp_cont(out@, sp_line_number_items(s, self.at(), n - k)) == sp_line_number_items(
                    s,
                    i0,
                    n as int,
                ),
            decreases n - k,
        {
            let ghost pos_before = self.at();
            match self.parse_line_number() {
                Ok(item) => {
                    proof {
                        assert(sp_line_number_items(s, pos_before, n - k) == sp_cont(
                            seq![item],
                            sp_line_number_items(s, self.at(), n - k - 1),
                        ));
                        lemma_cont_step(out@, item, sp_line_number_items(s, self.at(), n - k - 1));
                    }
                    out.push(item);
                    k = k + 1;
                },
                Err(e) => {
                    return Err(e);
                },
            }
        }
        proof {
            lemma_cont_nil(out@, self.at());
        }
        Ok(out)
    }

    /// Reads one `LocalVariable` record.
    fn parse_local_variable(&mut self) -> (r: ParseResult<LocalVariable>)
        requires
            old(self).wf(),
        ensures
            final(self).wf(),
            final(self).buf() == old(self).buf(),
            match sp_local_variable(old(self).buf(), old(self).at()) {
                Ok((v, p)) => r matches Ok(c) && c == v && final(self).at() == p,
                Err(e) => r == Err::<LocalVariable, ParseError>(e),
            },
    {
        let start_pc = self.next_u2()?;
        let length = self.next_u2()?;
        let name_index = self.next_u2()?;
        let descriptor_index = self.next_u2()?;
        let index = self.next_u2()?;
        Ok(LocalVariable { start_pc, length, name_index, descriptor_index, index })
    }

    /// Reads `count` `LocalVariable` records.
    fn parse_local_variable_table(&mut self, count: u16) -> (r: ParseResult<Vec<LocalVariable>>)
        requires
            old(self).wf(),
        ensures
            final(self).wf(),
            final(self).buf() == old(self).buf(),
            match sp_local_variable_items(old(self).buf(), old(self).at(), count as int) {
                Ok((v, p)) => r matches Ok(out) && out@ == v && final(self).at() == p,
                Err(e) => r == Err::<Vec<LocalVariable>, ParseError>(e),
            },
    {
        let ghost s = self.buf();
        let ghost i0 = self.at();
        let n: usize = count as usize;
        let mut out: Vec<LocalVariable> = Vec::new();
        let mut k: usize = 0;
        proof {
            lemma_cont_empty(sp_local_variable_items(s, i0, n as int));
        }
        while k < n
            invariant
                self.wf(),
                self.buf() == s,
                s == old(self).buf(),
                i0 == old(self).at(),
                n == count as usize,
                k <= n,
                out@.len() == k,
                sp_cont(out@, sp_local_variable_items(s, self.at(), n - k)) == sp_local_variable_items(
                    s,
                    i0,
                    n as int,
                ),
            decreases n - k,
        {
            let ghost pos_before = self.at();
            match self.parse_local_variable() {
                Ok(item) => {
                    proof {
                        assert(sp_local_variable_items(s, pos_before, n - k) == sp_cont(
                            seq![item],
                            sp_local_variable_items(s, self.at(), n - k - 1),
                        ));
                        lemma_cont_step(out@, item, sp_local_variable_items(s, self.at(), n - k - 1));
                    }
                    out.push(item);
                    k = k + 1;
                },
                Err(e) => {
                    return Err(e);
                },
            }
        }
        proof {
            lemma_cont_nil(out@, self.at());
        }
        Ok(out)
    }

    /// Reads one `LocalVariableType` record.
    fn parse_local_variable_type(&mut self) -> (r: ParseResult<LocalVariableType>)
        requires
            old(self).wf(),
        ensures
            final(self).wf(),
            final(self).buf() == old(self).buf(),
            match sp_local_variable_type(old(self).buf(), old(self).at()) {
                Ok((v, p)) => r matches Ok(c) && c == v && final(self).at() == p,
                Err(e) => r == Err::<LocalVariableType, ParseError>(e),
            },
    {
        let start_pc = self.next_u2()?;
        let length = self.next_u2()?;
        let name_index = self.next_u2()?;
        let signature_index = self.next_u2()?;
        let index = self.next_u2()?;
        Ok(LocalVariableType { start_pc, length, name_index, signature_index, index })
    }

    /// Reads `count` `LocalVariableType` records.
    fn parse_local_variable_type_table(&mut self, count: u16) -> (r: ParseResult<Vec<LocalVariableType>>)
        requires
            old(self).wf(),
        ensures
            final(self).wf(),
            final(self).buf() == old(self).buf(),
            match sp_local_variable_type_items(old(self).buf(), old(self).at(), count as int) {
                Ok((v, p)) => r matches Ok(out) && out@ == v && final(self).at() == p,
                Err(e) => r == Err::<Vec<LocalVariableType>, ParseError>(e),
            },
    {
        let ghost s = self.buf();
        let ghost i0 = self.at();
        let n: usize = count as usize;
        let mut out: Vec<LocalVariableType> = Vec::new();
        let mut k: usize = 0;
        proof {
            lemma_cont_empty(sp_local_variable_type_items(s, i0, n as int));
        }
        while k < n
            invariant
                self.wf(),
                self.buf() == s,
                s == old(self).buf(),
                i0 == old(self).at(),
                n == count as usize,
                k <= n,
                out@.len() == k,
                sp_cont(out@, sp_local_variable_type_items(s, self.at(), n - k)) == sp_local_variable_type_items(
                    s,
                    i0,
                    n as int,
                ),
            decreases n - k,
        {
            let ghost pos_before = self.at();
            match self.parse_local_variable_type() {
                Ok(item) => {
                    proof {
                        assert(sp_local_variable_type_items(s, pos_before, n - k) == sp_cont(
                            seq![item],
                            sp_local_variable_type_items(s, self.at(), n - k - 1),
                        ));
                        lemma_cont_step(out@, item, sp_local_variable_type_items(s, self.at(), n - k - 1));
                    }
                    out.push(item);
                    k = k + 1;
                },
                Err(e) => {
                    return Err(e);
                },
            }
        }
        proof {
            lemma_cont_nil(out@, self.at());
        }
        Ok(out)
    }

    /// Reads one `MethodParameter` record.
    fn parse_method_parameter(&mut self) -> (r: ParseResult<MethodParameter>)
        requires
            old(self).wf(),
        ensures
            final(self).wf(),
            final(self).buf() == old(self).buf(),
            match sp_method_parameter(old(self).buf(), old(self).at()) {
                Ok((v, p)) => r matches Ok(c) && c == v && final(self).at() == p,
                Err(e) => r == Err::<MethodParameter, ParseError>(e),
            },
    {
        let name_index = self.next_u2()?;
        let access_flags = self.next_u2()?;
        Ok(MethodParameter { name_index, access_flags })
    }

    /// Reads `count` `MethodParameter` records.
    fn parse_method_parameters(&mut self, count: u8) -> (r: ParseResult<Vec<MethodParameter>>)
        requires
            old(self).wf(),
        ensures
            final(self).wf(),
            final(self).buf() == old(self).buf(),
            match sp_method_parameter_items(old(self).buf(), old(self).at(), count as int) {
                Ok((v, p)) => r matches Ok(out) && out@ == v && final(self).at() == p,
                Err(e) => r == Err::<Vec<MethodParameter>, ParseError>(e),
            },
    {
        let ghost s = self.buf();
        let ghost i0 = self.at();
        let n: usize = count as usize;
        let mut out: Vec<MethodParameter> = Vec::new();
        let mut k: usize = 0;
        proof {
            lemma_cont_empty(sp_method_parameter_items(s, i0, n as int));
        }
        while k < n
            invariant
                self.wf(),
                self.buf() == s,
                s == old(self).buf(),
                i0 == old(self).at(),
                n == count as usize,
                k <= n,
                out@.len() == k,
                sp_cont(out@, sp_method_parameter_items(s, self.at(), n - k)) == sp_method_parameter_items(
                    s,
                    i0,
                    n as int,
                ),
            decreases n - k,
        {
            let ghost pos_before = self.at();
            match self.parse_method_parameter() {
                Ok(item) => {
                    proof {
                        assert(sp_method_parameter_items(s, pos_before, n - k) == sp_cont(
                            seq![item],
                            sp_method_parameter_items(s, self.at(), n - k - 1),
                        ));
                        lemma_cont_step(out@, item, sp_method_parameter_items(s, self.at(), n - k - 1));
                    }
                    out.push(item);
                    k = k + 1;
                },
                Err(e) => {
                    return Err(e);
                },
            }
        }
        proof {
            lemma_cont_nil(out@, self.at());
        }
        Ok(out)
    }

    /// Reads one `ModuleRequire` record.
    fn parse_module_require(&mut self) -> (r: ParseResult<ModuleRequire>)
        requires
            old(self).wf(),
        ensures
            final(self).wf(),
            final(self).buf() == old(self).buf(),
            match sp_module_require(old(self).buf(), old(self).at()) {
                Ok((v, p)) => r matches Ok(c) && c == v && final(self).at() == p,
                Err(e) => r == Err::<ModuleRequire, ParseError>(e),
            },
    {
        let requires_index = self.next_u2()?;
        let requires_flags = self.next_u2()?;
        let requires_version_index = self.next_u2()?;
        Ok(ModuleRequire { requires_index, requires_flags, requires_version_index })
    }

    /// Reads `count` `ModuleRequire` records.
    fn parse_module_requires(&mut self, count: u16) -> (r: ParseResult<Vec<ModuleRequire>>)
        requires
            old(self).wf(),
        ensures
            final(self).wf(),
            final(self).buf() == old(self).buf(),
            match sp_module_require_items(old(self).buf(), old(self).at(), count as int) {
                Ok((v, p)) => r matches Ok(out) && out@ == v && final(self).at() == p,
                Err(e) => r == Err::<Vec<ModuleRequire>, ParseError>(e),
            },
    {
        let ghost s = self.buf();
        let ghost i0 = self.at();
        let n: usize = count as usize;
        let mut out: Vec<ModuleRequire> = Vec::new();
        let mut k: usize = 0;
        proof {
            lemma_cont_empty(sp_module_require_items(s, i0, n as int));
        }
        while k < n
            invariant
                self.wf(),
                self.buf() == s,
                s == old(self).buf(),
                i0 == old(self).at(),
                n == count as usize,
                k <= n,
                out@.len() == k,
                sp_cont(out@, sp_module_require_items(s, self.at(), n - k)) == sp_module_require_items(
                    s,
                    i0,
                    n as int,
                ),
            decreases n - k,
        {
            let ghost pos_before = self.at();
            match self.parse_module_require() {
                Ok(item) => {
                    proof {
                        assert(sp_module_require_items(s, pos_before, n - k) == sp_cont(
                            seq![item],
                            sp_module_require_items(s, self.at(), n - k - 1),
                        ));
                        lemma_cont_step(out@, item, sp_module_require_items(s, self.at(), n - k - 1));
                    }
                    out.push(item);
                    k = k + 1;
                },
                Err(e) => {
                    return Err(e);
                },
            }
        }
        proof {
            lemma_cont_nil(out@, self.at());
        }
        Ok(out)
    }

    /// Reads one `ModuleExport` record.
    fn parse_module_export(&mut self) -> (r: ParseResult<ModuleExport>)
        requires
            old(self).wf(),
        ensures
            final(self).wf(),
            final(self).buf() == old(self).buf(),
            match sp_module_export(old(self).buf(), old(self).at()) {
                Ok((v, p)) => r matches Ok(c) && c@ == v && final(self).at() == p,
                Err(e) => r == Err::<ModuleExport, ParseError>(e),
            },
    {
        let exports_index = self.next_u2()?;
        let exports_flags = self.next_u2()?;
        let exports_to_count = self.next_u2()?;
        let exports_to_index = self.next_u2_many(exports_to_count as usize)?;
        Ok(ModuleExport { exports_index, exports_flags, exports_to_count, exports_to_index })
    }

    /// Reads `count` `ModuleExport` records.
    fn parse_module_exports(&mut self, count: u16) -> (r: ParseResult<Vec<ModuleExport>>)
        requires
            old(self).wf(),
        ensures
            final(self).wf(),
            final(self).buf() == old(self).buf(),
            match sp_module_export_items(old(self).buf(), old(self).at(), count as int) {
                Ok((v, p)) => r matches Ok(out) && module_exports_view(out@) == v && final(self).at() == p,
                Err(e) => r == Err::<Vec<ModuleExport>, ParseError>(e),
            },
    {
        let ghost s = self.buf();
        let ghost i0 = self.at();
        let n: usize = count as usize;
        let mut out: Vec<ModuleExport> = Vec::new();
        let mut k: usize = 0;
        proof {
            lemma_cont_empty(sp_module_export_items(s, i0, n as int));
            assert(module_exports_view(out@) =~= Seq::<ModuleExportV>::empty());
        }
        while k < n
            invariant
                self.wf(),
                self.buf() == s,
                s == old(self).buf(),
                i0 == old(self).at(),
                n == count as usize,
                k <= n,
                out@.len() == k,
                sp_cont(module_exports_view(out@), sp_module_export_items(s, self.at(), n - k)) == sp_module_export_items(
                    s,
                    i0,
                    n as int,
                ),
            decreases n - k,
        {
            let ghost pos_before = self.at();
            let ghost prev = module_exports_view(out@);
            match self.parse_module_export() {
                Ok(item) => {
                    proof {
                        assert(sp_module_export_items(s, pos_before, n - k) == sp_cont(
                            seq![item@],
                            sp_module_export_items(s, self.at(), n - k - 1),
                        ));
                        lemma_cont_step(module_exports_view(out@), item@, sp_module_export_items(s, self.at(), n - k - 1));
                    }
                    out.push(item);
                    proof {
                        assert(module_exports_view(out@) =~= prev.push(item@));
                    }
                    k = k + 1;
                },
                Err(e) => {
                    return Err(e);
                },
            }
        }
        proof {
            lemma_cont_nil(module_exports_view(out@), self.at());
        }
        Ok(out)
    }

    /// Reads one `ModuleOpen` record.
    fn parse_module_open(&mut self) -> (r: ParseResult<ModuleOpen>)
        requires
            old(self).wf(),
        ensures
            final(self).wf(),
            final(self).buf() == old(self).buf(),
            match sp_module_open(old(self).buf(), old(self).at()) {
                Ok((v, p)) => r matches Ok(c) && c@ == v && final(self).at() == p,
                Err(e) => r == Err::<ModuleOpen, ParseError>(e),
            },
    {
        let opens_index = self.next_u2()?;
        let opens_flags = self.next_u2()?;
        let opens_to_count = self.next_u2()?;
        let opens_to_index = self.next_u2_many(opens_to_count as usize)?;
        Ok(ModuleOpen { opens_index, opens_flags, opens_to_count, opens_to_index })
    }

    /// Reads `count` `ModuleOpen` records.
    fn parse_module_opens(&mut self, count: u16) -> (r: ParseResult<Vec<ModuleOpen>>)
        requires
            old(self).wf(),
        ensures
            final(self).wf(),
            final(self).buf() == old(self).buf(),
            match sp_module_open_items(old(self).buf(), old(self).at(), count as int) {
                Ok((v, p)) => r matches Ok(out) && module_opens_view(out@) == v && final(self).at() == p,
                Err(e) => r == Err::<Vec<ModuleOpen>, ParseError>(e),
            },
    {
        let ghost s = self.buf();
        let ghost i0 = self.at();
        let n: usize = count as usize;
        let mut out: Vec<ModuleOpen> = Vec::new();
        let mut k: usize = 0;
        proof {
            lemma_cont_empty(sp_module_open_items(s, i0, n as int));
            assert(module_opens_view(out@) =~= Seq::<ModuleOpenV>::empty());
        }
        while k < n
            invariant
                self.wf(),
                self.buf() == s,
                s == old(self).buf(),
                i0 == old(self).at(),
                n == count as usize,
                k <= n,
                out@.len() == k,
                sp_cont(module_opens_view(out@), sp_module_open_items(s, self.at(), n - k)) == sp_module_open_items(
                    s,
                    i0,
                    n as int,
                ),
            decreases n - k,
        {
            let ghost pos_before = self.at();
            let ghost prev = module_opens_view(out@);
            match self.parse_module_open() {
                Ok(item) => {
                    proof {
                        assert(sp_module_open_items(s, pos_before, n - k) == sp_cont(
                            seq![item@],
                            sp_module_open_items(s, self.at(), n - k - 1),
                        ));
                        lemma_cont_step(module_opens_view(out@), item@, sp_module_open_items(s, self.at(), n - k - 1));
                    }
                    out.push(item);
                    proof {
                        assert(module_opens_view(out@) =~= prev.push(item@));
                    }
                    k = k + 1;
                },
                Err(e) => {
                    return Err(e);
                },
            }
        }
        proof {
            lemma_cont_nil(module_opens_view(out@), self.at());
        }
        Ok(out)
    }

    /// Reads one `ModuleProvide` record.
    fn parse_module_provide(&mut self) -> (r: ParseResult<ModuleProvide>)
        requires
            old(self).wf(),
        ensures
            final(self).wf(),
            final(self).buf() == old(self).buf(),
            match sp_module_provide(old(self).buf(), old(self).at()) {
                Ok((v, p)) => r matches Ok(c) && c@ == v && final(self).at() == p,
                Err(e) => r == Err::<ModuleProvide, ParseError>(e),
            },
    {
        let provides_index = self.next_u2()?;
        let provides_with_count = self.next_u2()?;
        let provides_with_index = self.next_u2_many(provides_with_count as usize)?;
        Ok(ModuleProvide { provides_index, provides_with_count, provides_with_index })
    }

    /// Reads `count` `ModuleProvide` records.
    fn parse_module_provides(&mut self, count: u16) -> (r: ParseResult<Vec<ModuleProvide>>)
        requires
            old(self).wf(),
        ensures
            final(self).wf(),
            final(self).buf() == old(self).buf(),
            match sp_module_provide_items(old(self).buf(), old(self).at(), count as int) {
                Ok((v, p)) => r matches Ok(out) && module_provides_view(out@) == v && final(self).at() == p,
                Err(e) => r == Err::<Vec<ModuleProvide>, ParseError>(e),
            },
    {
        let ghost s = self.buf();
        let ghost i0 = self.at();
        let n: usize = count as usize;
        let mut out: Vec<ModuleProvide> = Vec::new();
        let mut k: usize = 0;
        proof {
            lemma_cont_empty(sp_module_provide_items(s, i0, n as int));
            assert(module_provides_view(out@) =~= Seq::<ModuleProvideV>::empty());
        }
        while k < n
            invariant
                self.wf(),
                self.buf() == s,
                s == old(self).buf(),
                i0 == old(self).at(),
                n == count as usize,
                k <= n,
                out@.len() == k,
                sp_cont(module_provides_view(out@), sp_module_provide_items(s, self.at(), n - k)) == sp_module_provide_items(
                    s,
                    i0,
                    n as int,
                ),
            decreases n - k,
        {
            let ghost pos_before = self.at();
            let ghost prev = module_provides_view(out@);
            match self.parse_module_provide() {
                Ok(item) => {
                    proof {
                        assert(sp_module_provide_items(s, pos_before, n - k) == sp_cont(
                            seq![item@],
                            sp_module_provide_items(s, self.at(), n - k - 1),
                        ));
                        lemma_cont_step(module_provides_view(out@), item@, sp_module_provide_items(s, self.at(), n - k - 1));
                    }
                    out.push(item);
                    proof {
                        assert(module_provides_view(out@) =~= prev.push(item@));
                    }
                    k = k + 1;
                },
                Err(e) => {
                    return Err(e);
                },
            }
        }
        proof {
            lemma_cont_nil(module_provides_view(out@), self.at());
        }
        Ok(out)
    }

    /// Reads one `BootstrapMethod` record.
    fn parse_bootstrap_method(&mut self) -> (r: ParseResult<BootstrapMethod>)
        requires
            old(self).wf(),
        ensures
            final(self).wf(),
            final(self).buf() == old(self).buf(),
            match sp_bootstrap_method(old(self).buf(), old(self).at()) {
                Ok((v, p)) => r matches Ok(c) && c@ == v && final(self).at() == p,
                Err(e) => r == Err::<BootstrapMethod, ParseError>(e),
            },
    {
        let num_bootstrap_arguments = self.next_u2()?;
        let bootstrap_method_ref = self.next_u2()?;
        let bootstrap_arguments = self.next_u2_many(num_bootstrap_arguments as usize)?;
        Ok(BootstrapMethod { bootstrap_method_ref, num_bootstrap_arguments, bootstrap_arguments })
    }

    /// Reads `count` `BootstrapMethod` records.
    fn parse_bootstrap_methods(&mut self, count: u16) -> (r: ParseResult<Vec<BootstrapMethod>>)
        requires
            old(self).wf(),
        ensures
            final(self).wf(),
            final(self).buf() == old(self).buf(),
            match sp_bootstrap_method_items(old(self).buf(), old(self).at(), count as int) {
                Ok((v, p)) => r matches Ok(out) && bootstrap_methods_view(out@) == v && final(self).at() == p,
                Err(e) => r == Err::<Vec<BootstrapMethod>, ParseError>(e),
            },
    {
        let ghost s = self.buf();
        let ghost i0 = self.at();
        let n: usize = count as usize;
        let mut out: Vec<BootstrapMethod> = Vec::new();
        let mut k: usize = 0;
        proof {
            lemma_cont_empty(sp_bootstrap_method_items(s, i0, n as int));
            assert(bootstrap_methods_view(out@) =~= Seq::<BootstrapMethodV>::empty());
        }
        while k < n
            invariant
                self.wf(),
                self.buf() == s,
                s == old(self).buf(),
                i0 == old(self).at(),
                n == count as usize,
                k <= n,
                out@.len() == k,
                sp_cont(bootstrap_methods_view(out@), sp_bootstrap_method_items(s, self.at(), n - k)) == sp_bootstrap_method_items(
                    s,
                    i0,
                    n as int,
                ),
            decreases n - k,
        {
            let ghost pos_before = self.at();
            let ghost prev = bootstrap_methods_view(out@);
            match self.parse_bootstrap_method() {
                Ok(item) => {
                    proof {
                        assert(sp_bootstrap_method_items(s, pos_before, n - k) == sp_cont(
                            seq![item@],
                            sp_bootstrap_method_items(s, self.at(), n - k - 1),
                        ));
                        lemma_cont_step(bootstrap_methods_view(out@), item@, sp_bootstrap_method_items(s, self.at(), n - k - 1));
                    }
                    out.push(item);
                    proof {
                        assert(bootstrap_methods_view(out@) =~= prev.push(item@));
                    }
                    k = k + 1;
                },
                Err(e) => {
                    return Err(e);
                },
            }
        }
        proof {
            lemma_cont_nil(bootstrap_methods_view(out@), self.at());
        }
        Ok(out)
    }

    /// Reads one `TypeAnnotationLocalVarTargetTableEntry` record.
    fn parse_local_var_target_entry(&mut self) -> (r: ParseResult<TypeAnnotationLocalVarTargetTableEntry>)
        requires
            old(self).wf(),
        ensures
            final(self).wf(),
            final(self).buf() == old(self).buf(),
            match sp_local_var_target_entry(old(self).buf(), old(self).at()) {
                Ok((v, p)) => r matches Ok(c) && c == v && final(self).at() == p,
                Err(e) => r == Err::<TypeAnnotationLocalVarTargetTableEntry, ParseError>(e),
            },
    {
        let start_pc = self.next_u2()?;
        let length = self.next_u2()?;
        let index = self.next_u2()?;
        Ok(TypeAnnotationLocalVarTargetTableEntry { start_pc, length, index })
    }

    /// Reads `count` `TypeAnnotationLocalVarTargetTableEntry` records.
    fn parse_local_var_target_table(&mut self, count: u16) -> (r: ParseResult<Vec<TypeAnnotationLocalVarTargetTableEntry>>)
        requires
            old(self).wf(),
        ensures
            final(self).wf(),
            final(self).buf() == old(self).buf(),
            match sp_local_var_target_entry_items(old(self).buf(), old(self).at(), count as int) {
                Ok((v, p)) => r matches Ok(out) && out@ == v && final(self).at() == p,
                Err(e) => r == Err::<Vec<TypeAnnotationLocalVarTargetTableEntry>, ParseError>(e),
            },
    {
        let ghost s = self.buf();
        let ghost i0 = self.at();
        let n: usize = count as usize;
        let mut out: Vec<TypeAnnotationLocalVarTargetTableEntry> = Vec::new();
        let mut k: usize = 0;
        proof {
            lemma_cont_empty(sp_local_var_target_entry_items(s, i0, n as int));
        }
        while k < n
            invariant
                self.wf(),
                self.buf() == s,
                s == old(self).buf(),
                i0 == old(self).at(),
                n == count as usize,
                k <= n,
                out@.len() == k,
                sp_cont(out@, sp_local_var_target_entry_items(s, self.at(), n - k)) == sp_local_var_target_entry_items(
                    s,
                    i0,
                    n as int,
                ),
            decreases n - k,
        {
            let ghost pos_before = self.at();
            match self.parse_local_var_target_entry() {
                Ok(item) => {
                    proof {
                        assert(sp_local_var_target_entry_items(s, pos_before, n - k) == sp_cont(
                            seq![item],
                            sp_local_var_target_entry_items(s, self.at(), n - k - 1),
                        ));
                        lemma_cont_step(out@, item, sp_local_var_target_entry_items(s, self.at(), n - k - 1));
                    }
                    out.push(item);
                    k = k + 1;
                },
                Err(e) => {
                    return Err(e);
                },
            }
        }
        proof {
            lemma_cont_nil(out@, self.at());
        }
        Ok(out)
    }

    /// Reads one `TypeAnnotationTypePathSegment` record.
    fn parse_type_path_segment(&mut self) -> (r: ParseResult<TypeAnnotationTypePathSegment>)
        requires
            old(self).wf(),
        ensures
            final(self).wf(),
            final(self).buf() == old(self).buf(),
            match sp_type_path_segment(old(self).buf(), old(self).at()) {
                Ok((v, p)) => r matches Ok(c) && c == v && final(self).at() == p,
                Err(e) => r == Err::<TypeAnnotationTypePathSegment, ParseError>(e),
            },
    {
        let type_path_kind = self.next_u1()?;
        let type_argument_index = self.next_u1()?;
        Ok(TypeAnnotationTypePathSegment { type_path_kind, type_argument_index })
    }

    /// Reads `count` `TypeAnnotationTypePathSegment` records.
    fn parse_type_path_segments(&mut self, count: u8) -> (r: ParseResult<Vec<TypeAnnotationTypePathSegment>>)
        requires
            old(self).wf(),
        ensures
            final(self).wf(),
            final(self).buf() == old(self).buf(),
            match sp_type_path_segment_items(old(self).buf(), old(self).at(), count as int) {
                Ok((v, p)) => r matches Ok(out) && out@ == v && final(self).at() == p,
                Err(e) => r == Err::<Vec<TypeAnnotationTypePathSegment>, ParseError>(e),
            },
    {
        let ghost s = self.buf();
        let ghost i0 = self.at();
        let n: usize = count as usize;
        let mut out: Vec<TypeAnnotationTypePathSegment> = Vec::new();
        let mut k: usize = 0;
        proof {
            lemma_cont_empty(sp_type_path_segment_items(s, i0, n as int));
        }
        while k < n
            invariant
                self.wf(),
                self.buf() == s,
                s == old(self).buf(),
                i0 == old(self).at(),
                n == count as usize,
                k <= n,
                out@.len() == k,
                sp_cont(out@, sp_type_path_segment_items(s, self.at(), n - k)) == sp_type_path_segment_items(
                    s,
                    i0,
                    n as int,
                ),
            decreases n - k,
        {
            let ghost pos_before = self.at();
            match self.parse_type_path_segment() {
                Ok(item) => {
                    proof {
                        assert(sp_type_path_segment_items(s, pos_before, n - k) == sp_cont(
                            seq![item],
                            sp_type_path_segment_items(s, self.at(), n - k - 1),
                        ));
                        lemma_cont_step(out@, item, sp_type_path_segment_items(s, self.at(), n - k - 1));
                    }
                    out.push(item);
                    k = k + 1;
                },
                Err(e) => {
                    return Err(e);
                },
            }
        }
        proof {
            lemma_cont_nil(out@, self.at());
        }
        Ok(out)
    }
}


// ---- stack-map frames ----

/// Decodes one verification-type entry.
pub open spec fn sp_verification_type_info(s: Seq<u8>, i: int) -> ParseResult<
    (VerificationTypeInfo, int),
> {
    match sp_u1(s, i) {
        Err(e) => Err(e),
        Ok((tag, j)) => {
            if tag == 0 {
                Ok((VerificationTypeInfo::TopVariableInfo { tag }, j))
            } else if tag == 1 {
                Ok((VerificationTypeInfo::IntegerVariableInfo { tag }, j))
            } else if tag == 2 {
                Ok((VerificationTypeInfo::FloatVariableInfo { tag }, j))
            } else if tag == 3 {
                Ok((VerificationTypeInfo::DoubleVariableInfo { tag }, j))
            } else if tag == 4 {
                Ok((VerificationTypeInfo::LongVariableInfo { tag }, j))
            } else if tag == 5 {
                Ok((VerificationTypeInfo::NullVariableInfo { tag }, j))
            } else if tag == 6 {
                Ok((VerificationTypeInfo::UninitializedThisVariableInfo { tag }, j))
            } else if tag == 7 {
                match sp_u2(s, j) {
                    Err(e) => Err(e),
                    Ok((cpool_index, k)) => Ok(
                        (VerificationTypeInfo::ObjectVariableInfo { tag, cpool_index }, k),
                    ),
                }
            } else if tag == 8 {
                match sp_u2(s, j) {
                    Err(e) => Err(e),
                    Ok((offset, k)) => Ok(
                        (VerificationTypeInfo::UninitializedVariableInfo { tag, offset }, k),
                    ),
                }
            } else {
                Err(ParseError::UnknownVerificationTypeTag)
            }
        },
    }
}

/// Decodes `n` verification-type entries.
pub open spec fn sp_verification_type_info_items(s: Seq<u8>, i: int, n: int) -> ParseResult<
    (Seq<VerificationTypeInfo>, int),
>
    decreases n,
{
    if n <= 0 {
        Ok((Seq::empty(), i))
    } else {
        match sp_verification_type_info(s, i) {
            Err(e) => Err(e),
            Ok((v, j)) => sp_cont(seq![v], sp_verification_type_info_items(s, j, n - 1)),
        }
    }
}

/// Decodes one stack-map frame, selecting its shape by the frame type.
pub open spec fn sp_stack_map_frame(s: Seq<u8>, i: int) -> ParseResult<(StackMapFrameV, int)> {
    match sp_u1(s, i) {
        Err(e) => Err(e),
        Ok((frame_type, j)) => {
            if frame_type <= 63 {
                Ok((StackMapFrameV::SameFrame { frame_type }, j))
            } else if frame_type <= 127 {
                match sp_verification_type_info(s, j) {
                    Err(e) => Err(e),
                    Ok((stack, k)) => Ok(
                        (StackMapFrameV::SameLocals1StackItemFrame { frame_type, stack }, k),
                    ),
                }
            } else if frame_type == 247 {
                match sp_u2(s, j) {
                    Err(e) => Err(e),
                    Ok((offset_delta, k)) => match sp_verification_type_info(s, k) {
                        Err(e) => Err(e),
                        Ok((stack, l)) => Ok(
                            (
                                StackMapFrameV::SameLocals1StackItemFrameExtended {
                                    frame_type,
                                    offset_delta,
                                    stack,
                                },
                                l,
                            ),
                        ),
                    },
                }
            } else if 248 <= frame_type && frame_type <= 250 {
                match sp_u2(s, j) {
                    Err(e) => Err(e),
                    Ok((offset_delta, k)) => Ok(
                        (StackMapFrameV::ChopFrame { frame_type, offset_delta }, k),
                    ),
                }
            } else if frame_type == 251 {
                match sp_u2(s, j) {
                    Err(e) => Err(e),
                    Ok((offset_delta, k)) => Ok(
                        (StackMapFrameV::SameFrameExtended { frame_type, offset_delta }, k),
                    ),
                }
            } else if 252 <= frame_type && frame_type <= 254 {
                match sp_u2(s, j) {
                    Err(e) => Err(e),
                    Ok((offset_delta, k)) => match sp_verification_type_info_items(
                        s,
                        k,
                        frame_type - 251,
                    ) {
                        Err(e) => Err(e),
                        Ok((locals, l)) => Ok(
                            (StackMapFrameV::AppendFrame { frame_type, offset_delta, locals }, l),
                        ),
                    },
                }
            } else if frame_type == 255 {
                match sp_u2(s, j) {
                    Err(e) => Err(e),
                    Ok((offset_delta, k)) => match sp_u2(s, k) {
                        Err(e) => Err(e),
                        Ok((number_of_locals, l)) => match sp_verification_type_info_items(
                            s,
                            l,
                            number_of_locals as int,
                        ) {
                            Err(e) => Err(e),
                            Ok((locals, m)) => match sp_u2(s, m) {
                                Err(e) => Err(e),
                                Ok((number_of_stack_items, o)) => match sp_verification_type_info_items(
                                    s,
                                    o,
                                    number_of_stack_items as int,
                                ) {
                                    Err(e) => Err(e),
                                    Ok((stack, q)) => Ok(
                                        (
                                            StackMapFrameV::FullFrame {
                                                frame_type,
                                                offset_delta,
                                                number_of_locals,
                                                locals,
                                                number_of_stack_items,
                                                stack,
                                            },
                                            q,
                                        ),
                                    ),
                                },
                            },
                        },
                    },
                }
            } else {
                Err(ParseError::UnknownStackMapFrameType)
            }
        },
    }
}

/// Decodes `n` stack-map frames.
pub open spec fn sp_stack_map_frame_items(s: Seq<u8>, i: int, n: int) -> ParseResult<
    (Seq<StackMapFrameV>, int),
>
    decreases n,
{
    if n <= 0 {
        Ok((Seq::empty(), i))
    } else {
        match sp_stack_map_frame(s, i) {
            Err(e) => Err(e),
            Ok((v, j)) => sp_cont(seq![v], sp_stack_map_frame_items(s, j, n - 1)),
        }
    }
}

// ---- annotations and element values ----

/// Decodes one annotation.
pub open spec fn sp_annotation(s: Seq<u8>, i: int, depth: u8) -> ParseResult<(AnnotationV, int)>
    decreases depth, 3int, 0int,
{
    match sp_u2(s, i) {
        Err(e) => Err(e),
        Ok((type_index, j)) => match sp_u2(s, j) {
            Err(e) => Err(e),
            Ok((num_element_value_pairs, k)) => match sp_element_value_pair_items(
                s,
                k,
                num_element_value_pairs as int,
                depth,
            ) {
                Err(e) => Err(e),
                Ok((element_value_pairs, l)) => Ok(
                    (
                        AnnotationV {
                            type_index,
                            num_element_value_pairs,
                            element_value_pairs,
                        },
                        l,
                    ),
                ),
            },
        },
    }
}

/// Decodes `n` element-value pairs.
pub open spec fn sp_element_value_pair_items(s: Seq<u8>, i: int, n: int, depth: u8) -> ParseResult<
    (Seq<ElementValuePairV>, int),
>
    decreases depth, 2int, n,
{
    if n <= 0 {
        Ok((Seq::empty(), i))
    } else {
        match sp_u2(s, i) {
            Err(e) => Err(e),
            Ok((element_name_index, j)) => match sp_element_value(s, j, depth) {
                Err(e) => Err(e),
                Ok((value, k)) => sp_cont(
                    seq![ElementValuePairV { element_name_index, value }],
                    sp_element_value_pair_items(s, k, n - 1, depth),
                ),
            },
        }
    }
}

/// Decodes one element value, selecting its payload by the tag character.
pub open spec fn sp_element_value(s: Seq<u8>, i: int, depth: u8) -> ParseResult<
    (ElementValueV, int),
>
    decreases depth, 1int, 0int,
{
    match sp_u1(s, i) {
        Err(e) => Err(e),
        Ok((tag, j)) => {
            if tag == 'B' as u8 || tag == 'C' as u8 || tag == 'D' as u8 || tag == 'F' as u8 || tag
                == 'I' as u8 || tag == 'J' as u8 || tag == 'S' as u8 || tag == 'Z' as u8 || tag
                == 's' as u8 {
                match sp_u2(s, j) {
                    Err(e) => Err(e),
                    Ok((const_value_index, k)) => Ok(
                        (
                            ElementValueV {
                                tag,
                                value: ElementValueValueV::ConstValueIndex { const_value_index },
                            },
                            k,
                        ),
                    ),
                }
            } else if tag == 'e' as u8 {
                match sp_u2(s, j) {
                    Err(e) => Err(e),
                    Ok((type_name_index, k)) => match sp_u2(s, k) {
                        Err(e) => Err(e),
                        Ok((const_name_index, l)) => Ok(
                            (
                                ElementValueV {
                                    tag,
                                    value: ElementValueValueV::EnumConstValue {
                                        type_name_index,
                                        const_name_index,
                                    },
                                },
                                l,
                            ),
                        ),
                    },
                }
            } else if tag == 'c' as u8 {
                match sp_u2(s, j) {
                    Err(e) => Err(e),
                    Ok((class_info_index, k)) => Ok(
                        (
                            ElementValueV {
                                tag,
                                value: ElementValueValueV::ClassInfoIndex { class_info_index },
                            },
                            k,
                        ),
                    ),
                }
            } else if tag == '@' as u8 {
                if depth == 0 {
                    Err(ParseError::NestingLimitExceeded)
                } else {
                    match sp_annotation(s, j, (depth - 1) as u8) {
                        Err(e) => Err(e),
                        Ok((annotation_value, k)) => Ok(
                            (
                                ElementValueV {
                                    tag,
                                    value: ElementValueValueV::AnnotationValue { annotation_value },
                                },
                                k,
                            ),
                        ),
                    }
                }
            } else if tag == '[' as u8 {
                if depth == 0 {
                    Err(ParseError::NestingLimitExceeded)
                } else {
                    match sp_u2(s, j) {
                        Err(e) => Err(e),
                        Ok((num_values, k)) => match sp_element_value_items(
                            s,
                            k,
                            num_values as int,
                            (depth - 1) as u8,
                        ) {
                            Err(e) => Err(e),
                            Ok((values, l)) => Ok(
                                (
                                    ElementValueV {
                                        tag,
                                        value: ElementValueValueV::ArrayValue { num_values, values },
                                    },
                                    l,
                                ),
                            ),
                        },
                    }
                }
            } else {
                Err(ParseError::UnknownElementValueTag)
            }
        },
    }
}

/// Decodes `n` element values.
pub open spec fn sp_element_value_items(s: Seq<u8>, i: int, n: int, depth: u8) -> ParseResult<
    (Seq<ElementValueV>, int),
>
    decreases depth, 2int, n,
{
    if n <= 0 {
        Ok((Seq::empty(), i))
    } else {
        match sp_element_value(s, i, depth) {
            Err(e) => Err(e),
            Ok((v, j)) => sp_cont(seq![v], sp_element_value_items(s, j, n - 1, depth)),
        }
    }
}

/// Decodes `n` annotations.
pub open spec fn sp_annotation_items(s: Seq<u8>, i: int, n: int, depth: u8) -> ParseResult<
    (Seq<AnnotationV>, int),
>
    decreases n,
{
    if n <= 0 {
        Ok((Seq::empty(), i))
    } else {
        match sp_annotation(s, i, depth) {
            Err(e) => Err(e),
            Ok((v, j)) => sp_cont(seq![v], sp_annotation_items(s, j, n - 1, depth)),
        }
    }
}

/// Decodes one parameter-annotation list.
pub open spec fn sp_parameter_annotation(s: Seq<u8>, i: int, depth: u8) -> ParseResult<
    (ParameterAnnotationV, int),
> {
    match sp_u2(s, i) {
        Err(e) => Err(e),
        Ok((num_annotations, j)) => match sp_annotation_items(s, j, num_annotations as int, depth) {
            Err(e) => Err(e),
            Ok((annotations, k)) => Ok(
                (ParameterAnnotationV { num_annotations, annotations }, k),
            ),
        },
    }
}

/// Decodes `n` parameter-annotation lists.
pub open spec fn sp_parameter_annotation_items(s: Seq<u8>, i: int, n: int, depth: u8) -> ParseResult<
    (Seq<ParameterAnnotationV>, int),
>
    decreases n,
{
    if n <= 0 {
        Ok((Seq::empty(), i))
    } else {
        match sp_parameter_annotation(s, i, depth) {
            Err(e) => Err(e),
            Ok((v, j)) => sp_cont(seq![v], sp_parameter_annotation_items(s, j, n - 1, depth)),
        }
    }
}

/// Decodes the target info of a type annotation, selected by the target type.
pub open spec fn sp_type_annotation_target(s: Seq<u8>, i: int, target_type: u8) -> ParseResult<
    (TypeAnnotationTargetInfoV, int),
> {
    if target_type == 0x00 || target_type == 0x01 {
        match sp_u1(s, i) {
            Err(e) => Err(e),
            Ok((type_parameter_index, j)) => Ok(
                (TypeAnnotationTargetInfoV::TypeParameterTarget { type_parameter_index }, j),
            ),
        }
    } else if target_type == 0x10 {
        match sp_u2(s, i) {
            Err(e) => Err(e),
            Ok((supertype_index, j)) => Ok(
                (TypeAnnotationTargetInfoV::SupertypeTarget { supertype_index }, j),
            ),
        }
    } else if target_type == 0x11 || target_type == 0x12 {
        match sp_u1(s, i) {
            Err(e) => Err(e),
            Ok((type_parameter_index, j)) => match sp_u1(s, j) {
                Err(e) => Err(e),
                Ok((bound_index, k)) => Ok(
                    (
                        TypeAnnotationTargetInfoV::TypeParameterBoundTarget {
                            type_parameter_index,
                            bound_index,
                        },
                        k,
                    ),
                ),
            },
        }
    } else if 0x13 <= target_type && target_type <= 0x15 {
        Ok((TypeAnnotationTargetInfoV::EmptyTarget, i))
    } else if target_type == 0x16 {
        match sp_u1(s, i) {
            Err(e) => Err(e),
            Ok((formal_parameter_index, j)) => Ok(
                (TypeAnnotationTargetInfoV::FormalParameterTarget { formal_parameter_index }, j),
            ),
        }
    } else if target_type == 0x17 {
        match sp_u2(s, i) {
            Err(e) => Err(e),
            Ok((throws_type_index, j)) => Ok(
                (TypeAnnotationTargetInfoV::ThrowsTarget { throws_type_index }, j),
            ),
        }
    } else if target_type == 0x40 || target_type == 0x41 {
        match sp_u2(s, i) {
            Err(e) => Err(e),
            Ok((table_length, j)) => match sp_local_var_target_entry_items(
                s,
                j,
                table_length as int,
            ) {
                Err(e) => Err(e),
                Ok((table, k)) => Ok(
                    (TypeAnnotationTargetInfoV::LocalVarTarget { table_length, table }, k),
                ),
            },
        }
    } else if target_type == 0x42 {
        match sp_u2(s, i) {
            Err(e) => Err(e),
            Ok((catch_index, j)) => Ok(
                (TypeAnnotationTargetInfoV::CatchTarget { catch_index }, j),
            ),
        }
    } else if 0x43 <= target_type && target_type <= 0x46 {
        match sp_u2(s, i) {
            Err(e) => Err(e),
            Ok((offset, j)) => Ok((TypeAnnotationTargetInfoV::OffsetTarget { offset }, j)),
        }
    } else if 0x47 <= target_type && target_type <= 0x4B {
        match sp_u2(s, i) {
            Err(e) => Err(e),
            Ok((offset, j)) => match sp_u1(s, j) {
                Err(e) => Err(e),
                Ok((type_argument_index, k)) => Ok(
                    (
                        TypeAnnotationTargetInfoV::TypeArgumentTarget {
                            offset,
                            type_argument_index,
                        },
                        k,
                    ),
                ),
            },
        }
    } else {
        Err(ParseError::UnknownTypeAnnotationTargetType)
    }
}

/// Decodes one type annotation.
pub open spec fn sp_type_annotation(s: Seq<u8>, i: int, depth: u8) -> ParseResult<
    (TypeAnnotationV, int),
> {
    match sp_u1(s, i) {
        Err(e) => Err(e),
        Ok((target_type, j)) => match sp_type_annotation_target(s, j, target_type) {
            Err(e) => Err(e),
            Ok((target_info, k)) => match sp_u1(s, k) {
                Err(e) => Err(e),
                Ok((path_length, l)) => match sp_type_path_segment_items(s, l, path_length as int) {
                    Err(e) => Err(e),
                    Ok((path, m)) => match sp_u2(s, m) {
                        Err(e) => Err(e),
                        Ok((type_index, o)) => match sp_u2(s, o) {
                            Err(e) => Err(e),
                            Ok((num_element_value_pairs, p)) => match sp_element_value_pair_items(
                                s,
                                p,
                                num_element_value_pairs as int,
                                depth,
                            ) {
                                Err(e) => Err(e),
                                Ok((element_value_pairs, q)) => Ok(
                                    (
                                        TypeAnnotationV {
                                            target_type,
                                            target_info,
                                            target_path: TypeAnnotationTypePathV {
                                                path_length,
                                                path,
                                            },
                                            type_index,
                                            num_element_value_pairs,
                                            element_value_pairs,
                                        },
                                        q,
                                    ),
                                ),
                            },
                        },
                    },
                },
            },
        },
    }
}

/// Decodes `n` type annotations.
pub open spec fn sp_type_annotation_items(s: Seq<u8>, i: int, n: int, depth: u8) -> ParseResult<
    (Seq<TypeAnnotationV>, int),
>
    decreases n,
{
    if n <= 0 {
        Ok((Seq::empty(), i))
    } else {
        match sp_type_annotation(s, i, depth) {
            Err(e) => Err(e),
            Ok((v, j)) => sp_cont(seq![v], sp_type_annotation_items(s, j, n - 1, depth)),
        }
    }
}


impl ClassFileParser {
    /// Reads `count` records of this list.
    fn parse_vti_list(&mut self, count: u16) -> (r: ParseResult<Vec<VerificationTypeInfo>>)
        requires
            old(self).wf(),
        ensures
            final(self).wf(),
            final(self).buf() == old(self).buf(),
            match sp_verification_type_info_items(old(self).buf(), old(self).at(), count as int) {
                Ok((v, p)) => r matches Ok(out) && out@ == v && final(self).at() == p,
                Err(e) => r == Err::<Vec<VerificationTypeInfo>, ParseError>(e),
            },
    {
        let ghost s = self.buf();
        let ghost i0 = self.at();
        let n: usize = count as usize;
        let mut out: Vec<VerificationTypeInfo> = Vec::new();
        let mut k: usize = 0;
        proof {
            lemma_cont_empty(sp_verification_type_info_items(s, i0, n as int));
        }
        while k < n
            invariant
                self.wf(),
                self.buf() == s,
                s == old(self).buf(),
                i0 == old(self).at(),
                n == count as usize,
                k <= n,
                out@.len() == k,
                sp_cont(out@, sp_verification_type_info_items(s, self.at(), n - k)) == sp_verification_type_info_items(
                    s,
                    i0,
                    n as int,
                ),
            decreases n - k,
        {
            let ghost pos_before = self.at();
            match self.parse_verification_type_info() {
                Ok(item) => {
                    proof {
                        assert(sp_verification_type_info_items(s, pos_before, n - k) == sp_cont(
                            seq![item],
                            sp_verification_type_info_items(s, self.at(), n - k - 1),
                        ));
                        lemma_cont_step(out@, item, sp_verification_type_info_items(s, self.at(), n - k - 1));
                    }
                    out.push(item);
                    k = k + 1;
                },
                Err(e) => {
                    return Err(e);
                },
            }
        }
        proof {
            lemma_cont_nil(out@, self.at());
        }
        Ok(out)
    }

    /// Reads `count` records of this list.
    fn parse_stack_map_table(&mut self, count: u16) -> (r: ParseResult<Vec<StackMapFrame>>)
        requires
            old(self).wf(),
        ensures
            final(self).wf(),
            final(self).buf() == old(self).buf(),
            match sp_stack_map_frame_items(old(self).buf(), old(self).at(), count as int) {
                Ok((v, p)) => r matches Ok(out) && stack_map_frames_view(out@) == v && final(self).at() == p,
                Err(e) => r == Err::<Vec<StackMapFrame>, ParseError>(e),
            },
    {
        let ghost s = self.buf();
        let ghost i0 = self.at();
        let n: usize = count as usize;
        let mut out: Vec<StackMapFrame> = Vec::new();
        let mut k: usize = 0;
        proof {
            lemma_cont_empty(sp_stack_map_frame_items(s, i0, n as int));
            assert(stack_map_frames_view(out@) =~= Seq::<StackMapFrameV>::empty());
        }
        while k < n
            invariant
                self.wf(),
                self.buf() == s,
                s == old(self).buf(),
                i0 == old(self).at(),
                n == count as usize,
                k <= n,
                out@.len() == k,
                sp_cont(stack_map_frames_view(out@), sp_stack_map_frame_items(s, self.at(), n - k)) == sp_stack_map_frame_items(
                    s,
                    i0,
                    n as int,
                ),
            decreases n - k,
        {
            let ghost pos_before = self.at();
            let ghost prev = stack_map_frames_view(out@);
            match self.parse_stack_map_frame() {
                Ok(item) => {
                    proof {
                        assert(sp_stack_map_frame_items(s, pos_before, n - k) == sp_cont(
                            seq![item@],
                            sp_stack_map_frame_items(s, self.at(), n - k - 1),
                        ));
                        lemma_cont_step(stack_map_frames_view(out@), item@, sp_stack_map_frame_items(s, self.at(), n - k - 1));
                    }
                    out.push(item);
                    proof {
                        assert(stack_map_frames_view(out@) =~= prev.push(item@));
                    }
                    k = k + 1;
                },
                Err(e) => {
                    return Err(e);
                },
            }
        }
        proof {
            lemma_cont_nil(stack_map_frames_view(out@), self.at());
        }
        Ok(out)
    }

    /// Reads `count` records of this list.
    fn parse_annotations(&mut self, count: u16, depth: u8) -> (r: ParseResult<Vec<Annotation>>)
        requires
            old(self).wf(),
        ensures
            final(self).wf(),
            final(self).buf() == old(self).buf(),
            match sp_annotation_items(old(self).buf(), old(self).at(), count as int, depth) {
                Ok((v, p)) => r matches Ok(out) && annotations_view(out@) == v && final(self).at() == p,
                Err(e) => r == Err::<Vec<Annotation>, ParseError>(e),
            },
    {
        let ghost s = self.buf();
        let ghost i0 = self.at();
        let n: usize = count as usize;
        let mut out: Vec<Annotation> = Vec::new();
        let mut k: usize = 0;
        proof {
            lemma_cont_empty(sp_annotation_items(s, i0, n as int, depth));
            assert(annotations_view(out@) =~= Seq::<AnnotationV>::empty());
        }
        while k < n
            invariant
                self.wf(),
                self.buf() == s,
                s == old(self).buf(),
                i0 == old(self).at(),
                n == count as usize,
                k <= n,
                out@.len() == k,
                sp_cont(annotations_view(out@), sp_annotation_items(s, self.at(), n - k, depth)) == sp_annotation_items(
                    s,
                    i0,
                    n as int, depth,
                ),
            decreases n - k,
        {
            let ghost pos_before = self.at();
            let ghost prev = annotations_view(out@);
            match self.parse_annotation(depth) {
                Ok(item) => {
                    proof {
                        assert(sp_annotation_items(s, pos_before, n - k, depth) == sp_cont(
                            seq![item@],
                            sp_annotation_items(s, self.at(), n - k - 1, depth),
                        ));
                        lemma_cont_step(annotations_view(out@), item@, sp_annotation_items(s, self.at(), n - k - 1, depth));
                    }
                    out.push(item);
                    proof {
                        assert(annotations_view(out@) =~= prev.push(item@));
                    }
                    k = k + 1;
                },
                Err(e) => {
                    return Err(e);
                },
            }
        }
        proof {
            lemma_cont_nil(annotations_view(out@), self.at());
        }
        Ok(out)
    }

    /// Reads `count` records of this list.
    fn parse_element_values(&mut self, count: u16, depth: u8) -> (r: ParseResult<Vec<ElementValue>>)
        requires
            old(self).wf(),
        ensures
            final(self).wf(),
            final(self).buf() == old(self).buf(),
            match sp_element_value_items(old(self).buf(), old(self).at(), count as int, depth) {
                Ok((v, p)) => r matches Ok(out) && element_values_view(out@) == v && final(self).at() == p,
                Err(e) => r == Err::<Vec<ElementValue>, ParseError>(e),
            },
        decreases depth, 2int, count,
    {
        let ghost s = self.buf();
        let ghost i0 = self.at();
        let n: usize = count as usize;
        let mut out: Vec<ElementValue> = Vec::new();
        let mut k: usize = 0;
        proof {
            lemma_cont_empty(sp_element_value_items(s, i0, n as int, depth));
            assert(element_values_view(out@) =~= Seq::<ElementValueV>::empty());
        }
        while k < n
            invariant
                self.wf(),
                self.buf() == s,
                s == old(self).buf(),
                i0 == old(self).at(),
                n == count as usize,
                k <= n,
                out@.len() == k,
                sp_cont(element_values_view(out@), sp_element_value_items(s, self.at(), n - k, depth)) == sp_element_value_items(
                    s,
                    i0,
                    n as int, depth,
                ),
            decreases n - k,
        {
            let ghost pos_before = self.at();
            let ghost prev = element_values_view(out@);
            match self.parse_element_value(depth) {
                Ok(item) => {
                    proof {
                        assert(sp_element_value_items(s, pos_before, n - k, depth) == sp_cont(
                            seq![item@],
                            sp_element_value_items(s, self.at(), n - k - 1, depth),
                        ));
                        lemma_cont_step(element_values_view(out@), item@, sp_element_value_items(s, self.at(), n - k - 1, depth));
                    }
                    out.push(item);
                    proof {
                        assert(element_values_view(out@) =~= prev.push(item@));
                    }
                    k = k + 1;
                },
                Err(e) => {
                    return Err(e);
                },
            }
        }
        proof {
            lemma_cont_nil(element_values_view(out@), self.at());
        }
        Ok(out)
    }

    /// Reads `count` records of this list.
    fn parse_parameter_annotations(&mut self, count: u8, depth: u8) -> (r: ParseResult<Vec<ParameterAnnotation>>)
        requires
            old(self).wf(),
        ensures
            final(self).wf(),
            final(self).buf() == old(self).buf(),
            match sp_parameter_annotation_items(old(self).buf(), old(self).at(), count as int, depth) {
                Ok((v, p)) => r matches Ok(out) && parameter_annotations_view(out@) == v && final(self).at() == p,
                Err(e) => r == Err::<Vec<ParameterAnnotation>, ParseError>(e),
            },
    {
        let ghost s = self.buf();
        let ghost i0 = self.at();
        let n: usize = count as usize;
        let mut out: Vec<ParameterAnnotation> = Vec::new();
        let mut k: usize = 0;
        proof {
            lemma_cont_empty(sp_parameter_annotation_items(s, i0, n as int, depth));
            assert(parameter_annotations_view(out@) =~= Seq::<ParameterAnnotationV>::empty());
        }
        while k < n
            invariant
                self.wf(),
                self.buf() == s,
                s == old(self).buf(),
                i0 == old(self).at(),
                n == count as usize,
                k <= n,
                out@.len() == k,
                sp_cont(parameter_annotations_view(out@), sp_parameter_annotation_items(s, self.at(), n - k, depth)) == sp_parameter_annotation_items(
                    s,
                    i0,
                    n as int, depth,
                ),
            decreases n - k,
        {
            let ghost pos_before = self.at();
            let ghost prev = parameter_annotations_view(out@);
            match self.parse_parameter_annotation(depth) {
                Ok(item) => {
                    proof {
                        assert(sp_parameter_annotation_items(s, pos_before, n - k, depth) == sp_cont(
                            seq![item@],
                            sp_parameter_annotation_items(s, self.at(), n - k - 1, depth),
                        ));
                        lemma_cont_step(parameter_annotations_view(out@), item@, sp_parameter_annotation_items(s, self.at(), n - k - 1, depth));
                    }
                    out.push(item);
                    proof {
                        assert(parameter_annotations_view(out@) =~= prev.push(item@));
                    }
                    k = k + 1;
                },
                Err(e) => {
                    return Err(e);
                },
            }
        }
        proof {
            lemma_cont_nil(parameter_annotations_view(out@), self.at());
        }
        Ok(out)
    }

    /// Reads `count` records of this list.
    fn parse_type_annotations(&mut self, count: u16, depth: u8) -> (r: ParseResult<Vec<TypeAnnotation>>)
        requires
            old(self).wf(),
        ensures
            final(self).wf(),
            final(self).buf() == old(self).buf(),
            match sp_type_annotation_items(old(self).buf(), old(self).at(), count as int, depth) {
                Ok((v, p)) => r matches Ok(out) && type_annotations_view(out@) == v && final(self).at() == p,
                Err(e) => r == Err::<Vec<TypeAnnotation>, ParseError>(e),
            },
    {
        let ghost s = self.buf();
        let ghost i0 = self.at();
        let n: usize = count as usize;
        let mut out: Vec<TypeAnnotation> = Vec::new();
        let mut k: usize = 0;
        proof {
            lemma_cont_empty(sp_type_annotation_items(s, i0, n as int, depth));
            assert(type_annotations_view(out@) =~= Seq::<TypeAnnotationV>::empty());
        }
        while k < n
            invariant
                self.wf(),
                self.buf() == s,
                s == old(self).buf(),
                i0 == old(self).at(),
                n == count as usize,
                k <= n,
                out@.len() == k,
                sp_cont(type_annotations_view(out@), sp_type_annotation_items(s, self.at(), n - k, depth)) == sp_type_annotation_items(
                    s,
                    i0,
                    n as int, depth,
                ),
            decreases n - k,
        {
            let ghost pos_before = self.at();
            let ghost prev = type_annotations_view(out@);
            match self.parse_type_annotation(depth) {
                Ok(item) => {
                    proof {
                        assert(sp_type_annotation_items(s, pos_before, n - k, depth) == sp_cont(
                            seq![item@],
                            sp_type_annotation_items(s, self.at(), n - k - 1, depth),
                        ));
                        lemma_cont_step(type_annotations_view(out@), item@, sp_type_annotation_items(s, self.at(), n - k - 1, depth));
                    }
                    out.push(item);
                    proof {
                        assert(type_annotations_view(out@) =~= prev.push(item@));
                    }
                    k = k + 1;
                },
                Err(e) => {
                    return Err(e);
                },
            }
        }
        proof {
            lemma_cont_nil(type_annotations_view(out@), self.at());
        }
        Ok(out)
    }
}


impl ClassFileParser {
    /// Reads one verification-type entry.
    fn parse_verification_type_info(&mut self) -> (r: ParseResult<VerificationTypeInfo>)
        requires
            old(self).wf(),
        ensures
            final(self).wf(),
            final(self).buf() == old(self).buf(),
            match sp_verification_type_info(old(self).buf(), old(self).at()) {
                Ok((v, p)) => r matches Ok(c) && c == v && final(self).at() == p,
                Err(e) => r == Err::<VerificationTypeInfo, ParseError>(e),
            },
    {
        let tag = self.next_u1()?;
        if tag == 0 {
            Ok(VerificationTypeInfo::TopVariableInfo { tag })
        } else if tag == 1 {
            Ok(VerificationTypeInfo::IntegerVariableInfo { tag })
        } else if tag == 2 {
            Ok(VerificationTypeInfo::FloatVariableInfo { tag })
        } else if tag == 3 {
            Ok(VerificationTypeInfo::DoubleVariableInfo { tag })
        } else if tag == 4 {
            Ok(VerificationTypeInfo::LongVariableInfo { tag })
        } else if tag == 5 {
            Ok(VerificationTypeInfo::NullVariableInfo { tag })
        } else if tag == 6 {
            Ok(VerificationTypeInfo::UninitializedThisVariableInfo { tag })
        } else if tag == 7 {
            let cpool_index = self.next_u2()?;
            Ok(VerificationTypeInfo::ObjectVariableInfo { tag, cpool_index })
        } else if tag == 8 {
            let offset = self.next_u2()?;
            Ok(VerificationTypeInfo::UninitializedVariableInfo { tag, offset })
        } else {
            Err(ParseError::UnknownVerificationTypeTag)
        }
    }

    /// Reads one stack-map frame.
    fn parse_stack_map_frame(&mut self) -> (r: ParseResult<StackMapFrame>)
        requires
            old(self).wf(),
        ensures
            final(self).wf(),
            final(self).buf() == old(self).buf(),
            match sp_stack_map_frame(old(self).buf(), old(self).at()) {
                Ok((v, p)) => r matches Ok(c) && c@ == v && final(self).at() == p,
                Err(e) => r == Err::<StackMapFrame, ParseError>(e),
            },
    {
        let frame_type = self.next_u1()?;
        if frame_type <= 63 {
            Ok(StackMapFrame::SameFrame { frame_type })
        } else if frame_type <= 127 {
            let stack = self.parse_verification_type_info()?;
            Ok(StackMapFrame::SameLocals1StackItemFrame { frame_type, stack })
        } else if frame_type == 247 {
            let offset_delta = self.next_u2()?;
            let stack = self.parse_verification_type_info()?;
            Ok(StackMapFrame::SameLocals1StackItemFrameExtended { frame_type, offset_delta, stack })
        } else if 248 <= frame_type && frame_type <= 250 {
            let offset_delta = self.next_u2()?;
            Ok(StackMapFrame::ChopFrame { frame_type, offset_delta })
        } else if frame_type == 251 {
            let offset_delta = self.next_u2()?;
            Ok(StackMapFrame::SameFrameExtended { frame_type, offset_delta })
        } else if 252 <= frame_type && frame_type <= 254 {
            let offset_delta = self.next_u2()?;
            let locals = self.parse_vti_list((frame_type - 251) as u16)?;
            Ok(StackMapFrame::AppendFrame { frame_type, offset_delta, locals })
        } else if frame_type == 255 {
            let offset_delta = self.next_u2()?;
            let number_of_locals = self.next_u2()?;
            let locals = self.parse_vti_list(number_of_locals)?;
            let number_of_stack_items = self.next_u2()?;
            let stack = self.parse_vti_list(number_of_stack_items)?;
            Ok(StackMapFrame::FullFrame {
                frame_type,
                offset_delta,
                number_of_locals,
                locals,
                number_of_stack_items,
                stack,
            })
        } else {
            Err(ParseError::UnknownStackMapFrameType)
        }
    }

    /// Reads one annotation.
    fn parse_annotation(&mut self, depth: u8) -> (r: ParseResult<Annotation>)
        requires
            old(self).wf(),
        ensures
            final(self).wf(),
            final(self).buf() == old(self).buf(),
            match sp_annotation(old(self).buf(), old(self).at(), depth) {
                Ok((v, p)) => r matches Ok(c) && c@ == v && final(self).at() == p,
                Err(e) => r == Err::<Annotation, ParseError>(e),
            },
        decreases depth, 3int, 0int,
    {
        let type_index = self.next_u2()?;
        let num_element_value_pairs = self.next_u2()?;
        let element_value_pairs = self.parse_element_value_pairs(num_element_value_pairs, depth)?;
        Ok(Annotation { type_index, num_element_value_pairs, element_value_pairs })
    }

    /// Reads `count` element-value pairs.
    fn parse_element_value_pairs(&mut self, count: u16, depth: u8) -> (r: ParseResult<
        Vec<ElementValuePair>,
    >)
        requires
            old(self).wf(),
        ensures
            final(self).wf(),
            final(self).buf() == old(self).buf(),
            match sp_element_value_pair_items(old(self).buf(), old(self).at(), count as int, depth) {
                Ok((v, p)) => r matches Ok(out) && element_value_pairs_view(out@) == v
                    && final(self).at() == p,
                Err(e) => r == Err::<Vec<ElementValuePair>, ParseError>(e),
            },
        decreases depth, 2int, count,
    {
        let ghost s = self.buf();
        let ghost i0 = self.at();
        let n: usize = count as usize;
        let mut out: Vec<ElementValuePair> = Vec::new();
        let mut k: usize = 0;
        proof {
            lemma_cont_empty(sp_element_value_pair_items(s, i0, n as int, depth));
            assert(element_value_pairs_view(out@) =~= Seq::<ElementValuePairV>::empty());
        }
        while k < n
            invariant
                self.wf(),
                self.buf() == s,
                s == old(self).buf(),
                i0 == old(self).at(),
                n == count as usize,
                k <= n,
                out@.len() == k,
                sp_cont(
                    element_value_pairs_view(out@),
                    sp_element_value_pair_items(s, self.at(), n - k, depth),
                ) == sp_element_value_pair_items(s, i0, n as int, depth),
            decreases n - k,
        {
            let ghost pos_before = self.at();
            let ghost prev = element_value_pairs_view(out@);
            let element_name_index = match self.next_u2() {
                Ok(v) => v,
                Err(e) => {
                    return Err(e);
                },
            };
            let value = match self.parse_element_value(depth) {
                Ok(v) => v,
                Err(e) => {
                    return Err(e);
                },
            };
            let item = ElementValuePair { element_name_index, value };
            proof {
                assert(sp_element_value_pair_items(s, pos_before, n - k, depth) == sp_cont(
                    seq![item@],
                    sp_element_value_pair_items(s, self.at(), n - k - 1, depth),
                ));
                lemma_cont_step(
                    element_value_pairs_view(out@),
                    item@,
                    sp_element_value_pair_items(s, self.at(), n - k - 1, depth),
                );
            }
            out.push(item);
            proof {
                assert(element_value_pairs_view(out@) =~= prev.push(item@));
            }
            k = k + 1;
        }
        proof {
            lemma_cont_nil(element_value_pairs_view(out@), self.at());
        }
        Ok(out)
    }

    /// Reads one element value.
    fn parse_element_value(&mut self, depth: u8) -> (r: ParseResult<ElementValue>)
        requires
            old(self).wf(),
        ensures
            final(self).wf(),
            final(self).buf() == old(self).buf(),
            match sp_element_value(old(self).buf(), old(self).at(), depth) {
                Ok((v, p)) => r matches Ok(c) && c@ == v && final(self).at() == p,
                Err(e) => r == Err::<ElementValue, ParseError>(e),
            },
        decreases depth, 1int, 0int,
    {
        let tag = self.next_u1()?;
        let value: ElementValueValue = if tag == 'B' as u8 || tag == 'C' as u8 || tag == 'D' as u8
            || tag == 'F' as u8 || tag == 'I' as u8 || tag == 'J' as u8 || tag == 'S' as u8 || tag
            == 'Z' as u8 || tag == 's' as u8 {
            ElementValueValue::ConstValueIndex { const_value_index: self.next_u2()? }
        } else if tag == 'e' as u8 {
            let type_name_index = self.next_u2()?;
            let const_name_index = self.next_u2()?;
            ElementValueValue::EnumConstValue { type_name_index, const_name_index }
        } else if tag == 'c' as u8 {
            ElementValueValue::ClassInfoIndex { class_info_index: self.next_u2()? }
        } else if tag == '@' as u8 {
            if depth == 0 {
                return Err(ParseError::NestingLimitExceeded);
            }
            let annotation_value = self.parse_annotation(depth - 1)?;
            ElementValueValue::AnnotationValue { annotation_value }
        } else if tag == '[' as u8 {
            if depth == 0 {
                return Err(ParseError::NestingLimitExceeded);
            }
            let num_values = self.next_u2()?;
            let values = self.parse_element_values(num_values, depth - 1)?;
            ElementValueValue::ArrayValue { num_values, values }
        } else {
            return Err(ParseError::UnknownElementValueTag);
        };
        Ok(ElementValue { tag, value })
    }

    /// Reads one parameter-annotation list.
    fn parse_parameter_annotation(&mut self, depth: u8) -> (r: ParseResult<ParameterAnnotation>)
        requires
            old(self).wf(),
        ensures
            final(self).wf(),
            final(self).buf() == old(self).buf(),
            match sp_parameter_annotation(old(self).buf(), old(self).at(), depth) {
                Ok((v, p)) => r matches Ok(c) && c@ == v && final(self).at() == p,
                Err(e) => r == Err::<ParameterAnnotation, ParseError>(e),
            },
    {
        let num_annotations = self.next_u2()?;
        let annotations = self.parse_annotations(num_annotations, depth)?;
        Ok(ParameterAnnotation { num_annotations, annotations })
    }

    /// Reads the target info of a type annotation.
    fn parse_type_annotation_target(&mut self, target_type: u8) -> (r: ParseResult<
        TypeAnnotationTargetInfo,
    >)
        requires
            old(self).wf(),
        ensures
            final(self).wf(),
            final(self).buf() == old(self).buf(),
            match sp_type_annotation_target(old(self).buf(), old(self).at(), target_type) {
                Ok((v, p)) => r matches Ok(c) && c@ == v && final(self).at() == p,
                Err(e) => r == Err::<TypeAnnotationTargetInfo, ParseError>(e),
            },
    {
        if target_type == 0x00 || target_type == 0x01 {
            let type_parameter_index = self.next_u1()?;
            Ok(TypeAnnotationTargetInfo::TypeParameterTarget { type_parameter_index })
        } else if target_type == 0x10 {
            let supertype_index = self.next_u2()?;
            Ok(TypeAnnotationTargetInfo::SupertypeTarget { supertype_index })
        } else if target_type == 0x11 || target_type == 0x12 {
            let type_parameter_index = self.next_u1()?;
            let bound_index = self.next_u1()?;
            Ok(TypeAnnotationTargetInfo::TypeParameterBoundTarget {
                type_parameter_index,
                bound_index,
            })
        } else if 0x13 <= target_type && target_type <= 0x15 {
            Ok(TypeAnnotationTargetInfo::EmptyTarget)
        } else if target_type == 0x16 {
            let formal_parameter_index = self.next_u1()?;
            Ok(TypeAnnotationTargetInfo::FormalParameterTarget { formal_parameter_index })
        } else if target_type == 0x17 {
            let throws_type_index = self.next_u2()?;
            Ok(TypeAnnotationTargetInfo::ThrowsTarget { throws_type_index })
        } else if target_type == 0x40 || target_type == 0x41 {
            let table_length = self.next_u2()?;
            let table = self.parse_local_var_target_table(table_length)?;
            Ok(TypeAnnotationTargetInfo::LocalVarTarget { table_length, table })
        } else if target_type == 0x42 {
            let catch_index = self.next_u2()?;
            Ok(TypeAnnotationTargetInfo::CatchTarget { catch_index })
        } else if 0x43 <= target_type && target_type <= 0x46 {
            let offset = self.next_u2()?;
            Ok(TypeAnnotationTargetInfo::OffsetTarget { offset })
        } else if 0x47 <= target_type && target_type <= 0x4B {
            let offset = self.next_u2()?;
            let type_argument_index = self.next_u1()?;
            Ok(TypeAnnotationTargetInfo::TypeArgumentTarget { offset, type_argument_index })
        } else {
            Err(ParseError::UnknownTypeAnnotationTargetType)
        }
    }

    /// Reads one type annotation.
    fn parse_type_annotation(&mut self, depth: u8) -> (r: ParseResult<TypeAnnotation>)
        requires
            old(self).wf(),
        ensures
            final(self).wf(),
            final(self).buf() == old(self).buf(),
            match sp_type_annotation(old(self).buf(), old(self).at(), depth) {
                Ok((v, p)) => r matches Ok(c) && c@ == v && final(self).at() == p,
                Err(e) => r == Err::<TypeAnnotation, ParseError>(e),
            },
    {
        let target_type = self.next_u1()?;
        let target_info = self.parse_type_annotation_target(target_type)?;
        let path_length = self.next_u1()?;
        let path = self.parse_type_path_segments(path_length)?;
        let target_path = TypeAnnotationTypePath { path_length, path };
        let type_index = self.next_u2()?;
        let num_element_value_pairs = self.next_u2()?;
        let element_value_pairs = self.parse_element_value_pairs(num_element_value_pairs, depth)?;
        Ok(TypeAnnotation {
            target_type,
            target_info,
            target_path,
            type_index,
            num_element_value_pairs,
            element_value_pairs,
        })
    }
}


// ---- attribute records ----

/// Decodes one attribute record: name index, declared length, payload.
pub open spec fn sp_attribute(s: Seq<u8>, pool: Seq<CpInfoV>, i: int, depth: u8) -> ParseResult<
    (AttributeInfoV, int),
>
    decreases depth, 2int, 0int,
{
    match sp_u2(s, i) {
        Err(e) => Err(e),
        Ok((attribute_name_index, j)) => match sp_u4(s, j) {
            Err(e) => Err(e),
            Ok((attribute_length, k)) => match cp_entry(pool, attribute_name_index) {
                None => Err(ParseError::InvalidConstantPoolIndex),
                Some(entry) => match entry.info {
                    CpInfoTypeV::ConstantUtf8 { bytes, .. } => match sp_attr_payload(
                        s,
                        pool,
                        k,
                        sp_attr_kind(bytes),
                        attribute_length,
                        depth,
                    ) {
                        Err(e) => Err(e),
                        Ok((info, l)) => Ok(
                            (AttributeInfoV { attribute_name_index, attribute_length, info }, l),
                        ),
                    },
                    _ => Err(ParseError::UnknownAttributeName),
                },
            },
        },
    }
}

/// Decodes `n` attribute records.
pub open spec fn sp_attribute_items(s: Seq<u8>, pool: Seq<CpInfoV>, i: int, n: int, depth: u8) -> ParseResult<
    (Seq<AttributeInfoV>, int),
>
    decreases depth, 3int, n,
{
    if n <= 0 {
        Ok((Seq::empty(), i))
    } else {
        match sp_attribute(s, pool, i, depth) {
            Err(e) => Err(e),
            Ok((v, j)) => sp_cont(seq![v], sp_attribute_items(s, pool, j, n - 1, depth)),
        }
    }
}

/// Decodes `n` record components, each with its own attribute list.
pub open spec fn sp_record_component_items(
    s: Seq<u8>,
    pool: Seq<CpInfoV>,
    i: int,
    n: int,
    depth: u8,
) -> ParseResult<(Seq<RecordComponentInfoV>, int)>
    decreases depth, 0int, n,
{
    if n <= 0 {
        Ok((Seq::empty(), i))
    } else {
        match sp_u2(s, i) {
            Err(e) => Err(e),
            Ok((name_index, j)) => match sp_u2(s, j) {
                Err(e) => Err(e),
                Ok((descriptor_index, k)) => match sp_u2(s, k) {
                    Err(e) => Err(e),
                    Ok((attributes_count, l)) => {
                        if depth == 0 {
                            Err(ParseError::NestingLimitExceeded)
                        } else {
                            match sp_attribute_items(
                                s,
                                pool,
                                l,
                                attributes_count as int,
                                (depth - 1) as u8,
                            ) {
                                Err(e) => Err(e),
                                Ok((attributes, m)) => sp_cont(
                                    seq![
                                        RecordComponentInfoV {
                                            name_index,
                                            descriptor_index,
                                            attributes_count,
                                            attributes,
                                        },
                                    ],
                                    sp_record_component_items(s, pool, m, n - 1, depth),
                                ),
                            }
                        }
                    },
                },
            },
        }
    }
}

/// Decodes the payload of an attribute of the given kind; `attribute_length`
/// only matters for the raw-blob payload, whose size it declares.
pub open spec fn sp_attr_payload(
    s: Seq<u8>,
    pool: Seq<CpInfoV>,
    i: int,
    kind: AttrKind,
    attribute_length: u32,
    depth: u8,
) -> ParseResult<(AttributeInfoTypeV, int)>
    decreases depth, 1int, 0int,
{
    if kind == AttrKind::ConstantValue {
        match sp_u2(s, i) {
            Err(e) => Err(e),
            Ok((constantvalue_index, p1)) => {
                Ok((AttributeInfoTypeV::ConstantValueAttribute { constantvalue_index }, p1))
            },
        }
    } else if kind == AttrKind::Code {
        match sp_u2(s, i) {
            Err(e) => Err(e),
            Ok((max_stack, p1)) => {
                match sp_u2(s, p1) {
                    Err(e) => Err(e),
                    Ok((max_locals, p2)) => {
                        match sp_u4(s, p2) {
                            Err(e) => Err(e),
                            Ok((code_length, p3)) => {
                                match sp_bytes(s, p3, code_length as int) {
                                    Err(e) => Err(e),
                                    Ok((code, p4)) => {
                                        match sp_u2(s, p4) {
                                            Err(e) => Err(e),
                                            Ok((exception_table_length, p5)) => {
                                                match sp_exception_table_entry_items(s, p5, exception_table_length as int) {
                                                    Err(e) => Err(e),
                                                    Ok((exception_table, p6)) => {
                                                        match sp_u2(s, p6) {
                                                            Err(e) => Err(e),
                                                            Ok((attributes_count, p7)) => {
                                                                if depth == 0 {
                                                                    Err(ParseError::NestingLimitExceeded)
                                                                } else {
                                                                    match sp_attribute_items(s, pool, p7, attributes_count as int, (depth - 1) as u8) {
                                                                        Err(e) => Err(e),
                                                                        Ok((attributes, p9)) => {
                                                                            Ok((AttributeInfoTypeV::CodeAttribute { max_stack, max_locals, code_length, code, exception_table_length, exception_table, attributes_count, attributes }, p9))
                                                                        },
                                                                    }
                                                                }
                                                            },
                                                        }
                                                    },
                                                }
                                            },
                                        }
                                    },
                                }
                            },
                        }
                    },
                }
            },
        }
    } else if kind == AttrKind::StackMapTable {
        match sp_u2(s, i) {
            Err(e) => Err(e),
            Ok((number_of_entries, p1)) => {
                match sp_stack_map_frame_items(s, p1, number_of_entries as int) {
                    Err(e) => Err(e),
                    Ok((stack_map_table, p2)) => {
                        Ok((AttributeInfoTypeV::StackMapTableAttribute { number_of_entries, stack_map_table }, p2))
                    },
                }
            },
        }
    } else if kind == AttrKind::Exceptions {
        match sp_u2(s, i) {
            Err(e) => Err(e),
            Ok((number_of_exceptions, p1)) => {
                match sp_u2_items(s, p1, number_of_exceptions as int) {
                    Err(e) => Err(e),
                    Ok((exception_index_table, p2)) => {
                        Ok((AttributeInfoTypeV::ExceptionsAttribute { number_of_exceptions, exception_index_table }, p2))
                    },
                }
            },
        }
    } else if kind == AttrKind::InnerClasses {
        match sp_u2(s, i) {
            Err(e) => Err(e),
            Ok((number_of_classes, p1)) => {
                match sp_inner_class_items(s, p1, number_of_classes as int) {
                    Err(e) => Err(e),
                    Ok((classes, p2)) => {
                        Ok((AttributeInfoTypeV::InnerClassesAttribute { number_of_classes, classes }, p2))
                    },
                }
            },
        }
    } else if kind == AttrKind::EnclosingMethod {
        match sp_u2(s, i) {
            Err(e) => Err(e),
            Ok((class_index, p1)) => {
                match sp_u2(s, p1) {
                    Err(e) => Err(e),
                    Ok((method_index, p2)) => {
                        Ok((AttributeInfoTypeV::EnclosingMethodAttribute { class_index, method_index }, p2))
                    },
                }
            },
        }
    } else if kind == AttrKind::Synthetic {
        Ok((AttributeInfoTypeV::SyntheticAttribute, i))
    } else if kind == AttrKind::Signature {
        match sp_u2(s, i) {
            Err(e) => Err(e),
            Ok((signature_index, p1)) => {
                Ok((AttributeInfoTypeV::SignatureAttribute { signature_index }, p1))
            },
        }
    } else if kind == AttrKind::SourceFile {
        match sp_u2(s, i) {
            Err(e) => Err(e),
            Ok((sourcefile_index, p1)) => {
                Ok((AttributeInfoTypeV::SourceFileAttribute { sourcefile_index }, p1))
            },
        }
    } else if kind == AttrKind::SourceDebugExtension {
        match sp_bytes(s, i, attribute_length as int) {
            Err(e) => Err(e),
            Ok((debug_extension, p1)) => {
                Ok((AttributeInfoTypeV::SourceDebugExtensionAttribute { debug_extension }, p1))
            },
        }
    } else if kind == AttrKind::LineNumberTable {
        match sp_u2(s, i) {
            Err(e) => Err(e),
            Ok((line_number_table_length, p1)) => {
                match sp_line_number_items(s, p1, line_number_table_length as int) {
                    Err(e) => Err(e),
                    Ok((line_number_table, p2)) => {
                        Ok((AttributeInfoTypeV::LineNumberTableAttribute { line_number_table_length, line_number_table }, p2))
                    },
                }
            },
        }
    } else if kind == AttrKind::LocalVariableTable {
        match sp_u2(s, i) {
            Err(e) => Err(e),
            Ok((local_variable_table_length, p1)) => {
                match sp_local_variable_items(s, p1, local_variable_table_length as int) {
                    Err(e) => Err(e),
                    Ok((local_variable_table, p2)) => {
                        Ok((AttributeInfoTypeV::LocalVariableTableAttribute { local_variable_table_length, local_variable_table }, p2))
                    },
                }
            },
        }
    } else if kind == AttrKind::LocalVariableTypeTable {
        match sp_u2(s, i) {
            Err(e) => Err(e),
            Ok((local_variable_type_table_length, p1)) => {
                match sp_local_variable_type_items(s, p1, local_variable_type_table_length as int) {
                    Err(e) => Err(e),
                    Ok((local_variable_type_table, p2)) => {
                        Ok((AttributeInfoTypeV::LocalVariableTypeTableAttribute { local_variable_type_table_length, local_variable_type_table }, p2))
                    },
                }
            },
        }
    } else if kind == AttrKind::Deprecated {
        Ok((AttributeInfoTypeV::DeprecatedAttribute, i))
    } else if kind == AttrKind::RuntimeVisibleAnnotations {
        match sp_u2(s, i) {
            Err(e) => Err(e),
            Ok((num_annotations, p1)) => {
                match sp_annotation_items(s, p1, num_annotations as int, depth) {
                    Err(e) => Err(e),
                    Ok((annotations, p2)) => {
                        Ok((AttributeInfoTypeV::RuntimeVisibleAnnotationsAttribute { num_annotations, annotations }, p2))
                    },
                }
            },
        }
    } else if kind == AttrKind::RuntimeInvisibleAnnotations {
        match sp_u2(s, i) {
            Err(e) => Err(e),
            Ok((num_annotations, p1)) => {
                match sp_annotation_items(s, p1, num_annotations as int, depth) {
                    Err(e) => Err(e),
                    Ok((annotations, p2)) => {
                        Ok((AttributeInfoTypeV::RuntimeInvisibleAnnotationsAttribute { num_annotations, annotations }, p2))
                    },
                }
            },
        }
    } else if kind == AttrKind::RuntimeVisibleParameterAnnotations {
        match sp_u1(s, i) {
            Err(e) => Err(e),
            Ok((num_parameters, p1)) => {
                match sp_parameter_annotation_items(s, p1, num_parameters as int, depth) {
                    Err(e) => Err(e),
                    Ok((parameter_annotations, p2)) => {
                        Ok((AttributeInfoTypeV::RuntimeVisibleParameterAnnotationsAttribute { num_parameters, parameter_annotations }, p2))
                    },
                }
            },
        }
    } else if kind == AttrKind::RuntimeInvisibleParameterAnnotations {
        match sp_u1(s, i) {
            Err(e) => Err(e),
            Ok((num_parameters, p1)) => {
                match sp_parameter_annotation_items(s, p1, num_parameters as int, depth) {
                    Err(e) => Err(e),
                    Ok((parameter_annotations, p2)) => {
                        Ok((AttributeInfoTypeV::RuntimeInvisibleParameterAnnotationsAttribute { num_parameters, parameter_annotations }, p2))
                    },
                }
            },
        }
    } else if kind == AttrKind::RuntimeVisibleTypeAnnotations {
        match sp_u2(s, i) {
            Err(e) => Err(e),
            Ok((num_annotations, p1)) => {
                match sp_type_annotation_items(s, p1, num_annotations as int, depth) {
                    Err(e) => Err(e),
                    Ok((annotations, p2)) => {
                        Ok((AttributeInfoTypeV::RuntimeVisibleTypeAnnotationsAttribute { num_annotations, annotations }, p2))
                    },
                }
            },
        }
    } else if kind == AttrKind::RuntimeInvisibleTypeAnnotations {
        match sp_u2(s, i) {
            Err(e) => Err(e),
            Ok((num_annotations, p1)) => {
                match sp_type_annotation_items(s, p1, num_annotations as int, depth) {
                    Err(e) => Err(e),
                    Ok((annotations, p2)) => {
                        Ok((AttributeInfoTypeV::RuntimeInvisibleTypeAnnotationsAttribute { num_annotations, annotations }, p2))
                    },
                }
            },
        }
    } else if kind == AttrKind::AnnotationDefault {
        match sp_element_value(s, i, depth) {
            Err(e) => Err(e),
            Ok((default_value, p1)) => {
                Ok((AttributeInfoTypeV::AnnotationDefaultAttribute { default_value }, p1))
            },
        }
    } else if kind == AttrKind::BootstrapMethods {
        match sp_u2(s, i) {
            Err(e) => Err(e),
            Ok((num_bootstrap_methods, p1)) => {
                match sp_bootstrap_method_items(s, p1, num_bootstrap_methods as int) {
                    Err(e) => Err(e),
                    Ok((bootstrap_methods, p2)) => {
                        Ok((AttributeInfoTypeV::BootstrapMethodsAttribute { num_bootstrap_methods, bootstrap_methods }, p2))
                    },
                }
            },
        }
    } else if kind == AttrKind::MethodParameters {
        match sp_u1(s, i) {
            Err(e) => Err(e),
            Ok((parameters_count, p1)) => {
                match sp_method_parameter_items(s, p1, parameters_count as int) {
                    Err(e) => Err(e),
                    Ok((parameters, p2)) => {
                        Ok((AttributeInfoTypeV::MethodParametersAttribute { parameters_count, parameters }, p2))
                    },
                }
            },
        }
    } else if kind == AttrKind::Module {
        match sp_u2(s, i) {
            Err(e) => Err(e),
            Ok((module_name_index, p1)) => {
                match sp_u2(s, p1) {
                    Err(e) => Err(e),
                    Ok((module_flags, p2)) => {
                        match sp_u2(s, p2) {
                            Err(e) => Err(e),
                            Ok((module_version_index, p3)) => {
                                match sp_u2(s, p3) {
                                    Err(e) => Err(e),
                                    Ok((requires_count, p4)) => {
                                        match sp_module_require_items(s, p4, requires_count as int) {
                                            Err(e) => Err(e),
                                            Ok((requires_entries, p5)) => {
                                                match sp_u2(s, p5) {
                                                    Err(e) => Err(e),
                                                    Ok((exports_count, p6)) => {
                                                        match sp_module_export_items(s, p6, exports_count as int) {
                                                            Err(e) => Err(e),
                                                            Ok((exports, p7)) => {
                                                                match sp_u2(s, p7) {
                                                                    Err(e) => Err(e),
                                                                    Ok((opens_count, p8)) => {
                                                                        match sp_module_open_items(s, p8, opens_count as int) {
                                                                            Err(e) => Err(e),
                                                                            Ok((opens, p9)) => {
                                                                                match sp_u2(s, p9) {
                                                                                    Err(e) => Err(e),
                                                                                    Ok((uses_count, p10)) => {
                                                                                        match sp_u2_items(s, p10, uses_count as int) {
                                                                                            Err(e) => Err(e),
                                                                                            Ok((uses_index, p11)) => {
                                                                                                match sp_u2(s, p11) {
                                                                                                    Err(e) => Err(e),
                                                                                                    Ok((provides_count, p12)) => {
                                                                                                        match sp_module_provide_items(s, p12, provides_count as int) {
                                                                                                            Err(e) => Err(e),
                                                                                                            Ok((provides, p13)) => {
                                                                                                                Ok((AttributeInfoTypeV::ModuleAttribute { module_name_index, module_flags, module_version_index, requires_count, requires_entries, exports_count, exports, opens_count, opens, uses_count, uses_index, provides_count, provides }, p13))
                                                                                                            },
                                                                                                        }
                                                                                                    },
                                                                                                }
                                                                                            },
                                                                                        }
                                                                                    },
                                                                                }
                                                                            },
                                                                        }
                                                                    },
                                                                }
                                                            },
                                                        }
                                                    },
                                                }
                                            },
                                        }
                                    },
                                }
                            },
                        }
                    },
                }
            },
        }
    } else if kind == AttrKind::ModulePackages {
        match sp_u2(s, i) {
            Err(e) => Err(e),
            Ok((package_count, p1)) => {
                match sp_u2_items(s, p1, package_count as int) {
                    Err(e) => Err(e),
                    Ok((package_index, p2)) => {
                        Ok((AttributeInfoTypeV::ModulePackagesAttribute { package_count, package_index }, p2))
                    },
                }
            },
        }
    } else if kind == AttrKind::ModuleMainClass {
        match sp_u2(s, i) {
            Err(e) => Err(e),
            Ok((main_class_index, p1)) => {
                Ok((AttributeInfoTypeV::ModuleMainClassAttribute { main_class_index }, p1))
            },
        }
    } else if kind == AttrKind::NestHost {
        match sp_u2(s, i) {
            Err(e) => Err(e),
            Ok((host_class_index, p1)) => {
                Ok((AttributeInfoTypeV::NestHostAttribute { host_class_index }, p1))
            },
        }
    } else if kind == AttrKind::NestMembers {
        match sp_u2(s, i) {
            Err(e) => Err(e),
            Ok((number_of_classes, p1)) => {
                match sp_u2_items(s, p1, number_of_classes as int) {
                    Err(e) => Err(e),
                    Ok((classes, p2)) => {
                        Ok((AttributeInfoTypeV::NestMembersAttribute { number_of_classes, classes }, p2))
                    },
                }
            },
        }
    } else if kind == AttrKind::Record {
        match sp_u2(s, i) {
            Err(e) => Err(e),
            Ok((components_count, p1)) => {
                match sp_record_component_items(s, pool, p1, components_count as int, depth) {
                    Err(e) => Err(e),
                    Ok((components, p2)) => {
                        Ok((AttributeInfoTypeV::RecordAttribute { components_count, components }, p2))
                    },
                }
            },
        }
    } else if kind == AttrKind::PermittedSubclasses {
        match sp_u2(s, i) {
            Err(e) => Err(e),
            Ok((number_of_classes, p1)) => {
                match sp_u2_items(s, p1, number_of_classes as int) {
                    Err(e) => Err(e),
                    Ok((classes, p2)) => {
                        Ok((AttributeInfoTypeV::PermittedSubclassesAttribute { number_of_classes, classes }, p2))
                    },
                }
            },
        }
    } else {
        Err(ParseError::UnknownAttributeName)
    }
}

impl ClassFileParser {
    /// Reads one attribute record, resolving its name against the pool and
    /// dispatching on the resolved text.
    #[verifier::rlimit(100)]
    fn parse_attribute(&mut self, pool: &Vec<CpInfo>, depth: u8) -> (r: ParseResult<AttributeInfo>)
        requires
            old(self).wf(),
        ensures
            final(self).wf(),
            final(self).buf() == old(self).buf(),
            match sp_attribute(old(self).buf(), cp_infos_view(pool@), old(self).at(), depth) {
                Ok((v, p)) => r matches Ok(c) && c@ == v && final(self).at() == p,
                Err(e) => r == Err::<AttributeInfo, ParseError>(e),
            },
        decreases depth, 2int, 0int,
    {
        let attribute_name_index = self.next_u2()?;
        let attribute_length = self.next_u4()?;
        let name_entry = match pool.element_at(attribute_name_index) {
            Some(c) => c,
            None => {
                return Err(ParseError::InvalidConstantPoolIndex);
            },
        };
        let kind: AttrKind = match &name_entry.info {
            CpInfoType::ConstantUtf8 { bytes, .. } => attr_kind(bytes),
            _ => {
                return Err(ParseError::UnknownAttributeName);
            },
        };
        let info: AttributeInfoType =
        if kind == AttrKind::ConstantValue {
            let constantvalue_index = self.next_u2()?;
            AttributeInfoType::ConstantValueAttribute { constantvalue_index }
        } else if kind == AttrKind::Code {
            let max_stack = self.next_u2()?;
            let max_locals = self.next_u2()?;
            let code_length = self.next_u4()?;
            let code = self.next_u1_many(code_length as usize)?;
            let exception_table_length = self.next_u2()?;
            let exception_table = self.parse_exception_table(exception_table_length)?;
            let attributes_count = self.next_u2()?;
            if depth == 0 {
                return Err(ParseError::NestingLimitExceeded);
            }
            let attributes = self.parse_attributes(attributes_count, pool, depth - 1)?;
            AttributeInfoType::CodeAttribute { max_stack, max_locals, code_length, code, exception_table_length, exception_table, attributes_count, attributes }
        } else if kind == AttrKind::StackMapTable {
            let number_of_entries = self.next_u2()?;
            let stack_map_table = self.parse_stack_map_table(number_of_entries)?;
            AttributeInfoType::StackMapTableAttribute { number_of_entries, stack_map_table }
        } else if kind == AttrKind::Exceptions {
            let number_of_exceptions = self.next_u2()?;
            let exception_index_table = self.next_u2_many(number_of_exceptions as usize)?;
            AttributeInfoType::ExceptionsAttribute { number_of_exceptions, exception_index_table }
        } else if kind == AttrKind::InnerClasses {
            let number_of_classes = self.next_u2()?;
            let classes = self.parse_inner_classes(number_of_classes)?;
            AttributeInfoType::InnerClassesAttribute { number_of_classes, classes }
        } else if kind == AttrKind::EnclosingMethod {
            let class_index = self.next_u2()?;
            let method_index = self.next_u2()?;
            AttributeInfoType::EnclosingMethodAttribute { class_index, method_index }
        } else if kind == AttrKind::Synthetic {
            AttributeInfoType::SyntheticAttribute
        } else if kind == AttrKind::Signature {
            let signature_index = self.next_u2()?;
            AttributeInfoType::SignatureAttribute { signature_index }
        } else if kind == AttrKind::SourceFile {
            let sourcefile_index = self.next_u2()?;
            AttributeInfoType::SourceFileAttribute { sourcefile_index }
        } else if kind == AttrKind::SourceDebugExtension {
            let debug_extension = self.next_u1_many(attribute_length as usize)?;
            AttributeInfoType::SourceDebugExtensionAttribute { debug_extension }
        } else if kind == AttrKind::LineNumberTable {
            let line_number_table_length = self.next_u2()?;
            let line_number_table = self.parse_line_number_table(line_number_table_length)?;
            AttributeInfoType::LineNumberTableAttribute { line_number_table_length, line_number_table }
        } else if kind == AttrKind::LocalVariableTable {
            let local_variable_table_length = self.next_u2()?;
            let local_variable_table = self.parse_local_variable_table(local_variable_table_length)?;
            AttributeInfoType::LocalVariableTableAttribute { local_variable_table_length, local_variable_table }
        } else if kind == AttrKind::LocalVariableTypeTable {
            let local_variable_type_table_length = self.next_u2()?;
            let local_variable_type_table = self.parse_local_variable_type_table(local_variable_type_table_length)?;
            AttributeInfoType::LocalVariableTypeTableAttribute { local_variable_type_table_length, local_variable_type_table }
        } else if kind == AttrKind::Deprecated {
            AttributeInfoType::DeprecatedAttribute
        } else if kind == AttrKind::RuntimeVisibleAnnotations {
            let num_annotations = self.next_u2()?;
            let annotations = self.parse_annotations(num_annotations, depth)?;
            AttributeInfoType::RuntimeVisibleAnnotationsAttribute { num_annotations, annotations }
        } else if kind == AttrKind::RuntimeInvisibleAnnotations {
            let num_annotations = self.next_u2()?;
            let annotations = self.parse_annotations(num_annotations, depth)?;
            AttributeInfoType::RuntimeInvisibleAnnotationsAttribute { num_annotations, annotations }
        } else if kind == AttrKind::RuntimeVisibleParameterAnnotations {
            let num_parameters = self.next_u1()?;
            let parameter_annotations = self.parse_parameter_annotations(num_parameters, depth)?;
            AttributeInfoType::RuntimeVisibleParameterAnnotationsAttribute { num_parameters, parameter_annotations }
        } else if kind == AttrKind::RuntimeInvisibleParameterAnnotations {
            let num_parameters = self.next_u1()?;
            let parameter_annotations = self.parse_parameter_annotations(num_parameters, depth)?;
            AttributeInfoType::RuntimeInvisibleParameterAnnotationsAttribute { num_parameters, parameter_annotations }
        } else if kind == AttrKind::RuntimeVisibleTypeAnnotations {
            let num_annotations = self.next_u2()?;
            let annotations = self.parse_type_annotations(num_annotations, depth)?;
            AttributeInfoType::RuntimeVisibleTypeAnnotationsAttribute { num_annotations, annotations }
        } else if kind == AttrKind::RuntimeInvisibleTypeAnnotations {
            let num_annotations = self.next_u2()?;
            let annotations = self.parse_type_annotations(num_annotations, depth)?;
            AttributeInfoType::RuntimeInvisibleTypeAnnotationsAttribute { num_annotations, annotations }
        } else if kind == AttrKind::AnnotationDefault {
            let default_value = self.parse_element_value(depth)?;
            AttributeInfoType::AnnotationDefaultAttribute { default_value }
        } else if kind == AttrKind::BootstrapMethods {
            let num_bootstrap_methods = self.next_u2()?;
            let bootstrap_methods = self.parse_bootstrap_methods(num_bootstrap_methods)?;
            AttributeInfoType::BootstrapMethodsAttribute { num_bootstrap_methods, bootstrap_methods }
        } else if kind == AttrKind::MethodParameters {
            let parameters_count = self.next_u1()?;
            let parameters = self.parse_method_parameters(parameters_count)?;
            AttributeInfoType::MethodParametersAttribute { parameters_count, parameters }
        } else if kind == AttrKind::Module {
            let module_name_index = self.next_u2()?;
            let module_flags = self.next_u2()?;
            let module_version_index = self.next_u2()?;
            let requires_count = self.next_u2()?;
            let requires_entries = self.parse_module_requires(requires_count)?;
            let exports_count = self.next_u2()?;
            let exports = self.parse_module_exports(exports_count)?;
            let opens_count = self.next_u2()?;
            let opens = self.parse_module_opens(opens_count)?;
            let uses_count = self.next_u2()?;
            let uses_index = self.next_u2_many(uses_count as usize)?;
            let provides_count = self.next_u2()?;
            let provides = self.parse_module_provides(provides_count)?;
            AttributeInfoType::ModuleAttribute { module_name_index, module_flags, module_version_index, requires_count, requires_entries, exports_count, exports, opens_count, opens, uses_count, uses_index, provides_count, provides }
        } else if kind == AttrKind::ModulePackages {
            let package_count = self.next_u2()?;
            let package_index = self.next_u2_many(package_count as usize)?;
            AttributeInfoType::ModulePackagesAttribute { package_count, package_index }
        } else if kind == AttrKind::ModuleMainClass {
            let main_class_index = self.next_u2()?;
            AttributeInfoType::ModuleMainClassAttribute { main_class_index }
        } else if kind == AttrKind::NestHost {
            let host_class_index = self.next_u2()?;
            AttributeInfoType::NestHostAttribute { host_class_index }
        } else if kind == AttrKind::NestMembers {
            let number_of_classes = self.next_u2()?;
            let classes = self.next_u2_many(number_of_classes as usize)?;
            AttributeInfoType::NestMembersAttribute { number_of_classes, classes }
        } else if kind == AttrKind::Record {
            let components_count = self.next_u2()?;
            let components = self.parse_record_components(components_count, pool, depth)?;
            AttributeInfoType::RecordAttribute { components_count, components }
        } else if kind == AttrKind::PermittedSubclasses {
            let number_of_classes = self.next_u2()?;
            let classes = self.next_u2_many(number_of_classes as usize)?;
            AttributeInfoType::PermittedSubclassesAttribute { number_of_classes, classes }
        } else {
            return Err(ParseError::UnknownAttributeName);
        };
        Ok(AttributeInfo { attribute_name_index, attribute_length, info })
    }
}


impl ClassFileParser {
    /// Reads `count` attribute records.
    fn parse_attributes(&mut self, count: u16, pool: &Vec<CpInfo>, depth: u8) -> (r: ParseResult<
        Vec<AttributeInfo>,
    >)
        requires
            old(self).wf(),
        ensures
            final(self).wf(),
            final(self).buf() == old(self).buf(),
            match sp_attribute_items(
                old(self).buf(),
                cp_infos_view(pool@),
                old(self).at(),
                count as int,
                depth,
            ) {
                Ok((v, p)) => r matches Ok(out) && attributes_view(out@) == v && final(self).at()
                    == p,
                Err(e) => r == Err::<Vec<AttributeInfo>, ParseError>(e),
            },
        decreases depth, 3int, count,
    {
        let ghost s = self.buf();
        let ghost i0 = self.at();
        let ghost pv = cp_infos_view(pool@);
        let n: usize = count as usize;
        let mut out: Vec<AttributeInfo> = Vec::new();
        let mut k: usize = 0;
        proof {
            lemma_cont_empty(sp_attribute_items(s, pv, i0, n as int, depth));
            assert(attributes_view(out@) =~= Seq::<AttributeInfoV>::empty());
        }
        while k < n
            invariant
                self.wf(),
                self.buf() == s,
                s == old(self).buf(),
                i0 == old(self).at(),
                pv == cp_infos_view(pool@),
                n == count as usize,
                k <= n,
                out@.len() == k,
                sp_cont(attributes_view(out@), sp_attribute_items(s, pv, self.at(), n - k, depth))
                    == sp_attribute_items(s, pv, i0, n as int, depth),
            decreases n - k,
        {
            let ghost pos_before = self.at();
            let ghost prev = attributes_view(out@);
            match self.parse_attribute(pool, depth) {
                Ok(item) => {
                    proof {
                        assert(sp_attribute_items(s, pv, pos_before, n - k, depth) == sp_cont(
                            seq![item@],
                            sp_attribute_items(s, pv, self.at(), n - k - 1, depth),
                        ));
                        lemma_cont_step(
                            attributes_view(out@),
                            item@,
                            sp_attribute_items(s, pv, self.at(), n - k - 1, depth),
                        );
                    }
                    out.push(item);
                    proof {
                        assert(attributes_view(out@) =~= prev.push(item@));
                    }
                    k = k + 1;
                },
                Err(e) => {
                    return Err(e);
                },
            }
        }
        proof {
            lemma_cont_nil(attributes_view(out@), self.at());
        }
        Ok(out)
    }

    /// Reads `count` record components.
    fn parse_record_components(&mut self, count: u16, pool: &Vec<CpInfo>, depth: u8) -> (r:
        ParseResult<Vec<RecordComponentInfo>>)
        requires
            old(self).wf(),
        ensures
            final(self).wf(),
            final(self).buf() == old(self).buf(),
            match sp_record_component_items(
                old(self).buf(),
                cp_infos_view(pool@),
                old(self).at(),
                count as int,
                depth,
            ) {
                Ok((v, p)) => r matches Ok(out) && record_components_view(out@) == v
                    && final(self).at() == p,
                Err(e) => r == Err::<Vec<RecordComponentInfo>, ParseError>(e),
            },
        decreases depth, 0int, count,
    {
        let ghost s = self.buf();
        let ghost i0 = self.at();
        let ghost pv = cp_infos_view(pool@);
        let n: usize = count as usize;
        let mut out: Vec<RecordComponentInfo> = Vec::new();
        let mut k: usize = 0;
        proof {
            lemma_cont_empty(sp_record_component_items(s, pv, i0, n as int, depth));
            assert(record_components_view(out@) =~= Seq::<RecordComponentInfoV>::empty());
        }
        while k < n
            invariant
                self.wf(),
                self.buf() == s,
                s == old(self).buf(),
                i0 == old(self).at(),
                pv == cp_infos_view(pool@),
                n == count as usize,
                k <= n,
                out@.len() == k,
                sp_cont(
                    record_components_view(out@),
                    sp_record_component_items(s, pv, self.at(), n - k, depth),
                ) == sp_record_component_items(s, pv, i0, n as int, depth),
            decreases n - k,
        {
            let ghost pos_before = self.at();
            let ghost prev = record_components_view(out@);
            let name_index = match self.next_u2() {
                Ok(v) => v,
                Err(e) => {
                    return Err(e);
                },
            };
            let descriptor_index = match self.next_u2() {
                Ok(v) => v,
                Err(e) => {
                    return Err(e);
                },
            };
            let attributes_count = match self.next_u2() {
                Ok(v) => v,
                Err(e) => {
                    return Err(e);
                },
            };
            if depth == 0 {
                return Err(ParseError::NestingLimitExceeded);
            }
            let attributes = match self.parse_attributes(attributes_count, pool, depth - 1) {
                Ok(v) => v,
                Err(e) => {
                    return Err(e);
                },
            };
            let item = RecordComponentInfo {
                name_index,
                descriptor_index,
                attributes_count,
                attributes,
            };
            proof {
                assert(sp_record_component_items(s, pv, pos_before, n - k, depth) == sp_cont(
                    seq![item@],
                    sp_record_component_items(s, pv, self.at(), n - k - 1, depth),
                ));
                lemma_cont_step(
                    record_components_view(out@),
                    item@,
                    sp_record_component_items(s, pv, self.at(), n - k - 1, depth),
                );
            }
            out.push(item);
            proof {
                assert(record_components_view(out@) =~= prev.push(item@));
            }
            k = k + 1;
        }
        proof {
            lemma_cont_nil(record_components_view(out@), self.at());
        }
        Ok(out)
    }
}


// ---- fields, methods, and the class file ----

/// Decodes `n` field records; each field's attribute list starts with the
/// full nesting budget.
pub open spec fn sp_field_items(s: Seq<u8>, pool: Seq<CpInfoV>, i: int, n: int) -> ParseResult<
    (Seq<FieldInfoV>, int),
>
    decreases n,
{
    if n <= 0 {
        Ok((Seq::empty(), i))
    } else {
        match sp_u2(s, i) {
            Err(e) => Err(e),
            Ok((access_flags, j)) => match sp_u2(s, j) {
                Err(e) => Err(e),
                Ok((name_index, k)) => match sp_u2(s, k) {
                    Err(e) => Err(e),
                    Ok((descriptor_index, l)) => match sp_u2(s, l) {
                        Err(e) => Err(e),
                        Ok((attributes_count, m)) => match sp_attribute_items(
                            s,
                            pool,
                            m,
                            attributes_count as int,
                            ATTRIBUTE_NESTING_LIMIT,
                        ) {
                            Err(e) => Err(e),
                            Ok((attributes, o)) => sp_cont(
                                seq![
                                    FieldInfoV {
                                        access_flags,
                                        name_index,
                                        descriptor_index,
                                        attributes_count,
                                        attributes,
                                    },
                                ],
                                sp_field_items(s, pool, o, n - 1),
                            ),
                        },
                    },
                },
            },
        }
    }
}

/// Decodes `n` method records; the record layout is the same as a field's.
pub open spec fn sp_method_items(s: Seq<u8>, pool: Seq<CpInfoV>, i: int, n: int) -> ParseResult<
    (Seq<MethodInfoV>, int),
>
    decreases n,
{
    if n <= 0 {
        Ok((Seq::empty(), i))
    } else {
        match sp_u2(s, i) {
            Err(e) => Err(e),
            Ok((access_flags, j)) => match sp_u2(s, j) {
                Err(e) => Err(e),
                Ok((name_index, k)) => match sp_u2(s, k) {
                    Err(e) => Err(e),
                    Ok((descriptor_index, l)) => match sp_u2(s, l) {
                        Err(e) => Err(e),
                        Ok((attributes_count, m)) => match sp_attribute_items(
                            s,
                            pool,
                            m,
                            attributes_count as int,
                            ATTRIBUTE_NESTING_LIMIT,
                        ) {
                            Err(e) => Err(e),
                            Ok((attributes, o)) => sp_cont(
                                seq![
                                    MethodInfoV {
                                        access_flags,
                                        name_index,
                                        descriptor_index,
                                        attributes_count,
                                        attributes,
                                    },
                                ],
                                sp_method_items(s, pool, o, n - 1),
                            ),
                        },
                    },
                },
            },
        }
    }
}

/// Decodes a whole class file at position `i`: the fixed top-level sequence
/// of header, constant pool, flags, class references, interfaces, fields,
/// methods, and attributes, in that exact order.  Trailing bytes after the
/// final attribute are ignored, as the length of each part is determined by
/// the declared counts alone.
pub open spec fn sp_class_file_at(s: Seq<u8>, i: int) -> ParseResult<(ClassFileV, int)> {
    match sp_magic(s, i) {
        Err(e) => Err(e),
        Ok((magic, p1)) => match sp_u2(s, p1) {
            Err(e) => Err(e),
            Ok((minor_version, p2)) => match sp_u2(s, p2) {
                Err(e) => Err(e),
                Ok((major_version, p3)) => match sp_u2(s, p3) {
                    Err(e) => Err(e),
                    Ok((constant_pool_count, p4)) => match sp_constant_pool(
                        s,
                        p4,
                        constant_pool_count,
                    ) {
                        Err(e) => Err(e),
                        Ok((constant_pool, p5)) => match sp_u2(s, p5) {
                            Err(e) => Err(e),
                            Ok((access_flags, p6)) => match sp_u2(s, p6) {
                                Err(e) => Err(e),
                                Ok((this_class, p7)) => match sp_u2(s, p7) {
                                    Err(e) => Err(e),
                                    Ok((super_class, p8)) => match sp_u2(s, p8) {
                                        Err(e) => Err(e),
                                        Ok((interfaces_count, p9)) => match sp_u2_items(
                                            s,
                                            p9,
                                            interfaces_count as int,
                                        ) {
                                            Err(e) => Err(e),
                                            Ok((interfaces, p10)) => match sp_u2(s, p10) {
                                                Err(e) => Err(e),
                                                Ok((fields_count, p11)) => match sp_field_items(
                                                    s,
                                                    constant_pool,
                                                    p11,
                                                    fields_count as int,
                                                ) {
                                                    Err(e) => Err(e),
                                                    Ok((fields, p12)) => match sp_u2(s, p12) {
                                                        Err(e) => Err(e),
                                                        Ok((methods_count, p13)) => match sp_method_items(
                                                            s,
                                                            constant_pool,
                                                            p13,
                                                            methods_count as int,
                                                        ) {
                                                            Err(e) => Err(e),
                                                            Ok((methods, p14)) => match sp_u2(
                                                                s,
                                                                p14,
                                                            ) {
                                                                Err(e) => Err(e),
                                                                Ok((attributes_count, p15)) => match sp_attribute_items(
                                                                    s,
                                                                    constant_pool,
                                                                    p15,
                                                                    attributes_count as int,
                                                                    ATTRIBUTE_NESTING_LIMIT,
                                                                ) {
                                                                    Err(e) => Err(e),
                                                                    Ok((attributes, p16)) => Ok(
                                                                        (
                                                                            ClassFileV {
                                                                                magic,
                                                                                minor_version,
                                                                                major_version,
                                                                                constant_pool_count,
                                                                                constant_pool,
                                                                                access_flags,
                                                                                this_class,
                                                                                super_class,
                                                                                interfaces_count,
                                                                                interfaces,
                                                                                fields_count,
                                                                                fields,
                                                                                methods_count,
                                                                                methods,
                                                                                attributes_count,
                                                                                attributes,
                                                                            },
                                                                            p16,
                                                                        ),
                                                                    ),
                                                                },
                                                            },
                                                        },
                                                    },
                                                },
                                            },
                                        },
                                    },
                                },
                            },
                        },
                    },
                },
            },
        },
    }
}

/// What decoding a byte buffer from its start yields: the decoded class
/// file, or the decode error.  This is the whole meaning of `parse`.
pub open spec fn sp_parse(s: Seq<u8>) -> ParseResult<ClassFileV> {
    match sp_class_file_at(s, 0) {
        Err(e) => Err(e),
        Ok((cf, _)) => Ok(cf),
    }
}

impl ClassFileParser {
    /// Reads `count` field records.
    fn parse_fields(&mut self, count: u16, pool: &Vec<CpInfo>) -> (r: ParseResult<Vec<FieldInfo>>)
        requires
            old(self).wf(),
        ensures
            final(self).wf(),
            final(self).buf() == old(self).buf(),
            match sp_field_items(old(self).buf(), cp_infos_view(pool@), old(self).at(), count as int) {
                Ok((v, p)) => r matches Ok(out) && field_infos_view(out@) == v
                    && final(self).at() == p,
                Err(e) => r == Err::<Vec<FieldInfo>, ParseError>(e),
            },
    {
        let ghost s = self.buf();
        let ghost i0 = self.at();
        let ghost pv = cp_infos_view(pool@);
        let n: usize = count as usize;
        let mut out: Vec<FieldInfo> = Vec::new();
        let mut k: usize = 0;
        proof {
            lemma_cont_empty(sp_field_items(s, pv, i0, n as int));
            assert(field_infos_view(out@) =~= Seq::<FieldInfoV>::empty());
        }
        while k < n
            invariant
                self.wf(),
                self.buf() == s,
                s == old(self).buf(),
                i0 == old(self).at(),
                pv == cp_infos_view(pool@),
                n == count as usize,
                k <= n,
                out@.len() == k,
                sp_cont(field_infos_view(out@), sp_field_items(s, pv, self.at(), n - k))
                    == sp_field_items(s, pv, i0, n as int),
            decreases n - k,
        {
            let ghost pos_before = self.at();
            let ghost prev = field_infos_view(out@);
            let access_flags = match self.next_u2() {
                Ok(v) => v,
                Err(e) => {
                    return Err(e);
                },
            };
            let name_index = match self.next_u2() {
                Ok(v) => v,
                Err(e) => {
                    return Err(e);
                },
            };
            let descriptor_index = match self.next_u2() {
                Ok(v) => v,
                Err(e) => {
                    return Err(e);
                },
            };
            let attributes_count = match self.next_u2() {
                Ok(v) => v,
                Err(e) => {
                    return Err(e);
                },
            };
            let attributes = match self.parse_attributes(
                attributes_count,
                pool,
                ATTRIBUTE_NESTING_LIMIT,
            ) {
                Ok(v) => v,
                Err(e) => {
                    return Err(e);
                },
            };
            let item = FieldInfo {
                access_flags,
                name_index,
                descriptor_index,
                attributes_count,
                attributes,
            };
            proof {
                assert(sp_field_items(s, pv, pos_before, n - k) == sp_cont(
                    seq![item@],
                    sp_field_items(s, pv, self.at(), n - k - 1),
                ));
                lemma_cont_step(
                    field_infos_view(out@),
                    item@,
                    sp_field_items(s, pv, self.at(), n - k - 1),
                );
            }
            out.push(item);
            proof {
                assert(field_infos_view(out@) =~= prev.push(item@));
            }
            k = k + 1;
        }
        proof {
            lemma_cont_nil(field_infos_view(out@), self.at());
        }
        Ok(out)
    }

    /// Reads `count` method records.
    fn parse_methods(&mut self, count: u16, pool: &Vec<CpInfo>) -> (r: ParseResult<
        Vec<MethodInfo>,
    >)
        requires
            old(self).wf(),
        ensures
            final(self).wf(),
            final(self).buf() == old(self).buf(),
            match sp_method_items(old(self).buf(), cp_infos_view(pool@), old(self).at(), count as int) {
                Ok((v, p)) => r matches Ok(out) && method_infos_view(out@) == v
                    && final(self).at() == p,
                Err(e) => r == Err::<Vec<MethodInfo>, ParseError>(e),
            },
    {
        let ghost s = self.buf();
        let ghost i0 = self.at();
        let ghost pv = cp_infos_view(pool@);
        let n: usize = count as usize;
        let mut out: Vec<MethodInfo> = Vec::new();
        let mut k: usize = 0;
        proof {
            lemma_cont_empty(sp_method_items(s, pv, i0, n as int));
            assert(method_infos_view(out@) =~= Seq::<MethodInfoV>::empty());
        }
        while k < n
            invariant
                self.wf(),
                self.buf() == s,
                s == old(self).buf(),
                i0 == old(self).at(),
                pv == cp_infos_view(pool@),
                n == count as usize,
                k <= n,
                out@.len() == k,
                sp_cont(method_infos_view(out@), sp_method_items(s, pv, self.at(), n - k))
                    == sp_method_items(s, pv, i0, n as int),
            decreases n - k,
        {
            let ghost pos_before = self.at();
            let ghost prev = method_infos_view(out@);
            let access_flags = match self.next_u2() {
                Ok(v) => v,
                Err(e) => {
                    return Err(e);
                },
            };
            let name_index = match self.next_u2() {
                Ok(v) => v,
                Err(e) => {
                    return Err(e);
                },
            };
            let descriptor_index = match self.next_u2() {
                Ok(v) => v,
                Err(e) => {
                    return Err(e);
                },
            };
            let attributes_count = match self.next_u2() {
                Ok(v) => v,
                Err(e) => {
                    return Err(e);
                },
            };
            let attributes = match self.parse_attributes(
                attributes_count,
                pool,
                ATTRIBUTE_NESTING_LIMIT,
            ) {
                Ok(v) => v,
                Err(e) => {
                    return Err(e);
                },
            };
            let item = MethodInfo {
                access_flags,
                name_index,
                descriptor_index,
                attributes_count,
                attributes,
            };
            proof {
                assert(sp_method_items(s, pv, pos_before, n - k) == sp_cont(
                    seq![item@],
                    sp_method_items(s, pv, self.at(), n - k - 1),
                ));
                lemma_cont_step(
                    method_infos_view(out@),
                    item@,
                    sp_method_items(s, pv, self.at(), n - k - 1),
                );
            }
            out.push(item);
            proof {
                assert(method_infos_view(out@) =~= prev.push(item@));
            }
            k = k + 1;
        }
        proof {
            lemma_cont_nil(method_infos_view(out@), self.at());
        }
        Ok(out)
    }

    /// Decodes the whole class file from the parser's current position.
    ///
    /// The result is exactly what `sp_class_file_at` says of the bytes: the
    /// decoded structure, with every declared count equal to the length of
    /// the list decoded under it, or the first decode failure.
    pub fn parse(&mut self) -> (r: ParseResult<ClassFile>)
        requires
            old(self).wf(),
        ensures
            final(self).wf(),
            final(self).buf() == old(self).buf(),
            match sp_class_file_at(old(self).buf(), old(self).at()) {
                Ok((v, p)) => r matches Ok(cf) && cf@ == v && final(self).at() == p,
                Err(e) => r == Err::<ClassFile, ParseError>(e),
            },
    {
        let magic = self.parse_magic()?;
        let minor_version = self.next_u2()?;
        let major_version = self.next_u2()?;
        let constant_pool_count = self.next_u2()?;
        let constant_pool = self.parse_constant_pool(constant_pool_count)?;
        let access_flags = self.next_u2()?;
        let this_class = self.next_u2()?;
        let super_class = self.next_u2()?;
        let interfaces_count = self.next_u2()?;
        let interfaces = self.parse_interfaces(interfaces_count)?;
        let fields_count = self.next_u2()?;
        let fields = self.parse_fields(fields_count, &constant_pool)?;
        let methods_count = self.next_u2()?;
        let methods = self.parse_methods(methods_count, &constant_pool)?;
        let attributes_count = self.next_u2()?;
        let attributes = self.parse_attributes(
            attributes_count,
            &constant_pool,
            ATTRIBUTE_NESTING_LIMIT,
        )?;
        Ok(ClassFile {
            magic,
            minor_version,
            major_version,
            constant_pool_count,
            constant_pool,
            access_flags,
            this_class,
            super_class,
            interfaces_count,
            interfaces,
            fields_count,
            fields,
            methods_count,
            methods,
            attributes_count,
            attributes,
        })
    }
}

// ---- what decoding guarantees ----

/// Decoding is deterministic: the same bytes always yield the same decoded
/// structure or the same failure, and the checker's verdict is likewise a
/// function of the decoded structure alone.
pub proof fn lemma_parse_deterministic(b1: Seq<u8>, b2: Seq<u8>)
    requires
        b1 == b2,
    ensures
        sp_parse(b1) == sp_parse(b2),
{
}

/// A buffer whose first four bytes are not the magic number always fails
/// with the invalid-magic condition, whatever the remaining bytes hold.
pub proof fn lemma_bad_magic_rejected(s: Seq<u8>)
    requires
        s.len() >= 4,
        !(s[0] == 0xCA && s[1] == 0xFE && s[2] == 0xBA && s[3] == 0xBE),
    ensures
        sp_parse(s) == Err::<ClassFileV, ParseError>(ParseError::InvalidMagic),
{
    let m = u4v(s, 0);
    let total = s[0] as int * 16777216 + s[1] as int * 65536 + s[2] as int * 256 + s[3] as int;
    assert(0 <= total);
    assert(total <= 0xFFFFFFFFint);
    assert(m as int == total);
    if m == 0xCAFEBABE {
        assert(s[1] as int * 65536 + s[2] as int * 256 + (s[3] as int) < 16777216);
        assert(s[2] as int * 256 + (s[3] as int) < 65536);
        assert(s[0] == 0xCA);
        assert(s[1] == 0xFE);
        assert(s[2] == 0xBA);
        assert(s[3] == 0xBE);
    }
}

} // verus!
