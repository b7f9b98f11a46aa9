//! Field and method descriptors.
//!
//! A descriptor is a compact string encoding a type: one of the single
//! letter primitive codes, `L<binary-name>;` for a reference type, and up
//! to 255 leading `[` characters for array dimensions.  A method descriptor
//! wraps a parameter list in parentheses and appends a return descriptor,
//! which may also be `V` for void.  The grammar is defined over the raw
//! bytes; every multi-byte character of a class name stays clear of the
//! ASCII delimiters, so byte-level parsing decodes the same descriptors.

use vstd::prelude::*;
use vstd::slice::slice_to_vec;

use crate::jstr::JStr;

verus! {

/// The bytes do not form a descriptor of the expected shape.
#[derive(Debug, PartialEq, Eq, Structural, Clone, Copy)]
pub struct InvalidDescriptorError;

/// The base type a field descriptor denotes, its array dimensions
/// stripped.
#[derive(Debug)]
pub enum BaseType {
    Boolean,
    Byte,
    Char,
    Double,
    Float,
    Int,
    Long,
    Short,
    Object(Vec<u8>),
}

/// Model of a `BaseType`.
#[verifier::ext_equal]
pub enum BaseTypeV {
    Boolean,
    Byte,
    Char,
    Double,
    Float,
    Int,
    Long,
    Short,
    Object(Seq<u8>),
}

impl View for BaseType {
    type V = BaseTypeV;

    open spec fn view(&self) -> BaseTypeV {
        match *self {
            BaseType::Boolean => BaseTypeV::Boolean,
            BaseType::Byte => BaseTypeV::Byte,
            BaseType::Char => BaseTypeV::Char,
            BaseType::Double => BaseTypeV::Double,
            BaseType::Float => BaseTypeV::Float,
            BaseType::Int => BaseTypeV::Int,
            BaseType::Long => BaseTypeV::Long,
            BaseType::Short => BaseTypeV::Short,
            BaseType::Object(ref name) => BaseTypeV::Object(name@),
        }
    }
}

/// The base type a primitive code letter denotes, if any.
pub open spec fn sp_primitive_base(c: u8) -> Option<BaseTypeV> {
    if c == 'Z' as u8 {
        Some(BaseTypeV::Boolean)
    } else if c == 'B' as u8 {
        Some(BaseTypeV::Byte)
    } else if c == 'C' as u8 {
        Some(BaseTypeV::Char)
    } else if c == 'D' as u8 {
        Some(BaseTypeV::Double)
    } else if c == 'F' as u8 {
        Some(BaseTypeV::Float)
    } else if c == 'I' as u8 {
        Some(BaseTypeV::Int)
    } else if c == 'J' as u8 {
        Some(BaseTypeV::Long)
    } else if c == 'S' as u8 {
        Some(BaseTypeV::Short)
    } else {
        None
    }
}

/// Model of a parsed type descriptor: array dimensions and base type.
#[verifier::ext_equal]
pub struct TypeDescriptorV {
    pub dimensions: u8,
    pub base: BaseTypeV,
}

/// What a whole field descriptor denotes: up to 255 leading `[` characters,
/// then a primitive code as the final byte, or `L`, a nonempty class name
/// free of `;`, and a closing `;` as the final byte.
pub open spec fn sp_parse_type_descriptor(s: Seq<u8>) -> Option<TypeDescriptorV> {
    let d = crate::checker::sp_descriptor_dims(s);
    if d > 255 {
        None
    } else {
        let rest = s.subrange(d, s.len() as int);
        if rest.len() == 1 && sp_primitive_base(rest[0]) is Some {
            Some(
                TypeDescriptorV { dimensions: d as u8, base: sp_primitive_base(rest[0]).unwrap() },
            )
        } else if rest.len() >= 3 && rest[0] == 'L' as u8 && rest[rest.len() - 1] == ';' as u8 && (
        forall|k: int| 1 <= k < rest.len() - 1 ==> rest[k] != ';' as u8) {
            Some(
                TypeDescriptorV {
                    dimensions: d as u8,
                    base: BaseTypeV::Object(rest.subrange(1, rest.len() - 1)),
                },
            )
        } else {
            None
        }
    }
}

/// A parsed field descriptor: array dimensions and base type.
#[derive(Debug)]
pub struct TypeDescriptor {
    pub dimensions: u8,
    pub base: BaseType,
}

impl View for TypeDescriptor {
    type V = TypeDescriptorV;

    open spec fn view(&self) -> TypeDescriptorV {
        TypeDescriptorV { dimensions: self.dimensions, base: self.base@ }
    }
}

impl TypeDescriptor {
    /// Parses a whole field descriptor, rejecting malformed input: more
    /// than 255 dimensions, an unknown code, an empty class name, a stray
    /// `;`, or trailing bytes.
    #[verifier::loop_isolation(false)]
    pub fn from_jstr(input: &JStr) -> (r: Result<TypeDescriptor, InvalidDescriptorError>)
        ensures
            match r {
                Ok(td) => sp_parse_type_descriptor(input@) == Some(td@),
                Err(_) => sp_parse_type_descriptor(input@) is None,
            },
    {
        let bytes = input.as_bytes();
        let len = bytes.len();
        let mut d: usize = 0;
        while d < len && bytes[d] == '[' as u8
            invariant
                d <= len,
                len == bytes@.len(),
                forall|a: int| 0 <= a < d ==> bytes@[a] == '[' as u8,
            decreases len - d,
        {
            d = d + 1;
        }
        proof {
            crate::checker::lemma_descriptor_dims(bytes@, d as int);
        }
        if d > 255 {
            return Err(InvalidDescriptorError);
        }
        let ghost rest = bytes@.subrange(d as int, bytes@.len() as int);
        if len - d == 1 {
            let c = bytes[d];
            proof {
                assert(rest.len() == 1 && rest[0] == bytes@[d as int]);
            }
            let base = if c == 'Z' as u8 {
                BaseType::Boolean
            } else if c == 'B' as u8 {
                BaseType::Byte
            } else if c == 'C' as u8 {
                BaseType::Char
            } else if c == 'D' as u8 {
                BaseType::Double
            } else if c == 'F' as u8 {
                BaseType::Float
            } else if c == 'I' as u8 {
                BaseType::Int
            } else if c == 'J' as u8 {
                BaseType::Long
            } else if c == 'S' as u8 {
                BaseType::Short
            } else {
                return Err(InvalidDescriptorError);
            };
            Ok(TypeDescriptor { dimensions: d as u8, base })
        } else if len - d >= 3 && bytes[d] == 'L' as u8 && bytes[len - 1] == ';' as u8 {
            let mut k: usize = d + 1;
            while k < len - 1
                invariant
                    d + 1 <= k <= len - 1,
                    len == bytes@.len(),
                    forall|a: int| d + 1 <= a < k ==> bytes@[a] != ';' as u8,
                decreases len - k,
            {
                if bytes[k] == ';' as u8 {
                    proof {
                        assert(rest[k - d] == ';' as u8);
                    }
                    return Err(InvalidDescriptorError);
                }
                k = k + 1;
            }
            let name = slice_to_vec(vstd::slice::slice_subrange(bytes, d + 1, len - 1));
            proof {
                assert(rest.len() >= 3 && rest[0] == 'L' as u8 && rest[rest.len() - 1]
                    == ';' as u8);
                assert(forall|a: int| 1 <= a < rest.len() - 1 ==> rest[a] == bytes@[d + a]);
                assert(name@ =~= rest.subrange(1, rest.len() - 1));
            }
            Ok(TypeDescriptor { dimensions: d as u8, base: BaseType::Object(name) })
        } else {
            proof {
                if rest.len() >= 3 {
                    assert(rest[0] == bytes@[d as int] && rest[rest.len() - 1] == bytes@[len - 1]);
                }
            }
            Err(InvalidDescriptorError)
        }
    }
}

/// The position just past the `;` that closes a class name, scanning from
/// `j`; the name must be nonempty, so a `;` at `start` itself rejects.
pub open spec fn sp_name_end(s: Seq<u8>, start: int, j: int) -> Option<int>
    decreases s.len() - j,
{
    if j < 0 || j >= s.len() {
        None
    } else if s[j] == ';' as u8 {
        if j > start {
            Some(j + 1)
        } else {
            None
        }
    } else {
        sp_name_end(s, start, j + 1)
    }
}

/// How many leading `[` characters stand at `i`.
pub open spec fn sp_dims_at(s: Seq<u8>, i: int) -> int
    decreases s.len() - i,
{
    if 0 <= i < s.len() && s[i] == '[' as u8 {
        1 + sp_dims_at(s, i + 1)
    } else {
        0
    }
}

/// The base type that starts at `i` and the position after it: a primitive
/// code, or `L`, a nonempty class name, and `;`.
pub open spec fn sp_base_at(s: Seq<u8>, i: int) -> Option<(BaseTypeV, int)> {
    if 0 <= i < s.len() && sp_primitive_base(s[i]) is Some {
        Some((sp_primitive_base(s[i]).unwrap(), i + 1))
    } else if 0 <= i < s.len() && s[i] == 'L' as u8 {
        match sp_name_end(s, i + 1, i + 1) {
            Some(e) => Some((BaseTypeV::Object(s.subrange(i + 1, e - 1)), e)),
            None => None,
        }
    } else {
        None
    }
}

/// The field descriptor that starts at `i` and the position after it:
/// leading `[` characters (at most 255) and a base type.
pub open spec fn sp_td_at(s: Seq<u8>, i: int) -> Option<(TypeDescriptorV, int)> {
    let d = sp_dims_at(s, i);
    if d > 255 {
        None
    } else {
        match sp_base_at(s, i + d) {
            Some((base, e)) => Some((TypeDescriptorV { dimensions: d as u8, base }, e)),
            None => None,
        }
    }
}

/// A name scan that finds its `;` ends past its start and inside the bytes.
pub proof fn lemma_name_end_bounds(s: Seq<u8>, start: int, j: int)
    requires
        sp_name_end(s, start, j) is Some,
        start <= j,
    ensures
        j < sp_name_end(s, start, j).unwrap() <= s.len(),
    decreases s.len() - j,
{
    if 0 <= j < s.len() && s[j] != ';' as u8 {
        lemma_name_end_bounds(s, start, j + 1);
    }
}

/// Leading dimensions never run past the bytes.
pub proof fn lemma_dims_at_bounds(s: Seq<u8>, i: int)
    requires
        0 <= i <= s.len(),
    ensures
        0 <= sp_dims_at(s, i),
        i + sp_dims_at(s, i) <= s.len(),
    decreases s.len() - i,
{
    if i < s.len() && s[i] == '[' as u8 {
        lemma_dims_at_bounds(s, i + 1);
    }
}

/// A field descriptor that starts at `i` ends past `i` and inside the
/// bytes.
pub proof fn lemma_td_at_bounds(s: Seq<u8>, i: int)
    requires
        0 <= i <= s.len(),
        sp_td_at(s, i) is Some,
    ensures
        i < sp_td_at(s, i).unwrap().1 <= s.len(),
{
    lemma_dims_at_bounds(s, i);
    let d = sp_dims_at(s, i);
    let p = i + d;
    if 0 <= p < s.len() && sp_primitive_base(s[p]) is Some {
    } else {
        lemma_name_end_bounds(s, p + 1, p + 1);
    }
}

/// A run of `d` leading `[` characters at `i` that stops there pins the
/// dimension count at `i` to `d`.
pub proof fn lemma_dims_at(s: Seq<u8>, i: int, d: int)
    requires
        0 <= i,
        0 <= d,
        i + d <= s.len(),
        forall|a: int| i <= a < i + d ==> s[a] == '[' as u8,
        i + d == s.len() || s[i + d] != '[' as u8,
    ensures
        sp_dims_at(s, i) == d,
    decreases d,
{
    if d > 0 {
        lemma_dims_at(s, i + 1, d - 1);
    }
}

/// The position after the parameter list: parameters are read one field
/// descriptor at a time until the closing parenthesis.
pub open spec fn sp_params_end(s: Seq<u8>, i: int) -> Option<int>
    decreases s.len() - i,
{
    if i < 0 || i >= s.len() {
        None
    } else if s[i] == ')' as u8 {
        Some(i + 1)
    } else {
        match sp_td_at(s, i) {
            Some((_td, j)) => {
                if i < j <= s.len() {
                    sp_params_end(s, j)
                } else {
                    None
                }
            },
            None => None,
        }
    }
}

/// Whether the bytes form a whole method descriptor: `(`, a parameter
/// list, `)`, and a return descriptor (`V` or a field descriptor) with
/// nothing after it.  When they do, the result is the position where the
/// return descriptor starts.
pub open spec fn sp_method_descriptor(s: Seq<u8>) -> Option<int> {
    if s.len() >= 1 && s[0] == '(' as u8 {
        match sp_params_end(s, 1) {
            None => None,
            Some(j) => {
                if j < s.len() && s[j] == 'V' as u8 && j + 1 == s.len() {
                    Some(j)
                } else {
                    match sp_td_at(s, j) {
                        Some((_td, e)) => if e == s.len() {
                            Some(j)
                        } else {
                            None
                        },
                        None => None,
                    }
                }
            },
        }
    } else {
        None
    }
}

/// Reads the field descriptor that starts at `i`, handing back the parsed
/// type and the position after it.
#[verifier::loop_isolation(false)]
fn parse_descriptor_at(bytes: &[u8], i: usize) -> (r: Option<(TypeDescriptor, usize)>)
    requires
        i <= bytes@.len(),
    ensures
        match r {
            Some((td, e)) => sp_td_at(bytes@, i as int) == Some((td@, e as int)) && i < e
                <= bytes@.len(),
            None => sp_td_at(bytes@, i as int) is None,
        },
{
    let len = bytes.len();
    let mut p: usize = i;
    while p < len && bytes[p] == '[' as u8
        invariant
            i <= p <= len,
            forall|a: int| i <= a < p ==> bytes@[a] == '[' as u8,
        decreases len - p,
    {
        p = p + 1;
    }
    proof {
        lemma_dims_at(bytes@, i as int, p - i);
    }
    if p - i > 255 {
        return None;
    }
    if p >= len {
        return None;
    }
    let c = bytes[p];
    let prim = if c == 'Z' as u8 {
        Some(BaseType::Boolean)
    } else if c == 'B' as u8 {
        Some(BaseType::Byte)
    } else if c == 'C' as u8 {
        Some(BaseType::Char)
    } else if c == 'D' as u8 {
        Some(BaseType::Double)
    } else if c == 'F' as u8 {
        Some(BaseType::Float)
    } else if c == 'I' as u8 {
        Some(BaseType::Int)
    } else if c == 'J' as u8 {
        Some(BaseType::Long)
    } else if c == 'S' as u8 {
        Some(BaseType::Short)
    } else {
        None
    };
    match prim {
        Some(base) => Some((TypeDescriptor { dimensions: (p - i) as u8, base }, p + 1)),
        None => {
            if c != 'L' as u8 {
                return None;
            }
            let mut q: usize = p + 1;
            while q < len && bytes[q] != ';' as u8
                invariant
                    p + 1 <= q <= len,
                    sp_name_end(bytes@, p + 1, p + 1) == sp_name_end(bytes@, p + 1, q as int),
                decreases len - q,
            {
                q = q + 1;
            }
            if q >= len {
                return None;
            }
            if q == p + 1 {
                return None;
            }
            let name = slice_to_vec(vstd::slice::slice_subrange(bytes, p + 1, q));
            proof {
                assert(sp_name_end(bytes@, p + 1, q as int) == Some(q + 1));
                assert(name@ =~= bytes@.subrange(p + 1, (q + 1) - 1));
            }
            Some((TypeDescriptor { dimensions: (p - i) as u8, base: BaseType::Object(name) }, q + 1))
        },
    }
}

/// A validated method descriptor, remembering where its return descriptor
/// starts.
#[derive(Debug)]
pub struct MethodDescriptor {
    input: Vec<u8>,
    return_index: usize,
}

impl View for MethodDescriptor {
    type V = Seq<u8>;

    closed spec fn view(&self) -> Seq<u8> {
        self.input@
    }
}

/// The return descriptor of a method: a field type, or void.
#[derive(Debug)]
pub enum ReturnDescriptor {
    FieldType(TypeDescriptor),
    VoidDescriptor,
}

impl MethodDescriptor {
    /// Where the return descriptor starts.
    pub closed spec fn ri(&self) -> int {
        self.return_index as int
    }

    /// The bytes form a method descriptor whose return part starts at the
    /// remembered index.
    pub open spec fn wf(&self) -> bool {
        sp_method_descriptor(self@) == Some(self.ri())
    }

    /// Validates a whole method descriptor.
    #[verifier::loop_isolation(false)]
    pub fn from_jstr(input: &JStr) -> (r: Result<MethodDescriptor, InvalidDescriptorError>)
        ensures
            match r {
                Ok(md) => md@ == input@ && md.wf(),
                Err(_) => sp_method_descriptor(input@) is None,
            },
    {
        let bytes = input.as_bytes();
        let len = bytes.len();
        if len == 0 || bytes[0] != '(' as u8 {
            return Err(InvalidDescriptorError);
        }
        let mut pos: usize = 1;
        loop
            invariant
                1 <= pos <= len,
                sp_params_end(bytes@, 1) == sp_params_end(bytes@, pos as int),
            decreases len - pos,
        {
            if pos >= len {
                return Err(InvalidDescriptorError);
            }
            if bytes[pos] == ')' as u8 {
                break ;
            }
            match parse_descriptor_at(bytes, pos) {
                Some((_td, e)) => {
                    pos = e;
                },
                None => {
                    return Err(InvalidDescriptorError);
                },
            }
        }
        let return_index = pos + 1;
        proof {
            assert(sp_params_end(bytes@, 1) == Some(return_index as int));
        }
        if return_index < len && bytes[return_index] == 'V' as u8 {
            if return_index + 1 == len {
                return Ok(
                    MethodDescriptor { input: slice_to_vec(bytes), return_index },
                );
            }
            return Err(InvalidDescriptorError);
        }
        match parse_descriptor_at(bytes, return_index) {
            Some((_td, e)) => {
                if e == len {
                    Ok(MethodDescriptor { input: slice_to_vec(bytes), return_index })
                } else {
                    Err(InvalidDescriptorError)
                }
            },
            None => Err(InvalidDescriptorError),
        }
    }

    /// A reader over the parameter descriptors.
    pub fn parameters_iter(&self) -> (r: ParametersDescriptorsIter)
        requires
            self.wf(),
        ensures
            r@ == self@,
            r.wf(),
    {
        ParametersDescriptorsIter { input: slice_to_vec(self.input.as_slice()), pos: 1 }
    }

    /// The return descriptor.
    pub fn return_type(&self) -> (r: ReturnDescriptor)
        requires
            self.wf(),
        ensures
            match r {
                ReturnDescriptor::VoidDescriptor => self@[self.ri()] == 'V' as u8,
                ReturnDescriptor::FieldType(td) => sp_td_at(self@, self.ri()) matches Some((v, e))
                    && td@ == v && e == self@.len(),
            },
    {
        if self.return_index < self.input.len() && self.input[self.return_index] == 'V' as u8 {
            return ReturnDescriptor::VoidDescriptor;
        }
        match parse_descriptor_at(self.input.as_slice(), self.return_index) {
            Some((td, _e)) => ReturnDescriptor::FieldType(td),
            None => {
                proof {
                    assert(false);
                }
                ReturnDescriptor::VoidDescriptor
            },
        }
    }
}

/// A reader over the parameter descriptors of a method descriptor.
pub struct ParametersDescriptorsIter {
    input: Vec<u8>,
    pos: usize,
}

impl View for ParametersDescriptorsIter {
    type V = Seq<u8>;

    closed spec fn view(&self) -> Seq<u8> {
        self.input@
    }
}

impl ParametersDescriptorsIter {
    /// Where the reader stands.
    pub closed spec fn at(&self) -> int {
        self.pos as int
    }

    /// The remaining bytes still form a parameter-list tail.
    pub open spec fn wf(&self) -> bool {
        sp_params_end(self@, self.at()) is Some
    }

    /// The next parameter descriptor, or nothing at the closing
    /// parenthesis.
    pub fn next(&mut self) -> (r: Option<TypeDescriptor>)
        requires
            old(self).wf(),
        ensures
            final(self).wf(),
            final(self)@ == old(self)@,
            match r {
                None => old(self)@[old(self).at()] == ')' as u8 && final(self).at() == old(
                    self,
                ).at(),
                Some(td) => sp_td_at(old(self)@, old(self).at()) matches Some((v, e)) && td@ == v
                    && final(self).at() == e,
            },
    {
        proof {
            assert(0 <= self.pos < self.input@.len());
        }
        if self.input[self.pos] == ')' as u8 {
            return None;
        }
        match parse_descriptor_at(self.input.as_slice(), self.pos) {
            Some((td, e)) => {
                self.pos = e;
                Some(td)
            },
            None => {
                proof {
                    assert(false);
                }
                None
            },
        }
    }
}


} // verus!
