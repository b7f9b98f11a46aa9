//! Modified UTF-8 byte strings.
//!
//! Constant-pool text is encoded in modified UTF-8: the null code point is
//! written as the two-byte sequence `0xC0 0x80`, supplementary code points
//! are written as two three-byte surrogate encodings, and a lone surrogate
//! encoding may appear on its own.  `valid_jutf8` gives the validity
//! predicate; `JStr` holds validated bytes, `JString` is its growable
//! counterpart, and the character readers decode one code point at a time,
//! handing back the raw surrogate value where a lone surrogate admits no
//! character.

use vstd::prelude::*;
use vstd::slice::slice_to_vec;
use vstd::string::StringSliceAdditionalSpecFns;

verus! {

/// The bytes are not well-formed modified UTF-8.
#[derive(Debug, PartialEq, Eq, Structural, Clone, Copy)]
pub struct JUtf8Error;

/// Whether the bytes are well-formed modified UTF-8: a sequence of units
/// that are each a nonzero one-byte value, a two-byte unit (where overlong
/// two-byte encodings with leading byte `0xC1` must encode via `0x80`), or
/// a three-byte unit (where a leading `0xE0` demands a second byte of at
/// least `0xA0`).
pub open spec fn valid_jutf8(s: Seq<u8>) -> bool
    decreases s.len(),
{
    if s.len() == 0 {
        true
    } else {
        let b1 = s[0];
        if 0x01 <= b1 && b1 <= 0x7F {
            valid_jutf8(s.subrange(1, s.len() as int))
        } else if b1 & 0xE0 == 0xC0 {
            s.len() >= 2 && s[1] & 0xC0 == 0x80 && !(b1 & 0x1E == 0 && b1 != 0xC0 && s[1] != 0x80)
                && valid_jutf8(s.subrange(2, s.len() as int))
        } else if b1 & 0xF0 == 0xE0 {
            s.len() >= 3 && s[1] & 0xC0 == 0x80 && s[2] & 0xC0 == 0x80 && !(b1 & 0x0F == 0 && s[1]
                & 0x20 == 0) && valid_jutf8(s.subrange(3, s.len() as int))
        } else {
            false
        }
    }
}

/// Whether the bytes start with a paired-surrogate six-byte encoding of a
/// supplementary code point.
pub open spec fn ju_paired_surrogate(s: Seq<u8>) -> bool {
    s.len() >= 6 && s[0] == 0xED && s[1] & 0xF0 == 0xA0 && s[3] == 0xED && s[4] & 0xF0 == 0xB0
}

/// Whether the bytes start with a lone surrogate encoding.
pub open spec fn ju_unpaired_surrogate(s: Seq<u8>) -> bool {
    s.len() >= 2 && s[0] == 0xED && !ju_paired_surrogate(s) && s[1] & 0xE0 == 0xA0
}

/// How many bytes the first decoded unit spans.
pub open spec fn ju_first_len(s: Seq<u8>) -> int {
    if s[0] & 0x80 == 0 {
        1
    } else if s[0] & 0xE0 == 0xC0 {
        2
    } else if ju_paired_surrogate(s) {
        6
    } else {
        3
    }
}

/// The code point value of the first decoded unit; for a lone surrogate
/// this is the surrogate value itself.
pub open spec fn ju_first_code(s: Seq<u8>) -> u32 {
    if s[0] & 0x80 == 0 {
        s[0] as u32
    } else if s[0] & 0xE0 == 0xC0 {
        (((s[0] & 0x1F) as u32) << 6) | ((s[1] & 0x3F) as u32)
    } else if ju_paired_surrogate(s) {
        (0x10000 + (((((s[1] & 0x0F) as u32) << 16) | (((s[2] & 0x3F) as u32) << 10) | (((s[4]
            & 0x0F) as u32) << 6) | ((s[5] & 0x3F) as u32)) as int)) as u32
    } else {
        (((s[0] & 0x0F) as u32) << 12) | (((s[1] & 0x3F) as u32) << 6) | ((s[2] & 0x3F) as u32)
    }
}

/// Whether a code is a Unicode scalar value: at most `0x10FFFF` and not a
/// surrogate.
pub open spec fn scalar_ok(c: u32) -> bool {
    c <= 0x10FFFF && !(0xD800 <= c && c <= 0xDFFF)
}

/// Relies on `char::from_u32` of std: it yields the character with the
/// given code for every Unicode scalar value, and nothing for a surrogate
/// or out-of-range code.
#[verifier::external_body]
fn char_from_u32(c: u32) -> (r: Option<char>)
    ensures
        r is Some <==> scalar_ok(c),
        match r {
            Some(ch) => ch as u32 == c,
            None => true,
        },
{
    char::from_u32(c)
}

/// Whether the bytes are well-formed modified UTF-8, byte for byte.
fn validate_jstr(v: &[u8]) -> (r: bool)
    ensures
        r == valid_jutf8(v@),
{
    let len = v.len();
    let mut i: usize = 0;
    proof {
        assert(v@.subrange(0, len as int) =~= v@);
    }
    while i < len
        invariant
            i <= len,
            len == v@.len(),
            valid_jutf8(v@) == valid_jutf8(v@.subrange(i as int, len as int)),
        decreases len - i,
    {
        let ghost rest = v@.subrange(i as int, len as int);
        let b1 = v[i];
        if 0x01 <= b1 && b1 <= 0x7F {
            proof {
                assert(rest.subrange(1, rest.len() as int) =~= v@.subrange(i + 1, len as int));
            }
            i = i + 1;
        } else if b1 & 0xE0 == 0xC0 {
            if len - i < 2 || v[i + 1] & 0xC0 != 0x80 || (b1 & 0x1E == 0 && b1 != 0xC0 && v[i + 1]
                != 0x80) {
                return false;
            }
            proof {
                assert(rest.subrange(2, rest.len() as int) =~= v@.subrange(i + 2, len as int));
            }
            i = i + 2;
        } else if b1 & 0xF0 == 0xE0 {
            if len - i < 3 || v[i + 1] & 0xC0 != 0x80 || v[i + 2] & 0xC0 != 0x80 || (b1 & 0x0F == 0
                && v[i + 1] & 0x20 == 0) {
                return false;
            }
            proof {
                assert(rest.subrange(3, rest.len() as int) =~= v@.subrange(i + 3, len as int));
            }
            i = i + 3;
        } else {
            return false;
        }
    }
    proof {
        assert(v@.subrange(len as int, len as int) =~= Seq::<u8>::empty());
    }
    true
}

/// A validated modified-UTF-8 byte string.
#[derive(Debug)]
pub struct JStr {
    bytes: Vec<u8>,
}

impl View for JStr {
    type V = Seq<u8>;

    closed spec fn view(&self) -> Seq<u8> {
        self.bytes@
    }
}

/// Whether an index stands on a unit boundary of the bytes: 0 and the
/// length always do, and an interior index must not point at a
/// continuation byte.
pub open spec fn sp_is_char_boundary(s: Seq<u8>, index: int) -> bool {
    if index == 0 || index == s.len() {
        true
    } else if 0 <= index < s.len() {
        s[index] & 0xC0 != 0x80
    } else {
        false
    }
}

impl JStr {
    /// The bytes hold well-formed modified UTF-8.
    pub open spec fn wf(&self) -> bool {
        valid_jutf8(self@)
    }

    /// Validates the bytes and wraps a copy of them.
    pub fn from_jutf8(v: &[u8]) -> (r: Result<JStr, JUtf8Error>)
        ensures
            match r {
                Ok(j) => valid_jutf8(v@) && j@ == v@,
                Err(_) => !valid_jutf8(v@),
            },
    {
        if validate_jstr(v) {
            Ok(JStr { bytes: slice_to_vec(v) })
        } else {
            Err(JUtf8Error)
        }
    }

    /// The length in bytes.
    pub fn len(&self) -> (r: usize)
        ensures
            r == self@.len(),
    {
        self.bytes.len()
    }

    /// Whether the string holds no bytes.
    pub fn is_empty(&self) -> (r: bool)
        ensures
            r == (self@.len() == 0),
    {
        self.bytes.len() == 0
    }

    /// The underlying bytes.
    pub fn as_bytes(&self) -> (r: &[u8])
        ensures
            r@ == self@,
    {
        self.bytes.as_slice()
    }

    /// Whether the index stands on a unit boundary.
    pub fn is_char_boundary(&self, index: usize) -> (r: bool)
        ensures
            r == sp_is_char_boundary(self@, index as int),
    {
        if index == 0 || index == self.bytes.len() {
            true
        } else if index > self.bytes.len() {
            false
        } else {
            self.bytes[index] & 0xC0 != 0x80
        }
    }

    /// The text as ordinary UTF-8, when the bytes happen to be well-formed
    /// UTF-8 (an encoded null or a surrogate encoding makes them not so).
    pub fn to_str(&self) -> (r: Option<String>)
        ensures
            r is Some <==> vstd::utf8::valid_utf8(self@),
            match r {
                Some(s) => s@ == vstd::utf8::decode_utf8(self@),
                None => true,
            },
    {
        match utf8_str(self.bytes.as_slice()) {
            Some(s) => {
                proof {
                    vstd::utf8::encode_utf8_decode_utf8(s@);
                }
                Some(s.to_owned())
            },
            None => None,
        }
    }

    /// A renderer of the text that stands in for lone surrogates.
    pub fn display(&self) -> (r: Display)
        ensures
            r@ == self@,
            self.wf() ==> r.wf(),
    {
        let r = Display { bytes: slice_to_vec(self.bytes.as_slice()) };
        proof {
            assert(r@ == self.bytes@);
        }
        r
    }

    /// A reader over the code points of the string.
    pub fn chars(&self) -> (r: Chars)
        ensures
            r@ == self@,
            self.wf() ==> r.wf(),
    {
        let r = Chars { bytes: slice_to_vec(self.bytes.as_slice()), pos: 0 };
        proof {
            assert(r@ =~= self@);
        }
        r
    }

    /// A reader over the code points that replaces lone surrogates with the
    /// replacement character.
    pub fn chars_lossy(&self) -> (r: CharsLossy)
        ensures
            r@ == self@,
            self.wf() ==> r.wf(),
    {
        let r = CharsLossy { inner: Chars { bytes: slice_to_vec(self.bytes.as_slice()), pos: 0 } };
        proof {
            assert(r@ =~= self@);
        }
        r
    }
}

/// A forward reader over the code points of a modified-UTF-8 string.  A
/// paired surrogate encoding decodes as one supplementary character; a lone
/// surrogate is handed back as its raw value.
pub struct Chars {
    bytes: Vec<u8>,
    pos: usize,
}

impl View for Chars {
    type V = Seq<u8>;

    closed spec fn view(&self) -> Seq<u8> {
        self.bytes@.subrange(self.pos as int, self.bytes@.len() as int)
    }
}

impl Chars {
    /// The reader stands inside its buffer and the remaining bytes hold
    /// well-formed modified UTF-8.
    pub closed spec fn wf(&self) -> bool {
        self.pos <= self.bytes@.len() && valid_jutf8(self@)
    }

    /// The remaining bytes, as a string of their own.
    pub fn as_jstr(&self) -> (r: JStr)
        requires
            self.wf(),
        ensures
            r@ == self@,
    {
        JStr {
            bytes: slice_to_vec(
                vstd::slice::slice_subrange(self.bytes.as_slice(), self.pos, self.bytes.len()),
            ),
        }
    }

    /// Decodes the next code point: the character, or the raw value of a
    /// lone surrogate (or of any code the unit encodes that is no scalar
    /// value).
    pub fn next(&mut self) -> (r: Option<Result<char, u32>>)
        requires
            old(self).wf(),
        ensures
            final(self).wf(),
            match r {
                None => old(self)@.len() == 0 && final(self)@ == old(self)@,
                Some(item) => {
                    let s = old(self)@;
                    &&& s.len() > 0
                    &&& final(self)@ == s.subrange(ju_first_len(s), s.len() as int)
                    &&& match item {
                        Ok(ch) => !ju_unpaired_surrogate(s) && scalar_ok(ju_first_code(s)) && ch
                            as u32 == ju_first_code(s),
                        Err(c) => c == ju_first_code(s) && (ju_unpaired_surrogate(s) || !scalar_ok(
                            ju_first_code(s),
                        )),
                    }
                },
            },
    {
        let len = self.bytes.len();
        if self.pos >= len {
            return None;
        }
        let ghost s = self@;
        proof {
            assert(forall|k: int|
                0 <= k < s.len() ==> #[trigger] s[k] == self.bytes@[old(self).pos + k]);
        }
        let b1 = self.bytes[self.pos];
        proof {
            assert(b1 & 0x80 == 0 ==> b1 <= 0x7F) by (bit_vector);
            assert(b1 & 0x80 != 0 ==> !(0x01 <= b1 && b1 <= 0x7F)) by (bit_vector);
            assert(b1 & 0xE0 == 0xC0 ==> b1 & 0x80 != 0 && b1 != 0xED) by (bit_vector);
            assert(b1 & 0xF0 == 0xE0 ==> b1 & 0x80 != 0 && !(b1 & 0xE0 == 0xC0)) by (bit_vector);
            assert(0xEDu8 & 0xF0 == 0xE0 && 0xEDu8 & 0xE0 != 0xC0 && 0xEDu8 & 0x80 != 0)
                by (bit_vector);
        }
        if b1 & 0x80 == 0 {
            let code = b1 as u32;
            self.pos = self.pos + 1;
            proof {
                lemma_tail_after_unit(s, self.bytes@, old(self).pos as int, 1);
                assert(code == ju_first_code(s));
            }
            Some(to_item(code, false))
        } else if b1 & 0xE0 == 0xC0 {
            let b2 = self.bytes[self.pos + 1];
            let code = (((b1 & 0x1F) as u32) << 6) | ((b2 & 0x3F) as u32);
            self.pos = self.pos + 2;
            proof {
                lemma_tail_after_unit(s, self.bytes@, old(self).pos as int, 2);
                assert(code == ju_first_code(s));
            }
            Some(to_item(code, false))
        } else if b1 == 0xED && len - self.pos >= 6 && self.bytes[self.pos + 1] & 0xF0 == 0xA0
            && self.bytes[self.pos + 3] == 0xED && self.bytes[self.pos + 4] & 0xF0 == 0xB0 {
            let b2 = self.bytes[self.pos + 1];
            let b3 = self.bytes[self.pos + 2];
            let b5 = self.bytes[self.pos + 4];
            let b6 = self.bytes[self.pos + 5];
            proof {
                assert((((b2 & 0x0F) as u32) << 16) | (((b3 & 0x3F) as u32) << 10) | (((b5
                    & 0x0F) as u32) << 6) | ((b6 & 0x3F) as u32) <= 0xFFFFF) by (bit_vector);
            }
            let low = (((b2 & 0x0F) as u32) << 16) | (((b3 & 0x3F) as u32) << 10) | (((b5
                & 0x0F) as u32) << 6) | ((b6 & 0x3F) as u32);
            let code = 0x10000 + low;
            self.pos = self.pos + 6;
            proof {
                lemma_tail_after_unit(s, self.bytes@, old(self).pos as int, 6);
                assert(ju_paired_surrogate(s));
                let sub3 = s.subrange(3, s.len() as int);
                assert(sub3[0] == s[3] && sub3[1] == s[4] && sub3[2] == s[5]);
                assert(valid_jutf8(sub3));
                assert(sub3.subrange(3, sub3.len() as int) =~= s.subrange(6, s.len() as int));
                assert(valid_jutf8(s.subrange(6, s.len() as int)));
                assert(code == ju_first_code(s));
            }
            Some(to_item(code, false))
        } else if b1 == 0xED && self.bytes[self.pos + 1] & 0xE0 == 0xA0 {
            let b2 = self.bytes[self.pos + 1];
            let b3 = self.bytes[self.pos + 2];
            let code = 0xD000u32 | (((b2 & 0x3F) as u32) << 6) | ((b3 & 0x3F) as u32);
            self.pos = self.pos + 3;
            proof {
                lemma_tail_after_unit(s, self.bytes@, old(self).pos as int, 3);
                assert(!ju_paired_surrogate(s));
                assert(ju_unpaired_surrogate(s));
                assert(b2 == s[1] && b3 == s[2]);
                assert(b1 == 0xED ==> ((((b1 & 0x0F) as u32) << 12) | (((b2 & 0x3F) as u32) << 6)
                    | ((b3 & 0x3F) as u32)) == (0xD000u32 | (((b2 & 0x3F) as u32) << 6) | ((b3
                    & 0x3F) as u32))) by (bit_vector);
                assert(code == ju_first_code(s));
            }
            Some(to_item(code, true))
        } else {
            let b2 = self.bytes[self.pos + 1];
            let b3 = self.bytes[self.pos + 2];
            let code = (((b1 & 0x0F) as u32) << 12) | (((b2 & 0x3F) as u32) << 6) | ((b3
                & 0x3F) as u32);
            self.pos = self.pos + 3;
            proof {
                lemma_tail_after_unit(s, self.bytes@, old(self).pos as int, 3);
                assert(!ju_paired_surrogate(s));
                assert(!ju_unpaired_surrogate(s));
                assert(code == ju_first_code(s));
            }
            Some(to_item(code, false))
        }
    }
}

/// Wraps a decoded code as the reader's item: the character where the code
/// is a scalar value and no lone surrogate was seen, the raw value
/// otherwise.
fn to_item(code: u32, lone_surrogate: bool) -> (r: Result<char, u32>)
    ensures
        match r {
            Ok(ch) => !lone_surrogate && scalar_ok(code) && ch as u32 == code,
            Err(c) => c == code && (lone_surrogate || !scalar_ok(code)),
        },
{
    if lone_surrogate {
        return Err(code);
    }
    match char_from_u32(code) {
        Some(ch) => Ok(ch),
        None => Err(code),
    }
}

/// The bytes after removing one decoded unit of the given width from the
/// front of the remaining view equal the view at the advanced position.
proof fn lemma_tail_after_unit(s: Seq<u8>, whole: Seq<u8>, pos: int, w: int)
    requires
        0 <= pos <= whole.len(),
        0 <= w,
        pos + w <= whole.len(),
        s == whole.subrange(pos, whole.len() as int),
    ensures
        whole.subrange(pos + w, whole.len() as int) == s.subrange(w, s.len() as int),
{
    assert(whole.subrange(pos + w, whole.len() as int) =~= s.subrange(w, s.len() as int));
}

/// A forward reader that replaces every undecodable unit with the
/// replacement character.
pub struct CharsLossy {
    inner: Chars,
}

impl View for CharsLossy {
    type V = Seq<u8>;

    closed spec fn view(&self) -> Seq<u8> {
        self.inner@
    }
}

impl CharsLossy {
    /// The reader stands inside its buffer and the remaining bytes hold
    /// well-formed modified UTF-8.
    pub closed spec fn wf(&self) -> bool {
        self.inner.wf()
    }

    /// The remaining bytes, as a string of their own.
    pub fn as_jstr(&self) -> (r: JStr)
        requires
            self.wf(),
        ensures
            r@ == self@,
    {
        self.inner.as_jstr()
    }

    /// Decodes the next code point, replacing a lone surrogate (or any
    /// non-scalar code) with the replacement character.
    pub fn next(&mut self) -> (r: Option<char>)
        requires
            old(self).wf(),
        ensures
            final(self).wf(),
            match r {
                None => old(self)@.len() == 0 && final(self)@ == old(self)@,
                Some(ch) => {
                    let s = old(self)@;
                    &&& s.len() > 0
                    &&& final(self)@ == s.subrange(ju_first_len(s), s.len() as int)
                    &&& if !ju_unpaired_surrogate(s) && scalar_ok(ju_first_code(s)) {
                        ch as u32 == ju_first_code(s)
                    } else {
                        ch == '\u{FFFD}'
                    }
                },
            },
    {
        match self.inner.next() {
            None => None,
            Some(Ok(ch)) => Some(ch),
            Some(Err(_)) => Some('\u{FFFD}'),
        }
    }
}

/// The bytes a code point is encoded as: one byte for `0x01..=0x7F`, two
/// bytes for zero and `0x80..=0x7FF`, three bytes up to `0xFFFF`, and a
/// paired surrogate encoding of six bytes above that.
pub open spec fn ju_encode(c: u32) -> Seq<u8> {
    if 0x01 <= c && c <= 0x7F {
        seq![c as u8]
    } else if c == 0 || (0x80 <= c && c <= 0x7FF) {
        seq![(0xC0 | (c >> 6)) as u8, (0x80 | (c & 0x3F)) as u8]
    } else if 0x800 <= c && c <= 0xFFFF {
        seq![
            (0xE0 | (c >> 12)) as u8,
            (0x80 | ((c >> 6) & 0x3F)) as u8,
            (0x80 | (c & 0x3F)) as u8,
        ]
    } else {
        let d = (c - 0x10000) as u32;
        seq![
            0xEDu8,
            (0xA0 | ((d >> 16) & 0x0F)) as u8,
            (0x80 | ((d >> 10) & 0x3F)) as u8,
            0xEDu8,
            (0xB0 | ((d >> 6) & 0x0F)) as u8,
            (0x80 | (d & 0x3F)) as u8,
        ]
    }
}

/// A growable modified-UTF-8 string.
#[derive(Debug)]
pub struct JString {
    buf: Vec<u8>,
}

impl View for JString {
    type V = Seq<u8>;

    closed spec fn view(&self) -> Seq<u8> {
        self.buf@
    }
}

impl JString {
    /// The bytes hold well-formed modified UTF-8.
    pub open spec fn wf(&self) -> bool {
        valid_jutf8(self@)
    }

    /// An empty string.
    pub fn new() -> (r: JString)
        ensures
            r@ == Seq::<u8>::empty(),
    {
        JString { buf: Vec::new() }
    }

    /// An empty string with room for `cap` bytes.
    pub fn with_capacity(cap: usize) -> (r: JString)
        ensures
            r@ == Seq::<u8>::empty(),
    {
        JString { buf: Vec::with_capacity(cap) }
    }

    /// Validates a byte vector and takes it over.
    pub fn from_mutf8(buf: Vec<u8>) -> (r: Result<JString, JUtf8Error>)
        ensures
            match r {
                Ok(j) => valid_jutf8(buf@) && j@ == buf@,
                Err(_) => !valid_jutf8(buf@),
            },
    {
        if validate_jstr(buf.as_slice()) {
            Ok(JString { buf })
        } else {
            Err(JUtf8Error)
        }
    }

    /// The underlying bytes.
    pub fn as_bytes(&self) -> (r: &[u8])
        ensures
            r@ == self@,
    {
        self.buf.as_slice()
    }

    /// Appends the encoding of one character; a well-formed string stays
    /// well-formed.
    pub fn push(&mut self, ch: char)
        ensures
            final(self)@ == old(self)@ + ju_encode(ch as u32),
            old(self).wf() ==> final(self).wf(),
    {
        proof {
            if self.wf() {
                lemma_encode_valid(ch as u32);
                lemma_valid_concat(self@, ju_encode(ch as u32));
            }
        }
        let c = ch as u32;
        let ghost before = self.buf@;
        if 0x01 <= c && c <= 0x7F {
            self.buf.push(c as u8);
            proof {
                assert(self.buf@ =~= before + ju_encode(c));
            }
        } else if c == 0 || c <= 0x7FF {
            self.buf.push((0xC0 | (c >> 6)) as u8);
            self.buf.push((0x80 | (c & 0x3F)) as u8);
            proof {
                assert(self.buf@ =~= before + ju_encode(c));
            }
        } else if c <= 0xFFFF {
            self.buf.push((0xE0 | (c >> 12)) as u8);
            self.buf.push((0x80 | ((c >> 6) & 0x3F)) as u8);
            self.buf.push((0x80 | (c & 0x3F)) as u8);
            proof {
                assert(self.buf@ =~= before + ju_encode(c));
            }
        } else {
            let d = c - 0x10000;
            self.buf.push(0xED);
            self.buf.push((0xA0 | ((d >> 16) & 0x0F)) as u8);
            self.buf.push((0x80 | ((d >> 10) & 0x3F)) as u8);
            self.buf.push(0xED);
            self.buf.push((0xB0 | ((d >> 6) & 0x0F)) as u8);
            self.buf.push((0x80 | (d & 0x3F)) as u8);
            proof {
                assert(self.buf@ =~= before + ju_encode(c));
            }
        }
    }
}


/// Relies on `str::from_utf8` of std: it succeeds exactly on well-formed
/// UTF-8 and views those bytes as text.
#[verifier::external_body]
fn utf8_str(v: &[u8]) -> (r: Option<&str>)
    ensures
        r is Some <==> vstd::utf8::valid_utf8(v@),
        match r {
            Some(s) => s.spec_bytes() == v@,
            None => true,
        },
{
    std::str::from_utf8(v).ok()
}

/// Relies on `String::push` of std: it appends exactly the one character.
#[verifier::external_body]
fn string_push(s: &mut String, ch: char)
    ensures
        final(s)@ == old(s)@.push(ch),
{
    s.push(ch)
}

/// The code points the bytes render as, with every lone surrogate (and any
/// other non-scalar code) replaced by the replacement character.
pub open spec fn ju_lossy_codes(s: Seq<u8>) -> Seq<u32>
    decreases s.len(),
    when valid_jutf8(s)
{
    if s.len() == 0 {
        Seq::empty()
    } else {
        let w = ju_first_len(s);
        let c = ju_first_code(s);
        let item: u32 = if !ju_unpaired_surrogate(s) && scalar_ok(c) {
            c
        } else {
            0xFFFD
        };
        proof {
            let b1 = s[0];
            assert(b1 & 0x80 != 0 ==> !(0x01 <= b1 && b1 <= 0x7F)) by (bit_vector);
        }
        seq![item] + ju_lossy_codes(s.subrange(w, s.len() as int))
    }
}

/// The code values of a character sequence.
pub open spec fn char_codes(s: Seq<char>) -> Seq<u32> {
    s.map_values(|c: char| c as u32)
}

/// A renderer of a modified-UTF-8 string: every decodable code point as
/// itself, every lone surrogate as the replacement character.
pub struct Display {
    bytes: Vec<u8>,
}

impl View for Display {
    type V = Seq<u8>;

    closed spec fn view(&self) -> Seq<u8> {
        self.bytes@
    }
}

impl Display {
    /// The bytes hold well-formed modified UTF-8.
    pub open spec fn wf(&self) -> bool {
        valid_jutf8(self@)
    }

    /// Renders the text, replacing what no character can carry.
    pub fn to_string(&self) -> (r: String)
        requires
            self.wf(),
        ensures
            char_codes(r@) == ju_lossy_codes(self@),
    {
        let mut it = CharsLossy {
            inner: Chars { bytes: slice_to_vec(self.bytes.as_slice()), pos: 0 },
        };
        proof {
            assert(it@ =~= self@);
        }
        let mut out = String::new();
        proof {
            assert(char_codes(out@) =~= Seq::<u32>::empty());
            assert(char_codes(out@) + ju_lossy_codes(it@) =~= ju_lossy_codes(self@));
        }
        loop
            invariant
                it.wf(),
                char_codes(out@) + ju_lossy_codes(it@) == ju_lossy_codes(self@),
            ensures
                char_codes(out@) == ju_lossy_codes(self@),
            decreases it@.len(),
        {
            let ghost rem = it@;
            let ghost sofar = char_codes(out@);
            match it.next() {
                None => {
                    proof {
                        assert(ju_lossy_codes(rem) =~= Seq::<u32>::empty());
                        assert(sofar + Seq::<u32>::empty() =~= sofar);
                    }
                    break ;
                },
                Some(ch) => {
                    string_push(&mut out, ch);
                    proof {
                        let b1 = rem[0];
                        assert(b1 & 0x80 != 0 ==> !(0x01 <= b1 && b1 <= 0x7F)) by (bit_vector);
                        assert(1 <= ju_first_len(rem) <= rem.len());
                        let item = ju_lossy_codes(rem)[0];
                        assert(ju_lossy_codes(rem) == seq![item] + ju_lossy_codes(it@));
                        assert(item == ch as u32);
                        assert(char_codes(out@) =~= sofar.push(ch as u32));
                        assert(sofar.push(ch as u32) + ju_lossy_codes(it@) =~= sofar + (seq![
                            ch as u32,
                        ] + ju_lossy_codes(it@)));
                    }
                },
            }
        }
        out
    }
}


/// Well-formed modified UTF-8 stays well-formed under concatenation.
pub proof fn lemma_valid_concat(a: Seq<u8>, b: Seq<u8>)
    requires
        valid_jutf8(a),
        valid_jutf8(b),
    ensures
        valid_jutf8(a + b),
    decreases a.len(),
{
    if a.len() == 0 {
        assert(a + b =~= b);
    } else {
        let s = a + b;
        let b1 = a[0];
        assert(s[0] == a[0]);
        if 0x01 <= b1 && b1 <= 0x7F {
            lemma_valid_concat(a.subrange(1, a.len() as int), b);
            assert(s.subrange(1, s.len() as int) =~= a.subrange(1, a.len() as int) + b);
        } else if b1 & 0xE0 == 0xC0 {
            assert(s[1] == a[1]);
            lemma_valid_concat(a.subrange(2, a.len() as int), b);
            assert(s.subrange(2, s.len() as int) =~= a.subrange(2, a.len() as int) + b);
        } else {
            assert(s[1] == a[1] && s[2] == a[2]);
            lemma_valid_concat(a.subrange(3, a.len() as int), b);
            assert(s.subrange(3, s.len() as int) =~= a.subrange(3, a.len() as int) + b);
        }
    }
}

/// The encoding of any code point is well-formed modified UTF-8.
pub proof fn lemma_encode_valid(c: u32)
    ensures
        valid_jutf8(ju_encode(c)),
{
    let e = ju_encode(c);
    assert(valid_jutf8(Seq::<u8>::empty()));
    if 0x01 <= c && c <= 0x7F {
        assert(e.len() == 1 && e[0] == c as u8);
        assert(0x01 <= e[0] && e[0] <= 0x7F);
        assert(e.subrange(1, 1) =~= Seq::<u8>::empty());
        assert(valid_jutf8(e));
    } else if c == 0 || (0x80 <= c && c <= 0x7FF) {
        assert(((0xC0 | (c >> 6)) as u8) & 0xE0 == 0xC0 && !(0x01 <= ((0xC0 | (c
            >> 6)) as u8) && ((0xC0 | (c >> 6)) as u8) <= 0x7F)) by (bit_vector)
            requires
                c == 0 || (0x80 <= c && c <= 0x7FF),
        ;
        assert(((0x80 | (c & 0x3F)) as u8) & 0xC0 == 0x80) by (bit_vector);
        assert(c == 0 ==> ((0xC0 | (c >> 6)) as u8) == 0xC0) by (bit_vector);
        assert(0x80 <= c && c <= 0x7FF ==> ((0xC0 | (c >> 6)) as u8) & 0x1E != 0)
            by (bit_vector);
        assert(e.len() == 2 && e[0] == (0xC0 | (c >> 6)) as u8 && e[1] == (0x80 | (c
            & 0x3F)) as u8);
        assert(e.subrange(2, 2) =~= Seq::<u8>::empty());
        assert(e.subrange(2, e.len() as int) =~= Seq::<u8>::empty());
        assert(valid_jutf8(e));
    } else if 0x800 <= c && c <= 0xFFFF {
        assert(((0xE0 | (c >> 12)) as u8) & 0xF0 == 0xE0 && !(0x01 <= ((0xE0 | (c
            >> 12)) as u8) && ((0xE0 | (c >> 12)) as u8) <= 0x7F) && ((0xE0 | (c
            >> 12)) as u8) & 0xE0 != 0xC0) by (bit_vector)
            requires
                0x800 <= c && c <= 0xFFFF,
        ;
        assert(((0x80 | ((c >> 6) & 0x3F)) as u8) & 0xC0 == 0x80) by (bit_vector);
        assert(((0x80 | (c & 0x3F)) as u8) & 0xC0 == 0x80) by (bit_vector);
        assert(!(((0xE0 | (c >> 12)) as u8) & 0x0F == 0 && ((0x80 | ((c >> 6)
            & 0x3F)) as u8) & 0x20 == 0)) by (bit_vector)
            requires
                0x800 <= c && c <= 0xFFFF,
        ;
        assert(e.len() == 3 && e[0] == (0xE0 | (c >> 12)) as u8 && e[1] == (0x80 | ((c >> 6)
            & 0x3F)) as u8 && e[2] == (0x80 | (c & 0x3F)) as u8);
        assert(e.subrange(3, 3) =~= Seq::<u8>::empty());
        assert(e.subrange(3, e.len() as int) =~= Seq::<u8>::empty());
        assert(valid_jutf8(e));
    } else {
        let d = (c - 0x10000) as u32;
        assert(e.len() == 6);
        assert(e[0] == 0xEDu8 && e[3] == 0xEDu8);
        assert(e[1] == (0xA0 | ((d >> 16) & 0x0F)) as u8);
        assert(e[2] == (0x80 | ((d >> 10) & 0x3F)) as u8);
        assert(e[4] == (0xB0 | ((d >> 6) & 0x0F)) as u8);
        assert(e[5] == (0x80 | (d & 0x3F)) as u8);
        assert(((0xA0 | ((d >> 16) & 0x0F)) as u8) & 0xC0 == 0x80) by (bit_vector);
        assert(((0x80 | ((d >> 10) & 0x3F)) as u8) & 0xC0 == 0x80) by (bit_vector);
        assert(((0xB0 | ((d >> 6) & 0x0F)) as u8) & 0xC0 == 0x80) by (bit_vector);
        assert(((0x80 | (d & 0x3F)) as u8) & 0xC0 == 0x80) by (bit_vector);
        assert(0xEDu8 & 0xF0 == 0xE0 && 0xEDu8 & 0xE0 != 0xC0 && 0xEDu8 & 0x0F != 0 && !(0x01
            <= 0xEDu8 && 0xEDu8 <= 0x7F)) by (bit_vector);
        let tail = e.subrange(3, e.len() as int);
        assert(tail.len() == 3);
        assert(tail[0] == e[3] && tail[1] == e[4] && tail[2] == e[5]);
        assert(valid_jutf8(Seq::<u8>::empty()));
        assert(tail.subrange(3, tail.len() as int) =~= Seq::<u8>::empty());
        assert(valid_jutf8(tail));
        assert(valid_jutf8(e));
    }
}

} // verus!
