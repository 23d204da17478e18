//! The values of a property set: a 16-bit type tag and, behind it, a payload
//! whose layout the tag selects.

use vstd::prelude::*;
use vstd::slice::slice_to_vec;
use crate::error::DecodeError;
use crate::from_reader::FromReader;
use crate::subreader::SubReader;
use crate::text::{string_from_utf16, string_from_utf8, utf16_text, utf8_text};
use crate::wire::{
    be_u16, be_u64, be_units, fits, le_i16, le_i32, le_i64, le_u16, le_u32, le_u64, signed8,
    u16_be_at, u16_le_at,
};

verus! {

/// A decoded property value. A floating-point payload is kept as the bit
/// pattern that the stream holds; the `VT_ARRAY` kinds are named but no tag
/// decodes to them. A tag that names no known layout is kept in `Unknown`.
#[allow(non_camel_case_types)]
#[derive(Debug, PartialEq)]
pub enum NormalPropertyType {
    VT_EMPTY,
    VT_NULL,
    VT_I2(i16),
    VT_I4(i32),
    VT_R4(u32),
    VT_R8(u64),
    VT_CY(i64),
    VT_DATE(u64),
    VT_BSTR(String),
    VT_ERROR(u32),
    VT_BOOL(bool),
    VT_DECIMAL(u64),
    VT_I1(i8),
    VT_UI1(u8),
    VT_UI2(u16),
    VT_UI4(u32),
    VT_I8(i64),
    VT_UI8(u64),
    VT_INT(i32),
    VT_UINT(u32),
    VT_LPSTR(String),
    VT_LPWSTR(String),
    VT_FILETIME(u64),
    VT_BLOB(Vec<u8>),
    VT_STREAM(u64),
    VT_STORAGE(u64),
    VT_STREAMED_OBJECT(u64),
    VT_STORED_OBJECT(u64),
    VT_BLOB_OBJECT(Vec<u8>),
    VT_CF(u32),
    VT_CLSID([u8; 16]),
    VT_VECTOR_VT_I2(Vec<i16>),
    VT_VECTOR_VT_I4(Vec<i32>),
    VT_VECTOR_VT_R4(Vec<u32>),
    VT_VECTOR_VT_R8(Vec<u64>),
    VT_VECTOR_VT_CY(Vec<i64>),
    VT_VECTOR_VT_BOOL(Vec<bool>),
    VT_VECTOR_VT_VARIANT(Vec<NormalPropertyType>),
    VT_VECTOR_VT_I1(Vec<i8>),
    VT_VECTOR_VT_UI1(Vec<u8>),
    VT_VECTOR_VT_UI2(Vec<u16>),
    VT_VECTOR_VT_UI4(Vec<u32>),
    VT_VECTOR_VT_I8(Vec<i64>),
    VT_VECTOR_VT_UI8(Vec<u64>),
    VT_VECTOR_VT_LPSTR(Vec<String>),
    VT_VECTOR_VT_LPWSTR(Vec<String>),
    VT_VECTOR_VT_FILETIME(Vec<u64>),
    VT_VECTOR_VT_CF(Vec<u32>),
    VT_VECTOR_VT_CLSID(Vec<[u8; 16]>),
    VT_ARRAY_VT_I2(Vec<i16>),
    VT_ARRAY_VT_I4(Vec<i32>),
    VT_ARRAY_VT_R4(Vec<u32>),
    VT_ARRAY_VT_R8(Vec<u64>),
    VT_ARRAY_VT_CY(Vec<i64>),
    VT_ARRAY_VT_DATE(Vec<u64>),
    VT_ARRAY_VT_BSTR(Vec<String>),
    VT_ARRAY_VT_ERROR(Vec<i32>),
    VT_ARRAY_VT_BOOL(Vec<bool>),
    VT_ARRAY_VT_VARIANT(Vec<NormalPropertyType>),
    VT_ARRAY_VT_DECIMAL(Vec<u64>),
    VT_ARRAY_VT_I1(Vec<i8>),
    VT_ARRAY_VT_UI1(Vec<u8>),
    VT_ARRAY_VT_UI2(Vec<u16>),
    VT_ARRAY_VT_UI4(Vec<u32>),
    VT_ARRAY_VT_INT(Vec<i32>),
    VT_ARRAY_VT_UINT(Vec<u32>),
    Unknown(u16),
}

/// What a property value holds, with sequences in place of vectors and
/// strings.
#[allow(non_camel_case_types)]
pub ghost enum PropertyValue {
    VT_EMPTY,
    VT_NULL,
    VT_I2(i16),
    VT_I4(i32),
    VT_R4(u32),
    VT_R8(u64),
    VT_CY(i64),
    VT_DATE(u64),
    VT_BSTR(Seq<char>),
    VT_ERROR(u32),
    VT_BOOL(bool),
    VT_DECIMAL(u64),
    VT_I1(i8),
    VT_UI1(u8),
    VT_UI2(u16),
    VT_UI4(u32),
    VT_I8(i64),
    VT_UI8(u64),
    VT_INT(i32),
    VT_UINT(u32),
    VT_LPSTR(Seq<char>),
    VT_LPWSTR(Seq<char>),
    VT_FILETIME(u64),
    VT_BLOB(Seq<u8>),
    VT_STREAM(u64),
    VT_STORAGE(u64),
    VT_STREAMED_OBJECT(u64),
    VT_STORED_OBJECT(u64),
    VT_BLOB_OBJECT(Seq<u8>),
    VT_CF(u32),
    VT_CLSID([u8; 16]),
    VT_VECTOR_VT_I2(Seq<i16>),
    VT_VECTOR_VT_I4(Seq<i32>),
    VT_VECTOR_VT_R4(Seq<u32>),
    VT_VECTOR_VT_R8(Seq<u64>),
    VT_VECTOR_VT_CY(Seq<i64>),
    VT_VECTOR_VT_BOOL(Seq<bool>),
    VT_VECTOR_VT_VARIANT(Seq<PropertyValue>),
    VT_VECTOR_VT_I1(Seq<i8>),
    VT_VECTOR_VT_UI1(Seq<u8>),
    VT_VECTOR_VT_UI2(Seq<u16>),
    VT_VECTOR_VT_UI4(Seq<u32>),
    VT_VECTOR_VT_I8(Seq<i64>),
    VT_VECTOR_VT_UI8(Seq<u64>),
    VT_VECTOR_VT_LPSTR(Seq<Seq<char>>),
    VT_VECTOR_VT_LPWSTR(Seq<Seq<char>>),
    VT_VECTOR_VT_FILETIME(Seq<u64>),
    VT_VECTOR_VT_CF(Seq<u32>),
    VT_VECTOR_VT_CLSID(Seq<[u8; 16]>),
    VT_ARRAY_VT_I2(Seq<i16>),
    VT_ARRAY_VT_I4(Seq<i32>),
    VT_ARRAY_VT_R4(Seq<u32>),
    VT_ARRAY_VT_R8(Seq<u64>),
    VT_ARRAY_VT_CY(Seq<i64>),
    VT_ARRAY_VT_DATE(Seq<u64>),
    VT_ARRAY_VT_BSTR(Seq<Seq<char>>),
    VT_ARRAY_VT_ERROR(Seq<i32>),
    VT_ARRAY_VT_BOOL(Seq<bool>),
    VT_ARRAY_VT_VARIANT(Seq<PropertyValue>),
    VT_ARRAY_VT_DECIMAL(Seq<u64>),
    VT_ARRAY_VT_I1(Seq<i8>),
    VT_ARRAY_VT_UI1(Seq<u8>),
    VT_ARRAY_VT_UI2(Seq<u16>),
    VT_ARRAY_VT_UI4(Seq<u32>),
    VT_ARRAY_VT_INT(Seq<i32>),
    VT_ARRAY_VT_UINT(Seq<u32>),
    Unknown(u16),
}

/// The texts of `v`, in order.
pub open spec fn texts_view(v: Seq<String>) -> Seq<Seq<char>> {
    Seq::new(v.len(), |i: int| v[i]@)
}

/// What `value` holds.
pub open spec fn value_view(value: NormalPropertyType) -> PropertyValue
    decreases value,
{
    match value {
        NormalPropertyType::VT_EMPTY => PropertyValue::VT_EMPTY,
        NormalPropertyType::VT_NULL => PropertyValue::VT_NULL,
        NormalPropertyType::VT_I2(v) => PropertyValue::VT_I2(v),
        NormalPropertyType::VT_I4(v) => PropertyValue::VT_I4(v),
        NormalPropertyType::VT_R4(v) => PropertyValue::VT_R4(v),
        NormalPropertyType::VT_R8(v) => PropertyValue::VT_R8(v),
        NormalPropertyType::VT_CY(v) => PropertyValue::VT_CY(v),
        NormalPropertyType::VT_DATE(v) => PropertyValue::VT_DATE(v),
        NormalPropertyType::VT_BSTR(v) => PropertyValue::VT_BSTR(v@),
        NormalPropertyType::VT_ERROR(v) => PropertyValue::VT_ERROR(v),
        NormalPropertyType::VT_BOOL(v) => PropertyValue::VT_BOOL(v),
        NormalPropertyType::VT_DECIMAL(v) => PropertyValue::VT_DECIMAL(v),
        NormalPropertyType::VT_I1(v) => PropertyValue::VT_I1(v),
        NormalPropertyType::VT_UI1(v) => PropertyValue::VT_UI1(v),
        NormalPropertyType::VT_UI2(v) => PropertyValue::VT_UI2(v),
        NormalPropertyType::VT_UI4(v) => PropertyValue::VT_UI4(v),
        NormalPropertyType::VT_I8(v) => PropertyValue::VT_I8(v),
        NormalPropertyType::VT_UI8(v) => PropertyValue::VT_UI8(v),
        NormalPropertyType::VT_INT(v) => PropertyValue::VT_INT(v),
        NormalPropertyType::VT_UINT(v) => PropertyValue::VT_UINT(v),
        NormalPropertyType::VT_LPSTR(v) => PropertyValue::VT_LPSTR(v@),
        NormalPropertyType::VT_LPWSTR(v) => PropertyValue::VT_LPWSTR(v@),
        NormalPropertyType::VT_FILETIME(v) => PropertyValue::VT_FILETIME(v),
        NormalPropertyType::VT_BLOB(v) => PropertyValue::VT_BLOB(v@),
        NormalPropertyType::VT_STREAM(v) => PropertyValue::VT_STREAM(v),
        NormalPropertyType::VT_STORAGE(v) => PropertyValue::VT_STORAGE(v),
        NormalPropertyType::VT_STREAMED_OBJECT(v) => PropertyValue::VT_STREAMED_OBJECT(v),
        NormalPropertyType::VT_STORED_OBJECT(v) => PropertyValue::VT_STORED_OBJECT(v),
        NormalPropertyType::VT_BLOB_OBJECT(v) => PropertyValue::VT_BLOB_OBJECT(v@),
        NormalPropertyType::VT_CF(v) => PropertyValue::VT_CF(v),
        NormalPropertyType::VT_CLSID(v) => PropertyValue::VT_CLSID(v),
        NormalPropertyType::VT_VECTOR_VT_I2(v) => PropertyValue::VT_VECTOR_VT_I2(v@),
        NormalPropertyType::VT_VECTOR_VT_I4(v) => PropertyValue::VT_VECTOR_VT_I4(v@),
        NormalPropertyType::VT_VECTOR_VT_R4(v) => PropertyValue::VT_VECTOR_VT_R4(v@),
        NormalPropertyType::VT_VECTOR_VT_R8(v) => PropertyValue::VT_VECTOR_VT_R8(v@),
        NormalPropertyType::VT_VECTOR_VT_CY(v) => PropertyValue::VT_VECTOR_VT_CY(v@),
        NormalPropertyType::VT_VECTOR_VT_BOOL(v) => PropertyValue::VT_VECTOR_VT_BOOL(v@),
        NormalPropertyType::VT_VECTOR_VT_VARIANT(v) => PropertyValue::VT_VECTOR_VT_VARIANT(
            Seq::new(
                v@.len(),
                |i: int|
                    if 0 <= i < v@.len() {
                        value_view(v@[i])
                    } else {
                        PropertyValue::VT_EMPTY
                    },
            ),
        ),
        NormalPropertyType::VT_VECTOR_VT_I1(v) => PropertyValue::VT_VECTOR_VT_I1(v@),
        NormalPropertyType::VT_VECTOR_VT_UI1(v) => PropertyValue::VT_VECTOR_VT_UI1(v@),
        NormalPropertyType::VT_VECTOR_VT_UI2(v) => PropertyValue::VT_VECTOR_VT_UI2(v@),
        NormalPropertyType::VT_VECTOR_VT_UI4(v) => PropertyValue::VT_VECTOR_VT_UI4(v@),
        NormalPropertyType::VT_VECTOR_VT_I8(v) => PropertyValue::VT_VECTOR_VT_I8(v@),
        NormalPropertyType::VT_VECTOR_VT_UI8(v) => PropertyValue::VT_VECTOR_VT_UI8(v@),
        NormalPropertyType::VT_VECTOR_VT_LPSTR(v) => PropertyValue::VT_VECTOR_VT_LPSTR(texts_view(v@)),
        NormalPropertyType::VT_VECTOR_VT_LPWSTR(v) => PropertyValue::VT_VECTOR_VT_LPWSTR(texts_view(v@)),
        NormalPropertyType::VT_VECTOR_VT_FILETIME(v) => PropertyValue::VT_VECTOR_VT_FILETIME(v@),
        NormalPropertyType::VT_VECTOR_VT_CF(v) => PropertyValue::VT_VECTOR_VT_CF(v@),
        NormalPropertyType::VT_VECTOR_VT_CLSID(v) => PropertyValue::VT_VECTOR_VT_CLSID(v@),
        NormalPropertyType::VT_ARRAY_VT_I2(v) => PropertyValue::VT_ARRAY_VT_I2(v@),
        NormalPropertyType::VT_ARRAY_VT_I4(v) => PropertyValue::VT_ARRAY_VT_I4(v@),
        NormalPropertyType::VT_ARRAY_VT_R4(v) => PropertyValue::VT_ARRAY_VT_R4(v@),
        NormalPropertyType::VT_ARRAY_VT_R8(v) => PropertyValue::VT_ARRAY_VT_R8(v@),
        NormalPropertyType::VT_ARRAY_VT_CY(v) => PropertyValue::VT_ARRAY_VT_CY(v@),
        NormalPropertyType::VT_ARRAY_VT_DATE(v) => PropertyValue::VT_ARRAY_VT_DATE(v@),
        NormalPropertyType::VT_ARRAY_VT_BSTR(v) => PropertyValue::VT_ARRAY_VT_BSTR(texts_view(v@)),
        NormalPropertyType::VT_ARRAY_VT_ERROR(v) => PropertyValue::VT_ARRAY_VT_ERROR(v@),
        NormalPropertyType::VT_ARRAY_VT_BOOL(v) => PropertyValue::VT_ARRAY_VT_BOOL(v@),
        NormalPropertyType::VT_ARRAY_VT_VARIANT(v) => PropertyValue::VT_ARRAY_VT_VARIANT(
            Seq::new(
                v@.len(),
                |i: int|
                    if 0 <= i < v@.len() {
                        value_view(v@[i])
                    } else {
                        PropertyValue::VT_EMPTY
                    },
            ),
        ),
        NormalPropertyType::VT_ARRAY_VT_DECIMAL(v) => PropertyValue::VT_ARRAY_VT_DECIMAL(v@),
        NormalPropertyType::VT_ARRAY_VT_I1(v) => PropertyValue::VT_ARRAY_VT_I1(v@),
        NormalPropertyType::VT_ARRAY_VT_UI1(v) => PropertyValue::VT_ARRAY_VT_UI1(v@),
        NormalPropertyType::VT_ARRAY_VT_UI2(v) => PropertyValue::VT_ARRAY_VT_UI2(v@),
        NormalPropertyType::VT_ARRAY_VT_UI4(v) => PropertyValue::VT_ARRAY_VT_UI4(v@),
        NormalPropertyType::VT_ARRAY_VT_INT(v) => PropertyValue::VT_ARRAY_VT_INT(v@),
        NormalPropertyType::VT_ARRAY_VT_UINT(v) => PropertyValue::VT_ARRAY_VT_UINT(v@),
        NormalPropertyType::Unknown(v) => PropertyValue::Unknown(v),
    }
}

impl View for NormalPropertyType {
    type V = PropertyValue;

    open spec fn view(&self) -> PropertyValue {
        value_view(*self)
    }
}

/// The values of `v`, in order.
pub open spec fn values_view(v: Seq<NormalPropertyType>) -> Seq<PropertyValue> {
    Seq::new(v.len(), |i: int| v[i]@)
}

/// The view of a vector of values is the sequence of the values' views.
pub proof fn lemma_values_view(v: Vec<NormalPropertyType>)
    ensures
        NormalPropertyType::VT_VECTOR_VT_VARIANT(v)@ == PropertyValue::VT_VECTOR_VT_VARIANT(
            values_view(v@),
        ),
        NormalPropertyType::VT_ARRAY_VT_VARIANT(v)@ == PropertyValue::VT_ARRAY_VT_VARIANT(
            values_view(v@),
        ),
{
    reveal_with_fuel(value_view, 2);
    let a = value_view(NormalPropertyType::VT_VECTOR_VT_VARIANT(v))->VT_VECTOR_VT_VARIANT_0;
    assert(a =~= values_view(v@));
    let b = value_view(NormalPropertyType::VT_ARRAY_VT_VARIANT(v))->VT_ARRAY_VT_VARIANT_0;
    assert(b =~= values_view(v@));
}

/// The sixteen bytes at `p`.
pub open spec fn clsid_at(s: Seq<u8>, p: int) -> [u8; 16] {
    [
        s[p],
        s[p + 1],
        s[p + 2],
        s[p + 3],
        s[p + 4],
        s[p + 5],
        s[p + 6],
        s[p + 7],
        s[p + 8],
        s[p + 9],
        s[p + 10],
        s[p + 11],
        s[p + 12],
        s[p + 13],
        s[p + 14],
        s[p + 15],
    ]
}

/// A value that is stored in a fixed number of bytes.
pub trait Fixed: Sized + Copy {
    /// The number of bytes that a value takes.
    spec fn width() -> nat;

    /// The value stored at `p`.
    spec fn stored(s: Seq<u8>, p: int) -> Self;

    /// Reads the value at the reader's position.
    fn read(reader: &mut SubReader<'_>) -> (r: Result<Self, DecodeError>)
        ensures
            match r {
                Ok(v) => final(reader).read(old(reader), Self::width() as int) && v == Self::stored(
                    old(reader).stream(),
                    old(reader).pos() as int,
                ),
                Err(e) => final(reader).cut_short(old(reader), Self::width() as int, e),
            },
    ;
}

/// A signed 16-bit value, stored little-endian.
impl Fixed for i16 {
    open spec fn width() -> nat {
        2
    }

    open spec fn stored(s: Seq<u8>, p: int) -> Self {
        le_i16(s, p)
    }

    fn read(reader: &mut SubReader<'_>) -> (r: Result<Self, DecodeError>) {
        reader.read_i16_le()
    }
}

/// A signed 32-bit value, stored little-endian.
impl Fixed for i32 {
    open spec fn width() -> nat {
        4
    }

    open spec fn stored(s: Seq<u8>, p: int) -> Self {
        le_i32(s, p)
    }

    fn read(reader: &mut SubReader<'_>) -> (r: Result<Self, DecodeError>) {
        reader.read_i32_le()
    }
}

/// A 32-bit value, stored little-endian.
impl Fixed for u32 {
    open spec fn width() -> nat {
        4
    }

    open spec fn stored(s: Seq<u8>, p: int) -> Self {
        le_u32(s, p)
    }

    fn read(reader: &mut SubReader<'_>) -> (r: Result<Self, DecodeError>) {
        reader.read_u32_le()
    }
}

/// A 64-bit value, stored little-endian.
impl Fixed for u64 {
    open spec fn width() -> nat {
        8
    }

    open spec fn stored(s: Seq<u8>, p: int) -> Self {
        le_u64(s, p)
    }

    fn read(reader: &mut SubReader<'_>) -> (r: Result<Self, DecodeError>) {
        reader.read_u64_le()
    }
}

/// A signed 64-bit value, stored little-endian.
impl Fixed for i64 {
    open spec fn width() -> nat {
        8
    }

    open spec fn stored(s: Seq<u8>, p: int) -> Self {
        le_i64(s, p)
    }

    fn read(reader: &mut SubReader<'_>) -> (r: Result<Self, DecodeError>) {
        reader.read_i64_le()
    }
}

/// A signed byte.
impl Fixed for i8 {
    open spec fn width() -> nat {
        1
    }

    open spec fn stored(s: Seq<u8>, p: int) -> Self {
        signed8(s[p])
    }

    fn read(reader: &mut SubReader<'_>) -> (r: Result<Self, DecodeError>) {
        reader.read_i8()
    }
}

/// A byte.
impl Fixed for u8 {
    open spec fn width() -> nat {
        1
    }

    open spec fn stored(s: Seq<u8>, p: int) -> Self {
        s[p]
    }

    fn read(reader: &mut SubReader<'_>) -> (r: Result<Self, DecodeError>) {
        reader.read_u8()
    }
}

/// A 16-bit value, stored little-endian.
impl Fixed for u16 {
    open spec fn width() -> nat {
        2
    }

    open spec fn stored(s: Seq<u8>, p: int) -> Self {
        le_u16(s, p)
    }

    fn read(reader: &mut SubReader<'_>) -> (r: Result<Self, DecodeError>) {
        reader.read_u16_le()
    }
}

/// A truth value, stored as a little-endian 16-bit word that is not zero.
impl Fixed for bool {
    open spec fn width() -> nat {
        2
    }

    open spec fn stored(s: Seq<u8>, p: int) -> Self {
        le_u16(s, p) != 0
    }

    fn read(reader: &mut SubReader<'_>) -> (r: Result<Self, DecodeError>) {
        let word: u16 = reader.read_u16_le()?;
        Ok(word != 0)
    }
}

/// A class identifier of sixteen bytes.
impl Fixed for [u8; 16] {
    open spec fn width() -> nat {
        16
    }

    open spec fn stored(s: Seq<u8>, p: int) -> Self {
        clsid_at(s, p)
    }

    fn read(reader: &mut SubReader<'_>) -> (r: Result<Self, DecodeError>) {
        let b: &[u8] = reader.take(16)?;
        Ok(
            [
                b[0],
                b[1],
                b[2],
                b[3],
                b[4],
                b[5],
                b[6],
                b[7],
                b[8],
                b[9],
                b[10],
                b[11],
                b[12],
                b[13],
                b[14],
                b[15],
            ],
        )
    }
}

/// The `n` values stored one after another from `p` on.
pub open spec fn run<T: Fixed>(s: Seq<u8>, p: int, n: nat) -> Seq<T> {
    Seq::new(n, |i: int| T::stored(s, p + T::width() * i))
}


/// A payload of fixed width: `v` and the place behind it, where `width` bytes
/// lie at `p`.
pub open spec fn fixed(s: Seq<u8>, p: int, width: int, v: PropertyValue) -> Result<
    (PropertyValue, int),
    DecodeError,
> {
    if fits(s, p, width) {
        Ok((v, p + width))
    } else {
        Err(DecodeError::UnexpectedEof)
    }
}

/// A counted run of items of fixed width: `v` and the place behind the run,
/// where the count at `p` and that many items of `width` bytes lie in `s`.
pub open spec fn counted(s: Seq<u8>, p: int, width: int, v: PropertyValue) -> Result<
    (PropertyValue, int),
    DecodeError,
> {
    if fits(s, p, 4) && fits(s, p + 4, width * le_u32(s, p)) {
        Ok((v, p + 4 + width * le_u32(s, p)))
    } else {
        Err(DecodeError::UnexpectedEof)
    }
}

/// The bytes of the length-prefixed payload at `p`: a 32-bit count of bytes
/// and then the bytes.
pub open spec fn prefixed_bytes(s: Seq<u8>, p: int) -> Seq<u8> {
    s.subrange(p + 4, p + 4 + le_u32(s, p))
}

/// Whether the length-prefixed payload at `p` lies in `s`.
pub open spec fn prefixed_fits(s: Seq<u8>, p: int) -> bool {
    fits(s, p, 4) && fits(s, p + 4, le_u32(s, p) as int)
}

/// The 16-bit units of `bytes`, two bytes to a unit, the high byte first; an
/// odd last byte is left out.
pub open spec fn wide_units(bytes: Seq<u8>) -> Seq<u16> {
    be_units(bytes, 0, (bytes.len() / 2) as nat)
}

/// The text of the length-prefixed payload at `p` and the place behind it.
/// A wide text is read as UTF-16 with the high byte of each unit first,
/// whatever code page the property set declares; a narrow one as UTF-8.
pub open spec fn text_at(s: Seq<u8>, p: int, wide: bool) -> Result<(Seq<char>, int), DecodeError> {
    if !prefixed_fits(s, p) {
        Err(DecodeError::UnexpectedEof)
    } else {
        let text = if wide {
            utf16_text(wide_units(prefixed_bytes(s, p)))
        } else {
            utf8_text(prefixed_bytes(s, p))
        };
        match text {
            Some(t) => Ok((t, p + 4 + le_u32(s, p))),
            None => Err(DecodeError::InvalidText),
        }
    }
}

/// The `k` texts stored one after another from `p` on, and the place behind
/// the last.
pub open spec fn texts_at(s: Seq<u8>, p: int, k: nat, wide: bool) -> Result<
    (Seq<Seq<char>>, int),
    DecodeError,
>
    decreases k,
{
    if k == 0 {
        Ok((Seq::empty(), p))
    } else {
        match text_at(s, p, wide) {
            Err(e) => Err(e),
            Ok((t, q)) => match texts_at(s, q, (k - 1) as nat, wide) {
                Err(e) => Err(e),
                Ok((rest, end)) => Ok((seq![t] + rest, end)),
            },
        }
    }
}

/// Whether `tag` selects a payload that is a count of bytes and the bytes.
pub open spec fn is_sized_tag(tag: u16) -> bool {
    tag == 0x0008 || tag == 0x001E || tag == 0x001F || tag == 0x0041 || tag == 0x0046
}

/// Whether `tag` selects a payload that is a count and that many items of one
/// fixed width.
pub open spec fn is_counted_tag(tag: u16) -> bool {
    tag == 0x1002 || tag == 0x1003 || tag == 0x1004 || tag == 0x1005 || tag == 0x1006 ||
        tag == 0x100B || tag == 0x1010 || tag == 0x1011 || tag == 0x1012 || tag == 0x1013 ||
        tag == 0x1014 || tag == 0x1015 || tag == 0x1040 || tag == 0x1047 || tag == 0x1048
}

/// Whether `tag` selects a payload that is a count and that many items which
/// each say where they end.
pub open spec fn is_listed_tag(tag: u16) -> bool {
    tag == 0x100C || tag == 0x101E || tag == 0x101F
}

/// The value of the payload of fixed width at `p` that `tag` selects. A tag
/// that selects no known layout is kept as it is, and has no payload.
pub open spec fn plain_at(s: Seq<u8>, p: int, tag: u16) -> Result<
    (PropertyValue, int),
    DecodeError,
> {
    match tag {
        0x0000 => Ok((PropertyValue::VT_EMPTY, p)),
        0x0001 => Ok((PropertyValue::VT_NULL, p)),
        0x0002 => fixed(s, p, 2, PropertyValue::VT_I2(le_i16(s, p))),
        0x0003 => fixed(s, p, 4, PropertyValue::VT_I4(le_i32(s, p))),
        0x0004 => fixed(s, p, 4, PropertyValue::VT_R4(le_u32(s, p))),
        0x0005 => fixed(s, p, 8, PropertyValue::VT_R8(le_u64(s, p))),
        0x0006 => fixed(s, p, 8, PropertyValue::VT_CY(le_i64(s, p))),
        0x0007 => fixed(s, p, 8, PropertyValue::VT_DATE(be_u64(s, p))),
        0x000A => fixed(s, p, 4, PropertyValue::VT_ERROR(le_u32(s, p))),
        0x000B => fixed(s, p, 2, PropertyValue::VT_BOOL(be_u16(s, p) != 0)),
        0x000E => fixed(s, p, 8, PropertyValue::VT_DECIMAL(le_u64(s, p))),
        0x0010 => fixed(s, p, 1, PropertyValue::VT_I1(signed8(s[p]))),
        0x0011 => fixed(s, p, 1, PropertyValue::VT_UI1(s[p])),
        0x0012 => fixed(s, p, 2, PropertyValue::VT_UI2(le_u16(s, p))),
        0x0013 => fixed(s, p, 4, PropertyValue::VT_UI4(le_u32(s, p))),
        0x0014 => fixed(s, p, 8, PropertyValue::VT_I8(le_i64(s, p))),
        0x0015 => fixed(s, p, 8, PropertyValue::VT_UI8(le_u64(s, p))),
        0x0016 => fixed(s, p, 4, PropertyValue::VT_INT(le_i32(s, p))),
        0x0017 => fixed(s, p, 4, PropertyValue::VT_UINT(le_u32(s, p))),
        0x0040 => fixed(s, p, 8, PropertyValue::VT_FILETIME(le_u64(s, p))),
        0x0042 => fixed(s, p, 8, PropertyValue::VT_STREAM(le_u64(s, p))),
        0x0043 => fixed(s, p, 8, PropertyValue::VT_STORAGE(le_u64(s, p))),
        0x0044 => fixed(s, p, 8, PropertyValue::VT_STREAMED_OBJECT(le_u64(s, p))),
        0x0045 => fixed(s, p, 8, PropertyValue::VT_STORED_OBJECT(le_u64(s, p))),
        0x0047 => fixed(s, p, 4, PropertyValue::VT_CF(le_u32(s, p))),
        0x0048 => fixed(s, p, 16, PropertyValue::VT_CLSID(clsid_at(s, p))),
        _ => Ok((PropertyValue::Unknown(tag), p)),
    }
}

/// The value of the payload at `p` that is a count of bytes and the bytes.
pub open spec fn sized_at(s: Seq<u8>, p: int, tag: u16) -> Result<
    (PropertyValue, int),
    DecodeError,
> {
    match tag {
        0x0008 => {
            match text_at(s, p, true) {
                Ok((t, end)) => Ok((PropertyValue::VT_BSTR(t), end)),
                Err(e) => Err(e),
            }
        },
        0x001E => {
            match text_at(s, p, false) {
                Ok((t, end)) => Ok((PropertyValue::VT_LPSTR(t), end)),
                Err(e) => Err(e),
            }
        },
        0x001F => {
            match text_at(s, p, true) {
                Ok((t, end)) => Ok((PropertyValue::VT_LPWSTR(t), end)),
                Err(e) => Err(e),
            }
        },
        0x0041 => {
            if prefixed_fits(s, p) {
                Ok((PropertyValue::VT_BLOB(prefixed_bytes(s, p)), p + 4 + le_u32(s, p)))
            } else {
                Err(DecodeError::UnexpectedEof)
            }
        },
        _ => {
            if prefixed_fits(s, p) {
                Ok((PropertyValue::VT_BLOB_OBJECT(prefixed_bytes(s, p)), p + 4 + le_u32(s, p)))
            } else {
                Err(DecodeError::UnexpectedEof)
            }
        },
    }
}

/// The value of the payload at `p` that is a count and that many items of one
/// fixed width.
pub open spec fn counted_at(s: Seq<u8>, p: int, tag: u16) -> Result<
    (PropertyValue, int),
    DecodeError,
> {
    match tag {
        0x1002 => counted(s, p, 2, PropertyValue::VT_VECTOR_VT_I2(run::<i16>(s, p + 4, le_u32(s, p) as nat))),
        0x1003 => counted(s, p, 4, PropertyValue::VT_VECTOR_VT_I4(run::<i32>(s, p + 4, le_u32(s, p) as nat))),
        0x1004 => counted(s, p, 4, PropertyValue::VT_VECTOR_VT_R4(run::<u32>(s, p + 4, le_u32(s, p) as nat))),
        0x1005 => counted(s, p, 8, PropertyValue::VT_VECTOR_VT_R8(run::<u64>(s, p + 4, le_u32(s, p) as nat))),
        0x1006 => counted(s, p, 8, PropertyValue::VT_VECTOR_VT_CY(run::<i64>(s, p + 4, le_u32(s, p) as nat))),
        0x100B => counted(s, p, 2, PropertyValue::VT_VECTOR_VT_BOOL(run::<bool>(s, p + 4, le_u32(s, p) as nat))),
        0x1010 => counted(s, p, 1, PropertyValue::VT_VECTOR_VT_I1(run::<i8>(s, p + 4, le_u32(s, p) as nat))),
        0x1011 => counted(s, p, 1, PropertyValue::VT_VECTOR_VT_UI1(run::<u8>(s, p + 4, le_u32(s, p) as nat))),
        0x1012 => counted(s, p, 2, PropertyValue::VT_VECTOR_VT_UI2(run::<u16>(s, p + 4, le_u32(s, p) as nat))),
        0x1013 => counted(s, p, 4, PropertyValue::VT_VECTOR_VT_UI4(run::<u32>(s, p + 4, le_u32(s, p) as nat))),
        0x1014 => counted(s, p, 8, PropertyValue::VT_VECTOR_VT_I8(run::<i64>(s, p + 4, le_u32(s, p) as nat))),
        0x1015 => counted(s, p, 8, PropertyValue::VT_VECTOR_VT_UI8(run::<u64>(s, p + 4, le_u32(s, p) as nat))),
        0x1040 => counted(s, p, 8, PropertyValue::VT_VECTOR_VT_FILETIME(run::<u64>(s, p + 4, le_u32(s, p) as nat))),
        0x1047 => counted(s, p, 4, PropertyValue::VT_VECTOR_VT_CF(run::<u32>(s, p + 4, le_u32(s, p) as nat))),
        _ => counted(s, p, 16, PropertyValue::VT_VECTOR_VT_CLSID(run::<[u8; 16]>(s, p + 4, le_u32(s, p) as nat))),
    }
}

/// The value of the payload at `p` that is a count and that many items which
/// each say where they end: texts, or values with tags of their own.
pub open spec fn listed_at(s: Seq<u8>, p: int, tag: u16) -> Result<(PropertyValue, int), DecodeError>
    decreases s.len() - p, 0nat,
{
    if !fits(s, p, 4) {
        Err(DecodeError::UnexpectedEof)
    } else if tag == 0x100C {
        match values_at(s, p + 4, le_u32(s, p) as nat) {
            Ok((v, end)) => Ok((PropertyValue::VT_VECTOR_VT_VARIANT(v), end)),
            Err(e) => Err(e),
        }
    } else if tag == 0x101E {
        match texts_at(s, p + 4, le_u32(s, p) as nat, false) {
            Ok((v, end)) => Ok((PropertyValue::VT_VECTOR_VT_LPSTR(v), end)),
            Err(e) => Err(e),
        }
    } else {
        match texts_at(s, p + 4, le_u32(s, p) as nat, true) {
            Ok((v, end)) => Ok((PropertyValue::VT_VECTOR_VT_LPWSTR(v), end)),
            Err(e) => Err(e),
        }
    }
}

/// The value stored at `at` and the place behind it, or why there is none.
pub open spec fn value_at(s: Seq<u8>, at: int) -> Result<(PropertyValue, int), DecodeError>
    decreases s.len() - at, 1nat,
{
    if !fits(s, at, 2) {
        Err(DecodeError::UnexpectedEof)
    } else if is_sized_tag(le_u16(s, at)) {
        sized_at(s, at + 2, le_u16(s, at))
    } else if is_counted_tag(le_u16(s, at)) {
        counted_at(s, at + 2, le_u16(s, at))
    } else if is_listed_tag(le_u16(s, at)) {
        listed_at(s, at + 2, le_u16(s, at))
    } else {
        plain_at(s, at + 2, le_u16(s, at))
    }
}

/// The `k` values stored one after another from `p` on, and the place behind
/// the last. A run that starts beyond the end of the stream is cut short,
/// however many values it has. Every value takes at least the two bytes of
/// its tag, so the place only moves forward.
pub open spec fn values_at(s: Seq<u8>, p: int, k: nat) -> Result<
    (Seq<PropertyValue>, int),
    DecodeError,
>
    decreases s.len() - p, k + 2,
{
    if !fits(s, p, 0) {
        Err(DecodeError::UnexpectedEof)
    } else if k == 0 {
        Ok((Seq::empty(), p))
    } else {
        match value_at(s, p) {
            Err(e) => Err(e),
            Ok((v, q)) => if p < q <= s.len() {
                match values_at(s, q, (k - 1) as nat) {
                    Err(e) => Err(e),
                    Ok((rest, end)) => Ok((seq![v] + rest, end)),
                }
            } else {
                Err(DecodeError::MalformedLayout)
            },
        }
    }
}

/// Reads `n` values of fixed width. A run that starts beyond the end of the
/// stream is cut short, however many values it has.
pub fn read_run<T: Fixed>(reader: &mut SubReader<'_>, n: u32) -> (r: Result<Vec<T>, DecodeError>)
    ensures
        final(reader).stream() == old(reader).stream(),
        final(reader).base() == old(reader).base(),
        match r {
            Ok(v) => fits(old(reader).stream(), old(reader).pos() as int, T::width() * n)
                && v@ == run::<T>(old(reader).stream(), old(reader).pos() as int, n as nat)
                && final(reader).pos() == old(reader).pos() + T::width() * n,
            Err(e) => e == DecodeError::UnexpectedEof && !fits(
                old(reader).stream(),
                old(reader).pos() as int,
                T::width() * n,
            ),
        },
{
    let ghost s = reader.stream();
    let ghost p = reader.pos() as int;
    let ghost width = T::width() as int;
    if reader.stream_position() > reader.get_ref().len() {
        return Err(DecodeError::UnexpectedEof);
    }
    let mut values: Vec<T> = Vec::new();
    let mut i: u32 = 0;
    while i < n
        invariant
            i <= n,
            s == old(reader).stream(),
            p == old(reader).pos(),
            width == T::width(),
            reader.stream() == s,
            reader.base() == old(reader).base(),
            reader.pos() == p + width * i,
            fits(s, p, width * i),
            values@.len() == i,
            forall|j: int| 0 <= j < i ==> values@[j] == T::stored(s, p + width * j),
        decreases n - i,
    {
        assert(width * (i + 1) == width * i + width && width * (i + 1) <= width * n)
            by (nonlinear_arith)
            requires
                0 <= width,
                0 <= i < n,
        ;
        let value: T = T::read(reader)?;
        values.push(value);
        i = i + 1;
    }
    assert(values@ =~= run::<T>(s, p, n as nat));
    Ok(values)
}


/// The 16-bit units of `b`, the high byte of each first.
fn units_of(b: &[u8]) -> (units: Vec<u16>)
    ensures
        units@ == wide_units(b@),
{
    let n: usize = b.len() / 2;
    let mut units: Vec<u16> = Vec::new();
    let mut i: usize = 0;
    while i < n
        invariant
            i <= n,
            n == b@.len() / 2,
            2 * n <= b@.len() <= usize::MAX,
            units@.len() == i,
            forall|j: int| 0 <= j < i ==> units@[j] == be_u16(b@, 2 * j),
        decreases n - i,
    {
        units.push(u16_be_at(b, 2 * i));
        i = i + 1;
    }
    assert(units@ =~= wide_units(b@));
    units
}

/// Reads a length-prefixed text.
fn read_text(reader: &mut SubReader<'_>, wide: bool) -> (r: Result<String, DecodeError>)
    ensures
        final(reader).stream() == old(reader).stream(),
        final(reader).base() == old(reader).base(),
        match text_at(old(reader).stream(), old(reader).pos() as int, wide) {
            Ok((t, end)) => r matches Ok(text) && text@ == t && final(reader).pos() == end
                && old(reader).pos() + 4 <= end <= old(reader).stream().len(),
            Err(e) => r == Err::<String, DecodeError>(e),
        },
{
    let length: u32 = reader.read_u32_le()?;
    let buffer: &[u8] = reader.take(length as usize)?;
    let text: Option<String> = if wide {
        let units: Vec<u16> = units_of(buffer);
        string_from_utf16(units.as_slice())
    } else {
        string_from_utf8(slice_to_vec(buffer))
    };
    match text {
        Some(t) => Ok(t),
        None => Err(DecodeError::InvalidText),
    }
}

/// Reads `n` length-prefixed texts.
#[verifier::loop_isolation(false)]
fn read_texts(reader: &mut SubReader<'_>, n: u32, wide: bool) -> (r: Result<
    Vec<String>,
    DecodeError,
>)
    requires
        old(reader).pos() <= old(reader).stream().len(),
    ensures
        final(reader).stream() == old(reader).stream(),
        final(reader).base() == old(reader).base(),
        match texts_at(old(reader).stream(), old(reader).pos() as int, n as nat, wide) {
            Ok((v, end)) => r matches Ok(texts) && texts_view(texts@) == v && final(reader).pos()
                == end && old(reader).pos() <= end <= old(reader).stream().len(),
            Err(e) => r == Err::<Vec<String>, DecodeError>(e),
        },
{
    let ghost s = reader.stream();
    let ghost p = reader.pos() as int;
    let mut texts: Vec<String> = Vec::new();
    let mut i: u32 = 0;
    while i < n
        invariant
            i <= n,
            reader.stream() == s,
            reader.base() == old(reader).base(),
            p <= reader.pos() <= s.len(),
            texts@.len() == i,
            texts_at(s, p, n as nat, wide) == match texts_at(
                s,
                reader.pos() as int,
                (n - i) as nat,
                wide,
            ) {
                Ok((rest, end)) => Ok::<(Seq<Seq<char>>, int), DecodeError>(
                    (texts_view(texts@) + rest, end),
                ),
                Err(e) => Err(e),
            },
        decreases n - i,
    {
        let ghost before = texts_view(texts@);
        let text: String = read_text(reader, wide)?;
        texts.push(text);
        proof {
            assert(texts_view(texts@) =~= before + seq![text@]);
            match texts_at(s, reader.pos() as int, (n - i - 1) as nat, wide) {
                Ok((rest, end)) => {
                    assert(before + (seq![text@] + rest) =~= texts_view(texts@) + rest);
                },
                Err(e) => {},
            }
        }
        i = i + 1;
    }
    assert(texts_view(texts@) + Seq::<Seq<char>>::empty() =~= texts_view(texts@));
    Ok(texts)
}

/// Decodes the payload of fixed width that `tag` selects.
fn read_plain(reader: &mut SubReader<'_>, tag: u16) -> (r: Result<NormalPropertyType, DecodeError>)
    requires
        old(reader).pos() <= old(reader).stream().len(),
    ensures
        final(reader).stream() == old(reader).stream(),
        final(reader).base() == old(reader).base(),
        match plain_at(old(reader).stream(), old(reader).pos() as int, tag) {
            Ok((v, end)) => r matches Ok(value) && value@ == v && final(reader).pos() == end
                && old(reader).pos() <= end <= old(reader).stream().len(),
            Err(e) => r == Err::<NormalPropertyType, DecodeError>(e),
        },
{
    match tag {
        0x0000 => Ok(NormalPropertyType::VT_EMPTY),
        0x0001 => Ok(NormalPropertyType::VT_NULL),
        0x0002 => Ok(NormalPropertyType::VT_I2(reader.read_i16_le()?)),
        0x0003 => Ok(NormalPropertyType::VT_I4(reader.read_i32_le()?)),
        0x0004 => Ok(NormalPropertyType::VT_R4(reader.read_u32_le()?)),
        0x0005 => Ok(NormalPropertyType::VT_R8(reader.read_u64_le()?)),
        0x0006 => Ok(NormalPropertyType::VT_CY(reader.read_i64_le()?)),
        0x0007 => Ok(NormalPropertyType::VT_DATE(reader.read_u64_be()?)),
        0x000A => Ok(NormalPropertyType::VT_ERROR(reader.read_u32_le()?)),
        0x000B => Ok(NormalPropertyType::VT_BOOL(reader.read_u16_be()? != 0)),
        0x000E => Ok(NormalPropertyType::VT_DECIMAL(reader.read_u64_le()?)),
        0x0010 => Ok(NormalPropertyType::VT_I1(reader.read_i8()?)),
        0x0011 => Ok(NormalPropertyType::VT_UI1(reader.read_u8()?)),
        0x0012 => Ok(NormalPropertyType::VT_UI2(reader.read_u16_le()?)),
        0x0013 => Ok(NormalPropertyType::VT_UI4(reader.read_u32_le()?)),
        0x0014 => Ok(NormalPropertyType::VT_I8(reader.read_i64_le()?)),
        0x0015 => Ok(NormalPropertyType::VT_UI8(reader.read_u64_le()?)),
        0x0016 => Ok(NormalPropertyType::VT_INT(reader.read_i32_le()?)),
        0x0017 => Ok(NormalPropertyType::VT_UINT(reader.read_u32_le()?)),
        0x0040 => Ok(NormalPropertyType::VT_FILETIME(reader.read_u64_le()?)),
        0x0042 => Ok(NormalPropertyType::VT_STREAM(reader.read_u64_le()?)),
        0x0043 => Ok(NormalPropertyType::VT_STORAGE(reader.read_u64_le()?)),
        0x0044 => Ok(NormalPropertyType::VT_STREAMED_OBJECT(reader.read_u64_le()?)),
        0x0045 => Ok(NormalPropertyType::VT_STORED_OBJECT(reader.read_u64_le()?)),
        0x0047 => Ok(NormalPropertyType::VT_CF(reader.read_u32_le()?)),
        0x0048 => Ok(NormalPropertyType::VT_CLSID(<[u8; 16]>::read(reader)?)),
        _ => Ok(NormalPropertyType::Unknown(tag)),
    }
}

/// Decodes a payload that is a count of bytes and the bytes.
fn read_sized(reader: &mut SubReader<'_>, tag: u16) -> (r: Result<NormalPropertyType, DecodeError>)
    requires
        old(reader).pos() <= old(reader).stream().len(),
        is_sized_tag(tag),
    ensures
        final(reader).stream() == old(reader).stream(),
        final(reader).base() == old(reader).base(),
        match sized_at(old(reader).stream(), old(reader).pos() as int, tag) {
            Ok((v, end)) => r matches Ok(value) && value@ == v && final(reader).pos() == end
                && old(reader).pos() <= end <= old(reader).stream().len(),
            Err(e) => r == Err::<NormalPropertyType, DecodeError>(e),
        },
{
    match tag {
        0x0008 => Ok(NormalPropertyType::VT_BSTR(read_text(reader, true)?)),
        0x001E => Ok(NormalPropertyType::VT_LPSTR(read_text(reader, false)?)),
        0x001F => Ok(NormalPropertyType::VT_LPWSTR(read_text(reader, true)?)),
        0x0041 => {
            let length: u32 = reader.read_u32_le()?;
            Ok(NormalPropertyType::VT_BLOB(reader.read_exact(length as usize)?))
        },
        _ => {
            let length: u32 = reader.read_u32_le()?;
            Ok(NormalPropertyType::VT_BLOB_OBJECT(reader.read_exact(length as usize)?))
        },
    }
}

/// Decodes a payload that is a count and that many items of one fixed width.
fn read_counted(reader: &mut SubReader<'_>, tag: u16) -> (r: Result<NormalPropertyType, DecodeError>)
    requires
        old(reader).pos() <= old(reader).stream().len(),
        is_counted_tag(tag),
    ensures
        final(reader).stream() == old(reader).stream(),
        final(reader).base() == old(reader).base(),
        match counted_at(old(reader).stream(), old(reader).pos() as int, tag) {
            Ok((v, end)) => r matches Ok(value) && value@ == v && final(reader).pos() == end
                && old(reader).pos() <= end <= old(reader).stream().len(),
            Err(e) => r == Err::<NormalPropertyType, DecodeError>(e),
        },
{
    match tag {
        0x1002 => {
            let length: u32 = reader.read_u32_le()?;
            Ok(NormalPropertyType::VT_VECTOR_VT_I2(read_run::<i16>(reader, length)?))
        },
        0x1003 => {
            let length: u32 = reader.read_u32_le()?;
            Ok(NormalPropertyType::VT_VECTOR_VT_I4(read_run::<i32>(reader, length)?))
        },
        0x1004 => {
            let length: u32 = reader.read_u32_le()?;
            Ok(NormalPropertyType::VT_VECTOR_VT_R4(read_run::<u32>(reader, length)?))
        },
        0x1005 => {
            let length: u32 = reader.read_u32_le()?;
            Ok(NormalPropertyType::VT_VECTOR_VT_R8(read_run::<u64>(reader, length)?))
        },
        0x1006 => {
            let length: u32 = reader.read_u32_le()?;
            Ok(NormalPropertyType::VT_VECTOR_VT_CY(read_run::<i64>(reader, length)?))
        },
        0x100B => {
            let length: u32 = reader.read_u32_le()?;
            Ok(NormalPropertyType::VT_VECTOR_VT_BOOL(read_run::<bool>(reader, length)?))
        },
        0x1010 => {
            let length: u32 = reader.read_u32_le()?;
            Ok(NormalPropertyType::VT_VECTOR_VT_I1(read_run::<i8>(reader, length)?))
        },
        0x1011 => {
            let length: u32 = reader.read_u32_le()?;
            Ok(NormalPropertyType::VT_VECTOR_VT_UI1(read_run::<u8>(reader, length)?))
        },
        0x1012 => {
            let length: u32 = reader.read_u32_le()?;
            Ok(NormalPropertyType::VT_VECTOR_VT_UI2(read_run::<u16>(reader, length)?))
        },
        0x1013 => {
            let length: u32 = reader.read_u32_le()?;
            Ok(NormalPropertyType::VT_VECTOR_VT_UI4(read_run::<u32>(reader, length)?))
        },
        0x1014 => {
            let length: u32 = reader.read_u32_le()?;
            Ok(NormalPropertyType::VT_VECTOR_VT_I8(read_run::<i64>(reader, length)?))
        },
        0x1015 => {
            let length: u32 = reader.read_u32_le()?;
            Ok(NormalPropertyType::VT_VECTOR_VT_UI8(read_run::<u64>(reader, length)?))
        },
        0x1040 => {
            let length: u32 = reader.read_u32_le()?;
            Ok(NormalPropertyType::VT_VECTOR_VT_FILETIME(read_run::<u64>(reader, length)?))
        },
        0x1047 => {
            let length: u32 = reader.read_u32_le()?;
            Ok(NormalPropertyType::VT_VECTOR_VT_CF(read_run::<u32>(reader, length)?))
        },
        _ => {
            let length: u32 = reader.read_u32_le()?;
            Ok(NormalPropertyType::VT_VECTOR_VT_CLSID(read_run::<[u8; 16]>(reader, length)?))
        },
    }
}

/// Decodes `n` values from the reader's position on, each as `read_value`
/// decodes one.
#[verifier::loop_isolation(false)]
pub fn read_values(reader: &mut SubReader<'_>, n: u32) -> (r: Result<
    Vec<NormalPropertyType>,
    DecodeError,
>)
    ensures
        final(reader).stream() == old(reader).stream(),
        final(reader).base() == old(reader).base(),
        match values_at(old(reader).stream(), old(reader).pos() as int, n as nat) {
            Ok((v, end)) => r matches Ok(values) && values_view(values@) == v
                && final(reader).pos() == end
                && old(reader).pos() <= end <= old(reader).stream().len(),
            Err(e) => r == Err::<Vec<NormalPropertyType>, DecodeError>(e),
        },
    decreases old(reader).stream().len() - old(reader).pos(), 1nat,
{
    let ghost s = reader.stream();
    let ghost p = reader.pos() as int;
    if reader.stream_position() > reader.get_ref().len() {
        return Err(DecodeError::UnexpectedEof);
    }
    let mut values: Vec<NormalPropertyType> = Vec::new();
    let mut i: u32 = 0;
    while i < n
        invariant
            i <= n,
            reader.stream() == s,
            reader.base() == old(reader).base(),
            p <= reader.pos() <= s.len(),
            values@.len() == i,
            values_at(s, p, n as nat) == match values_at(s, reader.pos() as int, (n - i) as nat) {
                Ok((rest, end)) => Ok::<(Seq<PropertyValue>, int), DecodeError>(
                    (values_view(values@) + rest, end),
                ),
                Err(e) => Err(e),
            },
        decreases n - i,
    {
        let ghost before = values_view(values@);
        let value: NormalPropertyType = read_value(reader)?;
        values.push(value);
        proof {
            assert(values_view(values@) =~= before + seq![value@]);
            match values_at(s, reader.pos() as int, (n - i - 1) as nat) {
                Ok((rest, end)) => {
                    assert(before + (seq![value@] + rest) =~= values_view(values@) + rest);
                },
                Err(e) => {},
            }
        }
        i = i + 1;
    }
    assert(values_view(values@) + Seq::<PropertyValue>::empty() =~= values_view(values@));
    Ok(values)
}

/// Decodes the value at the reader's position: the tag and, behind it, the
/// payload that the tag selects. A vector of values is decoded by decoding
/// each of its items in the same way.
pub fn read_value(reader: &mut SubReader<'_>) -> (r: Result<NormalPropertyType, DecodeError>)
    ensures
        final(reader).stream() == old(reader).stream(),
        final(reader).base() == old(reader).base(),
        match value_at(old(reader).stream(), old(reader).pos() as int) {
            Ok((v, end)) => r matches Ok(value) && value@ == v && final(reader).pos() == end
                && old(reader).pos() + 2 <= end <= old(reader).stream().len(),
            Err(e) => r == Err::<NormalPropertyType, DecodeError>(e),
        },
    decreases old(reader).stream().len() - old(reader).pos(), 0nat,
{
    let ghost s = reader.stream();
    let ghost at = reader.pos() as int;
    let b: &[u8] = reader.take(2)?;
    let tag: u16 = u16_le_at(b, 0);
    assert(tag == le_u16(s, at));
    if tag == 0x0008 || tag == 0x001E || tag == 0x001F || tag == 0x0041 || tag == 0x0046 {
        read_sized(reader, tag)
    } else if tag == 0x100C {
        assert(value_at(s, at) == listed_at(s, at + 2, tag));
        let length: u32 = reader.read_u32_le()?;
        let values: Vec<NormalPropertyType> = read_values(reader, length)?;
        proof {
            lemma_values_view(values);
        }
        Ok(NormalPropertyType::VT_VECTOR_VT_VARIANT(values))
    } else if tag == 0x101E {
        assert(value_at(s, at) == listed_at(s, at + 2, tag));
        let length: u32 = reader.read_u32_le()?;
        Ok(NormalPropertyType::VT_VECTOR_VT_LPSTR(read_texts(reader, length, false)?))
    } else if tag == 0x101F {
        assert(value_at(s, at) == listed_at(s, at + 2, tag));
        let length: u32 = reader.read_u32_le()?;
        Ok(NormalPropertyType::VT_VECTOR_VT_LPWSTR(read_texts(reader, length, true)?))
    } else if tag >= 0x1000 && (tag == 0x1002 || tag == 0x1003 || tag == 0x1004 || tag == 0x1005 || tag
        == 0x1006 || tag == 0x100B || tag == 0x1010 || tag == 0x1011 || tag == 0x1012 || tag
        == 0x1013 || tag == 0x1014 || tag == 0x1015 || tag == 0x1040 || tag == 0x1047 || tag
        == 0x1048) {
        read_counted(reader, tag)
    } else {
        read_plain(reader, tag)
    }
}

impl FromReader for NormalPropertyType {
    /// A value ends behind its payload.
    open spec fn extent(s: Seq<u8>, base: int, at: int) -> Result<int, DecodeError> {
        match value_at(s, at) {
            Ok((_, end)) => Ok(end),
            Err(e) => Err(e),
        }
    }

    /// The value holds what is stored.
    open spec fn decoded(&self, s: Seq<u8>, base: int, at: int) -> bool {
        value_at(s, at) matches Ok((v, _)) && self@ == v
    }

    fn from_reader(reader: &mut SubReader<'_>) -> (r: Result<Self, DecodeError>) {
        read_value(reader)
    }
}

/// A copy of `v`.
pub fn clone_items<T: Copy>(v: &Vec<T>) -> (r: Vec<T>)
    ensures
        r@ == v@,
{
    let mut r: Vec<T> = Vec::new();
    let mut i: usize = 0;
    while i < v.len()
        invariant
            i <= v@.len(),
            r@.len() == i,
            forall|j: int| 0 <= j < i ==> r@[j] == v@[j],
        decreases v@.len() - i,
    {
        r.push(v[i]);
        i = i + 1;
    }
    assert(r@ =~= v@);
    r
}

/// A copy of the texts `v`.
pub fn clone_texts(v: &Vec<String>) -> (r: Vec<String>)
    ensures
        texts_view(r@) == texts_view(v@),
{
    let mut r: Vec<String> = Vec::new();
    let mut i: usize = 0;
    while i < v.len()
        invariant
            i <= v@.len(),
            r@.len() == i,
            forall|j: int| 0 <= j < i ==> r@[j]@ == v@[j]@,
        decreases v@.len() - i,
    {
        r.push(v[i].clone());
        i = i + 1;
    }
    assert(texts_view(r@) =~= texts_view(v@));
    r
}

/// A copy of the values `v`.
pub fn clone_values(v: &Vec<NormalPropertyType>) -> (r: Vec<NormalPropertyType>)
    ensures
        values_view(r@) == values_view(v@),
    decreases v,
{
    let mut r: Vec<NormalPropertyType> = Vec::new();
    let mut i: usize = 0;
    while i < v.len()
        invariant
            i <= v@.len(),
            r@.len() == i,
            forall|j: int| 0 <= j < i ==> r@[j]@ == v@[j]@,
        decreases v@.len() - i,
    {
        r.push(clone_value(&v[i]));
        i = i + 1;
    }
    assert(values_view(r@) =~= values_view(v@));
    r
}

/// A copy of `value` that holds what `value` holds.
pub fn clone_value(value: &NormalPropertyType) -> (r: NormalPropertyType)
    ensures
        r@ == value@,
    decreases value,
{
    match value {
        NormalPropertyType::VT_EMPTY => NormalPropertyType::VT_EMPTY,
        NormalPropertyType::VT_NULL => NormalPropertyType::VT_NULL,
        NormalPropertyType::VT_I2(v) => NormalPropertyType::VT_I2(*v),
        NormalPropertyType::VT_I4(v) => NormalPropertyType::VT_I4(*v),
        NormalPropertyType::VT_R4(v) => NormalPropertyType::VT_R4(*v),
        NormalPropertyType::VT_R8(v) => NormalPropertyType::VT_R8(*v),
        NormalPropertyType::VT_CY(v) => NormalPropertyType::VT_CY(*v),
        NormalPropertyType::VT_DATE(v) => NormalPropertyType::VT_DATE(*v),
        NormalPropertyType::VT_BSTR(v) => NormalPropertyType::VT_BSTR(v.clone()),
        NormalPropertyType::VT_ERROR(v) => NormalPropertyType::VT_ERROR(*v),
        NormalPropertyType::VT_BOOL(v) => NormalPropertyType::VT_BOOL(*v),
        NormalPropertyType::VT_DECIMAL(v) => NormalPropertyType::VT_DECIMAL(*v),
        NormalPropertyType::VT_I1(v) => NormalPropertyType::VT_I1(*v),
        NormalPropertyType::VT_UI1(v) => NormalPropertyType::VT_UI1(*v),
        NormalPropertyType::VT_UI2(v) => NormalPropertyType::VT_UI2(*v),
        NormalPropertyType::VT_UI4(v) => NormalPropertyType::VT_UI4(*v),
        NormalPropertyType::VT_I8(v) => NormalPropertyType::VT_I8(*v),
        NormalPropertyType::VT_UI8(v) => NormalPropertyType::VT_UI8(*v),
        NormalPropertyType::VT_INT(v) => NormalPropertyType::VT_INT(*v),
        NormalPropertyType::VT_UINT(v) => NormalPropertyType::VT_UINT(*v),
        NormalPropertyType::VT_LPSTR(v) => NormalPropertyType::VT_LPSTR(v.clone()),
        NormalPropertyType::VT_LPWSTR(v) => NormalPropertyType::VT_LPWSTR(v.clone()),
        NormalPropertyType::VT_FILETIME(v) => NormalPropertyType::VT_FILETIME(*v),
        NormalPropertyType::VT_BLOB(v) => NormalPropertyType::VT_BLOB(clone_items(v)),
        NormalPropertyType::VT_STREAM(v) => NormalPropertyType::VT_STREAM(*v),
        NormalPropertyType::VT_STORAGE(v) => NormalPropertyType::VT_STORAGE(*v),
        NormalPropertyType::VT_STREAMED_OBJECT(v) => NormalPropertyType::VT_STREAMED_OBJECT(*v),
        NormalPropertyType::VT_STORED_OBJECT(v) => NormalPropertyType::VT_STORED_OBJECT(*v),
        NormalPropertyType::VT_BLOB_OBJECT(v) => NormalPropertyType::VT_BLOB_OBJECT(clone_items(v)),
        NormalPropertyType::VT_CF(v) => NormalPropertyType::VT_CF(*v),
        NormalPropertyType::VT_CLSID(v) => NormalPropertyType::VT_CLSID(*v),
        NormalPropertyType::VT_VECTOR_VT_I2(v) => NormalPropertyType::VT_VECTOR_VT_I2(clone_items(v)),
        NormalPropertyType::VT_VECTOR_VT_I4(v) => NormalPropertyType::VT_VECTOR_VT_I4(clone_items(v)),
        NormalPropertyType::VT_VECTOR_VT_R4(v) => NormalPropertyType::VT_VECTOR_VT_R4(clone_items(v)),
        NormalPropertyType::VT_VECTOR_VT_R8(v) => NormalPropertyType::VT_VECTOR_VT_R8(clone_items(v)),
        NormalPropertyType::VT_VECTOR_VT_CY(v) => NormalPropertyType::VT_VECTOR_VT_CY(clone_items(v)),
        NormalPropertyType::VT_VECTOR_VT_BOOL(v) => NormalPropertyType::VT_VECTOR_VT_BOOL(clone_items(v)),
        NormalPropertyType::VT_VECTOR_VT_VARIANT(v) => {
            let items: Vec<NormalPropertyType> = clone_values(v);
            proof {
                lemma_values_view(*v);
                lemma_values_view(items);
            }
            NormalPropertyType::VT_VECTOR_VT_VARIANT(items)
        },
        NormalPropertyType::VT_VECTOR_VT_I1(v) => NormalPropertyType::VT_VECTOR_VT_I1(clone_items(v)),
        NormalPropertyType::VT_VECTOR_VT_UI1(v) => NormalPropertyType::VT_VECTOR_VT_UI1(clone_items(v)),
        NormalPropertyType::VT_VECTOR_VT_UI2(v) => NormalPropertyType::VT_VECTOR_VT_UI2(clone_items(v)),
        NormalPropertyType::VT_VECTOR_VT_UI4(v) => NormalPropertyType::VT_VECTOR_VT_UI4(clone_items(v)),
        NormalPropertyType::VT_VECTOR_VT_I8(v) => NormalPropertyType::VT_VECTOR_VT_I8(clone_items(v)),
        NormalPropertyType::VT_VECTOR_VT_UI8(v) => NormalPropertyType::VT_VECTOR_VT_UI8(clone_items(v)),
        NormalPropertyType::VT_VECTOR_VT_LPSTR(v) => NormalPropertyType::VT_VECTOR_VT_LPSTR(clone_texts(v)),
        NormalPropertyType::VT_VECTOR_VT_LPWSTR(v) => NormalPropertyType::VT_VECTOR_VT_LPWSTR(clone_texts(v)),
        NormalPropertyType::VT_VECTOR_VT_FILETIME(v) => NormalPropertyType::VT_VECTOR_VT_FILETIME(clone_items(v)),
        NormalPropertyType::VT_VECTOR_VT_CF(v) => NormalPropertyType::VT_VECTOR_VT_CF(clone_items(v)),
        NormalPropertyType::VT_VECTOR_VT_CLSID(v) => NormalPropertyType::VT_VECTOR_VT_CLSID(clone_items(v)),
        NormalPropertyType::VT_ARRAY_VT_I2(v) => NormalPropertyType::VT_ARRAY_VT_I2(clone_items(v)),
        NormalPropertyType::VT_ARRAY_VT_I4(v) => NormalPropertyType::VT_ARRAY_VT_I4(clone_items(v)),
        NormalPropertyType::VT_ARRAY_VT_R4(v) => NormalPropertyType::VT_ARRAY_VT_R4(clone_items(v)),
        NormalPropertyType::VT_ARRAY_VT_R8(v) => NormalPropertyType::VT_ARRAY_VT_R8(clone_items(v)),
        NormalPropertyType::VT_ARRAY_VT_CY(v) => NormalPropertyType::VT_ARRAY_VT_CY(clone_items(v)),
        NormalPropertyType::VT_ARRAY_VT_DATE(v) => NormalPropertyType::VT_ARRAY_VT_DATE(clone_items(v)),
        NormalPropertyType::VT_ARRAY_VT_BSTR(v) => NormalPropertyType::VT_ARRAY_VT_BSTR(clone_texts(v)),
        NormalPropertyType::VT_ARRAY_VT_ERROR(v) => NormalPropertyType::VT_ARRAY_VT_ERROR(clone_items(v)),
        NormalPropertyType::VT_ARRAY_VT_BOOL(v) => NormalPropertyType::VT_ARRAY_VT_BOOL(clone_items(v)),
        NormalPropertyType::VT_ARRAY_VT_VARIANT(v) => {
            let items: Vec<NormalPropertyType> = clone_values(v);
            proof {
                lemma_values_view(*v);
                lemma_values_view(items);
            }
            NormalPropertyType::VT_ARRAY_VT_VARIANT(items)
        },
        NormalPropertyType::VT_ARRAY_VT_DECIMAL(v) => NormalPropertyType::VT_ARRAY_VT_DECIMAL(clone_items(v)),
        NormalPropertyType::VT_ARRAY_VT_I1(v) => NormalPropertyType::VT_ARRAY_VT_I1(clone_items(v)),
        NormalPropertyType::VT_ARRAY_VT_UI1(v) => NormalPropertyType::VT_ARRAY_VT_UI1(clone_items(v)),
        NormalPropertyType::VT_ARRAY_VT_UI2(v) => NormalPropertyType::VT_ARRAY_VT_UI2(clone_items(v)),
        NormalPropertyType::VT_ARRAY_VT_UI4(v) => NormalPropertyType::VT_ARRAY_VT_UI4(clone_items(v)),
        NormalPropertyType::VT_ARRAY_VT_INT(v) => NormalPropertyType::VT_ARRAY_VT_INT(clone_items(v)),
        NormalPropertyType::VT_ARRAY_VT_UINT(v) => NormalPropertyType::VT_ARRAY_VT_UINT(clone_items(v)),
        NormalPropertyType::Unknown(v) => NormalPropertyType::Unknown(*v),
    }
}

impl Clone for NormalPropertyType {
    fn clone(&self) -> (r: Self)
        ensures
            r@ == self@,
    {
        clone_value(self)
    }
}

/// The number of items of a vector value; nothing for any other value.
pub open spec fn vector_len(v: PropertyValue) -> Option<nat> {
    match v {
        PropertyValue::VT_VECTOR_VT_I2(items) => Some(items.len()),
        PropertyValue::VT_VECTOR_VT_I4(items) => Some(items.len()),
        PropertyValue::VT_VECTOR_VT_R4(items) => Some(items.len()),
        PropertyValue::VT_VECTOR_VT_R8(items) => Some(items.len()),
        PropertyValue::VT_VECTOR_VT_CY(items) => Some(items.len()),
        PropertyValue::VT_VECTOR_VT_BOOL(items) => Some(items.len()),
        PropertyValue::VT_VECTOR_VT_VARIANT(items) => Some(items.len()),
        PropertyValue::VT_VECTOR_VT_I1(items) => Some(items.len()),
        PropertyValue::VT_VECTOR_VT_UI1(items) => Some(items.len()),
        PropertyValue::VT_VECTOR_VT_UI2(items) => Some(items.len()),
        PropertyValue::VT_VECTOR_VT_UI4(items) => Some(items.len()),
        PropertyValue::VT_VECTOR_VT_I8(items) => Some(items.len()),
        PropertyValue::VT_VECTOR_VT_UI8(items) => Some(items.len()),
        PropertyValue::VT_VECTOR_VT_LPSTR(items) => Some(items.len()),
        PropertyValue::VT_VECTOR_VT_LPWSTR(items) => Some(items.len()),
        PropertyValue::VT_VECTOR_VT_FILETIME(items) => Some(items.len()),
        PropertyValue::VT_VECTOR_VT_CF(items) => Some(items.len()),
        PropertyValue::VT_VECTOR_VT_CLSID(items) => Some(items.len()),
        _ => None,
    }
}

/// `k` texts that decode are `k` texts.
pub proof fn lemma_texts_len(s: Seq<u8>, p: int, k: nat, wide: bool)
    requires
        texts_at(s, p, k, wide) is Ok,
    ensures
        texts_at(s, p, k, wide)->Ok_0.0.len() == k,
    decreases k,
{
    if k > 0 {
        lemma_texts_len(s, text_at(s, p, wide)->Ok_0.1, (k - 1) as nat, wide);
    }
}

/// `k` values that decode are `k` values.
pub proof fn lemma_values_len(s: Seq<u8>, p: int, k: nat)
    requires
        values_at(s, p, k) is Ok,
    ensures
        values_at(s, p, k)->Ok_0.0.len() == k,
    decreases k,
{
    if k > 0 {
        lemma_values_len(s, value_at(s, p)->Ok_0.1, (k - 1) as nat);
    }
}

/// Law: a vector value that decodes has as many items as the count behind
/// its tag declares, and the items of a vector of values are what decoding
/// one value after another from behind the count gives.
pub proof fn lemma_vector_has_declared_len(s: Seq<u8>, at: int)
    requires
        value_at(s, at) is Ok,
        vector_len(value_at(s, at)->Ok_0.0) is Some,
    ensures
        vector_len(value_at(s, at)->Ok_0.0) == Some(le_u32(s, at + 2) as nat),
        le_u16(s, at) == 0x100C ==> value_at(s, at)->Ok_0.0 == PropertyValue::VT_VECTOR_VT_VARIANT(
            values_at(s, at + 6, le_u32(s, at + 2) as nat)->Ok_0.0,
        ),
{
    let n = le_u32(s, at + 2) as nat;
    if le_u16(s, at) == 0x100C {
        lemma_values_len(s, at + 6, n);
    } else if le_u16(s, at) == 0x101E {
        lemma_texts_len(s, at + 6, n, false);
    } else if le_u16(s, at) == 0x101F {
        lemma_texts_len(s, at + 6, n, true);
    }
}

} // verus!
