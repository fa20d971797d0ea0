//! Interfaces for constructing and decoding message fields.
//!
//! All data carried by a message is tagged and encapsulated in a message
//! field, represented here by the [`MsgField`] type. A field couples a
//! payload ([`FieldData`], a closed sum over every supported kind) with a
//! declared per-element byte width, an element count, a name and a numeric
//! id. Encoding is exact and decoding is checked: a field only ever
//! decodes as the kind it was encoded with, and a multi-element field is
//! never handed to a scalar decoder.
//!
//! Contracts are stated over [`FieldModel`], the mathematical shape of a
//! field, reached from an exec field through [`field_model`] (also the
//! `view` of [`MsgField`]).

use vstd::prelude::*;

use crate::errors::{ErrorKind, TibrvError};
use crate::message::{msg_model, Msg, MsgModel};

verus! {

/// A date-time as carried by a message field: whole seconds and a
/// nanosecond remainder, both relative to the Unix epoch.
#[derive(Clone, Copy, Debug, PartialEq, Eq, Structural)]
pub struct DateTime {
    /// Whole seconds since the Unix epoch (negative for earlier instants).
    pub sec: i64,
    /// Nanoseconds past the whole second, always below one billion.
    pub nsec: u32,
}

impl DateTime {
    /// Pair a whole-second epoch offset with a nanosecond remainder.
    pub fn new(sec: i64, nsec: u32) -> (r: DateTime)
        ensures
            r == (DateTime { sec, nsec }),
    {
        DateTime { sec, nsec }
    }
}

/// An IPv4 address as four octets in network order.
#[derive(Clone, Copy, Debug, PartialEq, Eq, Structural)]
pub struct Ipv4Address(pub u8, pub u8, pub u8, pub u8);

impl Ipv4Address {
    /// Build an address from its four dotted-quad octets.
    pub fn new(a: u8, b: u8, c: u8, d: u8) -> (r: Ipv4Address)
        ensures
            r == Ipv4Address(a, b, c, d),
    {
        Ipv4Address(a, b, c, d)
    }
}

/// A single-precision floating-point value carried as its IEEE 754 bit
/// pattern. Keeping the bits, not the float, makes the codec exact.
#[derive(Clone, Copy, Debug, PartialEq, Eq, Structural)]
pub struct F32Bits(pub u32);

/// A double-precision floating-point value carried as its IEEE 754 bit
/// pattern.
#[derive(Clone, Copy, Debug, PartialEq, Eq, Structural)]
pub struct F64Bits(pub u64);

/// The payload of a message field: one variant per supported kind.
///
/// Floating-point payloads are carried by their IEEE 754 bit patterns
/// (`F32Bits`, `F64Bits`), which keeps the codec exact bit for bit.
/// `IpPort` holds the port already swapped into network byte order, as the
/// wire representation does.
#[derive(Debug)]
pub enum FieldData {
    Str(String),
    Msg(Box<Msg>),
    U8(u8),
    U8Array(Vec<u8>),
    I8(i8),
    I8Array(Vec<i8>),
    U16(u16),
    U16Array(Vec<u16>),
    I16(i16),
    I16Array(Vec<i16>),
    U32(u32),
    U32Array(Vec<u32>),
    I32(i32),
    I32Array(Vec<i32>),
    U64(u64),
    U64Array(Vec<u64>),
    I64(i64),
    I64Array(Vec<i64>),
    F32(u32),
    F32Array(Vec<u32>),
    F64(u64),
    F64Array(Vec<u64>),
    Bool(bool),
    DateTime(DateTime),
    Ipv4(Ipv4Address),
    IpPort(u16),
    Opaque(Vec<u8>),
}

/// A structure wrapping a tagged field.
///
/// `size` is the declared byte width of one element (for strings the byte
/// length including the terminator, for nested messages the message's byte
/// size); `count` is the declared element count, `1` for every scalar.
#[derive(Debug)]
pub struct MsgField {
    /// The field's name, if it carries one.
    pub name: Option<String>,
    /// The field's numeric id; `0` stands for "no id".
    pub id: u16,
    /// The declared byte width of one element.
    pub size: u32,
    /// The declared element count.
    pub count: u32,
    /// The tagged payload.
    pub data: FieldData,
}

/// The mathematical shape of a field payload.
#[verifier::ext_equal]
pub enum DataModel {
    Str(Seq<char>),
    Msg(MsgModel),
    U8(u8),
    U8Array(Seq<u8>),
    I8(i8),
    I8Array(Seq<i8>),
    U16(u16),
    U16Array(Seq<u16>),
    I16(i16),
    I16Array(Seq<i16>),
    U32(u32),
    U32Array(Seq<u32>),
    I32(i32),
    I32Array(Seq<i32>),
    U64(u64),
    U64Array(Seq<u64>),
    I64(i64),
    I64Array(Seq<i64>),
    F32(u32),
    F32Array(Seq<u32>),
    F64(u64),
    F64Array(Seq<u64>),
    Bool(bool),
    DateTime(DateTime),
    Ipv4(Ipv4Address),
    IpPort(u16),
    Opaque(Seq<u8>),
}

/// The mathematical shape of a field.
#[verifier::ext_equal]
pub struct FieldModel {
    pub name: Option<Seq<char>>,
    pub id: u16,
    pub size: u32,
    pub count: u32,
    pub data: DataModel,
}

/// The model of a field's payload.
pub open spec fn data_model(d: FieldData) -> DataModel
    decreases d,
{
    match d {
        FieldData::Str(s) => DataModel::Str(s@),
        FieldData::Msg(m) => DataModel::Msg(msg_model(*m)),
        FieldData::U8(v) => DataModel::U8(v),
        FieldData::U8Array(v) => DataModel::U8Array(v@),
        FieldData::I8(v) => DataModel::I8(v),
        FieldData::I8Array(v) => DataModel::I8Array(v@),
        FieldData::U16(v) => DataModel::U16(v),
        FieldData::U16Array(v) => DataModel::U16Array(v@),
        FieldData::I16(v) => DataModel::I16(v),
        FieldData::I16Array(v) => DataModel::I16Array(v@),
        FieldData::U32(v) => DataModel::U32(v),
        FieldData::U32Array(v) => DataModel::U32Array(v@),
        FieldData::I32(v) => DataModel::I32(v),
        FieldData::I32Array(v) => DataModel::I32Array(v@),
        FieldData::U64(v) => DataModel::U64(v),
        FieldData::U64Array(v) => DataModel::U64Array(v@),
        FieldData::I64(v) => DataModel::I64(v),
        FieldData::I64Array(v) => DataModel::I64Array(v@),
        FieldData::F32(v) => DataModel::F32(v),
        FieldData::F32Array(v) => DataModel::F32Array(v@),
        FieldData::F64(v) => DataModel::F64(v),
        FieldData::F64Array(v) => DataModel::F64Array(v@),
        FieldData::Bool(v) => DataModel::Bool(v),
        FieldData::DateTime(v) => DataModel::DateTime(v),
        FieldData::Ipv4(v) => DataModel::Ipv4(v),
        FieldData::IpPort(v) => DataModel::IpPort(v),
        FieldData::Opaque(v) => DataModel::Opaque(v@),
    }
}

/// The models of a sequence of fields, in order.
pub open spec fn fields_model(s: Seq<MsgField>) -> Seq<FieldModel>
    decreases s,
{
    if s.len() == 0 {
        Seq::empty()
    } else {
        seq![field_model(s[0])] + fields_model(s.drop_first())
    }
}

/// `fields_model` maps `field_model` over the sequence: same length,
/// matching elements.
pub proof fn lemma_fields_model(s: Seq<MsgField>)
    ensures
        fields_model(s).len() == s.len(),
        forall|i: int| 0 <= i < s.len() ==> fields_model(s)[i] == field_model(s[i]),
    decreases s.len(),
{
    if s.len() > 0 {
        lemma_fields_model(s.drop_first());
        assert forall|i: int| 0 <= i < s.len() implies fields_model(s)[i] == field_model(
            s[i],
        ) by {
            if i > 0 {
                assert(fields_model(s)[i] == fields_model(s.drop_first())[i - 1]);
                assert(s.drop_first()[i - 1] == s[i]);
            }
        }
    }
}

/// Appending a field to a sequence appends its model to the sequence's
/// model.
pub proof fn lemma_fields_model_push(s: Seq<MsgField>, f: MsgField)
    ensures
        fields_model(s.push(f)) == fields_model(s).push(field_model(f)),
{
    lemma_fields_model(s);
    lemma_fields_model(s.push(f));
    assert(fields_model(s.push(f)) =~= fields_model(s).push(field_model(f)));
}

/// The view of an optional string.
pub open spec fn opt_str_model(o: Option<String>) -> Option<Seq<char>> {
    match o {
        Some(s) => Some(s@),
        None => None,
    }
}

/// The model of a field.
pub open spec fn field_model(f: MsgField) -> FieldModel
    decreases f,
{
    FieldModel {
        name: opt_str_model(f.name),
        id: f.id,
        size: f.size,
        count: f.count,
        data: data_model(f.data),
    }
}

impl View for MsgField {
    type V = FieldModel;

    open spec fn view(&self) -> FieldModel {
        field_model(*self)
    }
}

impl View for DateTime {
    type V = DateTime;

    open spec fn view(&self) -> DateTime {
        *self
    }
}

impl View for Ipv4Address {
    type V = Ipv4Address;

    open spec fn view(&self) -> Ipv4Address {
        *self
    }
}

impl View for F32Bits {
    type V = F32Bits;

    open spec fn view(&self) -> F32Bits {
        *self
    }
}

impl View for F64Bits {
    type V = F64Bits;

    open spec fn view(&self) -> F64Bits {
        *self
    }
}

/// Whether a string is representable as a native string: non-NUL ASCII
/// throughout.
pub open spec fn clean_ascii(s: Seq<char>) -> bool {
    forall|i: int| 0 <= i < s.len() ==> ((#[trigger] s[i]) > '\0' && s[i] <= '\u{7f}')
}

/// The id stored in a field for a requested optional id: the low sixteen
/// bits of the request, or `0` when none was given.
pub open spec fn spec_field_id(id: Option<u32>) -> u16 {
    match id {
        Some(v) => (v % 0x10000) as u16,
        None => 0,
    }
}

/// Whether a name/id pair may identify a field: a name must be present,
/// and it must be representable as a native string.
pub open spec fn valid_identity(name: Option<&str>, id: Option<u32>) -> bool {
    &&& name is Some
    &&& clean_ascii(name.unwrap()@)
}

/// The field an encodable value encodes to under the given name and id.
pub open spec fn encoded_model<T: Encodable>(v: T, name: Option<&str>, id: Option<u32>) -> FieldModel {
    FieldModel {
        name: Some(name.unwrap()@),
        id: spec_field_id(id),
        size: v.encoded_size(),
        count: v.encoded_count(),
        data: v.encoded_data(),
    }
}

pub(crate) fn encode_name(name: Option<&str>) -> (r: Option<String>)
    ensures
        match r {
            Some(s) => name is Some && s@ == name.unwrap()@,
            None => name is None,
        },
{
    match name {
        Some(s) => Some(s.to_owned()),
        None => None,
    }
}

pub(crate) fn encode_id(id: Option<u32>) -> (r: u16)
    ensures
        r == spec_field_id(id),
{
    match id {
        Some(v) => (v % 0x10000) as u16,
        None => 0,
    }
}

fn copy_vec<T: Copy>(v: &Vec<T>) -> (r: Vec<T>)
    ensures
        r@ == v@,
{
    let mut r: Vec<T> = Vec::new();
    let mut i: usize = 0;
    while i < v.len()
        invariant
            i <= v.len(),
            r@ =~= v@.subrange(0, i as int),
        decreases v.len() - i,
    {
        r.push(v[i]);
        i = i + 1;
    }
    proof {
        assert(r@ =~= v@);
    }
    r
}

/// Trait indicating the type may be encoded into a message field.
///
/// Implementations are provided for all the scalar data types supported by
/// the middleware; these scalar types may in turn also be encoded as
/// native arrays (vectors of the scalar type). Also supported are ASCII
/// strings, IPv4 addresses, date-times and nested messages.
///
/// Used along with the [`Decodable`] trait, these methods allow seamless
/// conversion to and from tagged field representations.
pub trait Encodable: Sized {
    /// The payload this value encodes to.
    spec fn encoded_data(&self) -> DataModel;

    /// The declared per-element byte width of the encoded field.
    spec fn encoded_size(&self) -> u32;

    /// The declared element count of the encoded field.
    spec fn encoded_count(&self) -> u32;

    /// Whether this value is in the encodable range: lengths fit the
    /// declared-width fields and strings are representable.
    spec fn encodable(&self) -> bool;

    /// Encodes this value as a message field carrying the given name and
    /// id. A name is required: an id alone does not identify a field.
    fn tibrv_encode(&self, name: Option<&str>, id: Option<u32>) -> (r: MsgField)
        requires
            valid_identity(name, id),
            self.encodable(),
        ensures
            r@ == (FieldModel {
                name: Some(name.unwrap()@),
                id: spec_field_id(id),
                size: self.encoded_size(),
                count: self.encoded_count(),
                data: self.encoded_data(),
            }),
    ;
}

/// Trait indicating the type may be decoded from a message field.
pub trait Decodable: Sized + View {
    /// Whether a field of this shape decodes successfully as `Self`: the
    /// payload kind must match, and a scalar target refuses a field whose
    /// count exceeds one.
    spec fn decode_ok(fm: FieldModel) -> bool;

    /// The error reported when decoding fails.
    spec fn decode_err(fm: FieldModel) -> ErrorKind;

    /// The value a successful decode yields.
    spec fn decoded_view(fm: FieldModel) -> Self::V;

    /// Try to decode the supplied field as this type.
    fn tibrv_try_decode(fld: &MsgField) -> (r: Result<Self, TibrvError>)
        ensures
            Self::decode_ok(fld@) ==> (r matches Ok(v) && v@ == Self::decoded_view(fld@)),
            !Self::decode_ok(fld@) ==> (r matches Err(e) && e.kind == Self::decode_err(fld@)),
    ;
}

impl MsgField {
    /// Try to decode this field as `T`.
    pub fn try_decode<T: Decodable>(&self) -> (r: Result<T, TibrvError>)
        ensures
            T::decode_ok(self@) ==> (r matches Ok(v) && v@ == T::decoded_view(self@)),
            !T::decode_ok(self@) ==> (r matches Err(e) && e.kind == T::decode_err(self@)),
    {
        T::tibrv_try_decode(self)
    }
}

impl Encodable for u8 {
    open spec fn encoded_data(&self) -> DataModel {
        DataModel::U8(*self)
    }

    open spec fn encoded_size(&self) -> u32 {
        1
    }

    open spec fn encoded_count(&self) -> u32 {
        1
    }

    open spec fn encodable(&self) -> bool {
        true
    }

    fn tibrv_encode(&self, name: Option<&str>, id: Option<u32>) -> (r: MsgField) {
        MsgField {
            name: encode_name(name),
            id: encode_id(id),
            size: 1,
            count: 1,
            data: FieldData::U8(*self),
        }
    }
}

impl Decodable for u8 {
    open spec fn decode_ok(fm: FieldModel) -> bool {
        fm.count <= 1 && fm.data is U8
    }

    open spec fn decode_err(fm: FieldModel) -> ErrorKind {
        if fm.count > 1 {
            ErrorKind::NonVectorFieldError
        } else {
            ErrorKind::FieldTypeError
        }
    }

    open spec fn decoded_view(fm: FieldModel) -> u8 {
        fm.data->U8_0
    }

    fn tibrv_try_decode(fld: &MsgField) -> (r: Result<u8, TibrvError>) {
        if fld.count > 1 {
            return Err(TibrvError { kind: ErrorKind::NonVectorFieldError });
        }
        match &fld.data {
            FieldData::U8(v) => Ok(*v),
            _ => Err(TibrvError { kind: ErrorKind::FieldTypeError }),
        }
    }
}

impl Encodable for i8 {
    open spec fn encoded_data(&self) -> DataModel {
        DataModel::I8(*self)
    }

    open spec fn encoded_size(&self) -> u32 {
        1
    }

    open spec fn encoded_count(&self) -> u32 {
        1
    }

    open spec fn encodable(&self) -> bool {
        true
    }

    fn tibrv_encode(&self, name: Option<&str>, id: Option<u32>) -> (r: MsgField) {
        MsgField {
            name: encode_name(name),
            id: encode_id(id),
            size: 1,
            count: 1,
            data: FieldData::I8(*self),
        }
    }
}

impl Decodable for i8 {
    open spec fn decode_ok(fm: FieldModel) -> bool {
        fm.count <= 1 && fm.data is I8
    }

    open spec fn decode_err(fm: FieldModel) -> ErrorKind {
        if fm.count > 1 {
            ErrorKind::NonVectorFieldError
        } else {
            ErrorKind::FieldTypeError
        }
    }

    open spec fn decoded_view(fm: FieldModel) -> i8 {
        fm.data->I8_0
    }

    fn tibrv_try_decode(fld: &MsgField) -> (r: Result<i8, TibrvError>) {
        if fld.count > 1 {
            return Err(TibrvError { kind: ErrorKind::NonVectorFieldError });
        }
        match &fld.data {
            FieldData::I8(v) => Ok(*v),
            _ => Err(TibrvError { kind: ErrorKind::FieldTypeError }),
        }
    }
}

impl Encodable for u16 {
    open spec fn encoded_data(&self) -> DataModel {
        DataModel::U16(*self)
    }

    open spec fn encoded_size(&self) -> u32 {
        2
    }

    open spec fn encoded_count(&self) -> u32 {
        1
    }

    open spec fn encodable(&self) -> bool {
        true
    }

    fn tibrv_encode(&self, name: Option<&str>, id: Option<u32>) -> (r: MsgField) {
        MsgField {
            name: encode_name(name),
            id: encode_id(id),
            size: 2,
            count: 1,
            data: FieldData::U16(*self),
        }
    }
}

impl Decodable for u16 {
    open spec fn decode_ok(fm: FieldModel) -> bool {
        fm.count <= 1 && fm.data is U16
    }

    open spec fn decode_err(fm: FieldModel) -> ErrorKind {
        if fm.count > 1 {
            ErrorKind::NonVectorFieldError
        } else {
            ErrorKind::FieldTypeError
        }
    }

    open spec fn decoded_view(fm: FieldModel) -> u16 {
        fm.data->U16_0
    }

    fn tibrv_try_decode(fld: &MsgField) -> (r: Result<u16, TibrvError>) {
        if fld.count > 1 {
            return Err(TibrvError { kind: ErrorKind::NonVectorFieldError });
        }
        match &fld.data {
            FieldData::U16(v) => Ok(*v),
            _ => Err(TibrvError { kind: ErrorKind::FieldTypeError }),
        }
    }
}

impl Encodable for i16 {
    open spec fn encoded_data(&self) -> DataModel {
        DataModel::I16(*self)
    }

    open spec fn encoded_size(&self) -> u32 {
        2
    }

    open spec fn encoded_count(&self) -> u32 {
        1
    }

    open spec fn encodable(&self) -> bool {
        true
    }

    fn tibrv_encode(&self, name: Option<&str>, id: Option<u32>) -> (r: MsgField) {
        MsgField {
            name: encode_name(name),
            id: encode_id(id),
            size: 2,
            count: 1,
            data: FieldData::I16(*self),
        }
    }
}

impl Decodable for i16 {
    open spec fn decode_ok(fm: FieldModel) -> bool {
        fm.count <= 1 && fm.data is I16
    }

    open spec fn decode_err(fm: FieldModel) -> ErrorKind {
        if fm.count > 1 {
            ErrorKind::NonVectorFieldError
        } else {
            ErrorKind::FieldTypeError
        }
    }

    open spec fn decoded_view(fm: FieldModel) -> i16 {
        fm.data->I16_0
    }

    fn tibrv_try_decode(fld: &MsgField) -> (r: Result<i16, TibrvError>) {
        if fld.count > 1 {
            return Err(TibrvError { kind: ErrorKind::NonVectorFieldError });
        }
        match &fld.data {
            FieldData::I16(v) => Ok(*v),
            _ => Err(TibrvError { kind: ErrorKind::FieldTypeError }),
        }
    }
}

impl Encodable for u32 {
    open spec fn encoded_data(&self) -> DataModel {
        DataModel::U32(*self)
    }

    open spec fn encoded_size(&self) -> u32 {
        4
    }

    open spec fn encoded_count(&self) -> u32 {
        1
    }

    open spec fn encodable(&self) -> bool {
        true
    }

    fn tibrv_encode(&self, name: Option<&str>, id: Option<u32>) -> (r: MsgField) {
        MsgField {
            name: encode_name(name),
            id: encode_id(id),
            size: 4,
            count: 1,
            data: FieldData::U32(*self),
        }
    }
}

impl Decodable for u32 {
    open spec fn decode_ok(fm: FieldModel) -> bool {
        fm.count <= 1 && fm.data is U32
    }

    open spec fn decode_err(fm: FieldModel) -> ErrorKind {
        if fm.count > 1 {
            ErrorKind::NonVectorFieldError
        } else {
            ErrorKind::FieldTypeError
        }
    }

    open spec fn decoded_view(fm: FieldModel) -> u32 {
        fm.data->U32_0
    }

    fn tibrv_try_decode(fld: &MsgField) -> (r: Result<u32, TibrvError>) {
        if fld.count > 1 {
            return Err(TibrvError { kind: ErrorKind::NonVectorFieldError });
        }
        match &fld.data {
            FieldData::U32(v) => Ok(*v),
            _ => Err(TibrvError { kind: ErrorKind::FieldTypeError }),
        }
    }
}

impl Encodable for i32 {
    open spec fn encoded_data(&self) -> DataModel {
        DataModel::I32(*self)
    }

    open spec fn encoded_size(&self) -> u32 {
        4
    }

    open spec fn encoded_count(&self) -> u32 {
        1
    }

    open spec fn encodable(&self) -> bool {
        true
    }

    fn tibrv_encode(&self, name: Option<&str>, id: Option<u32>) -> (r: MsgField) {
        MsgField {
            name: encode_name(name),
            id: encode_id(id),
            size: 4,
            count: 1,
            data: FieldData::I32(*self),
        }
    }
}

impl Decodable for i32 {
    open spec fn decode_ok(fm: FieldModel) -> bool {
        fm.count <= 1 && fm.data is I32
    }

    open spec fn decode_err(fm: FieldModel) -> ErrorKind {
        if fm.count > 1 {
            ErrorKind::NonVectorFieldError
        } else {
            ErrorKind::FieldTypeError
        }
    }

    open spec fn decoded_view(fm: FieldModel) -> i32 {
        fm.data->I32_0
    }

    fn tibrv_try_decode(fld: &MsgField) -> (r: Result<i32, TibrvError>) {
        if fld.count > 1 {
            return Err(TibrvError { kind: ErrorKind::NonVectorFieldError });
        }
        match &fld.data {
            FieldData::I32(v) => Ok(*v),
            _ => Err(TibrvError { kind: ErrorKind::FieldTypeError }),
        }
    }
}

impl Encodable for u64 {
    open spec fn encoded_data(&self) -> DataModel {
        DataModel::U64(*self)
    }

    open spec fn encoded_size(&self) -> u32 {
        8
    }

    open spec fn encoded_count(&self) -> u32 {
        1
    }

    open spec fn encodable(&self) -> bool {
        true
    }

    fn tibrv_encode(&self, name: Option<&str>, id: Option<u32>) -> (r: MsgField) {
        MsgField {
            name: encode_name(name),
            id: encode_id(id),
            size: 8,
            count: 1,
            data: FieldData::U64(*self),
        }
    }
}

impl Decodable for u64 {
    open spec fn decode_ok(fm: FieldModel) -> bool {
        fm.count <= 1 && fm.data is U64
    }

    open spec fn decode_err(fm: FieldModel) -> ErrorKind {
        if fm.count > 1 {
            ErrorKind::NonVectorFieldError
        } else {
            ErrorKind::FieldTypeError
        }
    }

    open spec fn decoded_view(fm: FieldModel) -> u64 {
        fm.data->U64_0
    }

    fn tibrv_try_decode(fld: &MsgField) -> (r: Result<u64, TibrvError>) {
        if fld.count > 1 {
            return Err(TibrvError { kind: ErrorKind::NonVectorFieldError });
        }
        match &fld.data {
            FieldData::U64(v) => Ok(*v),
            _ => Err(TibrvError { kind: ErrorKind::FieldTypeError }),
        }
    }
}

impl Encodable for i64 {
    open spec fn encoded_data(&self) -> DataModel {
        DataModel::I64(*self)
    }

    open spec fn encoded_size(&self) -> u32 {
        8
    }

    open spec fn encoded_count(&self) -> u32 {
        1
    }

    open spec fn encodable(&self) -> bool {
        true
    }

    fn tibrv_encode(&self, name: Option<&str>, id: Option<u32>) -> (r: MsgField) {
        MsgField {
            name: encode_name(name),
            id: encode_id(id),
            size: 8,
            count: 1,
            data: FieldData::I64(*self),
        }
    }
}

impl Decodable for i64 {
    open spec fn decode_ok(fm: FieldModel) -> bool {
        fm.count <= 1 && fm.data is I64
    }

    open spec fn decode_err(fm: FieldModel) -> ErrorKind {
        if fm.count > 1 {
            ErrorKind::NonVectorFieldError
        } else {
            ErrorKind::FieldTypeError
        }
    }

    open spec fn decoded_view(fm: FieldModel) -> i64 {
        fm.data->I64_0
    }

    fn tibrv_try_decode(fld: &MsgField) -> (r: Result<i64, TibrvError>) {
        if fld.count > 1 {
            return Err(TibrvError { kind: ErrorKind::NonVectorFieldError });
        }
        match &fld.data {
            FieldData::I64(v) => Ok(*v),
            _ => Err(TibrvError { kind: ErrorKind::FieldTypeError }),
        }
    }
}

impl Encodable for bool {
    open spec fn encoded_data(&self) -> DataModel {
        DataModel::Bool(*self)
    }

    open spec fn encoded_size(&self) -> u32 {
        4
    }

    open spec fn encoded_count(&self) -> u32 {
        1
    }

    open spec fn encodable(&self) -> bool {
        true
    }

    fn tibrv_encode(&self, name: Option<&str>, id: Option<u32>) -> (r: MsgField) {
        MsgField {
            name: encode_name(name),
            id: encode_id(id),
            size: 4,
            count: 1,
            data: FieldData::Bool(*self),
        }
    }
}

impl Decodable for bool {
    open spec fn decode_ok(fm: FieldModel) -> bool {
        fm.count <= 1 && fm.data is Bool
    }

    open spec fn decode_err(fm: FieldModel) -> ErrorKind {
        if fm.count > 1 {
            ErrorKind::NonVectorFieldError
        } else {
            ErrorKind::FieldTypeError
        }
    }

    open spec fn decoded_view(fm: FieldModel) -> bool {
        fm.data->Bool_0
    }

    fn tibrv_try_decode(fld: &MsgField) -> (r: Result<bool, TibrvError>) {
        if fld.count > 1 {
            return Err(TibrvError { kind: ErrorKind::NonVectorFieldError });
        }
        match &fld.data {
            FieldData::Bool(v) => Ok(*v),
            _ => Err(TibrvError { kind: ErrorKind::FieldTypeError }),
        }
    }
}

impl Encodable for DateTime {
    open spec fn encoded_data(&self) -> DataModel {
        DataModel::DateTime(*self)
    }

    open spec fn encoded_size(&self) -> u32 {
        16
    }

    open spec fn encoded_count(&self) -> u32 {
        1
    }

    open spec fn encodable(&self) -> bool {
        true
    }

    fn tibrv_encode(&self, name: Option<&str>, id: Option<u32>) -> (r: MsgField) {
        MsgField {
            name: encode_name(name),
            id: encode_id(id),
            size: 16,
            count: 1,
            data: FieldData::DateTime(*self),
        }
    }
}

impl Decodable for DateTime {
    open spec fn decode_ok(fm: FieldModel) -> bool {
        fm.count <= 1 && fm.data is DateTime
    }

    open spec fn decode_err(fm: FieldModel) -> ErrorKind {
        if fm.count > 1 {
            ErrorKind::NonVectorFieldError
        } else {
            ErrorKind::FieldTypeError
        }
    }

    open spec fn decoded_view(fm: FieldModel) -> DateTime {
        fm.data->DateTime_0
    }

    fn tibrv_try_decode(fld: &MsgField) -> (r: Result<DateTime, TibrvError>) {
        if fld.count > 1 {
            return Err(TibrvError { kind: ErrorKind::NonVectorFieldError });
        }
        match &fld.data {
            FieldData::DateTime(v) => Ok(*v),
            _ => Err(TibrvError { kind: ErrorKind::FieldTypeError }),
        }
    }
}

impl Encodable for Ipv4Address {
    open spec fn encoded_data(&self) -> DataModel {
        DataModel::Ipv4(*self)
    }

    open spec fn encoded_size(&self) -> u32 {
        4
    }

    open spec fn encoded_count(&self) -> u32 {
        1
    }

    open spec fn encodable(&self) -> bool {
        true
    }

    fn tibrv_encode(&self, name: Option<&str>, id: Option<u32>) -> (r: MsgField) {
        MsgField {
            name: encode_name(name),
            id: encode_id(id),
            size: 4,
            count: 1,
            data: FieldData::Ipv4(*self),
        }
    }
}

impl Decodable for Ipv4Address {
    open spec fn decode_ok(fm: FieldModel) -> bool {
        fm.count <= 1 && fm.data is Ipv4
    }

    open spec fn decode_err(fm: FieldModel) -> ErrorKind {
        if fm.count > 1 {
            ErrorKind::NonVectorFieldError
        } else {
            ErrorKind::FieldTypeError
        }
    }

    open spec fn decoded_view(fm: FieldModel) -> Ipv4Address {
        fm.data->Ipv4_0
    }

    fn tibrv_try_decode(fld: &MsgField) -> (r: Result<Ipv4Address, TibrvError>) {
        if fld.count > 1 {
            return Err(TibrvError { kind: ErrorKind::NonVectorFieldError });
        }
        match &fld.data {
            FieldData::Ipv4(v) => Ok(*v),
            _ => Err(TibrvError { kind: ErrorKind::FieldTypeError }),
        }
    }
}

impl Encodable for F32Bits {
    open spec fn encoded_data(&self) -> DataModel {
        DataModel::F32(self.0)
    }

    open spec fn encoded_size(&self) -> u32 {
        4
    }

    open spec fn encoded_count(&self) -> u32 {
        1
    }

    open spec fn encodable(&self) -> bool {
        true
    }

    fn tibrv_encode(&self, name: Option<&str>, id: Option<u32>) -> (r: MsgField) {
        MsgField {
            name: encode_name(name),
            id: encode_id(id),
            size: 4,
            count: 1,
            data: FieldData::F32(self.0),
        }
    }
}

impl Decodable for F32Bits {
    open spec fn decode_ok(fm: FieldModel) -> bool {
        fm.count <= 1 && fm.data is F32
    }

    open spec fn decode_err(fm: FieldModel) -> ErrorKind {
        if fm.count > 1 {
            ErrorKind::NonVectorFieldError
        } else {
            ErrorKind::FieldTypeError
        }
    }

    open spec fn decoded_view(fm: FieldModel) -> F32Bits {
        F32Bits(fm.data->F32_0)
    }

    fn tibrv_try_decode(fld: &MsgField) -> (r: Result<F32Bits, TibrvError>) {
        if fld.count > 1 {
            return Err(TibrvError { kind: ErrorKind::NonVectorFieldError });
        }
        match &fld.data {
            FieldData::F32(v) => Ok(F32Bits(*v)),
            _ => Err(TibrvError { kind: ErrorKind::FieldTypeError }),
        }
    }
}

impl Encodable for F64Bits {
    open spec fn encoded_data(&self) -> DataModel {
        DataModel::F64(self.0)
    }

    open spec fn encoded_size(&self) -> u32 {
        8
    }

    open spec fn encoded_count(&self) -> u32 {
        1
    }

    open spec fn encodable(&self) -> bool {
        true
    }

    fn tibrv_encode(&self, name: Option<&str>, id: Option<u32>) -> (r: MsgField) {
        MsgField {
            name: encode_name(name),
            id: encode_id(id),
            size: 8,
            count: 1,
            data: FieldData::F64(self.0),
        }
    }
}

impl Decodable for F64Bits {
    open spec fn decode_ok(fm: FieldModel) -> bool {
        fm.count <= 1 && fm.data is F64
    }

    open spec fn decode_err(fm: FieldModel) -> ErrorKind {
        if fm.count > 1 {
            ErrorKind::NonVectorFieldError
        } else {
            ErrorKind::FieldTypeError
        }
    }

    open spec fn decoded_view(fm: FieldModel) -> F64Bits {
        F64Bits(fm.data->F64_0)
    }

    fn tibrv_try_decode(fld: &MsgField) -> (r: Result<F64Bits, TibrvError>) {
        if fld.count > 1 {
            return Err(TibrvError { kind: ErrorKind::NonVectorFieldError });
        }
        match &fld.data {
            FieldData::F64(v) => Ok(F64Bits(*v)),
            _ => Err(TibrvError { kind: ErrorKind::FieldTypeError }),
        }
    }
}

impl Encodable for Vec<u8> {
    open spec fn encoded_data(&self) -> DataModel {
        DataModel::U8Array(self@)
    }

    open spec fn encoded_size(&self) -> u32 {
        1
    }

    open spec fn encoded_count(&self) -> u32 {
        self@.len() as u32
    }

    open spec fn encodable(&self) -> bool {
        self@.len() <= u32::MAX
    }

    fn tibrv_encode(&self, name: Option<&str>, id: Option<u32>) -> (r: MsgField) {
        MsgField {
            name: encode_name(name),
            id: encode_id(id),
            size: 1,
            count: self.len() as u32,
            data: FieldData::U8Array(copy_vec(self)),
        }
    }
}

impl Decodable for Vec<u8> {
    open spec fn decode_ok(fm: FieldModel) -> bool {
        fm.data is U8Array
    }

    open spec fn decode_err(fm: FieldModel) -> ErrorKind {
        ErrorKind::FieldTypeError
    }

    open spec fn decoded_view(fm: FieldModel) -> Seq<u8> {
        fm.data->U8Array_0
    }

    fn tibrv_try_decode(fld: &MsgField) -> (r: Result<Vec<u8>, TibrvError>) {
        match &fld.data {
            FieldData::U8Array(v) => Ok(copy_vec(v)),
            _ => Err(TibrvError { kind: ErrorKind::FieldTypeError }),
        }
    }
}

impl Encodable for Vec<i8> {
    open spec fn encoded_data(&self) -> DataModel {
        DataModel::I8Array(self@)
    }

    open spec fn encoded_size(&self) -> u32 {
        1
    }

    open spec fn encoded_count(&self) -> u32 {
        self@.len() as u32
    }

    open spec fn encodable(&self) -> bool {
        self@.len() <= u32::MAX
    }

    fn tibrv_encode(&self, name: Option<&str>, id: Option<u32>) -> (r: MsgField) {
        MsgField {
            name: encode_name(name),
            id: encode_id(id),
            size: 1,
            count: self.len() as u32,
            data: FieldData::I8Array(copy_vec(self)),
        }
    }
}

impl Decodable for Vec<i8> {
    open spec fn decode_ok(fm: FieldModel) -> bool {
        fm.data is I8Array
    }

    open spec fn decode_err(fm: FieldModel) -> ErrorKind {
        ErrorKind::FieldTypeError
    }

    open spec fn decoded_view(fm: FieldModel) -> Seq<i8> {
        fm.data->I8Array_0
    }

    fn tibrv_try_decode(fld: &MsgField) -> (r: Result<Vec<i8>, TibrvError>) {
        match &fld.data {
            FieldData::I8Array(v) => Ok(copy_vec(v)),
            _ => Err(TibrvError { kind: ErrorKind::FieldTypeError }),
        }
    }
}

impl Encodable for Vec<u16> {
    open spec fn encoded_data(&self) -> DataModel {
        DataModel::U16Array(self@)
    }

    open spec fn encoded_size(&self) -> u32 {
        2
    }

    open spec fn encoded_count(&self) -> u32 {
        self@.len() as u32
    }

    open spec fn encodable(&self) -> bool {
        self@.len() <= u32::MAX
    }

    fn tibrv_encode(&self, name: Option<&str>, id: Option<u32>) -> (r: MsgField) {
        MsgField {
            name: encode_name(name),
            id: encode_id(id),
            size: 2,
            count: self.len() as u32,
            data: FieldData::U16Array(copy_vec(self)),
        }
    }
}

impl Decodable for Vec<u16> {
    open spec fn decode_ok(fm: FieldModel) -> bool {
        fm.data is U16Array
    }

    open spec fn decode_err(fm: FieldModel) -> ErrorKind {
        ErrorKind::FieldTypeError
    }

    open spec fn decoded_view(fm: FieldModel) -> Seq<u16> {
        fm.data->U16Array_0
    }

    fn tibrv_try_decode(fld: &MsgField) -> (r: Result<Vec<u16>, TibrvError>) {
        match &fld.data {
            FieldData::U16Array(v) => Ok(copy_vec(v)),
            _ => Err(TibrvError { kind: ErrorKind::FieldTypeError }),
        }
    }
}

impl Encodable for Vec<i16> {
    open spec fn encoded_data(&self) -> DataModel {
        DataModel::I16Array(self@)
    }

    open spec fn encoded_size(&self) -> u32 {
        2
    }

    open spec fn encoded_count(&self) -> u32 {
        self@.len() as u32
    }

    open spec fn encodable(&self) -> bool {
        self@.len() <= u32::MAX
    }

    fn tibrv_encode(&self, name: Option<&str>, id: Option<u32>) -> (r: MsgField) {
        MsgField {
            name: encode_name(name),
            id: encode_id(id),
            size: 2,
            count: self.len() as u32,
            data: FieldData::I16Array(copy_vec(self)),
        }
    }
}

impl Decodable for Vec<i16> {
    open spec fn decode_ok(fm: FieldModel) -> bool {
        fm.data is I16Array
    }

    open spec fn decode_err(fm: FieldModel) -> ErrorKind {
        ErrorKind::FieldTypeError
    }

    open spec fn decoded_view(fm: FieldModel) -> Seq<i16> {
        fm.data->I16Array_0
    }

    fn tibrv_try_decode(fld: &MsgField) -> (r: Result<Vec<i16>, TibrvError>) {
        match &fld.data {
            FieldData::I16Array(v) => Ok(copy_vec(v)),
            _ => Err(TibrvError { kind: ErrorKind::FieldTypeError }),
        }
    }
}

impl Encodable for Vec<u32> {
    open spec fn encoded_data(&self) -> DataModel {
        DataModel::U32Array(self@)
    }

    open spec fn encoded_size(&self) -> u32 {
        4
    }

    open spec fn encoded_count(&self) -> u32 {
        self@.len() as u32
    }

    open spec fn encodable(&self) -> bool {
        self@.len() <= u32::MAX
    }

    fn tibrv_encode(&self, name: Option<&str>, id: Option<u32>) -> (r: MsgField) {
        MsgField {
            name: encode_name(name),
            id: encode_id(id),
            size: 4,
            count: self.len() as u32,
            data: FieldData::U32Array(copy_vec(self)),
        }
    }
}

impl Decodable for Vec<u32> {
    open spec fn decode_ok(fm: FieldModel) -> bool {
        fm.data is U32Array
    }

    open spec fn decode_err(fm: FieldModel) -> ErrorKind {
        ErrorKind::FieldTypeError
    }

    open spec fn decoded_view(fm: FieldModel) -> Seq<u32> {
        fm.data->U32Array_0
    }

    fn tibrv_try_decode(fld: &MsgField) -> (r: Result<Vec<u32>, TibrvError>) {
        match &fld.data {
            FieldData::U32Array(v) => Ok(copy_vec(v)),
            _ => Err(TibrvError { kind: ErrorKind::FieldTypeError }),
        }
    }
}

impl Encodable for Vec<i32> {
    open spec fn encoded_data(&self) -> DataModel {
        DataModel::I32Array(self@)
    }

    open spec fn encoded_size(&self) -> u32 {
        4
    }

    open spec fn encoded_count(&self) -> u32 {
        self@.len() as u32
    }

    open spec fn encodable(&self) -> bool {
        self@.len() <= u32::MAX
    }

    fn tibrv_encode(&self, name: Option<&str>, id: Option<u32>) -> (r: MsgField) {
        MsgField {
            name: encode_name(name),
            id: encode_id(id),
            size: 4,
            count: self.len() as u32,
            data: FieldData::I32Array(copy_vec(self)),
        }
    }
}

impl Decodable for Vec<i32> {
    open spec fn decode_ok(fm: FieldModel) -> bool {
        fm.data is I32Array
    }

    open spec fn decode_err(fm: FieldModel) -> ErrorKind {
        ErrorKind::FieldTypeError
    }

    open spec fn decoded_view(fm: FieldModel) -> Seq<i32> {
        fm.data->I32Array_0
    }

    fn tibrv_try_decode(fld: &MsgField) -> (r: Result<Vec<i32>, TibrvError>) {
        match &fld.data {
            FieldData::I32Array(v) => Ok(copy_vec(v)),
            _ => Err(TibrvError { kind: ErrorKind::FieldTypeError }),
        }
    }
}

impl Encodable for Vec<u64> {
    open spec fn encoded_data(&self) -> DataModel {
        DataModel::U64Array(self@)
    }

    open spec fn encoded_size(&self) -> u32 {
        8
    }

    open spec fn encoded_count(&self) -> u32 {
        self@.len() as u32
    }

    open spec fn encodable(&self) -> bool {
        self@.len() <= u32::MAX
    }

    fn tibrv_encode(&self, name: Option<&str>, id: Option<u32>) -> (r: MsgField) {
        MsgField {
            name: encode_name(name),
            id: encode_id(id),
            size: 8,
            count: self.len() as u32,
            data: FieldData::U64Array(copy_vec(self)),
        }
    }
}

impl Decodable for Vec<u64> {
    open spec fn decode_ok(fm: FieldModel) -> bool {
        fm.data is U64Array
    }

    open spec fn decode_err(fm: FieldModel) -> ErrorKind {
        ErrorKind::FieldTypeError
    }

    open spec fn decoded_view(fm: FieldModel) -> Seq<u64> {
        fm.data->U64Array_0
    }

    fn tibrv_try_decode(fld: &MsgField) -> (r: Result<Vec<u64>, TibrvError>) {
        match &fld.data {
            FieldData::U64Array(v) => Ok(copy_vec(v)),
            _ => Err(TibrvError { kind: ErrorKind::FieldTypeError }),
        }
    }
}

impl Encodable for Vec<i64> {
    open spec fn encoded_data(&self) -> DataModel {
        DataModel::I64Array(self@)
    }

    open spec fn encoded_size(&self) -> u32 {
        8
    }

    open spec fn encoded_count(&self) -> u32 {
        self@.len() as u32
    }

    open spec fn encodable(&self) -> bool {
        self@.len() <= u32::MAX
    }

    fn tibrv_encode(&self, name: Option<&str>, id: Option<u32>) -> (r: MsgField) {
        MsgField {
            name: encode_name(name),
            id: encode_id(id),
            size: 8,
            count: self.len() as u32,
            data: FieldData::I64Array(copy_vec(self)),
        }
    }
}

impl Decodable for Vec<i64> {
    open spec fn decode_ok(fm: FieldModel) -> bool {
        fm.data is I64Array
    }

    open spec fn decode_err(fm: FieldModel) -> ErrorKind {
        ErrorKind::FieldTypeError
    }

    open spec fn decoded_view(fm: FieldModel) -> Seq<i64> {
        fm.data->I64Array_0
    }

    fn tibrv_try_decode(fld: &MsgField) -> (r: Result<Vec<i64>, TibrvError>) {
        match &fld.data {
            FieldData::I64Array(v) => Ok(copy_vec(v)),
            _ => Err(TibrvError { kind: ErrorKind::FieldTypeError }),
        }
    }
}


impl Encodable for Vec<F32Bits> {
    open spec fn encoded_data(&self) -> DataModel {
        DataModel::F32Array(self@.map_values(|b: F32Bits| b.0))
    }

    open spec fn encoded_size(&self) -> u32 {
        4
    }

    open spec fn encoded_count(&self) -> u32 {
        self@.len() as u32
    }

    open spec fn encodable(&self) -> bool {
        self@.len() <= u32::MAX
    }

    fn tibrv_encode(&self, name: Option<&str>, id: Option<u32>) -> (r: MsgField) {
        MsgField {
            name: encode_name(name),
            id: encode_id(id),
            size: 4,
            count: self.len() as u32,
            data: FieldData::F32Array(f32_bits_raw(self)),
        }
    }
}

impl Decodable for Vec<F32Bits> {
    open spec fn decode_ok(fm: FieldModel) -> bool {
        fm.data is F32Array
    }

    open spec fn decode_err(fm: FieldModel) -> ErrorKind {
        ErrorKind::FieldTypeError
    }

    open spec fn decoded_view(fm: FieldModel) -> Seq<F32Bits> {
        fm.data->F32Array_0.map_values(|b: u32| F32Bits(b))
    }

    fn tibrv_try_decode(fld: &MsgField) -> (r: Result<Vec<F32Bits>, TibrvError>) {
        match &fld.data {
            FieldData::F32Array(v) => Ok(raw_f32_bits(v)),
            _ => Err(TibrvError { kind: ErrorKind::FieldTypeError }),
        }
    }
}

impl Encodable for Vec<F64Bits> {
    open spec fn encoded_data(&self) -> DataModel {
        DataModel::F64Array(self@.map_values(|b: F64Bits| b.0))
    }

    open spec fn encoded_size(&self) -> u32 {
        8
    }

    open spec fn encoded_count(&self) -> u32 {
        self@.len() as u32
    }

    open spec fn encodable(&self) -> bool {
        self@.len() <= u32::MAX
    }

    fn tibrv_encode(&self, name: Option<&str>, id: Option<u32>) -> (r: MsgField) {
        MsgField {
            name: encode_name(name),
            id: encode_id(id),
            size: 8,
            count: self.len() as u32,
            data: FieldData::F64Array(f64_bits_raw(self)),
        }
    }
}

impl Decodable for Vec<F64Bits> {
    open spec fn decode_ok(fm: FieldModel) -> bool {
        fm.data is F64Array
    }

    open spec fn decode_err(fm: FieldModel) -> ErrorKind {
        ErrorKind::FieldTypeError
    }

    open spec fn decoded_view(fm: FieldModel) -> Seq<F64Bits> {
        fm.data->F64Array_0.map_values(|b: u64| F64Bits(b))
    }

    fn tibrv_try_decode(fld: &MsgField) -> (r: Result<Vec<F64Bits>, TibrvError>) {
        match &fld.data {
            FieldData::F64Array(v) => Ok(raw_f64_bits(v)),
            _ => Err(TibrvError { kind: ErrorKind::FieldTypeError }),
        }
    }
}

fn f32_bits_raw(v: &Vec<F32Bits>) -> (r: Vec<u32>)
    ensures
        r@ == v@.map_values(|b: F32Bits| b.0),
{
    let mut r: Vec<u32> = Vec::new();
    let mut i: usize = 0;
    while i < v.len()
        invariant
            i <= v.len(),
            r@.len() == i,
            forall|j: int| 0 <= j < i ==> r@[j] == v@[j].0,
        decreases v.len() - i,
    {
        r.push(v[i].0);
        i = i + 1;
    }
    proof {
        assert(r@ =~= v@.map_values(|b: F32Bits| b.0));
    }
    r
}

fn raw_f32_bits(v: &Vec<u32>) -> (r: Vec<F32Bits>)
    ensures
        r@ == v@.map_values(|b: u32| F32Bits(b)),
{
    let mut r: Vec<F32Bits> = Vec::new();
    let mut i: usize = 0;
    while i < v.len()
        invariant
            i <= v.len(),
            r@.len() == i,
            forall|j: int| 0 <= j < i ==> r@[j] == F32Bits(v@[j]),
        decreases v.len() - i,
    {
        r.push(F32Bits(v[i]));
        i = i + 1;
    }
    proof {
        assert(r@ =~= v@.map_values(|b: u32| F32Bits(b)));
    }
    r
}

fn f64_bits_raw(v: &Vec<F64Bits>) -> (r: Vec<u64>)
    ensures
        r@ == v@.map_values(|b: F64Bits| b.0),
{
    let mut r: Vec<u64> = Vec::new();
    let mut i: usize = 0;
    while i < v.len()
        invariant
            i <= v.len(),
            r@.len() == i,
            forall|j: int| 0 <= j < i ==> r@[j] == v@[j].0,
        decreases v.len() - i,
    {
        r.push(v[i].0);
        i = i + 1;
    }
    proof {
        assert(r@ =~= v@.map_values(|b: F64Bits| b.0));
    }
    r
}

fn raw_f64_bits(v: &Vec<u64>) -> (r: Vec<F64Bits>)
    ensures
        r@ == v@.map_values(|b: u64| F64Bits(b)),
{
    let mut r: Vec<F64Bits> = Vec::new();
    let mut i: usize = 0;
    while i < v.len()
        invariant
            i <= v.len(),
            r@.len() == i,
            forall|j: int| 0 <= j < i ==> r@[j] == F64Bits(v@[j]),
        decreases v.len() - i,
    {
        r.push(F64Bits(v[i]));
        i = i + 1;
    }
    proof {
        assert(r@ =~= v@.map_values(|b: u64| F64Bits(b)));
    }
    r
}

impl Encodable for String {
    open spec fn encoded_data(&self) -> DataModel {
        DataModel::Str(self@)
    }

    open spec fn encoded_size(&self) -> u32 {
        (self@.len() + 1) as u32
    }

    open spec fn encoded_count(&self) -> u32 {
        1
    }

    open spec fn encodable(&self) -> bool {
        clean_ascii(self@) && self@.len() + 1 <= u32::MAX
    }

    fn tibrv_encode(&self, name: Option<&str>, id: Option<u32>) -> (r: MsgField) {
        let s = self.as_str();
        proof {
            assert(vstd::utf8::is_ascii_chars(s@));
            vstd::string::is_ascii_spec_bytes(s);
        }
        let n = s.len();
        MsgField {
            name: encode_name(name),
            id: encode_id(id),
            size: (n + 1) as u32,
            count: 1,
            data: FieldData::Str(self.clone()),
        }
    }
}

impl Decodable for String {
    open spec fn decode_ok(fm: FieldModel) -> bool {
        fm.data is Str
    }

    open spec fn decode_err(fm: FieldModel) -> ErrorKind {
        ErrorKind::FieldTypeError
    }

    open spec fn decoded_view(fm: FieldModel) -> Seq<char> {
        fm.data->Str_0
    }

    fn tibrv_try_decode(fld: &MsgField) -> (r: Result<String, TibrvError>) {
        match &fld.data {
            FieldData::Str(s) => Ok(s.clone()),
            _ => Err(TibrvError { kind: ErrorKind::FieldTypeError }),
        }
    }
}

/// The byte-swapped form of a 16-bit value: the translation between host
/// and network (big-endian) byte order.
pub open spec fn spec_swap_u16(v: u16) -> u16 {
    ((v % 0x100) * 0x100 + v / 0x100) as u16
}

/// Swapping twice restores the original value.
pub proof fn lemma_swap_u16_involutive(v: u16)
    ensures
        spec_swap_u16(spec_swap_u16(v)) == v,
{
    let lo = v % 0x100;
    let hi = v / 0x100;
    assert(hi < 0x100);
    assert((lo * 0x100 + hi) % 0x100 == hi && (lo * 0x100 + hi) / 0x100 == lo)
        by (nonlinear_arith)
        requires
            lo < 0x100,
            hi < 0x100,
    ;
}

/// Encode a `u16` as an IP port message field.
///
/// The middleware has special provisions for network data types: IP ports
/// are carried in network byte order, so the stored payload is the
/// byte-swapped port.
pub fn tibrv_encode_port(port: u16, name: Option<&str>, id: Option<u32>) -> (r: MsgField)
    requires
        valid_identity(name, id),
    ensures
        r@ == (FieldModel {
            name: Some(name.unwrap()@),
            id: spec_field_id(id),
            size: 2,
            count: 1,
            data: DataModel::IpPort(spec_swap_u16(port)),
        }),
{
    let be = (port % 0x100) * 0x100 + port / 0x100;
    MsgField {
        name: encode_name(name),
        id: encode_id(id),
        size: 2,
        count: 1,
        data: FieldData::IpPort(be),
    }
}

/// Try to decode an IP port message field, swapping the payload back into
/// host byte order.
pub fn tibrv_try_decode_port(msg: &MsgField) -> (r: Result<u16, TibrvError>)
    ensures
        msg@.count <= 1 && msg@.data is IpPort ==> (r matches Ok(v) && v == spec_swap_u16(
            msg@.data->IpPort_0,
        )),
        !(msg@.count <= 1 && msg@.data is IpPort) ==> (r matches Err(e) && e.kind == (
        if msg@.count > 1 {
            ErrorKind::NonVectorFieldError
        } else {
            ErrorKind::FieldTypeError
        })),
{
    if msg.count > 1 {
        return Err(TibrvError { kind: ErrorKind::NonVectorFieldError });
    }
    match &msg.data {
        FieldData::IpPort(v) => Ok((*v % 0x100) * 0x100 + *v / 0x100),
        _ => Err(TibrvError { kind: ErrorKind::FieldTypeError }),
    }
}

/// Encode a byte slice as an opaque byte sequence.
///
/// Opaque fields carry no element type: the declared size is the total
/// byte length and the count is one.
pub fn tibrv_encode_opaque(bytes: &Vec<u8>, name: Option<&str>, id: Option<u32>) -> (r: MsgField)
    requires
        valid_identity(name, id),
        bytes@.len() <= u32::MAX,
    ensures
        r@ == (FieldModel {
            name: Some(name.unwrap()@),
            id: spec_field_id(id),
            size: bytes@.len() as u32,
            count: 1,
            data: DataModel::Opaque(bytes@),
        }),
{
    MsgField {
        name: encode_name(name),
        id: encode_id(id),
        size: bytes.len() as u32,
        count: 1,
        data: FieldData::Opaque(copy_vec(bytes)),
    }
}

/// Try to decode an opaque byte sequence back into its bytes.
pub fn tibrv_try_decode_opaque(msg: &MsgField) -> (r: Result<Vec<u8>, TibrvError>)
    ensures
        msg@.data is Opaque ==> (r matches Ok(v) && v@ == msg@.data->Opaque_0),
        !(msg@.data is Opaque) ==> (r matches Err(e) && e.kind == ErrorKind::FieldTypeError),
{
    match &msg.data {
        FieldData::Opaque(v) => Ok(copy_vec(v)),
        _ => Err(TibrvError { kind: ErrorKind::FieldTypeError }),
    }
}

/// A builder for [`MsgField`].
///
/// The value reference is supplied up front; a name and optionally a
/// numeric id are chained on before finalizing, and the actual encode
/// only runs at [`Builder::encode`].
pub struct Builder<'a, T: Encodable> {
    /// The name the field will carry.
    pub name: Option<&'a str>,
    /// The numeric id the field will carry.
    pub id: Option<u32>,
    /// The value to encode.
    pub data: &'a T,
}

impl<'a, T: Encodable> Builder<'a, T> {
    /// Creates a new `Builder` used to construct a `MsgField`.
    ///
    /// `with_name` must be called to supply identifier information before
    /// the field is encoded.
    pub fn new(data: &'a T) -> (r: Builder<'a, T>)
        ensures
            r.name is None,
            r.id is None,
            r.data == data,
    {
        Builder { name: None, id: None, data }
    }

    /// Sets the field name.
    pub fn with_name(self, name: &'a str) -> (r: Builder<'a, T>)
        ensures
            r.name == Some(name),
            r.id == self.id,
            r.data == self.data,
    {
        Builder { name: Some(name), ..self }
    }

    /// Sets the field id.
    pub fn with_id(self, id: u32) -> (r: Builder<'a, T>)
        ensures
            r.id == Some(id),
            r.name == self.name,
            r.data == self.data,
    {
        Builder { id: Some(id), ..self }
    }

    /// Consumes the `Builder`, creating a `MsgField`.
    pub fn encode(self) -> (r: MsgField)
        requires
            valid_identity(self.name, self.id),
            self.data.encodable(),
        ensures
            r@ == encoded_model(*self.data, self.name, self.id),
    {
        self.data.tibrv_encode(self.name, self.id)
    }
}


/// Whether a string is free of embedded NUL characters, and so
/// representable as a native C string.
pub open spec fn no_nul(s: Seq<char>) -> bool {
    forall|i: int| 0 <= i < s.len() ==> (#[trigger] s[i]) != '\0'
}

fn clone_opt_string(s: &Option<String>) -> (r: Option<String>)
    ensures
        r == *s,
{
    match s {
        Some(v) => Some(v.clone()),
        None => None,
    }
}

/// Deep-copy a field; the copy has the same model.
pub fn clone_msg_field(f: &MsgField) -> (r: MsgField)
    ensures
        r@ == f@,
    decreases *f,
{
    MsgField {
        name: clone_opt_string(&f.name),
        id: f.id,
        size: f.size,
        count: f.count,
        data: clone_field_data(&f.data),
    }
}

fn clone_field_data(d: &FieldData) -> (r: FieldData)
    ensures
        data_model(r) == data_model(*d),
    decreases *d,
{
    match d {
        FieldData::Str(s) => FieldData::Str(s.clone()),
        FieldData::Msg(m) => FieldData::Msg(Box::new(crate::message::clone_msg(&**m))),
        FieldData::U8(v) => FieldData::U8(*v),
        FieldData::U8Array(v) => FieldData::U8Array(copy_vec(v)),
        FieldData::I8(v) => FieldData::I8(*v),
        FieldData::I8Array(v) => FieldData::I8Array(copy_vec(v)),
        FieldData::U16(v) => FieldData::U16(*v),
        FieldData::U16Array(v) => FieldData::U16Array(copy_vec(v)),
        FieldData::I16(v) => FieldData::I16(*v),
        FieldData::I16Array(v) => FieldData::I16Array(copy_vec(v)),
        FieldData::U32(v) => FieldData::U32(*v),
        FieldData::U32Array(v) => FieldData::U32Array(copy_vec(v)),
        FieldData::I32(v) => FieldData::I32(*v),
        FieldData::I32Array(v) => FieldData::I32Array(copy_vec(v)),
        FieldData::U64(v) => FieldData::U64(*v),
        FieldData::U64Array(v) => FieldData::U64Array(copy_vec(v)),
        FieldData::I64(v) => FieldData::I64(*v),
        FieldData::I64Array(v) => FieldData::I64Array(copy_vec(v)),
        FieldData::F32(v) => FieldData::F32(*v),
        FieldData::F32Array(v) => FieldData::F32Array(copy_vec(v)),
        FieldData::F64(v) => FieldData::F64(*v),
        FieldData::F64Array(v) => FieldData::F64Array(copy_vec(v)),
        FieldData::Bool(v) => FieldData::Bool(*v),
        FieldData::DateTime(v) => FieldData::DateTime(*v),
        FieldData::Ipv4(v) => FieldData::Ipv4(*v),
        FieldData::IpPort(v) => FieldData::IpPort(*v),
        FieldData::Opaque(v) => FieldData::Opaque(copy_vec(v)),
    }
}

/// A field extracted from a message.
///
/// The native layer hands out field views whose lifetime is tied to the
/// parent message; here the extracted field is an owned deep copy, so the
/// wrapper carries no lifetime and the decode methods can be used on it
/// directly.
#[derive(Debug)]
pub struct BorrowedMsgField {
    /// The extracted field.
    pub inner: MsgField,
}

impl View for BorrowedMsgField {
    type V = FieldModel;

    open spec fn view(&self) -> FieldModel {
        self.inner@
    }
}

impl BorrowedMsgField {
    /// Try to decode the extracted field as `T`.
    pub fn try_decode<T: Decodable>(&self) -> (r: Result<T, TibrvError>)
        ensures
            T::decode_ok(self@) ==> (r matches Ok(v) && v@ == T::decoded_view(self@)),
            !T::decode_ok(self@) ==> (r matches Err(e) && e.kind == T::decode_err(self@)),
    {
        T::tibrv_try_decode(&self.inner)
    }
}


/// A decoded field payload: the closed sum every consumer can match on
/// exhaustively, produced by inspecting a field's tag once.
#[derive(Debug)]
pub enum DecodedField {
    String(String),
    Message(crate::message::BorrowedMsg),
    U8(u8),
    U8Array(Vec<u8>),
    I8(i8),
    I8Array(Vec<i8>),
    U16(u16),
    U16Array(Vec<u16>),
    I16(i16),
    I16Array(Vec<i16>),
    U32(u32),
    U32Array(Vec<u32>),
    I32(i32),
    I32Array(Vec<i32>),
    U64(u64),
    U64Array(Vec<u64>),
    I64(i64),
    I64Array(Vec<i64>),
    F32(F32Bits),
    F32Array(Vec<F32Bits>),
    F64(F64Bits),
    F64Array(Vec<F64Bits>),
    Bool(bool),
    DateTime(DateTime),
    Ipv4(Ipv4Address),
    IpPort(u16),
    Opaque(Vec<u8>),
}

/// The mathematical shape of a decoded field payload.
#[verifier::ext_equal]
pub enum DecodedFieldModel {
    String(Seq<char>),
    Message(MsgModel),
    U8(u8),
    U8Array(Seq<u8>),
    I8(i8),
    I8Array(Seq<i8>),
    U16(u16),
    U16Array(Seq<u16>),
    I16(i16),
    I16Array(Seq<i16>),
    U32(u32),
    U32Array(Seq<u32>),
    I32(i32),
    I32Array(Seq<i32>),
    U64(u64),
    U64Array(Seq<u64>),
    I64(i64),
    I64Array(Seq<i64>),
    F32(F32Bits),
    F32Array(Seq<F32Bits>),
    F64(F64Bits),
    F64Array(Seq<F64Bits>),
    Bool(bool),
    DateTime(DateTime),
    Ipv4(Ipv4Address),
    IpPort(u16),
    Opaque(Seq<u8>),
}

impl View for DecodedField {
    type V = DecodedFieldModel;

    open spec fn view(&self) -> DecodedFieldModel {
        match self {
            DecodedField::String(v) => DecodedFieldModel::String(v@),
            DecodedField::Message(v) => DecodedFieldModel::Message(v@),
            DecodedField::U8(v) => DecodedFieldModel::U8(*v),
            DecodedField::U8Array(v) => DecodedFieldModel::U8Array(v@),
            DecodedField::I8(v) => DecodedFieldModel::I8(*v),
            DecodedField::I8Array(v) => DecodedFieldModel::I8Array(v@),
            DecodedField::U16(v) => DecodedFieldModel::U16(*v),
            DecodedField::U16Array(v) => DecodedFieldModel::U16Array(v@),
            DecodedField::I16(v) => DecodedFieldModel::I16(*v),
            DecodedField::I16Array(v) => DecodedFieldModel::I16Array(v@),
            DecodedField::U32(v) => DecodedFieldModel::U32(*v),
            DecodedField::U32Array(v) => DecodedFieldModel::U32Array(v@),
            DecodedField::I32(v) => DecodedFieldModel::I32(*v),
            DecodedField::I32Array(v) => DecodedFieldModel::I32Array(v@),
            DecodedField::U64(v) => DecodedFieldModel::U64(*v),
            DecodedField::U64Array(v) => DecodedFieldModel::U64Array(v@),
            DecodedField::I64(v) => DecodedFieldModel::I64(*v),
            DecodedField::I64Array(v) => DecodedFieldModel::I64Array(v@),
            DecodedField::F32(v) => DecodedFieldModel::F32(*v),
            DecodedField::F32Array(v) => DecodedFieldModel::F32Array(v@),
            DecodedField::F64(v) => DecodedFieldModel::F64(*v),
            DecodedField::F64Array(v) => DecodedFieldModel::F64Array(v@),
            DecodedField::Bool(v) => DecodedFieldModel::Bool(*v),
            DecodedField::DateTime(v) => DecodedFieldModel::DateTime(*v),
            DecodedField::Ipv4(v) => DecodedFieldModel::Ipv4(*v),
            DecodedField::IpPort(v) => DecodedFieldModel::IpPort(*v),
            DecodedField::Opaque(v) => DecodedFieldModel::Opaque(v@),
        }
    }
}

/// Whether a field's payload kind is scalar: those kinds refuse a count
/// above one.
pub open spec fn scalar_kind(d: DataModel) -> bool {
    match d {
        DataModel::U8(_) | DataModel::I8(_) | DataModel::U16(_) | DataModel::I16(_)
            | DataModel::U32(_) | DataModel::I32(_) | DataModel::U64(_) | DataModel::I64(_)
            | DataModel::F32(_) | DataModel::F64(_) | DataModel::Bool(_)
            | DataModel::DateTime(_) | DataModel::Ipv4(_) | DataModel::IpPort(_) => true,
        _ => false,
    }
}

impl Decodable for DecodedField {
    open spec fn decode_ok(fm: FieldModel) -> bool {
        scalar_kind(fm.data) ==> fm.count <= 1
    }

    open spec fn decode_err(fm: FieldModel) -> ErrorKind {
        ErrorKind::NonVectorFieldError
    }

    open spec fn decoded_view(fm: FieldModel) -> DecodedFieldModel {
        match fm.data {
            DataModel::Str(s) => DecodedFieldModel::String(s),
            DataModel::Msg(m) => DecodedFieldModel::Message(m),
            DataModel::U8(v) => DecodedFieldModel::U8(v),
            DataModel::U8Array(v) => DecodedFieldModel::U8Array(v),
            DataModel::I8(v) => DecodedFieldModel::I8(v),
            DataModel::I8Array(v) => DecodedFieldModel::I8Array(v),
            DataModel::U16(v) => DecodedFieldModel::U16(v),
            DataModel::U16Array(v) => DecodedFieldModel::U16Array(v),
            DataModel::I16(v) => DecodedFieldModel::I16(v),
            DataModel::I16Array(v) => DecodedFieldModel::I16Array(v),
            DataModel::U32(v) => DecodedFieldModel::U32(v),
            DataModel::U32Array(v) => DecodedFieldModel::U32Array(v),
            DataModel::I32(v) => DecodedFieldModel::I32(v),
            DataModel::I32Array(v) => DecodedFieldModel::I32Array(v),
            DataModel::U64(v) => DecodedFieldModel::U64(v),
            DataModel::U64Array(v) => DecodedFieldModel::U64Array(v),
            DataModel::I64(v) => DecodedFieldModel::I64(v),
            DataModel::I64Array(v) => DecodedFieldModel::I64Array(v),
            DataModel::F32(v) => DecodedFieldModel::F32(F32Bits(v)),
            DataModel::F32Array(v) => DecodedFieldModel::F32Array(v.map_values(|b: u32| F32Bits(b))),
            DataModel::F64(v) => DecodedFieldModel::F64(F64Bits(v)),
            DataModel::F64Array(v) => DecodedFieldModel::F64Array(v.map_values(|b: u64| F64Bits(b))),
            DataModel::Bool(v) => DecodedFieldModel::Bool(v),
            DataModel::DateTime(v) => DecodedFieldModel::DateTime(v),
            DataModel::Ipv4(v) => DecodedFieldModel::Ipv4(v),
            DataModel::IpPort(v) => DecodedFieldModel::IpPort(spec_swap_u16(v)),
            DataModel::Opaque(v) => DecodedFieldModel::Opaque(v),
        }
    }

    fn tibrv_try_decode(fld: &MsgField) -> (r: Result<DecodedField, TibrvError>) {
        match &fld.data {
            FieldData::Str(_) => match String::tibrv_try_decode(fld) {
                Ok(v) => Ok(DecodedField::String(v)),
                Err(e) => Err(e),
            },
            FieldData::Msg(_) => match crate::message::BorrowedMsg::tibrv_try_decode(fld) {
                Ok(v) => Ok(DecodedField::Message(v)),
                Err(e) => Err(e),
            },
            FieldData::U8(_) => match u8::tibrv_try_decode(fld) {
                Ok(v) => Ok(DecodedField::U8(v)),
                Err(e) => Err(e),
            },
            FieldData::U8Array(_) => match Vec::<u8>::tibrv_try_decode(fld) {
                Ok(v) => Ok(DecodedField::U8Array(v)),
                Err(e) => Err(e),
            },
            FieldData::I8(_) => match i8::tibrv_try_decode(fld) {
                Ok(v) => Ok(DecodedField::I8(v)),
                Err(e) => Err(e),
            },
            FieldData::I8Array(_) => match Vec::<i8>::tibrv_try_decode(fld) {
                Ok(v) => Ok(DecodedField::I8Array(v)),
                Err(e) => Err(e),
            },
            FieldData::U16(_) => match u16::tibrv_try_decode(fld) {
                Ok(v) => Ok(DecodedField::U16(v)),
                Err(e) => Err(e),
            },
            FieldData::U16Array(_) => match Vec::<u16>::tibrv_try_decode(fld) {
                Ok(v) => Ok(DecodedField::U16Array(v)),
                Err(e) => Err(e),
            },
            FieldData::I16(_) => match i16::tibrv_try_decode(fld) {
                Ok(v) => Ok(DecodedField::I16(v)),
                Err(e) => Err(e),
            },
            FieldData::I16Array(_) => match Vec::<i16>::tibrv_try_decode(fld) {
                Ok(v) => Ok(DecodedField::I16Array(v)),
                Err(e) => Err(e),
            },
            FieldData::U32(_) => match u32::tibrv_try_decode(fld) {
                Ok(v) => Ok(DecodedField::U32(v)),
                Err(e) => Err(e),
            },
            FieldData::U32Array(_) => match Vec::<u32>::tibrv_try_decode(fld) {
                Ok(v) => Ok(DecodedField::U32Array(v)),
                Err(e) => Err(e),
            },
            FieldData::I32(_) => match i32::tibrv_try_decode(fld) {
                Ok(v) => Ok(DecodedField::I32(v)),
                Err(e) => Err(e),
            },
            FieldData::I32Array(_) => match Vec::<i32>::tibrv_try_decode(fld) {
                Ok(v) => Ok(DecodedField::I32Array(v)),
                Err(e) => Err(e),
            },
            FieldData::U64(_) => match u64::tibrv_try_decode(fld) {
                Ok(v) => Ok(DecodedField::U64(v)),
                Err(e) => Err(e),
            },
            FieldData::U64Array(_) => match Vec::<u64>::tibrv_try_decode(fld) {
                Ok(v) => Ok(DecodedField::U64Array(v)),
                Err(e) => Err(e),
            },
            FieldData::I64(_) => match i64::tibrv_try_decode(fld) {
                Ok(v) => Ok(DecodedField::I64(v)),
                Err(e) => Err(e),
            },
            FieldData::I64Array(_) => match Vec::<i64>::tibrv_try_decode(fld) {
                Ok(v) => Ok(DecodedField::I64Array(v)),
                Err(e) => Err(e),
            },
            FieldData::F32(_) => match F32Bits::tibrv_try_decode(fld) {
                Ok(v) => Ok(DecodedField::F32(v)),
                Err(e) => Err(e),
            },
            FieldData::F32Array(_) => match Vec::<F32Bits>::tibrv_try_decode(fld) {
                Ok(v) => Ok(DecodedField::F32Array(v)),
                Err(e) => Err(e),
            },
            FieldData::F64(_) => match F64Bits::tibrv_try_decode(fld) {
                Ok(v) => Ok(DecodedField::F64(v)),
                Err(e) => Err(e),
            },
            FieldData::F64Array(_) => match Vec::<F64Bits>::tibrv_try_decode(fld) {
                Ok(v) => Ok(DecodedField::F64Array(v)),
                Err(e) => Err(e),
            },
            FieldData::Bool(_) => match bool::tibrv_try_decode(fld) {
                Ok(v) => Ok(DecodedField::Bool(v)),
                Err(e) => Err(e),
            },
            FieldData::DateTime(_) => match DateTime::tibrv_try_decode(fld) {
                Ok(v) => Ok(DecodedField::DateTime(v)),
                Err(e) => Err(e),
            },
            FieldData::Ipv4(_) => match Ipv4Address::tibrv_try_decode(fld) {
                Ok(v) => Ok(DecodedField::Ipv4(v)),
                Err(e) => Err(e),
            },
            FieldData::IpPort(_) => match tibrv_try_decode_port(fld) {
                Ok(v) => Ok(DecodedField::IpPort(v)),
                Err(e) => Err(e),
            },
            FieldData::Opaque(_) => match tibrv_try_decode_opaque(fld) {
                Ok(v) => Ok(DecodedField::Opaque(v)),
                Err(e) => Err(e),
            },
        }
    }
}

/// Whether a year/month/day triple names a real Gregorian calendar date.
pub open spec fn valid_civil_date(y: int, mo: int, d: int) -> bool {
    1 <= mo <= 12 && 1 <= d <= days_in_month(y, mo)
}

/// Whether a year is a Gregorian leap year.
pub open spec fn leap_year(y: int) -> bool {
    (y % 4 == 0 && y % 100 != 0) || y % 400 == 0
}

/// The number of days in a month of a year.
pub open spec fn days_in_month(y: int, mo: int) -> int {
    if mo == 2 {
        if leap_year(y) {
            29
        } else {
            28
        }
    } else if mo == 4 || mo == 6 || mo == 9 || mo == 11 {
        30
    } else {
        31
    }
}

/// Whether an hour/minute/second triple names a time of day.
pub open spec fn valid_time_of_day(h: int, mi: int, s: int) -> bool {
    0 <= h < 24 && 0 <= mi < 60 && 0 <= s < 60
}

/// The number of non-leap seconds between the Unix epoch and the given
/// civil date and time of day, taken as UTC.
pub uninterp spec fn epoch_seconds_of(y: int, mo: int, d: int, h: int, mi: int, s: int) -> int;

/// Relies on chrono's `NaiveDate::from_ymd_opt`, `NaiveDate::and_hms_opt`
/// and `NaiveDateTime::and_utc().timestamp()`: the conversion from a
/// civil date and time of day to seconds since the Unix epoch. The result
/// depends on the arguments alone; a date and time on the epoch day
/// counts its seconds from midnight, as the timestamp documentation
/// states.
#[verifier::external_body]
fn civil_to_epoch(y: i32, mo: u32, d: u32, h: u32, mi: u32, s: u32) -> (r: Option<i64>)
    ensures
        match r {
            Some(v) => v == epoch_seconds_of(
                y as int,
                mo as int,
                d as int,
                h as int,
                mi as int,
                s as int,
            ) && ((y == 1970 && mo == 1 && d == 1 && valid_time_of_day(
                h as int,
                mi as int,
                s as int,
            )) ==> v == h * 3600 + mi * 60 + s),
            None => !(valid_civil_date(y as int, mo as int, d as int) && valid_time_of_day(
                h as int,
                mi as int,
                s as int,
            ) && 1583 <= y <= 9999),
        },
{
    match chrono::NaiveDate::from_ymd_opt(y, mo, d) {
        Some(date) => match date.and_hms_opt(h, mi, s) {
            Some(dt) => Some(dt.and_utc().timestamp()),
            None => None,
        },
        None => None,
    }
}

impl DateTime {
    /// The date-time for a civil calendar date and time of day, taken as
    /// UTC, with a nanosecond remainder.
    ///
    /// Yields `None` when the date or the time of day is not real; any
    /// date of the years 1583 through 9999 is accepted.
    pub fn from_civil(y: i32, mo: u32, d: u32, h: u32, mi: u32, s: u32, ns: u32) -> (r: Option<
        DateTime,
    >)
        requires
            ns < 1_000_000_000,
        ensures
            r matches Some(dt) ==> dt == (DateTime {
                sec: epoch_seconds_of(y as int, mo as int, d as int, h as int, mi as int, s as int) as i64,
                nsec: ns,
            }),
            (valid_civil_date(y as int, mo as int, d as int) && valid_time_of_day(
                h as int,
                mi as int,
                s as int,
            ) && 1583 <= y <= 9999) ==> r is Some,
            (y == 1970 && mo == 1 && d == 1 && valid_time_of_day(h as int, mi as int, s as int))
                ==> (r matches Some(dt) && dt.sec == h * 3600 + mi * 60 + s),
    {
        match civil_to_epoch(y, mo, d, h, mi, s) {
            Some(sec) => Some(DateTime { sec, nsec: ns }),
            None => None,
        }
    }
}

} // verus!
