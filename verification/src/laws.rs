//! The laws the codec and the message container obey, stated and proved
//! once for every input.
//!
//! Each law is a public proof function: its `requires` holds only what
//! the law assumes, and its `ensures` states the law over the same spec
//! functions the operations' own contracts use.

use vstd::prelude::*;

use crate::errors::ErrorKind;
use crate::field::{
    encoded_model, lemma_swap_u16_involutive, spec_swap_u16, valid_identity, DateTime, Decodable,
    Encodable, F32Bits, F64Bits, FieldModel, Ipv4Address,
};
use crate::message::{
    field_cost, lemma_fields_cost_push, spec_byte_size, BorrowedMsg, Msg, MsgModel,
};

verus! {

/// Round-trip: a `u8` value decodes from its own encoding, exactly.
pub proof fn lemma_roundtrip_u8(v: u8, name: Option<&str>, id: Option<u32>)
    requires
        valid_identity(name, id),
        v.encodable(),
    ensures
        <u8 as Decodable>::decode_ok(encoded_model(v, name, id)),
        <u8 as Decodable>::decoded_view(encoded_model(v, name, id)) == v@,
{
}

/// Round-trip: a `i8` value decodes from its own encoding, exactly.
pub proof fn lemma_roundtrip_i8(v: i8, name: Option<&str>, id: Option<u32>)
    requires
        valid_identity(name, id),
        v.encodable(),
    ensures
        <i8 as Decodable>::decode_ok(encoded_model(v, name, id)),
        <i8 as Decodable>::decoded_view(encoded_model(v, name, id)) == v@,
{
}

/// Round-trip: a `u16` value decodes from its own encoding, exactly.
pub proof fn lemma_roundtrip_u16(v: u16, name: Option<&str>, id: Option<u32>)
    requires
        valid_identity(name, id),
        v.encodable(),
    ensures
        <u16 as Decodable>::decode_ok(encoded_model(v, name, id)),
        <u16 as Decodable>::decoded_view(encoded_model(v, name, id)) == v@,
{
}

/// Round-trip: a `i16` value decodes from its own encoding, exactly.
pub proof fn lemma_roundtrip_i16(v: i16, name: Option<&str>, id: Option<u32>)
    requires
        valid_identity(name, id),
        v.encodable(),
    ensures
        <i16 as Decodable>::decode_ok(encoded_model(v, name, id)),
        <i16 as Decodable>::decoded_view(encoded_model(v, name, id)) == v@,
{
}

/// Round-trip: a `u32` value decodes from its own encoding, exactly.
pub proof fn lemma_roundtrip_u32(v: u32, name: Option<&str>, id: Option<u32>)
    requires
        valid_identity(name, id),
        v.encodable(),
    ensures
        <u32 as Decodable>::decode_ok(encoded_model(v, name, id)),
        <u32 as Decodable>::decoded_view(encoded_model(v, name, id)) == v@,
{
}

/// Round-trip: a `i32` value decodes from its own encoding, exactly.
pub proof fn lemma_roundtrip_i32(v: i32, name: Option<&str>, id: Option<u32>)
    requires
        valid_identity(name, id),
        v.encodable(),
    ensures
        <i32 as Decodable>::decode_ok(encoded_model(v, name, id)),
        <i32 as Decodable>::decoded_view(encoded_model(v, name, id)) == v@,
{
}

/// Round-trip: a `u64` value decodes from its own encoding, exactly.
pub proof fn lemma_roundtrip_u64(v: u64, name: Option<&str>, id: Option<u32>)
    requires
        valid_identity(name, id),
        v.encodable(),
    ensures
        <u64 as Decodable>::decode_ok(encoded_model(v, name, id)),
        <u64 as Decodable>::decoded_view(encoded_model(v, name, id)) == v@,
{
}

/// Round-trip: a `i64` value decodes from its own encoding, exactly.
pub proof fn lemma_roundtrip_i64(v: i64, name: Option<&str>, id: Option<u32>)
    requires
        valid_identity(name, id),
        v.encodable(),
    ensures
        <i64 as Decodable>::decode_ok(encoded_model(v, name, id)),
        <i64 as Decodable>::decoded_view(encoded_model(v, name, id)) == v@,
{
}

/// Round-trip: a `bool` value decodes from its own encoding, exactly.
pub proof fn lemma_roundtrip_bool(v: bool, name: Option<&str>, id: Option<u32>)
    requires
        valid_identity(name, id),
        v.encodable(),
    ensures
        <bool as Decodable>::decode_ok(encoded_model(v, name, id)),
        <bool as Decodable>::decoded_view(encoded_model(v, name, id)) == v@,
{
}

/// Round-trip: a `DateTime` value decodes from its own encoding, exactly.
pub proof fn lemma_roundtrip_datetime(v: DateTime, name: Option<&str>, id: Option<u32>)
    requires
        valid_identity(name, id),
        v.encodable(),
    ensures
        <DateTime as Decodable>::decode_ok(encoded_model(v, name, id)),
        <DateTime as Decodable>::decoded_view(encoded_model(v, name, id)) == v@,
{
}

/// Round-trip: a `Ipv4Address` value decodes from its own encoding, exactly.
pub proof fn lemma_roundtrip_ipv4address(v: Ipv4Address, name: Option<&str>, id: Option<u32>)
    requires
        valid_identity(name, id),
        v.encodable(),
    ensures
        <Ipv4Address as Decodable>::decode_ok(encoded_model(v, name, id)),
        <Ipv4Address as Decodable>::decoded_view(encoded_model(v, name, id)) == v@,
{
}

/// Round-trip: a `F32Bits` value decodes from its own encoding, exactly.
pub proof fn lemma_roundtrip_f32bits(v: F32Bits, name: Option<&str>, id: Option<u32>)
    requires
        valid_identity(name, id),
        v.encodable(),
    ensures
        <F32Bits as Decodable>::decode_ok(encoded_model(v, name, id)),
        <F32Bits as Decodable>::decoded_view(encoded_model(v, name, id)) == v@,
{
}

/// Round-trip: a `F64Bits` value decodes from its own encoding, exactly.
pub proof fn lemma_roundtrip_f64bits(v: F64Bits, name: Option<&str>, id: Option<u32>)
    requires
        valid_identity(name, id),
        v.encodable(),
    ensures
        <F64Bits as Decodable>::decode_ok(encoded_model(v, name, id)),
        <F64Bits as Decodable>::decoded_view(encoded_model(v, name, id)) == v@,
{
}

/// Round-trip: a string value decodes from its own encoding, exactly.
pub proof fn lemma_roundtrip_string(v: String, name: Option<&str>, id: Option<u32>)
    requires
        valid_identity(name, id),
        v.encodable(),
    ensures
        <String as Decodable>::decode_ok(encoded_model(v, name, id)),
        <String as Decodable>::decoded_view(encoded_model(v, name, id)) == v@,
{
}

/// Round-trip: a nested message decodes from its own encoding with the
/// same model.
pub proof fn lemma_roundtrip_msg(v: Msg, name: Option<&str>, id: Option<u32>)
    requires
        valid_identity(name, id),
        v.encodable(),
    ensures
        <BorrowedMsg as Decodable>::decode_ok(encoded_model(v, name, id)),
        <BorrowedMsg as Decodable>::decoded_view(encoded_model(v, name, id)) == v@,
{
}

/// Array round-trip: a `u8` slice of N elements encodes to a field with
/// `count == N` and `size` equal to the element width, and decodes back
/// to the original elements in order.
pub proof fn lemma_roundtrip_u8_array(v: Vec<u8>, name: Option<&str>, id: Option<u32>)
    requires
        valid_identity(name, id),
        v.encodable(),
    ensures
        encoded_model(v, name, id).count == v@.len(),
        encoded_model(v, name, id).size == 1,
        <Vec<u8> as Decodable>::decode_ok(encoded_model(v, name, id)),
        <Vec<u8> as Decodable>::decoded_view(encoded_model(v, name, id)) == v@,
{
}

/// Array round-trip: a `i8` slice of N elements encodes to a field with
/// `count == N` and `size` equal to the element width, and decodes back
/// to the original elements in order.
pub proof fn lemma_roundtrip_i8_array(v: Vec<i8>, name: Option<&str>, id: Option<u32>)
    requires
        valid_identity(name, id),
        v.encodable(),
    ensures
        encoded_model(v, name, id).count == v@.len(),
        encoded_model(v, name, id).size == 1,
        <Vec<i8> as Decodable>::decode_ok(encoded_model(v, name, id)),
        <Vec<i8> as Decodable>::decoded_view(encoded_model(v, name, id)) == v@,
{
}

/// Array round-trip: a `u16` slice of N elements encodes to a field with
/// `count == N` and `size` equal to the element width, and decodes back
/// to the original elements in order.
pub proof fn lemma_roundtrip_u16_array(v: Vec<u16>, name: Option<&str>, id: Option<u32>)
    requires
        valid_identity(name, id),
        v.encodable(),
    ensures
        encoded_model(v, name, id).count == v@.len(),
        encoded_model(v, name, id).size == 2,
        <Vec<u16> as Decodable>::decode_ok(encoded_model(v, name, id)),
        <Vec<u16> as Decodable>::decoded_view(encoded_model(v, name, id)) == v@,
{
}

/// Array round-trip: a `i16` slice of N elements encodes to a field with
/// `count == N` and `size` equal to the element width, and decodes back
/// to the original elements in order.
pub proof fn lemma_roundtrip_i16_array(v: Vec<i16>, name: Option<&str>, id: Option<u32>)
    requires
        valid_identity(name, id),
        v.encodable(),
    ensures
        encoded_model(v, name, id).count == v@.len(),
        encoded_model(v, name, id).size == 2,
        <Vec<i16> as Decodable>::decode_ok(encoded_model(v, name, id)),
        <Vec<i16> as Decodable>::decoded_view(encoded_model(v, name, id)) == v@,
{
}

/// Array round-trip: a `u32` slice of N elements encodes to a field with
/// `count == N` and `size` equal to the element width, and decodes back
/// to the original elements in order.
pub proof fn lemma_roundtrip_u32_array(v: Vec<u32>, name: Option<&str>, id: Option<u32>)
    requires
        valid_identity(name, id),
        v.encodable(),
    ensures
        encoded_model(v, name, id).count == v@.len(),
        encoded_model(v, name, id).size == 4,
        <Vec<u32> as Decodable>::decode_ok(encoded_model(v, name, id)),
        <Vec<u32> as Decodable>::decoded_view(encoded_model(v, name, id)) == v@,
{
}

/// Array round-trip: a `i32` slice of N elements encodes to a field with
/// `count == N` and `size` equal to the element width, and decodes back
/// to the original elements in order.
pub proof fn lemma_roundtrip_i32_array(v: Vec<i32>, name: Option<&str>, id: Option<u32>)
    requires
        valid_identity(name, id),
        v.encodable(),
    ensures
        encoded_model(v, name, id).count == v@.len(),
        encoded_model(v, name, id).size == 4,
        <Vec<i32> as Decodable>::decode_ok(encoded_model(v, name, id)),
        <Vec<i32> as Decodable>::decoded_view(encoded_model(v, name, id)) == v@,
{
}

/// Array round-trip: a `u64` slice of N elements encodes to a field with
/// `count == N` and `size` equal to the element width, and decodes back
/// to the original elements in order.
pub proof fn lemma_roundtrip_u64_array(v: Vec<u64>, name: Option<&str>, id: Option<u32>)
    requires
        valid_identity(name, id),
        v.encodable(),
    ensures
        encoded_model(v, name, id).count == v@.len(),
        encoded_model(v, name, id).size == 8,
        <Vec<u64> as Decodable>::decode_ok(encoded_model(v, name, id)),
        <Vec<u64> as Decodable>::decoded_view(encoded_model(v, name, id)) == v@,
{
}

/// Array round-trip: a `i64` slice of N elements encodes to a field with
/// `count == N` and `size` equal to the element width, and decodes back
/// to the original elements in order.
pub proof fn lemma_roundtrip_i64_array(v: Vec<i64>, name: Option<&str>, id: Option<u32>)
    requires
        valid_identity(name, id),
        v.encodable(),
    ensures
        encoded_model(v, name, id).count == v@.len(),
        encoded_model(v, name, id).size == 8,
        <Vec<i64> as Decodable>::decode_ok(encoded_model(v, name, id)),
        <Vec<i64> as Decodable>::decoded_view(encoded_model(v, name, id)) == v@,
{
}

/// Array round-trip for `F32Bits` elements: count and element width are
/// declared exactly, and decoding restores the original bit patterns.
pub proof fn lemma_roundtrip_f32bits_array(v: Vec<F32Bits>, name: Option<&str>, id: Option<u32>)
    requires
        valid_identity(name, id),
        v.encodable(),
    ensures
        encoded_model(v, name, id).count == v@.len(),
        encoded_model(v, name, id).size == 4,
        <Vec<F32Bits> as Decodable>::decode_ok(encoded_model(v, name, id)),
        <Vec<F32Bits> as Decodable>::decoded_view(encoded_model(v, name, id)) == v@,
{
    assert(<Vec<F32Bits> as Decodable>::decoded_view(encoded_model(v, name, id)) =~= v@);
}

/// Array round-trip for `F64Bits` elements: count and element width are
/// declared exactly, and decoding restores the original bit patterns.
pub proof fn lemma_roundtrip_f64bits_array(v: Vec<F64Bits>, name: Option<&str>, id: Option<u32>)
    requires
        valid_identity(name, id),
        v.encodable(),
    ensures
        encoded_model(v, name, id).count == v@.len(),
        encoded_model(v, name, id).size == 8,
        <Vec<F64Bits> as Decodable>::decode_ok(encoded_model(v, name, id)),
        <Vec<F64Bits> as Decodable>::decoded_view(encoded_model(v, name, id)) == v@,
{
    assert(<Vec<F64Bits> as Decodable>::decoded_view(encoded_model(v, name, id)) =~= v@);
}

/// Type-mismatch safety: a field not tagged `U8` never decodes as
/// `u8`; with a scalar count the failure is `FieldTypeError`, never a
/// default value.
pub proof fn lemma_mismatch_u8(fm: FieldModel)
    requires
        !(fm.data is U8),
        fm.count <= 1,
    ensures
        !<u8 as Decodable>::decode_ok(fm),
        <u8 as Decodable>::decode_err(fm) == ErrorKind::FieldTypeError,
{
}

/// Type-mismatch safety: a field not tagged `I8` never decodes as
/// `i8`; with a scalar count the failure is `FieldTypeError`, never a
/// default value.
pub proof fn lemma_mismatch_i8(fm: FieldModel)
    requires
        !(fm.data is I8),
        fm.count <= 1,
    ensures
        !<i8 as Decodable>::decode_ok(fm),
        <i8 as Decodable>::decode_err(fm) == ErrorKind::FieldTypeError,
{
}

/// Type-mismatch safety: a field not tagged `U16` never decodes as
/// `u16`; with a scalar count the failure is `FieldTypeError`, never a
/// default value.
pub proof fn lemma_mismatch_u16(fm: FieldModel)
    requires
        !(fm.data is U16),
        fm.count <= 1,
    ensures
        !<u16 as Decodable>::decode_ok(fm),
        <u16 as Decodable>::decode_err(fm) == ErrorKind::FieldTypeError,
{
}

/// Type-mismatch safety: a field not tagged `I16` never decodes as
/// `i16`; with a scalar count the failure is `FieldTypeError`, never a
/// default value.
pub proof fn lemma_mismatch_i16(fm: FieldModel)
    requires
        !(fm.data is I16),
        fm.count <= 1,
    ensures
        !<i16 as Decodable>::decode_ok(fm),
        <i16 as Decodable>::decode_err(fm) == ErrorKind::FieldTypeError,
{
}

/// Type-mismatch safety: a field not tagged `U32` never decodes as
/// `u32`; with a scalar count the failure is `FieldTypeError`, never a
/// default value.
pub proof fn lemma_mismatch_u32(fm: FieldModel)
    requires
        !(fm.data is U32),
        fm.count <= 1,
    ensures
        !<u32 as Decodable>::decode_ok(fm),
        <u32 as Decodable>::decode_err(fm) == ErrorKind::FieldTypeError,
{
}

/// Type-mismatch safety: a field not tagged `I32` never decodes as
/// `i32`; with a scalar count the failure is `FieldTypeError`, never a
/// default value.
pub proof fn lemma_mismatch_i32(fm: FieldModel)
    requires
        !(fm.data is I32),
        fm.count <= 1,
    ensures
        !<i32 as Decodable>::decode_ok(fm),
        <i32 as Decodable>::decode_err(fm) == ErrorKind::FieldTypeError,
{
}

/// Type-mismatch safety: a field not tagged `U64` never decodes as
/// `u64`; with a scalar count the failure is `FieldTypeError`, never a
/// default value.
pub proof fn lemma_mismatch_u64(fm: FieldModel)
    requires
        !(fm.data is U64),
        fm.count <= 1,
    ensures
        !<u64 as Decodable>::decode_ok(fm),
        <u64 as Decodable>::decode_err(fm) == ErrorKind::FieldTypeError,
{
}

/// Type-mismatch safety: a field not tagged `I64` never decodes as
/// `i64`; with a scalar count the failure is `FieldTypeError`, never a
/// default value.
pub proof fn lemma_mismatch_i64(fm: FieldModel)
    requires
        !(fm.data is I64),
        fm.count <= 1,
    ensures
        !<i64 as Decodable>::decode_ok(fm),
        <i64 as Decodable>::decode_err(fm) == ErrorKind::FieldTypeError,
{
}

/// Type-mismatch safety: a field not tagged `Bool` never decodes as
/// `bool`; with a scalar count the failure is `FieldTypeError`, never a
/// default value.
pub proof fn lemma_mismatch_bool(fm: FieldModel)
    requires
        !(fm.data is Bool),
        fm.count <= 1,
    ensures
        !<bool as Decodable>::decode_ok(fm),
        <bool as Decodable>::decode_err(fm) == ErrorKind::FieldTypeError,
{
}

/// Type-mismatch safety: a field not tagged `DateTime` never decodes as
/// `DateTime`; with a scalar count the failure is `FieldTypeError`, never a
/// default value.
pub proof fn lemma_mismatch_datetime(fm: FieldModel)
    requires
        !(fm.data is DateTime),
        fm.count <= 1,
    ensures
        !<DateTime as Decodable>::decode_ok(fm),
        <DateTime as Decodable>::decode_err(fm) == ErrorKind::FieldTypeError,
{
}

/// Type-mismatch safety: a field not tagged `Ipv4` never decodes as
/// `Ipv4Address`; with a scalar count the failure is `FieldTypeError`, never a
/// default value.
pub proof fn lemma_mismatch_ipv4address(fm: FieldModel)
    requires
        !(fm.data is Ipv4),
        fm.count <= 1,
    ensures
        !<Ipv4Address as Decodable>::decode_ok(fm),
        <Ipv4Address as Decodable>::decode_err(fm) == ErrorKind::FieldTypeError,
{
}

/// Type-mismatch safety: a field not tagged `F32` never decodes as
/// `F32Bits`; with a scalar count the failure is `FieldTypeError`, never a
/// default value.
pub proof fn lemma_mismatch_f32bits(fm: FieldModel)
    requires
        !(fm.data is F32),
        fm.count <= 1,
    ensures
        !<F32Bits as Decodable>::decode_ok(fm),
        <F32Bits as Decodable>::decode_err(fm) == ErrorKind::FieldTypeError,
{
}

/// Type-mismatch safety: a field not tagged `F64` never decodes as
/// `F64Bits`; with a scalar count the failure is `FieldTypeError`, never a
/// default value.
pub proof fn lemma_mismatch_f64bits(fm: FieldModel)
    requires
        !(fm.data is F64),
        fm.count <= 1,
    ensures
        !<F64Bits as Decodable>::decode_ok(fm),
        <F64Bits as Decodable>::decode_err(fm) == ErrorKind::FieldTypeError,
{
}

/// Type-mismatch safety: a field not tagged `U8Array` never decodes as a
/// `u8` array; the failure is `FieldTypeError`.
pub proof fn lemma_mismatch_u8_array(fm: FieldModel)
    requires
        !(fm.data is U8Array),
    ensures
        !<Vec<u8> as Decodable>::decode_ok(fm),
        <Vec<u8> as Decodable>::decode_err(fm) == ErrorKind::FieldTypeError,
{
}

/// Type-mismatch safety: a field not tagged `I8Array` never decodes as a
/// `i8` array; the failure is `FieldTypeError`.
pub proof fn lemma_mismatch_i8_array(fm: FieldModel)
    requires
        !(fm.data is I8Array),
    ensures
        !<Vec<i8> as Decodable>::decode_ok(fm),
        <Vec<i8> as Decodable>::decode_err(fm) == ErrorKind::FieldTypeError,
{
}

/// Type-mismatch safety: a field not tagged `U16Array` never decodes as a
/// `u16` array; the failure is `FieldTypeError`.
pub proof fn lemma_mismatch_u16_array(fm: FieldModel)
    requires
        !(fm.data is U16Array),
    ensures
        !<Vec<u16> as Decodable>::decode_ok(fm),
        <Vec<u16> as Decodable>::decode_err(fm) == ErrorKind::FieldTypeError,
{
}

/// Type-mismatch safety: a field not tagged `I16Array` never decodes as a
/// `i16` array; the failure is `FieldTypeError`.
pub proof fn lemma_mismatch_i16_array(fm: FieldModel)
    requires
        !(fm.data is I16Array),
    ensures
        !<Vec<i16> as Decodable>::decode_ok(fm),
        <Vec<i16> as Decodable>::decode_err(fm) == ErrorKind::FieldTypeError,
{
}

/// Type-mismatch safety: a field not tagged `U32Array` never decodes as a
/// `u32` array; the failure is `FieldTypeError`.
pub proof fn lemma_mismatch_u32_array(fm: FieldModel)
    requires
        !(fm.data is U32Array),
    ensures
        !<Vec<u32> as Decodable>::decode_ok(fm),
        <Vec<u32> as Decodable>::decode_err(fm) == ErrorKind::FieldTypeError,
{
}

/// Type-mismatch safety: a field not tagged `I32Array` never decodes as a
/// `i32` array; the failure is `FieldTypeError`.
pub proof fn lemma_mismatch_i32_array(fm: FieldModel)
    requires
        !(fm.data is I32Array),
    ensures
        !<Vec<i32> as Decodable>::decode_ok(fm),
        <Vec<i32> as Decodable>::decode_err(fm) == ErrorKind::FieldTypeError,
{
}

/// Type-mismatch safety: a field not tagged `U64Array` never decodes as a
/// `u64` array; the failure is `FieldTypeError`.
pub proof fn lemma_mismatch_u64_array(fm: FieldModel)
    requires
        !(fm.data is U64Array),
    ensures
        !<Vec<u64> as Decodable>::decode_ok(fm),
        <Vec<u64> as Decodable>::decode_err(fm) == ErrorKind::FieldTypeError,
{
}

/// Type-mismatch safety: a field not tagged `I64Array` never decodes as a
/// `i64` array; the failure is `FieldTypeError`.
pub proof fn lemma_mismatch_i64_array(fm: FieldModel)
    requires
        !(fm.data is I64Array),
    ensures
        !<Vec<i64> as Decodable>::decode_ok(fm),
        <Vec<i64> as Decodable>::decode_err(fm) == ErrorKind::FieldTypeError,
{
}

/// Type-mismatch safety: a field not tagged as a string never decodes
/// as one; the failure is `FieldTypeError`.
pub proof fn lemma_mismatch_string(fm: FieldModel)
    requires
        !(fm.data is Str),
    ensures
        !<String as Decodable>::decode_ok(fm),
        <String as Decodable>::decode_err(fm) == ErrorKind::FieldTypeError,
{
}

/// Type-mismatch safety: a field not tagged as a nested message never
/// decodes as one; the failure is `FieldTypeError`.
pub proof fn lemma_mismatch_msg(fm: FieldModel)
    requires
        !(fm.data is Msg),
    ensures
        !<BorrowedMsg as Decodable>::decode_ok(fm),
        <BorrowedMsg as Decodable>::decode_err(fm) == ErrorKind::FieldTypeError,
{
}

/// Scalar-vs-array safety: a field with `count > 1` never decodes
/// through the scalar `u8` decoder; the failure is
/// `NonVectorFieldError`.
pub proof fn lemma_scalar_rejects_vector_u8(fm: FieldModel)
    requires
        fm.count > 1,
    ensures
        !<u8 as Decodable>::decode_ok(fm),
        <u8 as Decodable>::decode_err(fm) == ErrorKind::NonVectorFieldError,
{
}

/// Scalar-vs-array safety: a field with `count > 1` never decodes
/// through the scalar `i8` decoder; the failure is
/// `NonVectorFieldError`.
pub proof fn lemma_scalar_rejects_vector_i8(fm: FieldModel)
    requires
        fm.count > 1,
    ensures
        !<i8 as Decodable>::decode_ok(fm),
        <i8 as Decodable>::decode_err(fm) == ErrorKind::NonVectorFieldError,
{
}

/// Scalar-vs-array safety: a field with `count > 1` never decodes
/// through the scalar `u16` decoder; the failure is
/// `NonVectorFieldError`.
pub proof fn lemma_scalar_rejects_vector_u16(fm: FieldModel)
    requires
        fm.count > 1,
    ensures
        !<u16 as Decodable>::decode_ok(fm),
        <u16 as Decodable>::decode_err(fm) == ErrorKind::NonVectorFieldError,
{
}

/// Scalar-vs-array safety: a field with `count > 1` never decodes
/// through the scalar `i16` decoder; the failure is
/// `NonVectorFieldError`.
pub proof fn lemma_scalar_rejects_vector_i16(fm: FieldModel)
    requires
        fm.count > 1,
    ensures
        !<i16 as Decodable>::decode_ok(fm),
        <i16 as Decodable>::decode_err(fm) == ErrorKind::NonVectorFieldError,
{
}

/// Scalar-vs-array safety: a field with `count > 1` never decodes
/// through the scalar `u32` decoder; the failure is
/// `NonVectorFieldError`.
pub proof fn lemma_scalar_rejects_vector_u32(fm: FieldModel)
    requires
        fm.count > 1,
    ensures
        !<u32 as Decodable>::decode_ok(fm),
        <u32 as Decodable>::decode_err(fm) == ErrorKind::NonVectorFieldError,
{
}

/// Scalar-vs-array safety: a field with `count > 1` never decodes
/// through the scalar `i32` decoder; the failure is
/// `NonVectorFieldError`.
pub proof fn lemma_scalar_rejects_vector_i32(fm: FieldModel)
    requires
        fm.count > 1,
    ensures
        !<i32 as Decodable>::decode_ok(fm),
        <i32 as Decodable>::decode_err(fm) == ErrorKind::NonVectorFieldError,
{
}

/// Scalar-vs-array safety: a field with `count > 1` never decodes
/// through the scalar `u64` decoder; the failure is
/// `NonVectorFieldError`.
pub proof fn lemma_scalar_rejects_vector_u64(fm: FieldModel)
    requires
        fm.count > 1,
    ensures
        !<u64 as Decodable>::decode_ok(fm),
        <u64 as Decodable>::decode_err(fm) == ErrorKind::NonVectorFieldError,
{
}

/// Scalar-vs-array safety: a field with `count > 1` never decodes
/// through the scalar `i64` decoder; the failure is
/// `NonVectorFieldError`.
pub proof fn lemma_scalar_rejects_vector_i64(fm: FieldModel)
    requires
        fm.count > 1,
    ensures
        !<i64 as Decodable>::decode_ok(fm),
        <i64 as Decodable>::decode_err(fm) == ErrorKind::NonVectorFieldError,
{
}

/// Scalar-vs-array safety: a field with `count > 1` never decodes
/// through the scalar `bool` decoder; the failure is
/// `NonVectorFieldError`.
pub proof fn lemma_scalar_rejects_vector_bool(fm: FieldModel)
    requires
        fm.count > 1,
    ensures
        !<bool as Decodable>::decode_ok(fm),
        <bool as Decodable>::decode_err(fm) == ErrorKind::NonVectorFieldError,
{
}

/// Scalar-vs-array safety: a field with `count > 1` never decodes
/// through the scalar `DateTime` decoder; the failure is
/// `NonVectorFieldError`.
pub proof fn lemma_scalar_rejects_vector_datetime(fm: FieldModel)
    requires
        fm.count > 1,
    ensures
        !<DateTime as Decodable>::decode_ok(fm),
        <DateTime as Decodable>::decode_err(fm) == ErrorKind::NonVectorFieldError,
{
}

/// Scalar-vs-array safety: a field with `count > 1` never decodes
/// through the scalar `Ipv4Address` decoder; the failure is
/// `NonVectorFieldError`.
pub proof fn lemma_scalar_rejects_vector_ipv4address(fm: FieldModel)
    requires
        fm.count > 1,
    ensures
        !<Ipv4Address as Decodable>::decode_ok(fm),
        <Ipv4Address as Decodable>::decode_err(fm) == ErrorKind::NonVectorFieldError,
{
}

/// Scalar-vs-array safety: a field with `count > 1` never decodes
/// through the scalar `F32Bits` decoder; the failure is
/// `NonVectorFieldError`.
pub proof fn lemma_scalar_rejects_vector_f32bits(fm: FieldModel)
    requires
        fm.count > 1,
    ensures
        !<F32Bits as Decodable>::decode_ok(fm),
        <F32Bits as Decodable>::decode_err(fm) == ErrorKind::NonVectorFieldError,
{
}

/// Scalar-vs-array safety: a field with `count > 1` never decodes
/// through the scalar `F64Bits` decoder; the failure is
/// `NonVectorFieldError`.
pub proof fn lemma_scalar_rejects_vector_f64bits(fm: FieldModel)
    requires
        fm.count > 1,
    ensures
        !<F64Bits as Decodable>::decode_ok(fm),
        <F64Bits as Decodable>::decode_err(fm) == ErrorKind::NonVectorFieldError,
{
}

/// Round-trip: an IP port decodes from its own encoding exactly; the
/// stored network-order payload swaps back to the original port.
pub proof fn lemma_roundtrip_port(port: u16)
    ensures
        spec_swap_u16(spec_swap_u16(port)) == port,
{
    lemma_swap_u16_involutive(port);
}

/// Byte-size monotonicity: adding any field strictly increases a
/// message's byte size, by exactly that field's cost.
pub proof fn lemma_add_field_increases(m: MsgModel, f: FieldModel)
    ensures
        spec_byte_size(MsgModel { fields: m.fields.push(f), ..m }) == spec_byte_size(m)
            + field_cost(f),
        spec_byte_size(MsgModel { fields: m.fields.push(f), ..m }) > spec_byte_size(m),
{
    lemma_fields_cost_push(m.fields, f);
}

} // verus!
