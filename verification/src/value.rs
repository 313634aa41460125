//! Values that cross the boundary between host and guest.

use sp_wasm_interface::{Value, ValueType};
use vstd::prelude::*;
use wasmedge_types::ValType;

verus! {

#[verifier::external_type_specification]
pub struct ExValueType(ValueType);

#[verifier::external_type_specification]
pub struct ExValue(Value);

#[verifier::external_type_specification]
pub struct ExValType(ValType);

/// A value as the engine's high-level interface hands it over. The two float
/// kinds carry the bit pattern of the number.
#[derive(Clone, Copy, Debug, PartialEq, Eq)]
pub enum Val {
    I32(i32),
    I64(i64),
    F32(u32),
    F64(u64),
    V128(i128),
    FuncRef,
    ExternRef,
}

/// A value as the engine's low-level interface hands it over: a kind and the
/// raw bits that the engine stores for it.
#[derive(Clone, Copy, Debug)]
pub struct WasmValue {
    ty: ValType,
    bits: u64,
}

/// Whether `ty` is one of the four numeric kinds that may cross the boundary.
pub open spec fn is_numeric(ty: ValType) -> bool {
    ty is I32 || ty is I64 || ty is F32 || ty is F64
}

/// The engine kind that stands for a boundary kind.
pub open spec fn val_type_of(val_ty: ValueType) -> ValType {
    match val_ty {
        ValueType::I32 => ValType::I32,
        ValueType::I64 => ValType::I64,
        ValueType::F32 => ValType::F32,
        ValueType::F64 => ValType::F64,
    }
}

/// The boundary value that an engine value stands for.
pub open spec fn value_of_val(val: Val) -> Value
    recommends
        val is I32 || val is I64 || val is F32 || val is F64,
{
    match val {
        Val::I32(v) => Value::I32(v),
        Val::I64(v) => Value::I64(v),
        Val::F32(v) => Value::F32(v),
        Val::F64(v) => Value::F64(v),
        _ => arbitrary(),
    }
}

/// The engine value that stands for a boundary value.
pub open spec fn val_of_value(value: Value) -> Val {
    match value {
        Value::I32(v) => Val::I32(v),
        Value::I64(v) => Val::I64(v),
        Value::F32(v) => Val::F32(v),
        Value::F64(v) => Val::F64(v),
    }
}

/// The kind of a boundary value.
pub open spec fn value_type_of(value: Value) -> ValueType {
    match value {
        Value::I32(_) => ValueType::I32,
        Value::I64(_) => ValueType::I64,
        Value::F32(_) => ValueType::F32,
        Value::F64(_) => ValueType::F64,
    }
}

impl WasmValue {
    /// The raw bits hold nothing beyond the width of the kind.
    pub open spec fn wf(&self) -> bool {
        (self.spec_ty() is I32 || self.spec_ty() is F32) ==> self.spec_bits() <= 0xffff_ffff
    }

    pub closed spec fn spec_ty(&self) -> ValType {
        self.ty
    }

    pub closed spec fn spec_bits(&self) -> u64 {
        self.bits
    }

    /// The boundary value that this raw value stands for.
    pub open spec fn value(&self) -> Value
        recommends
            is_numeric(self.spec_ty()),
    {
        match self.spec_ty() {
            ValType::I32 => Value::I32(self.spec_bits() as u32 as i32),
            ValType::I64 => Value::I64(self.spec_bits() as i64),
            ValType::F32 => Value::F32(self.spec_bits() as u32),
            ValType::F64 => Value::F64(self.spec_bits()),
            _ => arbitrary(),
        }
    }

    /// The raw value that stands for a boundary value.
    pub closed spec fn of_value(value: Value) -> WasmValue {
        match value {
            Value::I32(v) => WasmValue { ty: ValType::I32, bits: v as u32 as u64 },
            Value::I64(v) => WasmValue { ty: ValType::I64, bits: v as u64 },
            Value::F32(f_bits) => WasmValue { ty: ValType::F32, bits: f_bits as u64 },
            Value::F64(f_bits) => WasmValue { ty: ValType::F64, bits: f_bits },
        }
    }

    /// The raw value of kind `ty` with the given bits.
    pub fn from_raw(ty: ValType, bits: u64) -> (r: Self)
        ensures
            r.spec_ty() == ty,
            r.spec_bits() == bits,
    {
        WasmValue { ty, bits }
    }

    pub fn from_i32(v: i32) -> (r: Self)
        ensures
            r.wf(),
            r.spec_ty() == ValType::I32,
            r.spec_bits() == v as u32 as u64,
            r.value() == Value::I32(v),
            r == WasmValue::of_value(Value::I32(v)),
    {
        let bits: u64 = v as u32 as u64;
        assert(bits <= 0xffff_ffff && (bits as u32 as i32) == v) by (bit_vector)
            requires
                bits == v as u32 as u64,
        ;
        WasmValue { ty: ValType::I32, bits }
    }

    pub fn from_i64(v: i64) -> (r: Self)
        ensures
            r.wf(),
            r.spec_ty() == ValType::I64,
            r.spec_bits() == v as u64,
            r.value() == Value::I64(v),
            r == WasmValue::of_value(Value::I64(v)),
    {
        let bits: u64 = v as u64;
        assert((bits as i64) == v) by (bit_vector)
            requires
                bits == v as u64,
        ;
        WasmValue { ty: ValType::I64, bits }
    }

    /// A 32-bit float, given by its bit pattern.
    pub fn from_f32(f_bits: u32) -> (r: Self)
        ensures
            r.wf(),
            r.spec_ty() == ValType::F32,
            r.spec_bits() == f_bits as u64,
            r.value() == Value::F32(f_bits),
            r == WasmValue::of_value(Value::F32(f_bits)),
    {
        let bits: u64 = f_bits as u64;
        assert(bits <= 0xffff_ffff && (bits as u32) == f_bits) by (bit_vector)
            requires
                bits == f_bits as u64,
        ;
        WasmValue { ty: ValType::F32, bits }
    }

    /// A 64-bit float, given by its bit pattern.
    pub fn from_f64(f_bits: u64) -> (r: Self)
        ensures
            r.wf(),
            r.spec_ty() == ValType::F64,
            r.spec_bits() == f_bits,
            r.value() == Value::F64(f_bits),
            r == WasmValue::of_value(Value::F64(f_bits)),
    {
        WasmValue { ty: ValType::F64, bits: f_bits }
    }

    pub fn ty(&self) -> (r: ValType)
        ensures
            r == self.spec_ty(),
    {
        self.ty
    }

    /// The low 32 bits, read as a signed integer.
    pub fn to_i32(&self) -> (r: i32)
        ensures
            r == self.spec_bits() as u32 as i32,
    {
        #[verifier::truncate]
        ((#[verifier::truncate]
        (self.bits as u32)) as i32)
    }

    /// All 64 bits, read as a signed integer.
    pub fn to_i64(&self) -> (r: i64)
        ensures
            r == self.spec_bits() as i64,
    {
        #[verifier::truncate]
        (self.bits as i64)
    }

    /// The low 32 bits, as the bit pattern of a float.
    pub fn to_f32(&self) -> (r: u32)
        ensures
            r == self.spec_bits() as u32,
    {
        #[verifier::truncate]
        (self.bits as u32)
    }

    /// All 64 bits, as the bit pattern of a float.
    pub fn to_f64(&self) -> (r: u64)
        ensures
            r == self.spec_bits(),
    {
        self.bits
    }
}

/// Converts an engine value into a boundary value. Only the four numeric kinds
/// have one.
pub fn from_wasmedge_val(val: Val) -> (r: Value)
    requires
        val is I32 || val is I64 || val is F32 || val is F64,
    ensures
        r == value_of_val(val),
{
    match val {
        Val::I32(v) => Value::I32(v),
        Val::I64(v) => Value::I64(v),
        Val::F32(v) => Value::F32(v),
        Val::F64(v) => Value::F64(v),
        _ => {
            proof {
                assert(false);
            }
            Value::I32(0)
        },
    }
}

/// Converts a boundary value into the engine value of the same kind.
pub fn into_wasmedge_val(value: Value) -> (r: Val)
    ensures
        r == val_of_value(value),
{
    match value {
        Value::I32(v) => Val::I32(v),
        Value::I64(v) => Val::I64(v),
        Value::F32(f_bits) => Val::F32(f_bits),
        Value::F64(f_bits) => Val::F64(f_bits),
    }
}

/// Converts a raw engine value into a boundary value. Only the four numeric
/// kinds have one.
pub fn from_wasmedge_value(val: WasmValue) -> (r: Value)
    requires
        is_numeric(val.spec_ty()),
    ensures
        r == val.value(),
{
    match val.ty() {
        ValType::I32 => Value::I32(val.to_i32()),
        ValType::I64 => Value::I64(val.to_i64()),
        ValType::F32 => Value::F32(val.to_f32()),
        ValType::F64 => Value::F64(val.to_f64()),
        _ => {
            proof {
                assert(false);
            }
            Value::I32(0)
        },
    }
}

/// Converts a boundary value into the raw engine value of the same kind.
pub fn into_wasmedge_value(value: Value) -> (r: WasmValue)
    ensures
        r == WasmValue::of_value(value),
        r.wf(),
        r.spec_ty() == val_type_of(value_type_of(value)),
        r.value() == value,
{
    match value {
        Value::I32(v) => WasmValue::from_i32(v),
        Value::I64(v) => WasmValue::from_i64(v),
        Value::F32(f_bits) => WasmValue::from_f32(f_bits),
        Value::F64(f_bits) => WasmValue::from_f64(f_bits),
    }
}

/// Converts a boundary kind into the engine kind.
pub fn into_wasmedge_val_type(val_ty: ValueType) -> (r: ValType)
    ensures
        r == val_type_of(val_ty),
        is_numeric(r),
{
    match val_ty {
        ValueType::I32 => ValType::I32,
        ValueType::I64 => ValType::I64,
        ValueType::F32 => ValType::F32,
        ValueType::F64 => ValType::F64,
    }
}

/// Exec comparison of two engine kinds.
pub fn val_type_eq(a: ValType, b: ValType) -> (r: bool)
    ensures
        r == (a == b),
{
    match (a, b) {
        (ValType::I32, ValType::I32) => true,
        (ValType::I64, ValType::I64) => true,
        (ValType::F32, ValType::F32) => true,
        (ValType::F64, ValType::F64) => true,
        (ValType::V128, ValType::V128) => true,
        (ValType::FuncRef, ValType::FuncRef) => true,
        (ValType::ExternRef, ValType::ExternRef) => true,
        _ => false,
    }
}

/// Converting a boundary value to an engine value and back gives the value
/// again.
pub proof fn lemma_value_round_trip(value: Value)
    ensures
        value_of_val(val_of_value(value)) == value,
{
}

/// Converting an engine value of a numeric kind to a boundary value and back
/// gives the engine value again.
pub proof fn lemma_val_round_trip(val: Val)
    requires
        val is I32 || val is I64 || val is F32 || val is F64,
    ensures
        val_of_value(value_of_val(val)) == val,
{
}

/// Converting a boundary value to a raw engine value and back gives the
/// value again.
pub proof fn lemma_unmarshal_marshal(value: Value)
    ensures
        WasmValue::of_value(value).wf(),
        WasmValue::of_value(value).spec_ty() == val_type_of(value_type_of(value)),
        WasmValue::of_value(value).value() == value,
{
    match value {
        Value::I32(v) => {
            let bits = v as u32 as u64;
            assert(bits <= 0xffff_ffff && (bits as u32 as i32) == v) by (bit_vector)
                requires
                    bits == v as u32 as u64,
            ;
        },
        Value::I64(v) => {
            let bits = v as u64;
            assert((bits as i64) == v) by (bit_vector)
                requires
                    bits == v as u64,
            ;
        },
        Value::F32(f_bits) => {
            let bits = f_bits as u64;
            assert(bits <= 0xffff_ffff && (bits as u32) == f_bits) by (bit_vector)
                requires
                    bits == f_bits as u64,
            ;
        },
        Value::F64(_) => {},
    }
}

/// Converting a well-formed raw engine value of a numeric kind to a boundary
/// value and back gives the raw value again, bit for bit.
pub proof fn lemma_marshal_unmarshal(raw: WasmValue)
    requires
        raw.wf(),
        is_numeric(raw.spec_ty()),
    ensures
        WasmValue::of_value(raw.value()) == raw,
{
    let x = raw.spec_bits();
    match raw.spec_ty() {
        ValType::I32 => {
            assert(((x as u32 as i32) as u32 as u64) == x) by (bit_vector)
                requires
                    x <= 0xffff_ffff,
            ;
        },
        ValType::I64 => {
            assert(((x as i64) as u64) == x) by (bit_vector);
        },
        ValType::F32 => {
            assert(((x as u32) as u64) == x) by (bit_vector)
                requires
                    x <= 0xffff_ffff,
            ;
        },
        _ => {},
    }
}

/// The boundary values that a sequence of bytes starts with in their
/// serialised form, if it starts with any.
pub uninterp spec fn decoded_values(bytes: Seq<u8>) -> Option<Seq<Value>>;

/// The serialised form of a returned value.
pub uninterp spec fn encoded_return_value(value: Value) -> Seq<u8>;

/// Calls `parity_scale_codec::Decode::decode` for a vector of
/// `sp_wasm_interface::Value` on the bytes, which reads the vector from the
/// front of the bytes or fails.
#[verifier::external_body]
pub(crate) fn decode_values(bytes: &[u8]) -> (r: Option<Vec<Value>>)
    ensures
        r.is_some() == decoded_values(bytes@).is_some(),
        r matches Some(values) ==> decoded_values(bytes@) == Some(values@),
{
    let mut input = bytes;
    match <Vec<Value> as parity_scale_codec::Decode>::decode(&mut input) {
        Ok(values) => Some(values),
        Err(_) => None,
    }
}

/// Calls `parity_scale_codec::Encode::encode` on
/// `sp_wasm_interface::ReturnValue::Value` of the value, which gives its
/// serialised form. As `sp_wasm_interface::ReturnValue::ENCODED_MAX_SIZE`
/// documents, it takes at most 10 bytes.
#[verifier::external_body]
pub(crate) fn encode_return_value(value: Value) -> (r: Vec<u8>)
    ensures
        r@ == encoded_return_value(value),
        r@.len() <= 10,
{
    parity_scale_codec::Encode::encode(&sp_wasm_interface::ReturnValue::Value(value))
}

/// The pointer half of a packed result: its low 32 bits.
pub open spec fn unpacked_ptr(val: u64) -> u32 {
    (val & 0xffff_ffff) as u32
}

/// The length half of a packed result: its high 32 bits.
pub open spec fn unpacked_len(val: u64) -> u32 {
    (val >> 32) as u32
}

/// A pointer and a length packed into one 64-bit value.
pub open spec fn packed(ptr: u32, len: u32) -> u64 {
    ((len as u64) << 32) | (ptr as u64)
}

/// Calls `sp_runtime_interface::unpack_ptr_and_len`, which returns the low half
/// of the value as the pointer and the high half as the length.
#[verifier::external_body]
pub(crate) fn unpack_ptr_and_len(val: u64) -> (r: (u32, u32))
    ensures
        r.0 == unpacked_ptr(val),
        r.1 == unpacked_len(val),
{
    sp_runtime_interface::unpack_ptr_and_len(val)
}

/// Packing and unpacking split the 64 bits in the same order: each undoes the
/// other.
pub proof fn lemma_pack_unpack(ptr: u32, len: u32, val: u64)
    ensures
        unpacked_ptr(packed(ptr, len)) == ptr,
        unpacked_len(packed(ptr, len)) == len,
        packed(unpacked_ptr(val), unpacked_len(val)) == val,
{
    assert((((len as u64) << 32) | (ptr as u64)) & 0xffff_ffff == ptr as u64) by (bit_vector);
    assert(((((len as u64) << 32) | (ptr as u64)) >> 32) == len as u64) by (bit_vector);
    assert(((((val >> 32) as u32) as u64) << 32) | (((val & 0xffff_ffff) as u32) as u64) == val)
        by (bit_vector);
}

} // verus!
