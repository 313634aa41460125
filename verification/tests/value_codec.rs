use sc_executor_wasmedge::value::{val_type_eq, Val, WasmValue};
use sc_executor_wasmedge::{
    from_wasmedge_val, from_wasmedge_value, into_wasmedge_val, into_wasmedge_val_type,
    into_wasmedge_value,
};
use sp_wasm_interface::{Value, ValueType};
use wasmedge_types::ValType;

fn samples() -> Vec<Value> {
    vec![
        Value::I32(0),
        Value::I32(42),
        Value::I32(-1),
        Value::I32(i32::MIN),
        Value::I32(i32::MAX),
        Value::I64(0),
        Value::I64(-1),
        Value::I64(i64::MIN),
        Value::I64(i64::MAX),
        Value::F32(0),
        Value::F32(1.5f32.to_bits()),
        Value::F32(u32::MAX),
        Value::F64(0),
        Value::F64((-2.25f64).to_bits()),
        Value::F64(u64::MAX),
    ]
}

#[test]
fn engine_values_become_boundary_values_of_the_same_kind() {
    assert_eq!(from_wasmedge_val(Val::I32(-7)), Value::I32(-7));
    assert_eq!(from_wasmedge_val(Val::I64(1 << 40)), Value::I64(1 << 40));
    assert_eq!(from_wasmedge_val(Val::F32(0x3fc0_0000)), Value::F32(0x3fc0_0000));
    assert_eq!(from_wasmedge_val(Val::F64(0x4000_0000_0000_0000)), Value::F64(0x4000_0000_0000_0000));
}

#[test]
fn boundary_values_become_engine_values_of_the_same_kind() {
    assert_eq!(into_wasmedge_val(Value::I32(-7)), Val::I32(-7));
    assert_eq!(into_wasmedge_val(Value::I64(1 << 40)), Val::I64(1 << 40));
    assert_eq!(into_wasmedge_val(Value::F32(0x3fc0_0000)), Val::F32(0x3fc0_0000));
    assert_eq!(into_wasmedge_val(Value::F64(u64::MAX)), Val::F64(u64::MAX));
}

#[test]
fn marshalling_round_trips_for_all_four_kinds() {
    for value in samples() {
        assert_eq!(from_wasmedge_val(into_wasmedge_val(value)), value);
        assert_eq!(from_wasmedge_value(into_wasmedge_value(value)), value);
        let val = into_wasmedge_val(value);
        assert_eq!(into_wasmedge_val(from_wasmedge_val(val)), val);
        let raw = into_wasmedge_value(value);
        let again = into_wasmedge_value(from_wasmedge_value(raw));
        assert_eq!(again.ty(), raw.ty());
        assert_eq!(again.to_f64(), raw.to_f64());
    }
}

#[test]
fn raw_values_keep_kind_and_bits() {
    let v = WasmValue::from_i32(-2);
    assert_eq!(v.ty(), ValType::I32);
    assert_eq!(v.to_i32(), -2);
    assert_eq!(v.to_f64(), 0xffff_fffe);
    let v = WasmValue::from_i64(-2);
    assert_eq!(v.ty(), ValType::I64);
    assert_eq!(v.to_i64(), -2);
    assert_eq!(v.to_f64(), 0xffff_ffff_ffff_fffe);
    let v = WasmValue::from_f32(0x7fc0_0000);
    assert_eq!(v.ty(), ValType::F32);
    assert_eq!(v.to_f32(), 0x7fc0_0000);
    let v = WasmValue::from_f64(0x7ff8_0000_0000_0000);
    assert_eq!(v.ty(), ValType::F64);
    assert_eq!(v.to_f64(), 0x7ff8_0000_0000_0000);
    let v = WasmValue::from_raw(ValType::I64, 0x1_0000_0005);
    assert_eq!(v.to_i32(), 5);
    assert_eq!(v.to_i64(), 0x1_0000_0005);
}

#[test]
fn raw_values_become_boundary_values() {
    assert_eq!(from_wasmedge_value(WasmValue::from_i32(i32::MIN)), Value::I32(i32::MIN));
    assert_eq!(from_wasmedge_value(WasmValue::from_i64(i64::MIN)), Value::I64(i64::MIN));
    assert_eq!(from_wasmedge_value(WasmValue::from_f32(7)), Value::F32(7));
    assert_eq!(from_wasmedge_value(WasmValue::from_f64(7)), Value::F64(7));
}

#[test]
fn kinds_are_converted_one_for_one() {
    assert_eq!(into_wasmedge_val_type(ValueType::I32), ValType::I32);
    assert_eq!(into_wasmedge_val_type(ValueType::I64), ValType::I64);
    assert_eq!(into_wasmedge_val_type(ValueType::F32), ValType::F32);
    assert_eq!(into_wasmedge_val_type(ValueType::F64), ValType::F64);
}

#[test]
fn kinds_compare_by_variant() {
    let all = [
        ValType::I32,
        ValType::I64,
        ValType::F32,
        ValType::F64,
        ValType::V128,
        ValType::FuncRef,
        ValType::ExternRef,
    ];
    for a in all {
        for b in all {
            assert_eq!(val_type_eq(a, b), a == b);
        }
    }
}
