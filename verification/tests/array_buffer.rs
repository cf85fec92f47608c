use rquickjs_core::error::Error;
use rquickjs_core::value::array_buffer::ArrayBuffer;
use rquickjs_core::value::{Object, ObjectData, Value};

/// The value that `new Int8Array([0, -5, 1, 11]).buffer` evaluates to.
fn int8_array_buffer() -> Value {
    let bytes: Vec<u8> = [0i8, -5, 1, 11].iter().map(|b| *b as u8).collect();
    Value::Object(ObjectData::ArrayBuffer(bytes))
}

/// The value that `new Float32Array([0.5, -5.25, 123.125]).buffer` evaluates to.
fn float32_array_buffer() -> Value {
    let mut bytes = Vec::new();
    for f in [0.5f32, -5.25, 123.125] {
        bytes.extend_from_slice(&f.to_le_bytes());
    }
    Value::Object(ObjectData::ArrayBuffer(bytes))
}

#[test]
fn from_javascript_i8() {
    let val = ArrayBuffer::from_value(int8_array_buffer()).unwrap();
    assert_eq!(val.len(), 4);
    assert_eq!(val.to_i8_vec(), vec![0i8, -5, 1, 11]);
}

#[test]
fn from_javascript_f32() {
    let val = ArrayBuffer::from_value(float32_array_buffer()).unwrap();
    assert_eq!(val.len(), 12);
    let floats: Vec<f32> = val.to_u32_vec().into_iter().map(f32::from_bits).collect();
    assert_eq!(floats, vec![0.5f32, -5.25, 123.125]);
}

#[test]
fn new_copy_keeps_bytes() {
    let ab = ArrayBuffer::new_copy(&[1, 2, 3]).unwrap();
    assert_eq!(ab.as_bytes(), &[1, 2, 3]);
    assert_eq!(ab.len(), 3);
    assert!(!ab.is_empty());
    assert!(!ab.is_detached());
}

#[test]
fn new_takes_vector() {
    let ab = ArrayBuffer::new(vec![9, 8]).unwrap();
    assert_eq!(ab.as_value(), &Value::Object(ObjectData::ArrayBuffer(vec![9, 8])));
    assert_eq!(ab.into_value(), Value::Object(ObjectData::ArrayBuffer(vec![9, 8])));
}

#[test]
fn empty_buffer() {
    let ab = ArrayBuffer::new(vec![]).unwrap();
    assert_eq!(ab.len(), 0);
    assert!(ab.is_empty());
    assert_eq!(ab.to_u32_vec(), Vec::<u32>::new());
}

#[test]
fn u32_view_drops_trailing_bytes() {
    let ab = ArrayBuffer::new(vec![1, 0, 0, 0, 0x78, 0x56, 0x34, 0x12, 7]).unwrap();
    assert_eq!(ab.to_u32_vec(), vec![1, 0x1234_5678]);
}

#[test]
fn detach_makes_buffer_unreadable() {
    let mut ab = ArrayBuffer::new(vec![1, 2]).unwrap();
    ab.detach();
    assert!(ab.is_detached());
    assert_eq!(ab.as_value(), &Value::Object(ObjectData::DetachedArrayBuffer));
    let err = ArrayBuffer::from_value(ab.into_value()).unwrap_err();
    assert_eq!(err, Error::FromJs { from: "object", to: "ArrayBuffer" });
}

#[test]
fn from_value_rejects_plain_object() {
    let err = ArrayBuffer::from_value(Value::Object(ObjectData::Plain)).unwrap_err();
    assert_eq!(err, Error::FromJs { from: "object", to: "ArrayBuffer" });
}

#[test]
fn from_value_rejects_non_object() {
    assert_eq!(
        ArrayBuffer::from_value(Value::Int(3)).unwrap_err(),
        Error::FromJs { from: "int", to: "object" }
    );
    assert_eq!(
        ArrayBuffer::from_value(Value::Undefined).unwrap_err(),
        Error::FromJs { from: "undefined", to: "object" }
    );
    assert_eq!(
        ArrayBuffer::from_value(Value::String("x".to_string())).unwrap_err(),
        Error::FromJs { from: "string", to: "object" }
    );
}

#[test]
fn object_round_trip() {
    let obj = Object::from_value(Value::Object(ObjectData::ArrayBuffer(vec![5]))).unwrap();
    let ab = ArrayBuffer::from_object(obj).unwrap();
    assert_eq!(ab.as_object().as_value(), &Value::Object(ObjectData::ArrayBuffer(vec![5])));
    let obj = ab.into_object();
    assert_eq!(obj.data(), &ObjectData::ArrayBuffer(vec![5]));
    assert_eq!(
        ArrayBuffer::from_object(Object::new(ObjectData::Plain)).unwrap_err(),
        Error::FromJs { from: "object", to: "ArrayBuffer" }
    );
}

#[test]
fn object_from_value_rejects_null() {
    assert_eq!(
        Object::from_value(Value::Null).unwrap_err(),
        Error::FromJs { from: "null", to: "object" }
    );
    assert_eq!(
        Object::from_value(Value::Bool(true)).unwrap_err(),
        Error::FromJs { from: "bool", to: "object" }
    );
}
