//! Array buffers: JavaScript objects that own a block of bytes.

use crate::error::Error;
use crate::value::{Object, ObjectData, Value, type_str_of};
use vstd::prelude::*;

verus! {

/// The bytes of an array buffer value, or `None` when the value is not an
/// array buffer or its memory was detached.
pub open spec fn buffer_bytes(v: Value) -> Option<Seq<u8>> {
    match v {
        Value::Object(ObjectData::ArrayBuffer(bytes)) => Some(bytes@),
        _ => None,
    }
}

/// The little-endian 32-bit word at byte offset `i`.
pub open spec fn le_u32(bytes: Seq<u8>, i: int) -> u32 {
    (bytes[i] + 256 * bytes[i + 1] + 65536 * bytes[i + 2] + 16777216 * bytes[i + 3]) as u32
}

/// A word read from four bytes is their plain little-endian value, without
/// sign extension or wrap-around: the first byte is the low byte and the
/// last the high byte, a word whose upper three bytes are zero is its first
/// byte, and a word is below 2^24 exactly when its last byte is zero.
pub proof fn law_le_u32_is_little_endian_value(bytes: Seq<u8>, i: int)
    requires
        0 <= i,
        i + 4 <= bytes.len(),
    ensures
        le_u32(bytes, i) as int == bytes[i] + 256 * bytes[i + 1] + 65536 * bytes[i + 2] + 16777216
            * bytes[i + 3],
        le_u32(bytes, i) % 256 == bytes[i],
        le_u32(bytes, i) / 16777216 == bytes[i + 3],
        (bytes[i + 1] == 0 && bytes[i + 2] == 0 && bytes[i + 3] == 0) ==> le_u32(bytes, i) == bytes[i],
        (le_u32(bytes, i) < 16777216) <==> bytes[i + 3] == 0,
{
    let b0 = bytes[i] as int;
    let b1 = bytes[i + 1] as int;
    let b2 = bytes[i + 2] as int;
    let b3 = bytes[i + 3] as int;
    assert(0 <= b0 + 256 * b1 + 65536 * b2 + 16777216 * b3 <= 4294967295);
    let w = b0 + 256 * b1 + 65536 * b2 + 16777216 * b3;
    assert(w % 256 == b0) by (nonlinear_arith)
        requires
            w == b0 + 256 * (b1 + 256 * b2 + 65536 * b3),
            0 <= b0 < 256,
            0 <= b1,
            0 <= b2,
            0 <= b3,
    ;
    assert(w / 16777216 == b3) by (nonlinear_arith)
        requires
            w == (b0 + 256 * b1 + 65536 * b2) + 16777216 * b3,
            0 <= b0 + 256 * b1 + 65536 * b2 < 16777216,
            0 <= b3,
    ;
}

/// Rust representation of a JavaScript object of class ArrayBuffer.
#[derive(Debug, PartialEq)]
pub struct ArrayBuffer(Object);

impl ArrayBuffer {
    #[verifier::type_invariant]
    closed spec fn inv(self) -> bool {
        self.0.spec_data() is ArrayBuffer || self.0.spec_data() is DetachedArrayBuffer
    }

    /// The value of this array buffer.
    pub closed spec fn spec_value(&self) -> Value {
        self.0.spec_value()
    }

    /// The object of this array buffer.
    pub closed spec fn spec_object(&self) -> Object {
        self.0
    }

    /// The bytes, or `None` once detached.
    pub open spec fn spec_bytes(&self) -> Option<Seq<u8>> {
        buffer_bytes(self.spec_value())
    }

    /// The length and address that the engine reports for an array buffer
    /// value: here the length, or `None` when the value is no live array
    /// buffer.
    fn get_raw(val: &Value) -> (r: Option<usize>)
        ensures
            r is Some <==> buffer_bytes(*val) is Some,
            r matches Some(n) ==> n == buffer_bytes(*val).unwrap().len(),
    {
        match val {
            Value::Object(ObjectData::ArrayBuffer(bytes)) => Some(bytes.len()),
            _ => None,
        }
    }

    /// Create an array buffer that takes over the bytes of `src`.
    pub fn new(src: Vec<u8>) -> (r: Result<Self, Error>)
        ensures
            r matches Ok(ab) && ab.spec_value() == Value::Object(ObjectData::ArrayBuffer(src)),
    {
        Ok(ArrayBuffer(Object::new(ObjectData::ArrayBuffer(src))))
    }

    /// Create an array buffer holding a copy of `src`.
    pub fn new_copy(src: &[u8]) -> (r: Result<Self, Error>)
        ensures
            r matches Ok(ab) && ab.spec_bytes() == Some(src@),
    {
        let mut bytes: Vec<u8> = Vec::new();
        let mut i: usize = 0;
        while i < src.len()
            invariant
                i <= src.len(),
                bytes@ == src@.take(i as int),
            decreases src.len() - i,
        {
            bytes.push(src[i]);
            i = i + 1;
            assert(bytes@ =~= src@.take(i as int));
        }
        assert(bytes@ =~= src@);
        Ok(ArrayBuffer(Object::new(ObjectData::ArrayBuffer(bytes))))
    }

    /// Get the length of the array buffer in bytes.
    pub fn len(&self) -> (r: usize)
        requires
            self.spec_bytes() is Some,
        ensures
            r == self.spec_bytes().unwrap().len(),
    {
        proof {
            use_type_invariant(&self.0);
        }
        match Self::get_raw(self.0.as_value()) {
            Some(len) => len,
            None => vstd::pervasive::unreached(),
        }
    }

    /// Returns whether an array buffer is empty.
    pub fn is_empty(&self) -> (r: bool)
        requires
            self.spec_bytes() is Some,
        ensures
            r == (self.spec_bytes().unwrap().len() == 0),
    {
        self.len() == 0
    }

    /// Whether the memory of this array buffer was detached.
    pub fn is_detached(&self) -> (r: bool)
        ensures
            r == (self.spec_bytes() is None),
    {
        proof {
            use_type_invariant(self);
            use_type_invariant(&self.0);
        }
        match self.0.data() {
            ObjectData::ArrayBuffer(_) => false,
            _ => true,
        }
    }

    /// Detach the memory of this array buffer.
    pub fn detach(&mut self)
        ensures
            final(self).spec_value() == Value::Object(ObjectData::DetachedArrayBuffer),
            final(self).spec_bytes() is None,
    {
        self.0 = Object::new(ObjectData::DetachedArrayBuffer);
    }

    /// The bytes of this array buffer.
    pub fn as_bytes(&self) -> (r: &[u8])
        requires
            self.spec_bytes() is Some,
        ensures
            r@ == self.spec_bytes().unwrap(),
    {
        proof {
            use_type_invariant(&self.0);
        }
        match self.0.data() {
            ObjectData::ArrayBuffer(bytes) => bytes.as_slice(),
            _ => vstd::pervasive::unreached(),
        }
    }

    /// The bytes read as signed 8-bit integers.
    pub fn to_i8_vec(&self) -> (r: Vec<i8>)
        requires
            self.spec_bytes() is Some,
        ensures
            r@.len() == self.spec_bytes().unwrap().len(),
            forall|i: int| 0 <= i < r@.len() ==> r@[i] == self.spec_bytes().unwrap()[i] as i8,
    {
        let bytes = self.as_bytes();
        let mut out: Vec<i8> = Vec::new();
        let mut i: usize = 0;
        while i < bytes.len()
            invariant
                i <= bytes@.len(),
                out@.len() == i,
                forall|j: int| 0 <= j < i ==> out@[j] == bytes@[j] as i8,
            decreases bytes.len() - i,
        {
            out.push(bytes[i] as i8);
            i = i + 1;
        }
        out
    }

    /// The bytes read as little-endian 32-bit words; trailing bytes that do
    /// not fill a word are left out.
    pub fn to_u32_vec(&self) -> (r: Vec<u32>)
        requires
            self.spec_bytes() is Some,
        ensures
            r@.len() == self.spec_bytes().unwrap().len() / 4,
            forall|i: int|
                0 <= i < r@.len() ==> r@[i] == le_u32(self.spec_bytes().unwrap(), 4 * i),
    {
        let bytes = self.as_bytes();
        let len = bytes.len();
        let n = len / 4;
        let mut out: Vec<u32> = Vec::new();
        let mut i: usize = 0;
        while i < n
            invariant
                len == bytes@.len(),
                n == bytes@.len() / 4,
                i <= n,
                out@.len() == i,
                forall|j: int| 0 <= j < i ==> out@[j] == le_u32(bytes@, 4 * j),
            decreases n - i,
        {
            assert(4 * i + 3 < bytes@.len()) by (nonlinear_arith)
                requires
                    i < n,
                    n == bytes@.len() / 4,
            ;
            let k = 4 * i;
            let w = (bytes[k] as u32) + 256 * (bytes[k + 1] as u32) + 65536 * (bytes[k + 2] as u32)
                + 16777216 * (bytes[k + 3] as u32);
            out.push(w);
            i = i + 1;
        }
        out
    }

    /// Reference to value.
    pub fn as_value(&self) -> (r: &Value)
        ensures
            *r == self.spec_value(),
    {
        self.0.as_value()
    }

    /// Convert into value.
    pub fn into_value(self) -> (r: Value)
        ensures
            r == self.spec_value(),
    {
        self.0.into_value()
    }

    /// Convert from value: succeeds exactly on a live array buffer.
    pub fn from_value(value: Value) -> (r: Result<Self, Error>)
        ensures
            buffer_bytes(value) is Some ==> (r matches Ok(ab) && ab.spec_value() == value),
            (value is Object && buffer_bytes(value) is None) ==> r == Err::<Self, Error>(
                Error::FromJs { from: "object", to: "ArrayBuffer" },
            ),
            !(value is Object) ==> r == Err::<Self, Error>(
                Error::FromJs { from: type_str_of(value), to: "object" },
            ),
    {
        match Object::from_value(value) {
            Ok(object) => Self::from_object(object),
            Err(e) => Err(e),
        }
    }

    /// Reference as an object.
    pub fn as_object(&self) -> (r: &Object)
        ensures
            *r == self.spec_object(),
    {
        &self.0
    }

    /// Convert into an object.
    pub fn into_object(self) -> (r: Object)
        ensures
            r == self.spec_object(),
    {
        self.0
    }

    /// Convert from an object: succeeds exactly on a live array buffer.
    pub fn from_object(object: Object) -> (r: Result<Self, Error>)
        ensures
            buffer_bytes(object.spec_value()) is Some ==> (r matches Ok(ab) && ab.spec_object() == object),
            buffer_bytes(object.spec_value()) is None ==> r == Err::<Self, Error>(
                Error::FromJs { from: "object", to: "ArrayBuffer" },
            ),
    {
        proof {
            use_type_invariant(&object);
        }
        if Self::get_raw(object.as_value()).is_some() {
            Ok(ArrayBuffer(object))
        } else {
            Err(Error::FromJs { from: "object", to: "ArrayBuffer" })
        }
    }
}

} // verus!
