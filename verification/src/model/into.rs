use crate::model::errors::{Failure, ModelError};
use crate::model::float::{float_cast, float_is_zero, float_to_i128, is_zero};
use crate::model::value::{Tree, Value};
use crate::text::{
    chars_of, decimal_text, matches_word, parse_decimal, parse_integer, reads_as, render_decimal,
    Whole,
};
use vstd::prelude::*;
use vstd::string::*;

verus! {

/// The ten integer types a value can be read as.
#[derive(Clone, Copy, Debug)]
pub enum IntKind {
    I8,
    I16,
    I32,
    I64,
    I128,
    U8,
    U16,
    U32,
    U64,
    U128,
}

impl IntKind {
    /// The least value of the type.
    pub open spec fn min(self) -> int {
        match self {
            IntKind::I8 => i8::MIN as int,
            IntKind::I16 => i16::MIN as int,
            IntKind::I32 => i32::MIN as int,
            IntKind::I64 => i64::MIN as int,
            IntKind::I128 => i128::MIN as int,
            _ => 0,
        }
    }

    /// The greatest value of the type.
    pub open spec fn max(self) -> int {
        match self {
            IntKind::I8 => i8::MAX as int,
            IntKind::I16 => i16::MAX as int,
            IntKind::I32 => i32::MAX as int,
            IntKind::I64 => i64::MAX as int,
            IntKind::I128 => i128::MAX as int,
            IntKind::U8 => u8::MAX as int,
            IntKind::U16 => u16::MAX as int,
            IntKind::U32 => u32::MAX as int,
            IntKind::U64 => u64::MAX as int,
            IntKind::U128 => u128::MAX as int,
        }
    }

    /// Whether the type has negative values.
    pub open spec fn signed(self) -> bool {
        self.min() < 0
    }

    /// Whether a number that lies outside the type is read as the nearer
    /// bound, where the other types report it.
    pub open spec fn saturating(self) -> bool {
        self is I64 || self is I128 || self is U64
    }

    /// The name of the type, as errors give it.
    pub open spec fn name(self) -> Seq<char> {
        match self {
            IntKind::I8 => "i8"@,
            IntKind::I16 => "i16"@,
            IntKind::I32 => "i32"@,
            IntKind::I64 => "i64"@,
            IntKind::I128 => "i128"@,
            IntKind::U8 => "u8"@,
            IntKind::U16 => "u16"@,
            IntKind::U32 => "u32"@,
            IntKind::U64 => "u64"@,
            IntKind::U128 => "u128"@,
        }
    }

    /// The name of the type.
    pub fn label(self) -> (s: &'static str)
        ensures
            s@ == self.name(),
    {
        match self {
            IntKind::I8 => "i8",
            IntKind::I16 => "i16",
            IntKind::I32 => "i32",
            IntKind::I64 => "i64",
            IntKind::I128 => "i128",
            IntKind::U8 => "u8",
            IntKind::U16 => "u16",
            IntKind::U32 => "u32",
            IntKind::U64 => "u64",
            IntKind::U128 => "u128",
        }
    }

    /// The magnitudes of the least and of the greatest value of the type.
    pub fn limits(self) -> (r: (u128, u128))
        ensures
            r.0 == -self.min(),
            r.1 == self.max(),
    {
        match self {
            IntKind::I8 => (0x80, 0x7f),
            IntKind::I16 => (0x8000, 0x7fff),
            IntKind::I32 => (0x8000_0000, 0x7fff_ffff),
            IntKind::I64 => (0x8000_0000_0000_0000, 0x7fff_ffff_ffff_ffff),
            IntKind::I128 => (
                0x8000_0000_0000_0000_0000_0000_0000_0000,
                0x7fff_ffff_ffff_ffff_ffff_ffff_ffff_ffff,
            ),
            IntKind::U8 => (0, 0xff),
            IntKind::U16 => (0, 0xffff),
            IntKind::U32 => (0, 0xffff_ffff),
            IntKind::U64 => (0, 0xffff_ffff_ffff_ffff),
            IntKind::U128 => (0, 0xffff_ffff_ffff_ffff_ffff_ffff_ffff_ffff),
        }
    }

    /// Whether the type holds the integer.
    pub fn holds(self, n: Whole) -> (yes: bool)
        ensures
            yes == (self.min() <= n.value() <= self.max()),
    {
        let (low, high) = self.limits();
        if n.negative {
            n.magnitude <= low
        } else {
            n.magnitude <= high
        }
    }

    /// The value of the type that is nearest to the integer.
    pub fn nearest(self, n: Whole) -> (m: Whole)
        ensures
            m.value() == if n.value() < self.min() {
                self.min()
            } else if n.value() > self.max() {
                self.max()
            } else {
                n.value()
            },
    {
        let (low, high) = self.limits();
        if n.negative {
            if n.magnitude > low {
                Whole { negative: true, magnitude: low }
            } else {
                n
            }
        } else {
            if n.magnitude > high {
                Whole { negative: false, magnitude: high }
            } else {
                n
            }
        }
    }
}

/// The failure of a number that lies outside the target type.
pub open spec fn out_of_bounds(from: Seq<char>, to: Seq<char>) -> Failure {
    Failure::Conversion { from, to, why: "Number value is out of target bounds"@ }
}

/// The failure of a value that has no counterpart in the target type.
pub open spec fn unsupported(from: Seq<char>, to: Seq<char>) -> Failure {
    Failure::Conversion { from, to, why: "conversion not supported"@ }
}

/// An integer read as a type: itself where the type holds it, a failure
/// that names both types otherwise.
pub open spec fn narrowed(n: int, from: Seq<char>, kind: IntKind) -> Result<int, Failure> {
    if kind.min() <= n <= kind.max() {
        Ok(n)
    } else {
        Err(out_of_bounds(from, kind.name()))
    }
}

/// What a value gives when it is read as an integer type.
pub open spec fn to_integer(t: Tree, kind: IntKind) -> Result<int, Failure> {
    match t {
        Tree::Integer(v) => narrowed(v as int, "i64"@, kind),
        Tree::LongInteger(v) => narrowed(v as int, "i128"@, kind),
        Tree::UInteger(v) => narrowed(v as int, "u64"@, kind),
        Tree::ULongInteger(v) => narrowed(v as int, "u128"@, kind),
        Tree::Float(bits) => if kind.saturating() {
            Ok(float_cast(bits, kind.min(), kind.max()))
        } else {
            narrowed(float_cast(bits, i128::MIN as int, i128::MAX as int), "f64"@, kind)
        },
        Tree::Boolean(b) => Ok(
            if b {
                1
            } else {
                0
            },
        ),
        Tree::String(s) => match parse_integer(s, kind.signed()) {
            Some(n) => if kind.min() <= n <= kind.max() {
                Ok(n)
            } else {
                Err(Failure::Casting { value: s, to: kind.name(), why: "can't parse string"@ })
            },
            None => Err(Failure::Casting { value: s, to: kind.name(), why: "can't parse string"@ }),
        },
        Tree::Null => Err(unsupported("none"@, kind.name())),
        Tree::Array(_) => Err(unsupported("Array"@, kind.name())),
        Tree::Mapping(_) => Err(unsupported("Map"@, kind.name())),
    }
}

/// What a value gives when it is read as a truth value.
pub open spec fn to_bool(t: Tree) -> Result<bool, Failure> {
    match t {
        Tree::Boolean(b) => Ok(b),
        Tree::Integer(v) => Ok(v != 0),
        Tree::LongInteger(v) => Ok(v != 0),
        Tree::UInteger(v) => Ok(v != 0),
        Tree::ULongInteger(v) => Ok(v != 0),
        Tree::Float(bits) => Ok(!float_is_zero(bits)),
        Tree::String(s) => if reads_as(s, "true"@) {
            Ok(true)
        } else if reads_as(s, "false"@) {
            Ok(false)
        } else {
            Err(Failure::Casting { value: s, to: "bool"@, why: "can't parse string as boolean"@ })
        },
        Tree::Null => Err(unsupported("none"@, "bool"@)),
        Tree::Array(_) => Err(unsupported("Array"@, "bool"@)),
        Tree::Mapping(_) => Err(unsupported("Map"@, "bool"@)),
    }
}

/// What a value gives when it is read as one character: the first
/// character of a text, `1` or `0` for a truth value, the character with
/// the code of an integer below 256.
pub open spec fn to_char(t: Tree) -> Result<char, Failure> {
    match t {
        Tree::String(s) => if s.len() > 0 {
            Ok(s[0])
        } else {
            Err(Failure::Casting { value: s, to: "char"@, why: "can't parse string"@ })
        },
        Tree::Boolean(b) => Ok(
            if b {
                '1'
            } else {
                '0'
            },
        ),
        Tree::Integer(_) | Tree::LongInteger(_) | Tree::UInteger(_) | Tree::ULongInteger(_) => match to_integer(
            t,
            IntKind::U8,
        ) {
            Ok(n) => Ok(n as u8 as char),
            Err(f) => Err(f),
        },
        Tree::Float(_) => Err(unsupported("Float"@, "char"@)),
        Tree::Null => Err(unsupported("none"@, "char"@)),
        Tree::Array(_) => Err(unsupported("Array"@, "char"@)),
        Tree::Mapping(_) => Err(unsupported("Map"@, "char"@)),
    }
}

/// What a value gives when it is read as a text. A `Float` has no text
/// here: its decimal form is not computed on bit patterns.
pub open spec fn to_text(t: Tree) -> Result<Seq<char>, Failure> {
    match t {
        Tree::String(s) => Ok(s),
        Tree::Integer(v) => Ok(decimal_text(v as int)),
        Tree::LongInteger(v) => Ok(decimal_text(v as int)),
        Tree::UInteger(v) => Ok(decimal_text(v as int)),
        Tree::ULongInteger(v) => Ok(decimal_text(v as int)),
        Tree::Boolean(b) => Ok(
            if b {
                "true"@
            } else {
                "false"@
            },
        ),
        Tree::Float(_) => Err(unsupported("f64"@, "String"@)),
        Tree::Null => Err(unsupported("none"@, "String"@)),
        Tree::Array(_) => Err(unsupported("Array"@, "String"@)),
        Tree::Mapping(_) => Err(unsupported("Map"@, "String"@)),
    }
}

/// A signed integer as sign and magnitude.
pub fn whole_of(n: i128) -> (w: Whole)
    ensures
        w.value() == n,
{
    if n < 0 {
        if n == i128::MIN {
            Whole { negative: true, magnitude: 0x8000_0000_0000_0000_0000_0000_0000_0000 }
        } else {
            Whole { negative: true, magnitude: (-n) as u128 }
        }
    } else {
        Whole { negative: false, magnitude: n as u128 }
    }
}

/// Sign and magnitude as a signed integer.
pub fn signed_of(w: Whole) -> (n: i128)
    requires
        i128::MIN <= w.value() <= i128::MAX,
    ensures
        n == w.value(),
{
    if w.negative {
        if w.magnitude == 0x8000_0000_0000_0000_0000_0000_0000_0000 {
            i128::MIN
        } else {
            -(w.magnitude as i128)
        }
    } else {
        w.magnitude as i128
    }
}

fn out_of_range(from: &'static str, kind: IntKind) -> (e: ModelError)
    ensures
        e@ == out_of_bounds(from@, kind.name()),
{
    ModelError::ConversionError {
        from,
        to: kind.label(),
        why: "Number value is out of target bounds",
    }
}

fn not_supported(from: &'static str, to: &'static str) -> (e: ModelError)
    ensures
        e@ == unsupported(from@, to@),
{
    ModelError::ConversionError { from, to, why: "conversion not supported" }
}

fn narrow(n: Whole, from: &'static str, kind: IntKind) -> (r: Result<Whole, ModelError>)
    ensures
        match narrowed(n.value(), from@, kind) {
            Ok(v) => r is Ok && r->Ok_0.value() == v,
            Err(f) => r is Err && r->Err_0@ == f,
        },
{
    if kind.holds(n) {
        Ok(n)
    } else {
        Err(out_of_range(from, kind))
    }
}

impl Value {
    /// The value read as an integer of the kind given, as sign and magnitude.
    pub fn try_into_whole(&self, kind: IntKind) -> (r: Result<Whole, ModelError>)
        ensures
            match to_integer(self@, kind) {
                Ok(n) => r is Ok && r->Ok_0.value() == n && kind.min() <= n <= kind.max(),
                Err(f) => r is Err && r->Err_0@ == f,
            },
    {
        match self {
            Value::Integer(v) => narrow(whole_of(*v as i128), "i64", kind),
            Value::LongInteger(v) => narrow(whole_of(*v), "i128", kind),
            Value::UInteger(v) => narrow(
                Whole { negative: false, magnitude: *v as u128 },
                "u64",
                kind,
            ),
            Value::ULongInteger(v) => narrow(Whole { negative: false, magnitude: *v }, "u128", kind),
            Value::Float(bits) => {
                let n = whole_of(float_to_i128(*bits));
                match kind {
                    IntKind::I64 | IntKind::I128 | IntKind::U64 => Ok(kind.nearest(n)),
                    _ => narrow(n, "f64", kind),
                }
            },
            Value::Boolean(b) => Ok(
                Whole {
                    negative: false,
                    magnitude: if *b {
                        1
                    } else {
                        0
                    },
                },
            ),
            Value::String(s) => {
                let signed = match kind {
                    IntKind::I8 | IntKind::I16 | IntKind::I32 | IntKind::I64 | IntKind::I128 => true,
                    _ => false,
                };
                match parse_decimal(s.as_str(), signed) {
                    Some(n) => if kind.holds(n) {
                        Ok(n)
                    } else {
                        Err(
                            ModelError::CastingError {
                                value: s.clone(),
                                to: kind.label(),
                                why: "can't parse string",
                            },
                        )
                    },
                    None => Err(
                        ModelError::CastingError {
                            value: s.clone(),
                            to: kind.label(),
                            why: "can't parse string",
                        },
                    ),
                }
            },
            Value::Null => Err(not_supported("none", kind.label())),
            Value::Array(_) => Err(not_supported("Array", kind.label())),
            Value::Mapping(_) => Err(not_supported("Map", kind.label())),
        }
    }
}

/// What a value gives when it is read as an `i8`.
pub open spec fn to_i8(t: Tree) -> Result<i8, Failure> {
    match to_integer(t, IntKind::I8) {
        Ok(n) => Ok(n as i8),
        Err(f) => Err(f),
    }
}
/// What a value gives when it is read as an `i16`.
pub open spec fn to_i16(t: Tree) -> Result<i16, Failure> {
    match to_integer(t, IntKind::I16) {
        Ok(n) => Ok(n as i16),
        Err(f) => Err(f),
    }
}
/// What a value gives when it is read as an `i32`.
pub open spec fn to_i32(t: Tree) -> Result<i32, Failure> {
    match to_integer(t, IntKind::I32) {
        Ok(n) => Ok(n as i32),
        Err(f) => Err(f),
    }
}
/// What a value gives when it is read as an `i64`.
pub open spec fn to_i64(t: Tree) -> Result<i64, Failure> {
    match to_integer(t, IntKind::I64) {
        Ok(n) => Ok(n as i64),
        Err(f) => Err(f),
    }
}
/// What a value gives when it is read as an `i128`.
pub open spec fn to_i128(t: Tree) -> Result<i128, Failure> {
    match to_integer(t, IntKind::I128) {
        Ok(n) => Ok(n as i128),
        Err(f) => Err(f),
    }
}
/// What a value gives when it is read as an `u8`.
pub open spec fn to_u8(t: Tree) -> Result<u8, Failure> {
    match to_integer(t, IntKind::U8) {
        Ok(n) => Ok(n as u8),
        Err(f) => Err(f),
    }
}
/// What a value gives when it is read as an `u16`.
pub open spec fn to_u16(t: Tree) -> Result<u16, Failure> {
    match to_integer(t, IntKind::U16) {
        Ok(n) => Ok(n as u16),
        Err(f) => Err(f),
    }
}
/// What a value gives when it is read as an `u32`.
pub open spec fn to_u32(t: Tree) -> Result<u32, Failure> {
    match to_integer(t, IntKind::U32) {
        Ok(n) => Ok(n as u32),
        Err(f) => Err(f),
    }
}
/// What a value gives when it is read as an `u64`.
pub open spec fn to_u64(t: Tree) -> Result<u64, Failure> {
    match to_integer(t, IntKind::U64) {
        Ok(n) => Ok(n as u64),
        Err(f) => Err(f),
    }
}
/// What a value gives when it is read as an `u128`.
pub open spec fn to_u128(t: Tree) -> Result<u128, Failure> {
    match to_integer(t, IntKind::U128) {
        Ok(n) => Ok(n as u128),
        Err(f) => Err(f),
    }
}
/// Whether a result is what the model expects: the same value, or an error
/// whose model is the expected failure.
pub open spec fn agrees<T>(r: Result<T, ModelError>, expected: Result<T, Failure>) -> bool {
    match expected {
        Ok(v) => r == Ok::<T, ModelError>(v),
        Err(f) => r is Err && r->Err_0@ == f,
    }
}

/// As `agrees`, for a text.
pub open spec fn agrees_text(r: Result<String, ModelError>, expected: Result<Seq<char>, Failure>) -> bool {
    match expected {
        Ok(v) => r is Ok && r->Ok_0@ == v,
        Err(f) => r is Err && r->Err_0@ == f,
    }
}

impl Value {
    /// The value read as a truth value.
    pub fn try_into_bool(&self) -> (r: Result<bool, ModelError>)
        ensures
            agrees(r, to_bool(self@)),
    {
        match self {
            Value::Boolean(b) => Ok(*b),
            Value::Integer(v) => Ok(*v != 0),
            Value::LongInteger(v) => Ok(*v != 0),
            Value::UInteger(v) => Ok(*v != 0),
            Value::ULongInteger(v) => Ok(*v != 0),
            Value::Float(bits) => Ok(!is_zero(*bits)),
            Value::String(s) => {
                let chars = chars_of(s.as_str());
                if matches_word(&chars, "true") {
                    Ok(true)
                } else if matches_word(&chars, "false") {
                    Ok(false)
                } else {
                    Err(
                        ModelError::CastingError {
                            value: s.clone(),
                            to: "bool",
                            why: "can't parse string as boolean",
                        },
                    )
                }
            },
            Value::Null => Err(not_supported("none", "bool")),
            Value::Array(_) => Err(not_supported("Array", "bool")),
            Value::Mapping(_) => Err(not_supported("Map", "bool")),
        }
    }

    /// The value read as one character.
    pub fn try_into_char(&self) -> (r: Result<char, ModelError>)
        ensures
            agrees(r, to_char(self@)),
    {
        match self {
            Value::String(s) => {
                let chars = chars_of(s.as_str());
                if chars.len() > 0 {
                    Ok(chars[0])
                } else {
                    Err(
                        ModelError::CastingError {
                            value: s.clone(),
                            to: "char",
                            why: "can't parse string",
                        },
                    )
                }
            },
            Value::Boolean(b) => Ok(
                if *b {
                    '1'
                } else {
                    '0'
                },
            ),
            Value::Integer(_) | Value::LongInteger(_) | Value::UInteger(_) | Value::ULongInteger(
                _,
            ) => match self.try_into_whole(IntKind::U8) {
                Ok(n) => Ok(n.magnitude as u8 as char),
                Err(e) => Err(e),
            },
            Value::Float(_) => Err(not_supported("Float", "char")),
            Value::Null => Err(not_supported("none", "char")),
            Value::Array(_) => Err(not_supported("Array", "char")),
            Value::Mapping(_) => Err(not_supported("Map", "char")),
        }
    }

    /// The value read as a text.
    pub fn try_into_string(&self) -> (r: Result<String, ModelError>)
        ensures
            agrees_text(r, to_text(self@)),
    {
        match self {
            Value::String(s) => Ok(s.clone()),
            Value::Integer(v) => Ok(render_decimal(whole_of(*v as i128))),
            Value::LongInteger(v) => Ok(render_decimal(whole_of(*v))),
            Value::UInteger(v) => Ok(
                render_decimal(Whole { negative: false, magnitude: *v as u128 }),
            ),
            Value::ULongInteger(v) => Ok(render_decimal(Whole { negative: false, magnitude: *v })),
            Value::Boolean(b) => Ok(
                String::from_str(
                    if *b {
                        "true"
                    } else {
                        "false"
                    },
                ),
            ),
            Value::Float(_) => Err(not_supported("f64", "String")),
            Value::Null => Err(not_supported("none", "String")),
            Value::Array(_) => Err(not_supported("Array", "String")),
            Value::Mapping(_) => Err(not_supported("Map", "String")),
        }
    }

    /// The value read as an `i8`.
    pub fn try_into_i8(&self) -> (r: Result<i8, ModelError>)
        ensures
            agrees(r, to_i8(self@)),
    {
        match self.try_into_whole(IntKind::I8) {
            Ok(n) => Ok(signed_of(n) as i8),
            Err(e) => Err(e),
        }
    }

    /// The value read as an `i16`.
    pub fn try_into_i16(&self) -> (r: Result<i16, ModelError>)
        ensures
            agrees(r, to_i16(self@)),
    {
        match self.try_into_whole(IntKind::I16) {
            Ok(n) => Ok(signed_of(n) as i16),
            Err(e) => Err(e),
        }
    }

    /// The value read as an `i32`.
    pub fn try_into_i32(&self) -> (r: Result<i32, ModelError>)
        ensures
            agrees(r, to_i32(self@)),
    {
        match self.try_into_whole(IntKind::I32) {
            Ok(n) => Ok(signed_of(n) as i32),
            Err(e) => Err(e),
        }
    }

    /// The value read as an `i64`.
    pub fn try_into_i64(&self) -> (r: Result<i64, ModelError>)
        ensures
            agrees(r, to_i64(self@)),
    {
        match self.try_into_whole(IntKind::I64) {
            Ok(n) => Ok(signed_of(n) as i64),
            Err(e) => Err(e),
        }
    }

    /// The value read as an `i128`.
    pub fn try_into_i128(&self) -> (r: Result<i128, ModelError>)
        ensures
            agrees(r, to_i128(self@)),
    {
        match self.try_into_whole(IntKind::I128) {
            Ok(n) => Ok(signed_of(n)),
            Err(e) => Err(e),
        }
    }

    /// The value read as an `u8`.
    pub fn try_into_u8(&self) -> (r: Result<u8, ModelError>)
        ensures
            agrees(r, to_u8(self@)),
    {
        match self.try_into_whole(IntKind::U8) {
            Ok(n) => Ok(n.magnitude as u8),
            Err(e) => Err(e),
        }
    }

    /// The value read as an `u16`.
    pub fn try_into_u16(&self) -> (r: Result<u16, ModelError>)
        ensures
            agrees(r, to_u16(self@)),
    {
        match self.try_into_whole(IntKind::U16) {
            Ok(n) => Ok(n.magnitude as u16),
            Err(e) => Err(e),
        }
    }

    /// The value read as an `u32`.
    pub fn try_into_u32(&self) -> (r: Result<u32, ModelError>)
        ensures
            agrees(r, to_u32(self@)),
    {
        match self.try_into_whole(IntKind::U32) {
            Ok(n) => Ok(n.magnitude as u32),
            Err(e) => Err(e),
        }
    }

    /// The value read as an `u64`.
    pub fn try_into_u64(&self) -> (r: Result<u64, ModelError>)
        ensures
            agrees(r, to_u64(self@)),
    {
        match self.try_into_whole(IntKind::U64) {
            Ok(n) => Ok(n.magnitude as u64),
            Err(e) => Err(e),
        }
    }

    /// The value read as an `u128`.
    pub fn try_into_u128(&self) -> (r: Result<u128, ModelError>)
        ensures
            agrees(r, to_u128(self@)),
    {
        match self.try_into_whole(IntKind::U128) {
            Ok(n) => Ok(n.magnitude),
            Err(e) => Err(e),
        }
    }

    /// The value read as a `bool`, `default` where it cannot be read so.
    pub fn into_bool_or(self, default: bool) -> (r: bool)
        ensures
            r == match to_bool(self@) {
                Ok(v) => v,
                Err(_) => default,
            },
    {
        match self.try_into_bool() {
            Ok(v) => v,
            Err(_) => default,
        }
    }

    /// The value read as a `char`, `default` where it cannot be read so.
    pub fn into_char_or(self, default: char) -> (r: char)
        ensures
            r == match to_char(self@) {
                Ok(v) => v,
                Err(_) => default,
            },
    {
        match self.try_into_char() {
            Ok(v) => v,
            Err(_) => default,
        }
    }

    /// The value read as a text, `default` where it cannot be read so.
    pub fn into_string_or(self, default: String) -> (r: String)
        ensures
            r@ == match to_text(self@) {
                Ok(v) => v,
                Err(_) => default@,
            },
    {
        match self.try_into_string() {
            Ok(v) => v,
            Err(_) => default,
        }
    }

    /// The value read as a `i8`, `default` where it cannot be read so.
    pub fn into_i8_or(self, default: i8) -> (r: i8)
        ensures
            r == match to_i8(self@) {
                Ok(v) => v,
                Err(_) => default,
            },
    {
        match self.try_into_i8() {
            Ok(v) => v,
            Err(_) => default,
        }
    }

    /// The value read as a `i16`, `default` where it cannot be read so.
    pub fn into_i16_or(self, default: i16) -> (r: i16)
        ensures
            r == match to_i16(self@) {
                Ok(v) => v,
                Err(_) => default,
            },
    {
        match self.try_into_i16() {
            Ok(v) => v,
            Err(_) => default,
        }
    }

    /// The value read as a `i32`, `default` where it cannot be read so.
    pub fn into_i32_or(self, default: i32) -> (r: i32)
        ensures
            r == match to_i32(self@) {
                Ok(v) => v,
                Err(_) => default,
            },
    {
        match self.try_into_i32() {
            Ok(v) => v,
            Err(_) => default,
        }
    }

    /// The value read as a `i64`, `default` where it cannot be read so.
    pub fn into_i64_or(self, default: i64) -> (r: i64)
        ensures
            r == match to_i64(self@) {
                Ok(v) => v,
                Err(_) => default,
            },
    {
        match self.try_into_i64() {
            Ok(v) => v,
            Err(_) => default,
        }
    }

    /// The value read as a `i128`, `default` where it cannot be read so.
    pub fn into_i128_or(self, default: i128) -> (r: i128)
        ensures
            r == match to_i128(self@) {
                Ok(v) => v,
                Err(_) => default,
            },
    {
        match self.try_into_i128() {
            Ok(v) => v,
            Err(_) => default,
        }
    }

    /// The value read as a `u8`, `default` where it cannot be read so.
    pub fn into_u8_or(self, default: u8) -> (r: u8)
        ensures
            r == match to_u8(self@) {
                Ok(v) => v,
                Err(_) => default,
            },
    {
        match self.try_into_u8() {
            Ok(v) => v,
            Err(_) => default,
        }
    }

    /// The value read as a `u16`, `default` where it cannot be read so.
    pub fn into_u16_or(self, default: u16) -> (r: u16)
        ensures
            r == match to_u16(self@) {
                Ok(v) => v,
                Err(_) => default,
            },
    {
        match self.try_into_u16() {
            Ok(v) => v,
            Err(_) => default,
        }
    }

    /// The value read as a `u32`, `default` where it cannot be read so.
    pub fn into_u32_or(self, default: u32) -> (r: u32)
        ensures
            r == match to_u32(self@) {
                Ok(v) => v,
                Err(_) => default,
            },
    {
        match self.try_into_u32() {
            Ok(v) => v,
            Err(_) => default,
        }
    }

    /// The value read as a `u64`, `default` where it cannot be read so.
    pub fn into_u64_or(self, default: u64) -> (r: u64)
        ensures
            r == match to_u64(self@) {
                Ok(v) => v,
                Err(_) => default,
            },
    {
        match self.try_into_u64() {
            Ok(v) => v,
            Err(_) => default,
        }
    }

    /// The value read as a `u128`, `default` where it cannot be read so.
    pub fn into_u128_or(self, default: u128) -> (r: u128)
        ensures
            r == match to_u128(self@) {
                Ok(v) => v,
                Err(_) => default,
            },
    {
        match self.try_into_u128() {
            Ok(v) => v,
            Err(_) => default,
        }
    }
}

impl TryInto<bool> for Value {
    type Error = ModelError;

    fn try_into(self) -> (r: Result<bool, ModelError>)
        ensures
            agrees(r, to_bool(self@)),
    {
        self.try_into_bool()
    }
}

impl vstd::std_specs::convert::TryIntoSpecImpl<bool> for Value {
    open spec fn obeys_try_into_spec() -> bool {
        false
    }

    open spec fn try_into_spec(self) -> Result<bool, ModelError> {
        arbitrary()
    }
}

impl TryInto<char> for Value {
    type Error = ModelError;

    fn try_into(self) -> (r: Result<char, ModelError>)
        ensures
            agrees(r, to_char(self@)),
    {
        self.try_into_char()
    }
}

impl vstd::std_specs::convert::TryIntoSpecImpl<char> for Value {
    open spec fn obeys_try_into_spec() -> bool {
        false
    }

    open spec fn try_into_spec(self) -> Result<char, ModelError> {
        arbitrary()
    }
}

impl TryInto<String> for Value {
    type Error = ModelError;

    fn try_into(self) -> (r: Result<String, ModelError>)
        ensures
            agrees_text(r, to_text(self@)),
    {
        self.try_into_string()
    }
}

impl vstd::std_specs::convert::TryIntoSpecImpl<String> for Value {
    open spec fn obeys_try_into_spec() -> bool {
        false
    }

    open spec fn try_into_spec(self) -> Result<String, ModelError> {
        arbitrary()
    }
}

impl TryInto<i8> for Value {
    type Error = ModelError;

    fn try_into(self) -> (r: Result<i8, ModelError>)
        ensures
            agrees(r, to_i8(self@)),
    {
        self.try_into_i8()
    }
}

impl vstd::std_specs::convert::TryIntoSpecImpl<i8> for Value {
    open spec fn obeys_try_into_spec() -> bool {
        false
    }

    open spec fn try_into_spec(self) -> Result<i8, ModelError> {
        arbitrary()
    }
}

impl TryInto<i16> for Value {
    type Error = ModelError;

    fn try_into(self) -> (r: Result<i16, ModelError>)
        ensures
            agrees(r, to_i16(self@)),
    {
        self.try_into_i16()
    }
}

impl vstd::std_specs::convert::TryIntoSpecImpl<i16> for Value {
    open spec fn obeys_try_into_spec() -> bool {
        false
    }

    open spec fn try_into_spec(self) -> Result<i16, ModelError> {
        arbitrary()
    }
}

impl TryInto<i32> for Value {
    type Error = ModelError;

    fn try_into(self) -> (r: Result<i32, ModelError>)
        ensures
            agrees(r, to_i32(self@)),
    {
        self.try_into_i32()
    }
}

impl vstd::std_specs::convert::TryIntoSpecImpl<i32> for Value {
    open spec fn obeys_try_into_spec() -> bool {
        false
    }

    open spec fn try_into_spec(self) -> Result<i32, ModelError> {
        arbitrary()
    }
}

impl TryInto<i64> for Value {
    type Error = ModelError;

    fn try_into(self) -> (r: Result<i64, ModelError>)
        ensures
            agrees(r, to_i64(self@)),
    {
        self.try_into_i64()
    }
}

impl vstd::std_specs::convert::TryIntoSpecImpl<i64> for Value {
    open spec fn obeys_try_into_spec() -> bool {
        false
    }

    open spec fn try_into_spec(self) -> Result<i64, ModelError> {
        arbitrary()
    }
}

impl TryInto<i128> for Value {
    type Error = ModelError;

    fn try_into(self) -> (r: Result<i128, ModelError>)
        ensures
            agrees(r, to_i128(self@)),
    {
        self.try_into_i128()
    }
}

impl vstd::std_specs::convert::TryIntoSpecImpl<i128> for Value {
    open spec fn obeys_try_into_spec() -> bool {
        false
    }

    open spec fn try_into_spec(self) -> Result<i128, ModelError> {
        arbitrary()
    }
}

impl TryInto<u8> for Value {
    type Error = ModelError;

    fn try_into(self) -> (r: Result<u8, ModelError>)
        ensures
            agrees(r, to_u8(self@)),
    {
        self.try_into_u8()
    }
}

impl vstd::std_specs::convert::TryIntoSpecImpl<u8> for Value {
    open spec fn obeys_try_into_spec() -> bool {
        false
    }

    open spec fn try_into_spec(self) -> Result<u8, ModelError> {
        arbitrary()
    }
}

impl TryInto<u16> for Value {
    type Error = ModelError;

    fn try_into(self) -> (r: Result<u16, ModelError>)
        ensures
            agrees(r, to_u16(self@)),
    {
        self.try_into_u16()
    }
}

impl vstd::std_specs::convert::TryIntoSpecImpl<u16> for Value {
    open spec fn obeys_try_into_spec() -> bool {
        false
    }

    open spec fn try_into_spec(self) -> Result<u16, ModelError> {
        arbitrary()
    }
}

impl TryInto<u32> for Value {
    type Error = ModelError;

    fn try_into(self) -> (r: Result<u32, ModelError>)
        ensures
            agrees(r, to_u32(self@)),
    {
        self.try_into_u32()
    }
}

impl vstd::std_specs::convert::TryIntoSpecImpl<u32> for Value {
    open spec fn obeys_try_into_spec() -> bool {
        false
    }

    open spec fn try_into_spec(self) -> Result<u32, ModelError> {
        arbitrary()
    }
}

impl TryInto<u64> for Value {
    type Error = ModelError;

    fn try_into(self) -> (r: Result<u64, ModelError>)
        ensures
            agrees(r, to_u64(self@)),
    {
        self.try_into_u64()
    }
}

impl vstd::std_specs::convert::TryIntoSpecImpl<u64> for Value {
    open spec fn obeys_try_into_spec() -> bool {
        false
    }

    open spec fn try_into_spec(self) -> Result<u64, ModelError> {
        arbitrary()
    }
}

impl TryInto<u128> for Value {
    type Error = ModelError;

    fn try_into(self) -> (r: Result<u128, ModelError>)
        ensures
            agrees(r, to_u128(self@)),
    {
        self.try_into_u128()
    }
}

impl vstd::std_specs::convert::TryIntoSpecImpl<u128> for Value {
    open spec fn obeys_try_into_spec() -> bool {
        false
    }

    open spec fn try_into_spec(self) -> Result<u128, ModelError> {
        arbitrary()
    }
}

impl TryInto<bool> for &Value {
    type Error = ModelError;

    fn try_into(self) -> (r: Result<bool, ModelError>)
        ensures
            agrees(r, to_bool(self@)),
    {
        self.try_into_bool()
    }
}

impl vstd::std_specs::convert::TryIntoSpecImpl<bool> for &Value {
    open spec fn obeys_try_into_spec() -> bool {
        false
    }

    open spec fn try_into_spec(self) -> Result<bool, ModelError> {
        arbitrary()
    }
}

impl TryInto<char> for &Value {
    type Error = ModelError;

    fn try_into(self) -> (r: Result<char, ModelError>)
        ensures
            agrees(r, to_char(self@)),
    {
        self.try_into_char()
    }
}

impl vstd::std_specs::convert::TryIntoSpecImpl<char> for &Value {
    open spec fn obeys_try_into_spec() -> bool {
        false
    }

    open spec fn try_into_spec(self) -> Result<char, ModelError> {
        arbitrary()
    }
}

impl TryInto<String> for &Value {
    type Error = ModelError;

    fn try_into(self) -> (r: Result<String, ModelError>)
        ensures
            agrees_text(r, to_text(self@)),
    {
        self.try_into_string()
    }
}

impl vstd::std_specs::convert::TryIntoSpecImpl<String> for &Value {
    open spec fn obeys_try_into_spec() -> bool {
        false
    }

    open spec fn try_into_spec(self) -> Result<String, ModelError> {
        arbitrary()
    }
}

impl TryInto<i8> for &Value {
    type Error = ModelError;

    fn try_into(self) -> (r: Result<i8, ModelError>)
        ensures
            agrees(r, to_i8(self@)),
    {
        self.try_into_i8()
    }
}

impl vstd::std_specs::convert::TryIntoSpecImpl<i8> for &Value {
    open spec fn obeys_try_into_spec() -> bool {
        false
    }

    open spec fn try_into_spec(self) -> Result<i8, ModelError> {
        arbitrary()
    }
}

impl TryInto<i16> for &Value {
    type Error = ModelError;

    fn try_into(self) -> (r: Result<i16, ModelError>)
        ensures
            agrees(r, to_i16(self@)),
    {
        self.try_into_i16()
    }
}

impl vstd::std_specs::convert::TryIntoSpecImpl<i16> for &Value {
    open spec fn obeys_try_into_spec() -> bool {
        false
    }

    open spec fn try_into_spec(self) -> Result<i16, ModelError> {
        arbitrary()
    }
}

impl TryInto<i32> for &Value {
    type Error = ModelError;

    fn try_into(self) -> (r: Result<i32, ModelError>)
        ensures
            agrees(r, to_i32(self@)),
    {
        self.try_into_i32()
    }
}

impl vstd::std_specs::convert::TryIntoSpecImpl<i32> for &Value {
    open spec fn obeys_try_into_spec() -> bool {
        false
    }

    open spec fn try_into_spec(self) -> Result<i32, ModelError> {
        arbitrary()
    }
}

impl TryInto<i64> for &Value {
    type Error = ModelError;

    fn try_into(self) -> (r: Result<i64, ModelError>)
        ensures
            agrees(r, to_i64(self@)),
    {
        self.try_into_i64()
    }
}

impl vstd::std_specs::convert::TryIntoSpecImpl<i64> for &Value {
    open spec fn obeys_try_into_spec() -> bool {
        false
    }

    open spec fn try_into_spec(self) -> Result<i64, ModelError> {
        arbitrary()
    }
}

impl TryInto<i128> for &Value {
    type Error = ModelError;

    fn try_into(self) -> (r: Result<i128, ModelError>)
        ensures
            agrees(r, to_i128(self@)),
    {
        self.try_into_i128()
    }
}

impl vstd::std_specs::convert::TryIntoSpecImpl<i128> for &Value {
    open spec fn obeys_try_into_spec() -> bool {
        false
    }

    open spec fn try_into_spec(self) -> Result<i128, ModelError> {
        arbitrary()
    }
}

impl TryInto<u8> for &Value {
    type Error = ModelError;

    fn try_into(self) -> (r: Result<u8, ModelError>)
        ensures
            agrees(r, to_u8(self@)),
    {
        self.try_into_u8()
    }
}

impl vstd::std_specs::convert::TryIntoSpecImpl<u8> for &Value {
    open spec fn obeys_try_into_spec() -> bool {
        false
    }

    open spec fn try_into_spec(self) -> Result<u8, ModelError> {
        arbitrary()
    }
}

impl TryInto<u16> for &Value {
    type Error = ModelError;

    fn try_into(self) -> (r: Result<u16, ModelError>)
        ensures
            agrees(r, to_u16(self@)),
    {
        self.try_into_u16()
    }
}

impl vstd::std_specs::convert::TryIntoSpecImpl<u16> for &Value {
    open spec fn obeys_try_into_spec() -> bool {
        false
    }

    open spec fn try_into_spec(self) -> Result<u16, ModelError> {
        arbitrary()
    }
}

impl TryInto<u32> for &Value {
    type Error = ModelError;

    fn try_into(self) -> (r: Result<u32, ModelError>)
        ensures
            agrees(r, to_u32(self@)),
    {
        self.try_into_u32()
    }
}

impl vstd::std_specs::convert::TryIntoSpecImpl<u32> for &Value {
    open spec fn obeys_try_into_spec() -> bool {
        false
    }

    open spec fn try_into_spec(self) -> Result<u32, ModelError> {
        arbitrary()
    }
}

impl TryInto<u64> for &Value {
    type Error = ModelError;

    fn try_into(self) -> (r: Result<u64, ModelError>)
        ensures
            agrees(r, to_u64(self@)),
    {
        self.try_into_u64()
    }
}

impl vstd::std_specs::convert::TryIntoSpecImpl<u64> for &Value {
    open spec fn obeys_try_into_spec() -> bool {
        false
    }

    open spec fn try_into_spec(self) -> Result<u64, ModelError> {
        arbitrary()
    }
}

impl TryInto<u128> for &Value {
    type Error = ModelError;

    fn try_into(self) -> (r: Result<u128, ModelError>)
        ensures
            agrees(r, to_u128(self@)),
    {
        self.try_into_u128()
    }
}

impl vstd::std_specs::convert::TryIntoSpecImpl<u128> for &Value {
    open spec fn obeys_try_into_spec() -> bool {
        false
    }

    open spec fn try_into_spec(self) -> Result<u128, ModelError> {
        arbitrary()
    }
}

impl TryInto<bool> for &mut Value {
    type Error = ModelError;

    fn try_into(self) -> (r: Result<bool, ModelError>)
        ensures
            agrees(r, to_bool(old(self)@)),
            *final(self) == *old(self),
    {
        self.try_into_bool()
    }
}

impl vstd::std_specs::convert::TryIntoSpecImpl<bool> for &mut Value {
    open spec fn obeys_try_into_spec() -> bool {
        false
    }

    open spec fn try_into_spec(self) -> Result<bool, ModelError> {
        arbitrary()
    }
}

impl TryInto<char> for &mut Value {
    type Error = ModelError;

    fn try_into(self) -> (r: Result<char, ModelError>)
        ensures
            agrees(r, to_char(old(self)@)),
            *final(self) == *old(self),
    {
        self.try_into_char()
    }
}

impl vstd::std_specs::convert::TryIntoSpecImpl<char> for &mut Value {
    open spec fn obeys_try_into_spec() -> bool {
        false
    }

    open spec fn try_into_spec(self) -> Result<char, ModelError> {
        arbitrary()
    }
}

impl TryInto<String> for &mut Value {
    type Error = ModelError;

    fn try_into(self) -> (r: Result<String, ModelError>)
        ensures
            agrees_text(r, to_text(old(self)@)),
            *final(self) == *old(self),
    {
        self.try_into_string()
    }
}

impl vstd::std_specs::convert::TryIntoSpecImpl<String> for &mut Value {
    open spec fn obeys_try_into_spec() -> bool {
        false
    }

    open spec fn try_into_spec(self) -> Result<String, ModelError> {
        arbitrary()
    }
}

impl TryInto<i8> for &mut Value {
    type Error = ModelError;

    fn try_into(self) -> (r: Result<i8, ModelError>)
        ensures
            agrees(r, to_i8(old(self)@)),
            *final(self) == *old(self),
    {
        self.try_into_i8()
    }
}

impl vstd::std_specs::convert::TryIntoSpecImpl<i8> for &mut Value {
    open spec fn obeys_try_into_spec() -> bool {
        false
    }

    open spec fn try_into_spec(self) -> Result<i8, ModelError> {
        arbitrary()
    }
}

impl TryInto<i16> for &mut Value {
    type Error = ModelError;

    fn try_into(self) -> (r: Result<i16, ModelError>)
        ensures
            agrees(r, to_i16(old(self)@)),
            *final(self) == *old(self),
    {
        self.try_into_i16()
    }
}

impl vstd::std_specs::convert::TryIntoSpecImpl<i16> for &mut Value {
    open spec fn obeys_try_into_spec() -> bool {
        false
    }

    open spec fn try_into_spec(self) -> Result<i16, ModelError> {
        arbitrary()
    }
}

impl TryInto<i32> for &mut Value {
    type Error = ModelError;

    fn try_into(self) -> (r: Result<i32, ModelError>)
        ensures
            agrees(r, to_i32(old(self)@)),
            *final(self) == *old(self),
    {
        self.try_into_i32()
    }
}

impl vstd::std_specs::convert::TryIntoSpecImpl<i32> for &mut Value {
    open spec fn obeys_try_into_spec() -> bool {
        false
    }

    open spec fn try_into_spec(self) -> Result<i32, ModelError> {
        arbitrary()
    }
}

impl TryInto<i64> for &mut Value {
    type Error = ModelError;

    fn try_into(self) -> (r: Result<i64, ModelError>)
        ensures
            agrees(r, to_i64(old(self)@)),
            *final(self) == *old(self),
    {
        self.try_into_i64()
    }
}

impl vstd::std_specs::convert::TryIntoSpecImpl<i64> for &mut Value {
    open spec fn obeys_try_into_spec() -> bool {
        false
    }

    open spec fn try_into_spec(self) -> Result<i64, ModelError> {
        arbitrary()
    }
}

impl TryInto<i128> for &mut Value {
    type Error = ModelError;

    fn try_into(self) -> (r: Result<i128, ModelError>)
        ensures
            agrees(r, to_i128(old(self)@)),
            *final(self) == *old(self),
    {
        self.try_into_i128()
    }
}

impl vstd::std_specs::convert::TryIntoSpecImpl<i128> for &mut Value {
    open spec fn obeys_try_into_spec() -> bool {
        false
    }

    open spec fn try_into_spec(self) -> Result<i128, ModelError> {
        arbitrary()
    }
}

impl TryInto<u8> for &mut Value {
    type Error = ModelError;

    fn try_into(self) -> (r: Result<u8, ModelError>)
        ensures
            agrees(r, to_u8(old(self)@)),
            *final(self) == *old(self),
    {
        self.try_into_u8()
    }
}

impl vstd::std_specs::convert::TryIntoSpecImpl<u8> for &mut Value {
    open spec fn obeys_try_into_spec() -> bool {
        false
    }

    open spec fn try_into_spec(self) -> Result<u8, ModelError> {
        arbitrary()
    }
}

impl TryInto<u16> for &mut Value {
    type Error = ModelError;

    fn try_into(self) -> (r: Result<u16, ModelError>)
        ensures
            agrees(r, to_u16(old(self)@)),
            *final(self) == *old(self),
    {
        self.try_into_u16()
    }
}

impl vstd::std_specs::convert::TryIntoSpecImpl<u16> for &mut Value {
    open spec fn obeys_try_into_spec() -> bool {
        false
    }

    open spec fn try_into_spec(self) -> Result<u16, ModelError> {
        arbitrary()
    }
}

impl TryInto<u32> for &mut Value {
    type Error = ModelError;

    fn try_into(self) -> (r: Result<u32, ModelError>)
        ensures
            agrees(r, to_u32(old(self)@)),
            *final(self) == *old(self),
    {
        self.try_into_u32()
    }
}

impl vstd::std_specs::convert::TryIntoSpecImpl<u32> for &mut Value {
    open spec fn obeys_try_into_spec() -> bool {
        false
    }

    open spec fn try_into_spec(self) -> Result<u32, ModelError> {
        arbitrary()
    }
}

impl TryInto<u64> for &mut Value {
    type Error = ModelError;

    fn try_into(self) -> (r: Result<u64, ModelError>)
        ensures
            agrees(r, to_u64(old(self)@)),
            *final(self) == *old(self),
    {
        self.try_into_u64()
    }
}

impl vstd::std_specs::convert::TryIntoSpecImpl<u64> for &mut Value {
    open spec fn obeys_try_into_spec() -> bool {
        false
    }

    open spec fn try_into_spec(self) -> Result<u64, ModelError> {
        arbitrary()
    }
}

impl TryInto<u128> for &mut Value {
    type Error = ModelError;

    fn try_into(self) -> (r: Result<u128, ModelError>)
        ensures
            agrees(r, to_u128(old(self)@)),
            *final(self) == *old(self),
    {
        self.try_into_u128()
    }
}

impl vstd::std_specs::convert::TryIntoSpecImpl<u128> for &mut Value {
    open spec fn obeys_try_into_spec() -> bool {
        false
    }

    open spec fn try_into_spec(self) -> Result<u128, ModelError> {
        arbitrary()
    }
}

} // verus!
