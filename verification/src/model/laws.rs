use crate::model::errors::Failure;
use crate::model::float::float_cast;
use crate::model::into::{
    out_of_bounds, to_bool, to_i128, to_i16, to_i32, to_i64, to_i8, to_integer, to_text, to_u128,
    to_u16, to_u32, to_u64, to_u8, IntKind,
};
use crate::model::value::{Tree, Value};
use vstd::prelude::*;
use vstd::std_specs::convert::FromSpec;

verus! {

/// An `i8` made a value reads back as itself.
pub proof fn lemma_round_trip_i8(v: i8)
    ensures
        to_i8(<Value as FromSpec<i8>>::from_spec(v)@) == Ok::<i8, Failure>(v),
{
}

/// An `i16` made a value reads back as itself.
pub proof fn lemma_round_trip_i16(v: i16)
    ensures
        to_i16(<Value as FromSpec<i16>>::from_spec(v)@) == Ok::<i16, Failure>(v),
{
}

/// An `i32` made a value reads back as itself.
pub proof fn lemma_round_trip_i32(v: i32)
    ensures
        to_i32(<Value as FromSpec<i32>>::from_spec(v)@) == Ok::<i32, Failure>(v),
{
}

/// An `i64` made a value reads back as itself.
pub proof fn lemma_round_trip_i64(v: i64)
    ensures
        to_i64(<Value as FromSpec<i64>>::from_spec(v)@) == Ok::<i64, Failure>(v),
{
}

/// An `i128` made a value reads back as itself.
pub proof fn lemma_round_trip_i128(v: i128)
    ensures
        to_i128(<Value as FromSpec<i128>>::from_spec(v)@) == Ok::<i128, Failure>(v),
{
}

/// An `u8` made a value reads back as itself.
pub proof fn lemma_round_trip_u8(v: u8)
    ensures
        to_u8(<Value as FromSpec<u8>>::from_spec(v)@) == Ok::<u8, Failure>(v),
{
}

/// An `u16` made a value reads back as itself.
pub proof fn lemma_round_trip_u16(v: u16)
    ensures
        to_u16(<Value as FromSpec<u16>>::from_spec(v)@) == Ok::<u16, Failure>(v),
{
}

/// An `u32` made a value reads back as itself.
pub proof fn lemma_round_trip_u32(v: u32)
    ensures
        to_u32(<Value as FromSpec<u32>>::from_spec(v)@) == Ok::<u32, Failure>(v),
{
}

/// An `u64` made a value reads back as itself.
pub proof fn lemma_round_trip_u64(v: u64)
    ensures
        to_u64(<Value as FromSpec<u64>>::from_spec(v)@) == Ok::<u64, Failure>(v),
{
}

/// An `u128` made a value reads back as itself.
pub proof fn lemma_round_trip_u128(v: u128)
    ensures
        to_u128(<Value as FromSpec<u128>>::from_spec(v)@) == Ok::<u128, Failure>(v),
{
}

/// A truth value made a value reads back as itself.
pub proof fn lemma_round_trip_bool(v: bool)
    ensures
        to_bool(<Value as FromSpec<bool>>::from_spec(v)@) == Ok::<bool, Failure>(v),
{
}

/// A text made a value reads back as itself.
pub proof fn lemma_round_trip_text(v: String)
    ensures
        to_text(<Value as FromSpec<String>>::from_spec(v)@) == Ok::<Seq<char>, Failure>(v@),
{
}

/// The integer that a value of one of the four integer kinds holds.
pub open spec fn integer_held(t: Tree) -> int
    recommends
        t is Integer || t is LongInteger || t is UInteger || t is ULongInteger,
{
    match t {
        Tree::Integer(v) => v as int,
        Tree::LongInteger(v) => v as int,
        Tree::UInteger(v) => v as int,
        Tree::ULongInteger(v) => v as int,
        _ => 0,
    }
}

/// The name of the integer type that a value of one of the four integer
/// kinds holds.
pub open spec fn integer_name(t: Tree) -> Seq<char>
    recommends
        t is Integer || t is LongInteger || t is UInteger || t is ULongInteger,
{
    match t {
        Tree::Integer(_) => "i64"@,
        Tree::LongInteger(_) => "i128"@,
        Tree::UInteger(_) => "u64"@,
        _ => "u128"@,
    }
}

/// An integer reads as any integer type that holds it, and as no other:
/// outside the type the reading fails with the names of both types.
pub proof fn lemma_narrowing(t: Tree, kind: IntKind)
    requires
        t is Integer || t is LongInteger || t is UInteger || t is ULongInteger,
    ensures
        kind.min() <= integer_held(t) <= kind.max() ==> to_integer(t, kind) == Ok::<int, Failure>(
            integer_held(t),
        ),
        !(kind.min() <= integer_held(t) <= kind.max()) ==> to_integer(t, kind) == Err::<
            int,
            Failure,
        >(out_of_bounds(integer_name(t), kind.name())),
{
}

/// A number of kind `Float` that lies outside an integer type fails to read
/// as that type, with the names of both types, unless the type is one of
/// the three that take the nearer bound instead.
pub proof fn lemma_float_narrowing(bits: u64, kind: IntKind)
    requires
        !kind.saturating(),
        !(kind.min() <= float_cast(bits, i128::MIN as int, i128::MAX as int) <= kind.max()),
    ensures
        to_integer(Tree::Float(bits), kind) == Err::<int, Failure>(
            out_of_bounds("f64"@, kind.name()),
        ),
{
}

/// A number of kind `Float` reads as one of the three integer types that
/// take the nearer bound whatever it is: never a failure.
pub proof fn lemma_float_saturates(bits: u64, kind: IntKind)
    requires
        kind.saturating(),
    ensures
        to_integer(Tree::Float(bits), kind) == Ok::<int, Failure>(
            float_cast(bits, kind.min(), kind.max()),
        ),
        kind.min() <= float_cast(bits, kind.min(), kind.max()) <= kind.max(),
{
}

} // verus!
