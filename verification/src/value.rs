//! The values that a field of an object can hold.

use vstd::prelude::*;

verus! {

/// A storable datum of the virtual machine: one of the primitive kinds, or a
/// reference to a heap object by its id.
///
/// The two floating-point kinds are held as their IEEE 754 bit patterns, so
/// that two values are equal exactly when their representations are.
#[allow(inconsistent_fields)]
#[derive(Clone, Copy, Debug, PartialEq, Eq, Structural)]
pub enum JvmValue {
    Boolean { val: bool },
    Byte { val: i8 },
    Short { val: i16 },
    Int { val: i32 },
    Long { val: i64 },
    Float { bits: u32 },
    Double { bits: u64 },
    Char { val: char },
    ObjRef { val: usize },
}

} // verus!
