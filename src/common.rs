//! Plain vector, color and matrix records shared by the engine's data structures.
use vstd::prelude::*;

use crate::fixed::{Fixed16, Fixed32};

verus! {

/// An address in the game's 32-bit address space. It is kept as a number: on most
/// hosts that address space is not the process's own.
#[derive(Debug, Clone, Copy, PartialEq, Eq, Structural)]
pub struct Ptr32 {
    value: u32,
}

impl Ptr32 {
    pub closed spec fn spec_value(&self) -> u32 {
        self.value
    }

    pub fn new(value: u32) -> (r: Self)
        ensures
            r.spec_value() == value,
    {
        Ptr32 { value }
    }

    /// The bits of the address.
    pub fn as_int(&self) -> (r: u32)
        ensures
            r == self.spec_value(),
    {
        self.value
    }

    pub fn is_null(&self) -> (r: bool)
        ensures
            r == (self.spec_value() == 0),
    {
        self.value == 0
    }
}

/// A 3D vector with 16-bit components, padded to 8 bytes.
#[derive(Debug, Clone, Copy, PartialEq, Eq, Structural)]
pub struct SVECTOR {
    pub vx: Fixed16,
    pub vy: Fixed16,
    pub vz: Fixed16,
    pub pad: Fixed16,
}

/// A 3D vector with 16-bit components and no padding.
#[derive(Debug, Clone, Copy, PartialEq, Eq, Structural)]
pub struct SSVECTOR {
    pub vx: Fixed16,
    pub vy: Fixed16,
    pub vz: Fixed16,
}

/// A 3D vector with 32-bit components.
#[derive(Debug, Clone, Copy, PartialEq, Eq, Structural)]
pub struct VECTOR {
    pub x: Fixed32,
    pub y: Fixed32,
    pub z: Fixed32,
}

/// A color with a code byte.
#[derive(Debug, Clone, Copy, PartialEq, Eq, Structural)]
pub struct CVECTOR {
    pub r: u8,
    pub g: u8,
    pub b: u8,
    pub cd: u8,
}

/// A 3x3 transformation matrix plus a translation vector.
#[derive(Debug, Clone, Copy, PartialEq, Eq)]
pub struct MATRIX {
    pub m: [Fixed16; 9],
    pub pad: u16,
    pub t: VECTOR,
}

} // verus!
