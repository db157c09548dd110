//! The errors that loading a cartridge or running the machine can give.

use vstd::prelude::*;

verus! {

/// What went wrong while a cartridge image was read.
#[derive(Clone, Copy, Debug, PartialEq, Eq, Structural)]
pub enum LoadError {
    /// The image is shorter than its header announces.
    Truncated,
    /// The first four bytes are not the container's magic number.
    InvalidMagic,
    /// The cartridge asks for mapper hardware that is not modelled.
    UnsupportedMapper,
    /// The cartridge has no program ROM at the reset vector.
    NoResetVector,
}

/// What went wrong while the machine was running.
#[derive(Clone, Copy, Debug, PartialEq, Eq, Structural)]
pub enum NesError {
    /// A read or write resolved to no target on the CPU or PPU bus.
    BadAddress,
    /// The CPU fetched a byte that is no official opcode.
    Decode,
    /// A colour index lies outside the system palette.
    BadColor,
}

impl LoadError {
    /// The text of the description.
    pub open spec fn text(self) -> Seq<char> {
        match self {
            LoadError::Truncated => "cartridge image is truncated"@,
            LoadError::InvalidMagic => "cartridge image has an invalid magic number"@,
            LoadError::UnsupportedMapper => "cartridge mapper is not supported"@,
            LoadError::NoResetVector => "cartridge has no reset vector"@,
        }
    }

    /// A short description, for diagnostics.
    pub fn message(&self) -> (r: &'static str)
        ensures
            r@ == self.text(),
    {
        match self {
            LoadError::Truncated => "cartridge image is truncated",
            LoadError::InvalidMagic => "cartridge image has an invalid magic number",
            LoadError::UnsupportedMapper => "cartridge mapper is not supported",
            LoadError::NoResetVector => "cartridge has no reset vector",
        }
    }
}

impl NesError {
    /// The text of the description.
    pub open spec fn text(self) -> Seq<char> {
        match self {
            NesError::BadAddress => "bad address on bus"@,
            NesError::Decode => "invalid opcode"@,
            NesError::BadColor => "invalid color palette index"@,
        }
    }

    /// A short description, for diagnostics.
    pub fn message(&self) -> (r: &'static str)
        ensures
            r@ == self.text(),
    {
        match self {
            NesError::BadAddress => "bad address on bus",
            NesError::Decode => "invalid opcode",
            NesError::BadColor => "invalid color palette index",
        }
    }
}

} // verus!
