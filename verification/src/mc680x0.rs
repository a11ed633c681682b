//! A placeholder for a second CPU family: the design keeps the decoder and
//! orchestrator parameterized over a capability interface, and this family
//! is not decoded yet.

use vstd::prelude::*;

verus! {

/// The register file of the family: accumulator, index registers, stack
/// pointer, program counter and status flags.
#[allow(dead_code)]
pub struct MC680x0 {
    a: u8,
    x: u8,
    y: u8,
    sp: u8,
    pc: u16,
    n: bool,
    v: bool,
    d: bool,
    i: bool,
    z: bool,
    c: bool,
}

} // verus!
