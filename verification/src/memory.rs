//! A read-only binary memory image with a base load address, supplying
//! bounds-checked byte and little-endian word reads by offset.

use vstd::prelude::*;

verus! {

/// The value of a byte read as a signed 8-bit quantity.
pub open spec fn sign8(b: u8) -> int {
    if b < 0x80 {
        b as int
    } else {
        b - 256
    }
}

/// A little-endian 16-bit word assembled from two bytes.
pub open spec fn word_le(lo: u8, hi: u8) -> int {
    lo + 256 * hi
}

/// A read-only byte buffer together with the absolute address at which it
/// is loaded.  All reads are bounds-checked by the caller: an offset is
/// valid only below the buffer's size.
#[derive(Debug)]
pub struct BinaryBuffer {
    data: Vec<u8>,
    loaded_address: u32,
    buffer_size: usize,
}

impl BinaryBuffer {
    /// The bytes of the image.
    pub closed spec fn spec_data(&self) -> Seq<u8> {
        self.data@
    }

    /// The absolute address of the first byte of the image.
    pub closed spec fn spec_loaded_address(&self) -> u32 {
        self.loaded_address
    }

    /// The image fits the 16-bit program counter that walks it, and every
    /// absolute address `loaded_address + offset` inside it fits in 32 bits.
    pub closed spec fn wf(&self) -> bool {
        &&& self.buffer_size == self.data@.len()
        &&& self.data@.len() <= 0x10000
        &&& self.loaded_address + self.data@.len() <= 0x1_0000_0000
    }

    /// What well-formedness guarantees about the publicly visible model.
    pub proof fn lemma_wf(&self)
        requires
            self.wf(),
        ensures
            self.spec_data().len() <= 0x10000,
            self.spec_loaded_address() + self.spec_data().len() <= 0x1_0000_0000,
    {
    }

    pub fn new(data: Vec<u8>, loaded_address: u32) -> (r: BinaryBuffer)
        requires
            data@.len() <= 0x10000,
            loaded_address + data@.len() <= 0x1_0000_0000,
        ensures
            r.wf(),
            r.spec_data() == data@,
            r.spec_loaded_address() == loaded_address,
    {
        BinaryBuffer { buffer_size: data.len(), data, loaded_address }
    }

    pub fn get_size(&self) -> (r: usize)
        requires
            self.wf(),
        ensures
            r == self.spec_data().len(),
    {
        self.buffer_size
    }

    pub fn get_loaded_address(&self) -> (r: u32)
        ensures
            r == self.spec_loaded_address(),
    {
        self.loaded_address
    }

    pub fn read_byte(&self, offset: u32) -> (r: u8)
        requires
            offset < self.spec_data().len(),
        ensures
            r == self.spec_data()[offset as int],
    {
        self.data[offset as usize]
    }

    pub fn read_signed_byte(&self, offset: u32) -> (r: i8)
        requires
            offset < self.spec_data().len(),
        ensures
            r as int == sign8(self.spec_data()[offset as int]),
    {
        let b = self.data[offset as usize];
        if b < 0x80 {
            b as i8
        } else {
            (b as i16 - 256) as i8
        }
    }

    /// Reads a 16-bit word, low byte at `offset`, high byte at `offset + 1`.
    pub fn read_word_le(&self, offset: u32) -> (r: u16)
        requires
            self.wf(),
            offset + 1 < self.spec_data().len(),
        ensures
            r as int == word_le(
                self.spec_data()[offset as int],
                self.spec_data()[offset as int + 1],
            ),
    {
        let lo = self.data[offset as usize];
        let hi = self.data[(offset + 1) as usize];
        lo as u16 + 256 * hi as u16
    }

    /// Reads a 16-bit word, high byte at `offset`, low byte at `offset + 1`.
    #[allow(dead_code)]
    fn read_word_be(&self, offset: u32) -> (r: u16)
        requires
            self.wf(),
            offset + 1 < self.spec_data().len(),
        ensures
            r as int == word_le(
                self.spec_data()[offset as int + 1],
                self.spec_data()[offset as int],
            ),
    {
        let hi = self.data[offset as usize];
        let lo = self.data[(offset + 1) as usize];
        lo as u16 + 256 * hi as u16
    }
}

} // verus!
