//! A cartridge image and the three facts its header states: how many ROM
//! banks and RAM banks it carries, and whether it targets colour hardware.

use vstd::arithmetic::power2::{lemma2_to64, pow2};
use vstd::prelude::*;

verus! {

/// Header offset of the colour-support flag.
pub const CGB_FLAG_OFFSET: usize = 0x143;

/// Header offset of the ROM size code.
pub const ROM_SIZE_OFFSET: usize = 0x148;

/// Header offset of the RAM size code.
pub const RAM_SIZE_OFFSET: usize = 0x149;

/// Why a cartridge image cannot be run.
#[derive(Clone, Copy, Debug, PartialEq, Eq, Structural)]
pub enum HeaderFault {
    /// The image ends before the header fields do.
    TooShort,
    /// The ROM size code, which stands for no bank count.
    UnsupportedRomSize(u8),
    /// The RAM size code, which stands for no bank count.
    UnsupportedRamSize(u8),
}

/// A cartridge image, byte for byte.
pub struct Cartidge {
    pub content: Vec<u8>,
}

/// Number of 16 KiB ROM banks that a ROM size code stands for: the codes up
/// to 8 double from 2 on, three further codes name odd sizes.
pub open spec fn rom_banks_of(code: u8) -> Option<nat> {
    if code <= 0x08 {
        Some(2 * pow2(code as nat))
    } else if code == 0x52 {
        Some(72)
    } else if code == 0x53 {
        Some(80)
    } else if code == 0x54 {
        Some(96)
    } else {
        None
    }
}

/// Number of 8 KiB RAM banks that a RAM size code stands for.
pub open spec fn ram_banks_of(code: u8) -> Option<nat> {
    if code == 0x00 {
        Some(0)
    } else if code == 0x02 {
        Some(1)
    } else if code == 0x03 {
        Some(4)
    } else if code == 0x04 {
        Some(16)
    } else if code == 0x05 {
        Some(8)
    } else {
        None
    }
}

/// Whether a colour-support flag marks a cartridge as colour-capable.
pub open spec fn cgb_of(flag: u8) -> bool {
    flag == 0x80 || flag == 0xC0
}

impl Cartidge {
    /// The image is long enough to hold the header fields, and both size
    /// codes are known.
    pub open spec fn supported(&self) -> bool {
        &&& self.content@.len() > RAM_SIZE_OFFSET
        &&& rom_banks_of(self.content@[ROM_SIZE_OFFSET as int]).is_some()
        &&& ram_banks_of(self.content@[RAM_SIZE_OFFSET as int]).is_some()
    }

    /// Wraps an image held in memory.
    pub fn new_from_bytes(content: Vec<u8>) -> (cart: Self)
        ensures
            cart.content@ == content@,
    {
        Cartidge { content }
    }

    /// What, if anything, keeps the image from being `supported`: its
    /// length first, then the ROM size code, then the RAM size code.
    pub open spec fn header_fault(&self) -> Option<HeaderFault> {
        if self.content@.len() <= RAM_SIZE_OFFSET {
            Some(HeaderFault::TooShort)
        } else if rom_banks_of(self.content@[ROM_SIZE_OFFSET as int]).is_none() {
            Some(HeaderFault::UnsupportedRomSize(self.content@[ROM_SIZE_OFFSET as int]))
        } else if ram_banks_of(self.content@[RAM_SIZE_OFFSET as int]).is_none() {
            Some(HeaderFault::UnsupportedRamSize(self.content@[RAM_SIZE_OFFSET as int]))
        } else {
            None
        }
    }

    /// Checks the header, so that a caller can refuse an image before it
    /// asks for its bank counts.
    pub fn check_header(&self) -> (outcome: Result<(), HeaderFault>)
        ensures
            outcome.is_ok() == self.supported(),
            match outcome {
                Ok(_) => self.header_fault().is_none(),
                Err(fault) => self.header_fault() == Some(fault),
            },
    {
        if self.content.len() <= RAM_SIZE_OFFSET {
            return Err(HeaderFault::TooShort);
        }
        let rom: u8 = self.content[ROM_SIZE_OFFSET];
        let ram: u8 = self.content[RAM_SIZE_OFFSET];
        if !(rom <= 0x08 || rom == 0x52 || rom == 0x53 || rom == 0x54) {
            return Err(HeaderFault::UnsupportedRomSize(rom));
        }
        if !(ram == 0x00 || (0x02 <= ram && ram <= 0x05)) {
            return Err(HeaderFault::UnsupportedRamSize(ram));
        }
        Ok(())
    }

    /// Number of ROM banks, from the size code in the header.
    pub fn get_rom_banks(&self) -> (banks: usize)
        requires
            self.content@.len() > ROM_SIZE_OFFSET,
            rom_banks_of(self.content@[ROM_SIZE_OFFSET as int]).is_some(),
        ensures
            Some(banks as nat) == rom_banks_of(self.content@[ROM_SIZE_OFFSET as int]),
            2 <= banks <= 512,
    {
        proof {
            lemma2_to64();
        }
        match self.content[ROM_SIZE_OFFSET] {
            0x00 => 2,
            0x01 => 4,
            0x02 => 8,
            0x03 => 16,
            0x04 => 32,
            0x05 => 64,
            0x06 => 128,
            0x07 => 256,
            0x08 => 512,
            0x52 => 72,
            0x53 => 80,
            _ => 96,
        }
    }

    /// Number of cartridge RAM banks, from the size code in the header.
    pub fn get_ram_banks(&self) -> (banks: usize)
        requires
            self.content@.len() > RAM_SIZE_OFFSET,
            ram_banks_of(self.content@[RAM_SIZE_OFFSET as int]).is_some(),
        ensures
            Some(banks as nat) == ram_banks_of(self.content@[RAM_SIZE_OFFSET as int]),
            banks <= 16,
    {
        match self.content[RAM_SIZE_OFFSET] {
            0x00 => 0,
            0x02 => 1,
            0x03 => 4,
            0x04 => 16,
            _ => 8,
        }
    }

    /// Whether the header marks the cartridge as colour-capable.
    pub fn get_cgb(&self) -> (cgb: bool)
        requires
            self.content@.len() > CGB_FLAG_OFFSET,
        ensures
            cgb == cgb_of(self.content@[CGB_FLAG_OFFSET as int]),
    {
        match self.content[CGB_FLAG_OFFSET] {
            0x80 => true,
            0xC0 => true,
            _ => false,
        }
    }
}

} // verus!
