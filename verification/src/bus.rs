//! The 16-bit address space: seven fixed regions, each backed by a bank, and
//! the routing of every read and write to the byte it means.

use crate::cartridge::{
    cgb_of, ram_banks_of, rom_banks_of, Cartidge, CGB_FLAG_OFFSET, RAM_SIZE_OFFSET,
    ROM_SIZE_OFFSET,
};
use crate::memory_bank::{zeroed, BankView, MemoryBank};
use vstd::prelude::*;

verus! {

/// The regions of the address space, from the lowest address up.
#[derive(Clone, Copy, Debug, PartialEq, Eq, Structural)]
pub enum Region {
    /// `0x0000..=0x3FFF`: the first 16 KiB of cartridge ROM, bankless.
    FixedRom,
    /// `0x4000..=0x7FFF`: the selected 16 KiB bank of cartridge ROM.
    SwitchableRom,
    /// `0x8000..=0x9FFF`: the selected 8 KiB bank of video RAM.
    VideoRam,
    /// `0xA000..=0xBFFF`: the selected 8 KiB bank of cartridge RAM.
    CartridgeRam,
    /// `0xC000..=0xCFFF`: 4 KiB of working RAM, never switched.
    WorkRam,
    /// `0xD000..=0xDFFF`: the selected 4 KiB bank of working RAM.
    SwitchableWorkRam,
    /// `0xE000..=0xFFFF`: the rest, bankless.
    Mirror,
}

/// The region that an address falls into.
pub open spec fn region_of(address: u16) -> Region {
    if address < 0x4000 {
        Region::FixedRom
    } else if address < 0x8000 {
        Region::SwitchableRom
    } else if address < 0xA000 {
        Region::VideoRam
    } else if address < 0xC000 {
        Region::CartridgeRam
    } else if address < 0xD000 {
        Region::WorkRam
    } else if address < 0xE000 {
        Region::SwitchableWorkRam
    } else {
        Region::Mirror
    }
}

/// First address of a region.
pub open spec fn region_base(region: Region) -> u16 {
    match region {
        Region::FixedRom => 0x0000,
        Region::SwitchableRom => 0x4000,
        Region::VideoRam => 0x8000,
        Region::CartridgeRam => 0xA000,
        Region::WorkRam => 0xC000,
        Region::SwitchableWorkRam => 0xD000,
        Region::Mirror => 0xE000,
    }
}

/// Number of addresses in a region.
pub open spec fn region_size(region: Region) -> nat {
    match region {
        Region::FixedRom => 0x4000,
        Region::SwitchableRom => 0x4000,
        Region::VideoRam => 0x2000,
        Region::CartridgeRam => 0x2000,
        Region::WorkRam => 0x1000,
        Region::SwitchableWorkRam => 0x1000,
        Region::Mirror => 0x2000,
    }
}

/// Whether `address` lies between a region's first and last address.
pub open spec fn region_contains(region: Region, address: u16) -> bool {
    region_base(region) <= address < region_base(region) + region_size(region)
}

/// Whether accesses to a region ignore the selected bank.
pub open spec fn is_bankless(region: Region) -> bool {
    region == Region::FixedRom || region == Region::Mirror
}

/// The address inside its region: the distance from the region's base.
pub open spec fn in_region(address: u16) -> u16 {
    (address - region_base(region_of(address))) as u16
}

/// The regions are disjoint and cover the address space: every address lies
/// in the region that `region_of` names, and in no other.
pub proof fn lemma_regions_partition(address: u16, region: Region)
    ensures
        region_contains(region, address) <==> region == region_of(address),
{
}

/// Finds the region of an address.
pub fn region_at(address: u16) -> (region: Region)
    ensures
        region == region_of(address),
        region_contains(region, address),
{
    match address {
        0x0000..=0x3FFF => Region::FixedRom,
        0x4000..=0x7FFF => Region::SwitchableRom,
        0x8000..=0x9FFF => Region::VideoRam,
        0xA000..=0xBFFF => Region::CartridgeRam,
        0xC000..=0xCFFF => Region::WorkRam,
        0xD000..=0xDFFF => Region::SwitchableWorkRam,
        _ => Region::Mirror,
    }
}

/// The regions are laid end to end: the first starts at address 0, each
/// next one where the one before stops, and the last stops at `0xFFFF`.
pub proof fn lemma_regions_contiguous()
    ensures
        region_base(Region::FixedRom) == 0,
        region_base(Region::SwitchableRom) == region_base(Region::FixedRom) + region_size(
            Region::FixedRom,
        ),
        region_base(Region::VideoRam) == region_base(Region::SwitchableRom) + region_size(
            Region::SwitchableRom,
        ),
        region_base(Region::CartridgeRam) == region_base(Region::VideoRam) + region_size(
            Region::VideoRam,
        ),
        region_base(Region::WorkRam) == region_base(Region::CartridgeRam) + region_size(
            Region::CartridgeRam,
        ),
        region_base(Region::SwitchableWorkRam) == region_base(Region::WorkRam) + region_size(
            Region::WorkRam,
        ),
        region_base(Region::Mirror) == region_base(Region::SwitchableWorkRam) + region_size(
            Region::SwitchableWorkRam,
        ),
        region_base(Region::Mirror) + region_size(Region::Mirror) == 0x10000,
{
}

/// What a bus is, mathematically: the six banks behind the seven regions.
/// Both ROM regions are windows onto the one ROM bank.
pub struct BusView {
    pub rom: BankView,
    pub vram: BankView,
    pub cart_ram: BankView,
    pub wram: BankView,
    pub wram_banked: BankView,
    pub mirror: BankView,
}

impl BusView {
    /// The bank behind a region.
    pub open spec fn bank(self, region: Region) -> BankView {
        match region {
            Region::FixedRom => self.rom,
            Region::SwitchableRom => self.rom,
            Region::VideoRam => self.vram,
            Region::CartridgeRam => self.cart_ram,
            Region::WorkRam => self.wram,
            Region::SwitchableWorkRam => self.wram_banked,
            Region::Mirror => self.mirror,
        }
    }

    /// The bus with the bank behind `region` replaced.
    pub open spec fn with_bank(self, region: Region, bank: BankView) -> BusView {
        match region {
            Region::FixedRom => BusView { rom: bank, ..self },
            Region::SwitchableRom => BusView { rom: bank, ..self },
            Region::VideoRam => BusView { vram: bank, ..self },
            Region::CartridgeRam => BusView { cart_ram: bank, ..self },
            Region::WorkRam => BusView { wram: bank, ..self },
            Region::SwitchableWorkRam => BusView { wram_banked: bank, ..self },
            Region::Mirror => BusView { mirror: bank, ..self },
        }
    }

    /// Every bank has the storage its shape calls for.
    pub open spec fn wf(self) -> bool {
        &&& self.rom.wf()
        &&& self.vram.wf()
        &&& self.cart_ram.wf()
        &&& self.wram.wf()
        &&& self.wram_banked.wf()
        &&& self.mirror.wf()
    }

    /// Whether `address` reaches a stored byte.
    #[verifier::opaque]
    pub open spec fn holds(self, address: u16) -> bool {
        let region = region_of(address);
        if is_bankless(region) {
            self.bank(region).holds_bankless(in_region(address))
        } else {
            self.bank(region).holds(in_region(address))
        }
    }

    /// What a read of `address` sees: the byte of the region's bank at the
    /// in-region address, or nothing where the bank does not reach that far.
    #[verifier::opaque]
    pub open spec fn read(self, address: u16) -> Option<u8> {
        let region = region_of(address);
        if is_bankless(region) {
            self.bank(region).read_bankless(in_region(address))
        } else {
            self.bank(region).read(in_region(address))
        }
    }

    /// The bus after `value` has been written to `address`.
    #[verifier::opaque]
    pub open spec fn write(self, address: u16, value: u8) -> BusView {
        let region = region_of(address);
        if is_bankless(region) {
            self.with_bank(region, self.bank(region).write_bankless(in_region(address), value))
        } else {
            self.with_bank(region, self.bank(region).write(in_region(address), value))
        }
    }
}

/// The bus of a machine as it is switched on: six zeroed banks, shaped by
/// the cartridge's bank counts and by the hardware kind, with the cartridge
/// image copied over the start of the ROM bank. ROM bank 1 is the one
/// selected at the start; every other region starts at bank 0.
pub open spec fn power_on(rom_banks: nat, ram_banks: nat, cgb: bool, image: Seq<u8>) -> BusView {
    BusView {
        rom: zeroed(0x4000, rom_banks, 1).load(image),
        vram: zeroed(0x2000, if cgb { 2 } else { 1 }, 0),
        cart_ram: zeroed(0x2000, ram_banks, 0),
        wram: zeroed(0x1000, 1, 0),
        wram_banked: zeroed(0x1000, if cgb { 7 } else { 1 }, 0),
        mirror: zeroed(0x2000, 1, 0),
    }
}

/// The memory of a machine as it is switched on, for a cartridge of at
/// least two ROM banks: every address holds a byte, but those of the
/// cartridge RAM where the cartridge has none; the ROM regions show the
/// image, and zero past its end; every other byte is zero.
pub proof fn lemma_power_on_memory(
    rom_banks: nat,
    ram_banks: nat,
    cgb: bool,
    image: Seq<u8>,
    address: u16,
)
    requires
        rom_banks >= 2,
    ensures
        power_on(rom_banks, ram_banks, cgb, image).wf(),
        power_on(rom_banks, ram_banks, cgb, image).holds(address) <==> (region_of(address)
            != Region::CartridgeRam || ram_banks > 0),
        address < 0x8000 ==> power_on(rom_banks, ram_banks, cgb, image).read(address) == Some(
            if address < image.len() {
                image[address as int]
            } else {
                0u8
            },
        ),
        address >= 0x8000 && power_on(rom_banks, ram_banks, cgb, image).holds(address) ==> power_on(
            rom_banks,
            ram_banks,
            cgb,
            image,
        ).read(address) == Some(0u8),
{
    reveal(BusView::read);
    reveal(BusView::holds);
    let bus = power_on(rom_banks, ram_banks, cgb, image);
    assert(bus.rom.storage.len() >= 0x8000) by (nonlinear_arith)
        requires
            bus.rom.storage.len() == 0x4000 * rom_banks,
            rom_banks >= 2,
    ;
    assert(ram_banks > 0 ==> bus.cart_ram.storage.len() >= 0x2000) by (nonlinear_arith)
        requires
            bus.cart_ram.storage.len() == 0x2000 * ram_banks,
    ;
    assert(ram_banks == 0 ==> bus.cart_ram.storage.len() == 0) by (nonlinear_arith)
        requires
            bus.cart_ram.storage.len() == 0x2000 * ram_banks,
    ;
    assert(bus.rom.current_bank as int * bus.rom.bank_size as int == 0x4000) by (nonlinear_arith)
        requires
            bus.rom.current_bank == 1,
            bus.rom.bank_size == 0x4000,
    ;
}

/// A read finds a byte exactly where the address reaches one.
pub proof fn lemma_read_total(bus: BusView, address: u16)
    ensures
        bus.read(address).is_some() <==> bus.holds(address),
{
    reveal(BusView::read);
    reveal(BusView::holds);
}

/// A byte written is the byte read back, and a write changes no bank's
/// shape, so what was reachable stays reachable.
pub proof fn lemma_write_read(bus: BusView, address: u16, value: u8, other: u16)
    requires
        bus.holds(address),
    ensures
        bus.write(address, value).read(address) == Some(value),
        bus.write(address, value).holds(other) == bus.holds(other),
        bus.wf() ==> bus.write(address, value).wf(),
        region_of(other) != region_of(address) && !(region_of(other) == Region::FixedRom
            && region_of(address) == Region::SwitchableRom) && !(region_of(other)
            == Region::SwitchableRom && region_of(address) == Region::FixedRom) ==> bus.write(
            address,
            value,
        ).read(other) == bus.read(other),
{
    reveal(BusView::read);
    reveal(BusView::holds);
    reveal(BusView::write);
}

/// The address bus.
pub struct Bus {
    cartridge_rom: MemoryBank,
    cgb_switchable_ram: MemoryBank,
    cartridge_switchable_ram: MemoryBank,
    non_switchable_region: MemoryBank,
    second_cgb_switchable_ram: MemoryBank,
    rest_ram: MemoryBank,
}

impl View for Bus {
    type V = BusView;

    closed spec fn view(&self) -> BusView {
        BusView {
            rom: self.cartridge_rom@,
            vram: self.cgb_switchable_ram@,
            cart_ram: self.cartridge_switchable_ram@,
            wram: self.non_switchable_region@,
            wram_banked: self.second_cgb_switchable_ram@,
            mirror: self.rest_ram@,
        }
    }
}

impl Bus {
    fn build(rom_banks: usize, ram_banks: usize, is_cgb: bool, image: &Vec<u8>) -> (bus: Self)
        requires
            rom_banks <= 512,
            ram_banks <= 16,
        ensures
            bus@ == power_on(rom_banks as nat, ram_banks as nat, is_cgb, image@),
            bus@.wf(),
    {
        let mut cartridge_rom = MemoryBank::new(16 * 1024, rom_banks, 1);
        cartridge_rom.load(image);
        let cartridge_switchable_ram = MemoryBank::new(8 * 1024, ram_banks, 0);
        let cgb_switchable_ram = if is_cgb {
            MemoryBank::new(8 * 1024, 2, 0)
        } else {
            MemoryBank::new(8 * 1024, 1, 0)
        };
        let second_cgb_switchable_ram = if is_cgb {
            MemoryBank::new(4 * 1024, 7, 0)
        } else {
            MemoryBank::new(4 * 1024, 1, 0)
        };
        let non_switchable_region = MemoryBank::new(4 * 1024, 1, 0);
        let rest_ram = MemoryBank::new(8 * 1024, 1, 0);
        Bus {
            cartridge_rom,
            cgb_switchable_ram,
            cartridge_switchable_ram,
            non_switchable_region,
            second_cgb_switchable_ram,
            rest_ram,
        }
    }

    /// The bus for a cartridge, shaped by what its header states.
    pub fn new(cart: Cartidge) -> (bus: Self)
        requires
            cart.supported(),
        ensures
            bus@ == power_on(
                rom_banks_of(cart.content@[ROM_SIZE_OFFSET as int]).unwrap(),
                ram_banks_of(cart.content@[RAM_SIZE_OFFSET as int]).unwrap(),
                cgb_of(cart.content@[CGB_FLAG_OFFSET as int]),
                cart.content@,
            ),
            bus@.wf(),
    {
        let is_cgb: bool = cart.get_cgb();
        let rom_banks: usize = cart.get_rom_banks();
        let cartridge_ram: usize = cart.get_ram_banks();
        Self::build(rom_banks, cartridge_ram, is_cgb, &cart.content)
    }

    /// A colour-hardware bus with two ROM banks and one cartridge RAM bank,
    /// whatever the header says: for images that carry no header.
    pub fn new_test(cart: Cartidge) -> (bus: Self)
        ensures
            bus@ == power_on(2, 1, true, cart.content@),
            bus@.wf(),
    {
        Self::build(2, 1, true, &cart.content)
    }

    /// Stores `value` at `address`.
    pub fn write(&mut self, address: u16, value: u8)
        requires
            old(self)@.holds(address),
        ensures
            final(self)@ == old(self)@.write(address, value),
    {
        reveal(BusView::holds);
        reveal(BusView::write);
        match region_at(address) {
            Region::FixedRom => {
                self.cartridge_rom.write_bankless(address, value);
            },
            Region::SwitchableRom => {
                self.cartridge_rom.write(address - 0x4000, value);
            },
            Region::VideoRam => {
                self.cgb_switchable_ram.write(address - 0x8000, value);
            },
            Region::CartridgeRam => {
                self.cartridge_switchable_ram.write(address - 0xA000, value);
            },
            Region::WorkRam => {
                self.non_switchable_region.write(address - 0xC000, value);
            },
            Region::SwitchableWorkRam => {
                self.second_cgb_switchable_ram.write(address - 0xD000, value);
            },
            Region::Mirror => {
                self.rest_ram.write_bankless(address - 0xE000, value);
            },
        }
    }

    /// The byte at `address`, or nothing where the region's bank does not
    /// reach that far.
    pub fn read(&self, address: u16) -> (byte: Option<u8>)
        ensures
            byte == self@.read(address),
            byte.is_some() == self@.holds(address),
    {
        reveal(BusView::read);
        reveal(BusView::holds);
        match region_at(address) {
            Region::FixedRom => self.cartridge_rom.read_bankless(address),
            Region::SwitchableRom => self.cartridge_rom.read(address - 0x4000),
            Region::VideoRam => self.cgb_switchable_ram.read(address - 0x8000),
            Region::CartridgeRam => self.cartridge_switchable_ram.read(address - 0xA000),
            Region::WorkRam => self.non_switchable_region.read(address - 0xC000),
            Region::SwitchableWorkRam => self.second_cgb_switchable_ram.read(address - 0xD000),
            Region::Mirror => self.rest_ram.read_bankless(address - 0xE000),
        }
    }
}

} // verus!
