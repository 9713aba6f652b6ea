use gbc::bus::{region_at, Bus, Region};
use gbc::cartridge::Cartidge;

fn image(cgb: u8, rom: u8, ram: u8) -> Vec<u8> {
    let mut content = vec![0u8; 0x8000];
    content[0x143] = cgb;
    content[0x148] = rom;
    content[0x149] = ram;
    content
}

#[test]
fn every_address_of_the_test_bus_holds_a_byte() {
    let bus = Bus::new_test(Cartidge::new_from_bytes(vec![]));
    for address in 0..=0xFFFFu16 {
        assert_eq!(bus.read(address), Some(0));
    }
}

#[test]
fn rom_regions_show_the_image() {
    let mut content = image(0, 0, 0);
    content[0x0000] = 0x11;
    content[0x3FFF] = 0x22;
    content[0x4000] = 0x33;
    content[0x7FFF] = 0x44;
    let bus = Bus::new(Cartidge::new_from_bytes(content));
    assert_eq!(bus.read(0x0000), Some(0x11));
    assert_eq!(bus.read(0x3FFF), Some(0x22));
    assert_eq!(bus.read(0x4000), Some(0x33));
    assert_eq!(bus.read(0x7FFF), Some(0x44));
    assert_eq!(bus.read(0x0143), Some(0));
}

#[test]
fn short_image_reads_zero_past_its_end() {
    let bus = Bus::new_test(Cartidge::new_from_bytes(vec![0xAB, 0xCD]));
    assert_eq!(bus.read(0), Some(0xAB));
    assert_eq!(bus.read(1), Some(0xCD));
    assert_eq!(bus.read(2), Some(0));
    assert_eq!(bus.read(0x7FFF), Some(0));
}

#[test]
fn cartridge_without_ram_leaves_its_region_empty() {
    let bus = Bus::new(Cartidge::new_from_bytes(image(0, 0, 0)));
    assert_eq!(bus.read(0x9FFF), Some(0));
    assert_eq!(bus.read(0xA000), None);
    assert_eq!(bus.read(0xBFFF), None);
    assert_eq!(bus.read(0xC000), Some(0));
}

#[test]
fn cartridge_with_ram_fills_its_region() {
    let bus = Bus::new(Cartidge::new_from_bytes(image(0, 0, 0x02)));
    assert_eq!(bus.read(0xA000), Some(0));
    assert_eq!(bus.read(0xBFFF), Some(0));
}

#[test]
fn write_then_read_at_each_region_boundary() {
    let mut bus = Bus::new_test(Cartidge::new_from_bytes(vec![]));
    let addresses: [u16; 14] = [
        0x0000, 0x3FFF, 0x4000, 0x7FFF, 0x8000, 0x9FFF, 0xA000, 0xBFFF, 0xC000, 0xCFFF, 0xD000,
        0xDFFF, 0xE000, 0xFFFF,
    ];
    let mut value: u8 = 1;
    for address in addresses {
        bus.write(address, value);
        value += 1;
    }
    let mut expected: u8 = 1;
    for address in addresses {
        assert_eq!(bus.read(address), Some(expected));
        expected += 1;
    }
}

#[test]
fn write_changes_no_other_address() {
    let mut bus = Bus::new_test(Cartidge::new_from_bytes(vec![]));
    bus.write(0xD123, 0x5A);
    for address in 0..=0xFFFFu16 {
        let expected = if address == 0xD123 { 0x5A } else { 0 };
        assert_eq!(bus.read(address), Some(expected));
    }
}

#[test]
fn video_ram_and_cartridge_ram_are_apart() {
    let mut bus = Bus::new_test(Cartidge::new_from_bytes(vec![]));
    bus.write(0x8000, 1);
    bus.write(0xA000, 2);
    assert_eq!(bus.read(0x8000), Some(1));
    assert_eq!(bus.read(0xA000), Some(2));
}

#[test]
fn classic_and_colour_buses_answer_alike_at_bank_zero() {
    let classic = Bus::new(Cartidge::new_from_bytes(image(0x00, 0, 0x03)));
    let colour = Bus::new(Cartidge::new_from_bytes(image(0x80, 0, 0x03)));
    for address in [0x8000u16, 0x9FFF, 0xD000, 0xDFFF, 0xE000, 0xFFFF] {
        assert_eq!(classic.read(address), Some(0));
        assert_eq!(colour.read(address), Some(0));
    }
}

#[test]
fn large_image_is_cut_at_the_rom_size() {
    let mut content = vec![0x66u8; 0x9000];
    content[0x148] = 0;
    content[0x149] = 0;
    let bus = Bus::new(Cartidge::new_from_bytes(content));
    assert_eq!(bus.read(0x7FFF), Some(0x66));
    assert_eq!(bus.read(0x8000), Some(0));
}

#[test]
fn regions_change_at_their_boundaries() {
    let firsts: [(u16, Region); 7] = [
        (0x0000, Region::FixedRom),
        (0x4000, Region::SwitchableRom),
        (0x8000, Region::VideoRam),
        (0xA000, Region::CartridgeRam),
        (0xC000, Region::WorkRam),
        (0xD000, Region::SwitchableWorkRam),
        (0xE000, Region::Mirror),
    ];
    for (index, (first, region)) in firsts.iter().enumerate() {
        assert_eq!(region_at(*first), *region);
        let last = if index + 1 < firsts.len() { firsts[index + 1].0 - 1 } else { 0xFFFF };
        assert_eq!(region_at(last), *region);
    }
}

#[test]
fn every_address_has_one_region() {
    let mut counts = [0u32; 7];
    for address in 0..=0xFFFFu16 {
        let slot = match region_at(address) {
            Region::FixedRom => 0,
            Region::SwitchableRom => 1,
            Region::VideoRam => 2,
            Region::CartridgeRam => 3,
            Region::WorkRam => 4,
            Region::SwitchableWorkRam => 5,
            Region::Mirror => 6,
        };
        counts[slot] += 1;
    }
    assert_eq!(counts, [0x4000, 0x4000, 0x2000, 0x2000, 0x1000, 0x1000, 0x2000]);
}
