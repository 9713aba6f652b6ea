use gbc::memory_bank::MemoryBank;

#[test]
fn new_bank_is_zeroed() {
    let bank = MemoryBank::new(16, 4, 0);
    for address in 0..64u16 {
        assert_eq!(bank.read_bankless(address), Some(0));
    }
    assert_eq!(bank.read_bankless(64), None);
}

#[test]
fn banked_read_starts_at_the_selected_bank() {
    let mut bank = MemoryBank::new(16, 4, 2);
    bank.write_bankless(32, 0xAA);
    bank.write_bankless(47, 0xBB);
    assert_eq!(bank.read(0), Some(0xAA));
    assert_eq!(bank.read(15), Some(0xBB));
    assert_eq!(bank.read(1), Some(0));
}

#[test]
fn banked_write_lands_at_bank_base_plus_address() {
    let mut bank = MemoryBank::new(16, 4, 1);
    bank.write(5, 0x77);
    assert_eq!(bank.read_bankless(21), Some(0x77));
    assert_eq!(bank.read_bankless(16), Some(0));
    assert_eq!(bank.read(5), Some(0x77));
}

#[test]
fn banked_read_past_the_storage_is_absent() {
    let bank = MemoryBank::new(16, 4, 3);
    assert_eq!(bank.read(15), Some(0));
    assert_eq!(bank.read(16), None);
    assert_eq!(bank.read(0xFFFF), None);
}

#[test]
fn bank_without_banks_holds_nothing() {
    let bank = MemoryBank::new(0x2000, 0, 0);
    assert_eq!(bank.read(0), None);
    assert_eq!(bank.read_bankless(0), None);
}

#[test]
fn selected_bank_beyond_the_count_reads_absent() {
    let bank = MemoryBank::new(16, 2, 5);
    assert_eq!(bank.read(0), None);
    assert_eq!(bank.read_bankless(31), Some(0));
}

#[test]
fn bankless_write_ignores_the_selected_bank() {
    let mut bank = MemoryBank::new(16, 4, 3);
    bank.write_bankless(2, 9);
    assert_eq!(bank.read_bankless(2), Some(9));
    assert_eq!(bank.read(2), Some(0));
}

#[test]
fn load_copies_the_image_over_the_start() {
    let mut bank = MemoryBank::new(4, 2, 0);
    bank.write_bankless(5, 0xEE);
    bank.load(&vec![1, 2, 3]);
    assert_eq!(bank.read_bankless(0), Some(1));
    assert_eq!(bank.read_bankless(1), Some(2));
    assert_eq!(bank.read_bankless(2), Some(3));
    assert_eq!(bank.read_bankless(3), Some(0));
    assert_eq!(bank.read_bankless(5), Some(0xEE));
    assert_eq!(bank.read_bankless(8), None);
}

#[test]
fn load_drops_what_does_not_fit() {
    let mut bank = MemoryBank::new(2, 1, 0);
    bank.load(&vec![7, 8, 9, 10]);
    assert_eq!(bank.read_bankless(0), Some(7));
    assert_eq!(bank.read_bankless(1), Some(8));
    assert_eq!(bank.read_bankless(2), None);
}
