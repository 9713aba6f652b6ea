//! A block of bytes replicated over a number of banks, one of which is
//! selected as current.

use vstd::prelude::*;

verus! {

/// What a bank is, mathematically: its shape and every byte it stores.
pub struct BankView {
    /// Bytes per bank.
    pub bank_size: nat,
    /// Number of banks.
    pub bank_count: nat,
    /// Index of the selected bank.
    pub current_bank: nat,
    /// The backing storage, all banks in order.
    pub storage: Seq<u8>,
}

impl BankView {
    /// The storage holds exactly `bank_size * bank_count` bytes.
    pub open spec fn wf(self) -> bool {
        self.storage.len() == self.bank_size as int * self.bank_count as int
    }

    /// Position in storage that a banked access to `address` reaches.
    pub open spec fn offset(self, address: u16) -> int {
        self.current_bank as int * self.bank_size as int + address as int
    }

    /// A banked access to `address` stays inside the storage.
    pub open spec fn holds(self, address: u16) -> bool {
        self.offset(address) < self.storage.len()
    }

    /// A bankless access to `address` stays inside the storage.
    pub open spec fn holds_bankless(self, address: u16) -> bool {
        address < self.storage.len()
    }

    /// What a banked read of `address` sees: the byte at `offset(address)`,
    /// or nothing where that lies outside the storage.
    pub open spec fn read(self, address: u16) -> Option<u8> {
        if self.holds(address) {
            Some(self.storage[self.offset(address)])
        } else {
            None
        }
    }

    /// What a bankless read of `address` sees: the byte at position
    /// `address` of the storage, whatever bank is selected.
    pub open spec fn read_bankless(self, address: u16) -> Option<u8> {
        if self.holds_bankless(address) {
            Some(self.storage[address as int])
        } else {
            None
        }
    }

    /// The bank after a banked write.
    pub open spec fn write(self, address: u16, value: u8) -> BankView {
        BankView { storage: self.storage.update(self.offset(address), value), ..self }
    }

    /// The bank after a bankless write.
    pub open spec fn write_bankless(self, address: u16, value: u8) -> BankView {
        BankView { storage: self.storage.update(address as int, value), ..self }
    }

    /// The bank after `image` has been copied over the start of its
    /// storage, as far as it fits.
    pub open spec fn load(self, image: Seq<u8>) -> BankView {
        BankView {
            storage: Seq::new(
                self.storage.len(),
                |i: int|
                    if i < image.len() {
                        image[i]
                    } else {
                        self.storage[i]
                    },
            ),
            ..self
        }
    }
}

/// A freshly made bank: the given shape over zeroed storage.
pub open spec fn zeroed(bank_size: nat, bank_count: nat, current_bank: nat) -> BankView {
    BankView {
        bank_size,
        bank_count,
        current_bank,
        storage: Seq::new((bank_size * bank_count) as nat, |i: int| 0u8),
    }
}

/// Every address inside the selected bank reaches a stored byte, as long
/// as the selected bank is one of the banks there are.
pub proof fn lemma_selected_bank_held(bank: BankView, address: u16)
    requires
        bank.wf(),
        bank.current_bank < bank.bank_count,
        address < bank.bank_size,
    ensures
        bank.holds(address),
        bank.read(address) == Some(bank.storage[bank.offset(address)]),
{
    assert(bank.current_bank as int * bank.bank_size as int + bank.bank_size as int
        <= bank.bank_size as int * bank.bank_count as int) by (nonlinear_arith)
        requires
            bank.current_bank < bank.bank_count,
    ;
}

/// A byte written through the current bank is the byte read back through
/// it; the write changes one byte of the storage and nothing of the shape.
pub proof fn lemma_bank_write_read(bank: BankView, address: u16, value: u8)
    requires
        bank.holds(address),
    ensures
        bank.write(address, value).read(address) == Some(value),
        bank.write(address, value).storage.len() == bank.storage.len(),
        bank.wf() ==> bank.write(address, value).wf(),
        forall|i: int|
            0 <= i < bank.storage.len() && i != bank.offset(address) ==> bank.write(
                address,
                value,
            ).storage[i] == bank.storage[i],
{
}

/// Bank-switchable storage: `bank_size * bank_count` bytes, of which the
/// bytes of the current bank are reached through banked accesses.
pub struct MemoryBank {
    bank_size: usize,
    bank_ammount: usize,
    current_bank: usize,
    mem: Vec<u8>,
}

impl View for MemoryBank {
    type V = BankView;

    closed spec fn view(&self) -> BankView {
        BankView {
            bank_size: self.bank_size as nat,
            bank_count: self.bank_ammount as nat,
            current_bank: self.current_bank as nat,
            storage: self.mem@,
        }
    }
}

impl MemoryBank {
    /// Zero-filled storage of `bank_ammount` banks of `bank_size` bytes.
    pub fn new(bank_size: usize, bank_ammount: usize, current_bank: usize) -> (bank: Self)
        requires
            bank_size * bank_ammount <= usize::MAX,
        ensures
            bank@ == zeroed(bank_size as nat, bank_ammount as nat, current_bank as nat),
            bank@.wf(),
    {
        let total: usize = bank_ammount * bank_size;
        let mem: Vec<u8> = vec![0u8; total];
        assert(bank_size * bank_ammount == bank_ammount * bank_size) by (nonlinear_arith);
        assert(mem@ =~= Seq::new((bank_size as nat * bank_ammount as nat) as nat, |i: int| 0u8));
        MemoryBank { bank_size, bank_ammount, current_bank, mem }
    }

    /// Reads through the current bank.
    pub fn read(&self, address: u16) -> (byte: Option<u8>)
        ensures
            byte == self@.read(address),
    {
        let len: usize = self.mem.len();
        assert(self.current_bank * self.bank_size == self@.offset(address) - address);
        match self.current_bank.checked_mul(self.bank_size) {
            Some(base) => match base.checked_add(address as usize) {
                Some(at) => if at < len {
                    Some(self.mem[at])
                } else {
                    None
                },
                None => None,
            },
            None => None,
        }
    }

    /// Writes through the current bank.
    pub fn write(&mut self, address: u16, value: u8)
        requires
            old(self)@.holds(address),
        ensures
            final(self)@ == old(self)@.write(address, value),
    {
        assert(self.mem.len() <= usize::MAX);
        assert(self.current_bank * self.bank_size == self@.offset(address) - address);
        let at: usize = self.current_bank * self.bank_size + address as usize;
        self.mem.set(at, value);
    }

    /// Reads position `address` of the storage, ignoring the selected bank.
    pub fn read_bankless(&self, address: u16) -> (byte: Option<u8>)
        ensures
            byte == self@.read_bankless(address),
    {
        if (address as usize) < self.mem.len() {
            Some(self.mem[address as usize])
        } else {
            None
        }
    }

    /// Writes position `address` of the storage, ignoring the selected bank.
    pub fn write_bankless(&mut self, address: u16, value: u8)
        requires
            old(self)@.holds_bankless(address),
        ensures
            final(self)@ == old(self)@.write_bankless(address, value),
    {
        self.mem.set(address as usize, value);
    }

    /// Copies `image` over the start of the storage, as far as it fits.
    pub fn load(&mut self, image: &Vec<u8>)
        ensures
            final(self)@ == old(self)@.load(image@),
    {
        let n: usize = if image.len() < self.mem.len() {
            image.len()
        } else {
            self.mem.len()
        };
        let mut i: usize = 0;
        while i < n
            invariant
                i <= n,
                n <= image@.len(),
                n <= self.mem@.len(),
                n == image@.len() || n == self.mem@.len(),
                self.mem@.len() == old(self).mem@.len(),
                self.bank_size == old(self).bank_size,
                self.bank_ammount == old(self).bank_ammount,
                self.current_bank == old(self).current_bank,
                forall|j: int|
                    0 <= j < self.mem@.len() ==> #[trigger] self.mem@[j] == (if j < i {
                        image@[j]
                    } else {
                        old(self).mem@[j]
                    }),
            decreases n - i,
        {
            self.mem.set(i, image[i]);
            i = i + 1;
        }
        assert(self.mem@ =~= old(self)@.load(image@).storage);
    }
}

} // verus!
