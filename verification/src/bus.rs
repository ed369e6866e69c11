//! What the driver asks of the platform layer, and where the registers are.

use vstd::prelude::*;

verus! {

/// A store that the platform layer carries out for the driver.
#[derive(Clone, Copy, Debug, PartialEq, Eq, Structural)]
#[allow(inconsistent_fields)]
pub enum Store {
    /// A move of `value` into the special-purpose register `number`.
    Spr { number: u32, value: u32 },
    /// A 16-bit store of `value` to the bus address `addr`.
    Half { addr: u32, value: u16 },
    /// A 32-bit store of `value` to the bus address `addr`.
    Word { addr: u32, value: u32 },
}

/// A 32-bit load from the bus address `addr` that the platform layer carries
/// out for the driver.
#[derive(Clone, Copy, Debug, PartialEq, Eq, Structural)]
pub struct Load {
    pub addr: u32,
}

/// What the hardware holds where stores go: the special-purpose registers
/// by number, and what is on the bus by address. A place on the bus is read
/// and written at one width, so the 16-bit and the 32-bit places are kept
/// apart.
pub struct Machine {
    pub spr: spec_fn(u32) -> u32,
    pub half: spec_fn(u32) -> u16,
    pub word: spec_fn(u32) -> u32,
}

impl Machine {
    /// The machine after `store` was carried out.
    pub open spec fn after(self, store: Store) -> Machine {
        match store {
            Store::Spr { number, value } => Machine {
                spr: |n: u32|
                    if n == number {
                        value
                    } else {
                        (self.spr)(n)
                    },
                ..self
            },
            Store::Half { addr, value } => Machine {
                half: |a: u32|
                    if a == addr {
                        value
                    } else {
                        (self.half)(a)
                    },
                ..self
            },
            Store::Word { addr, value } => Machine {
                word: |a: u32|
                    if a == addr {
                        value
                    } else {
                        (self.word)(a)
                    },
                ..self
            },
        }
    }

    /// The machine after `stores` were carried out, first store first.
    pub open spec fn after_all(self, stores: Seq<Store>) -> Machine
        decreases stores.len(),
    {
        if stores.len() == 0 {
            self
        } else {
            self.after_all(stores.drop_last()).after(stores.last())
        }
    }
}

/// Whether one of `stores` writes the word at `addr`.
pub open spec fn writes_word(stores: Seq<Store>, addr: u32) -> bool {
    exists|i: int|
        0 <= i < stores.len() && #[trigger] stores[i] is Word && stores[i]->Word_addr == addr
}

/// Carrying out the first `n` of some stores is carrying out the first
/// `n - 1` of them and then the one that follows, for every `n` up to
/// `count`; carrying out none changes nothing.
pub proof fn lemma_after_all_unfolds(before: Machine, stores: Seq<Store>, count: int)
    requires
        0 <= count <= stores.len(),
    ensures
        before.after_all(stores.take(0)) == before,
        stores.take(stores.len() as int) == stores,
        forall|n: int|
            0 < n <= count ==> #[trigger] before.after_all(stores.take(n)) == before.after_all(
                stores.take(n - 1),
            ).after(stores[n - 1]),
    decreases count,
{
    assert(stores.take(stores.len() as int) =~= stores);
    if count > 0 {
        assert(stores.take(count).drop_last() =~= stores.take(count - 1));
        lemma_after_all_unfolds(before, stores, count - 1);
    }
}

/// Stores that agree on what goes to the word at `addr` leave it there if
/// one of them writes the word, and leave the word alone if none does.
pub proof fn lemma_word_after(before: Machine, stores: Seq<Store>, addr: u32, value: u32)
    requires
        forall|i: int|
            0 <= i < stores.len() && #[trigger] stores[i] is Word && stores[i]->Word_addr == addr
                ==> stores[i]->Word_value == value,
    ensures
        (before.after_all(stores).word)(addr) == if writes_word(stores, addr) {
            value
        } else {
            (before.word)(addr)
        },
    decreases stores.len(),
{
    if stores.len() > 0 {
        let rest = stores.drop_last();
        let last = stores.last();
        lemma_word_after(before, rest, addr, value);
        if writes_word(rest, addr) {
            let i = choose|i: int|
                0 <= i < rest.len() && #[trigger] rest[i] is Word && rest[i]->Word_addr == addr;
            assert(stores[i] is Word && stores[i]->Word_addr == addr);
        }
        if last is Word && last->Word_addr == addr {
            assert(stores[stores.len() - 1] is Word);
        } else if writes_word(stores, addr) {
            let i = choose|i: int|
                0 <= i < stores.len() && #[trigger] stores[i] is Word && stores[i]->Word_addr
                    == addr;
            assert(rest[i] is Word && rest[i]->Word_addr == addr);
        }
    }
}

/// The special-purpose register that holds the address of the write-gather pipe.
pub const SPR_WPAR: u32 = 921;

/// The special-purpose register that holds the pipe-enable bit.
pub const SPR_HID2: u32 = 920;

/// The pipe-enable bit of `SPR_HID2`.
pub const HID2_PIPE_ENABLE: u32 = 0x4000_0000;

/// The address of the write-gather pipe.
pub const WP_ADDRESS: u32 = 0xcc00_8000;

/// The size of the window behind the write-gather pipe, in bytes.
pub const WPAR_SIZE: usize = 128;

/// The bytes that the pipe hands on at a time.
pub const WP_LINE: usize = 32;

/// The first register of the command processor. Its registers are 16 bits wide.
pub const CP_BASE: u32 = 0xcc00_0000;

/// The control register of the command processor.
pub const CP_CONTROL: u32 = 0xcc00_0002;

/// The low half of the ring's base in the command processor.
pub const CP_FIFO_BASE_LO: u32 = 0xcc00_0020;

/// The high half of the ring's base in the command processor.
pub const CP_FIFO_BASE_HI: u32 = 0xcc00_0022;

/// The low half of the ring's top in the command processor.
pub const CP_FIFO_TOP_LO: u32 = 0xcc00_0024;

/// The high half of the ring's top in the command processor.
pub const CP_FIFO_TOP_HI: u32 = 0xcc00_0026;

/// The low half of the first ring pointer in the command processor.
pub const CP_FIFO_PTR_A_LO: u32 = 0xcc00_0034;

/// The high half of the first ring pointer in the command processor.
pub const CP_FIFO_PTR_A_HI: u32 = 0xcc00_0036;

/// The low half of the second ring pointer in the command processor.
pub const CP_FIFO_PTR_B_LO: u32 = 0xcc00_0038;

/// The high half of the second ring pointer in the command processor.
pub const CP_FIFO_PTR_B_HI: u32 = 0xcc00_003a;

/// The bit of `CP_CONTROL` that lets the command processor read the ring.
pub const CP_READ_ENABLE: u16 = 0x0001;

/// The bit of `CP_CONTROL` that links the command processor to the ring.
pub const CP_LINK_ENABLE: u16 = 0x0010;

/// The bit of `CP_CONTROL` that admits direct display-pipeline commands.
pub const CP_DIRECT_ENABLE: u16 = 0x0020;

/// The first register of the processor interface. Its registers are 32 bits wide.
pub const PI_BASE: u32 = 0xcc00_3000;

/// The ring's start in the processor interface.
pub const PI_FIFO_START: u32 = 0xcc00_300c;

/// The ring's end in the processor interface.
pub const PI_FIFO_END: u32 = 0xcc00_3010;

/// The ring's write pointer in the processor interface.
pub const PI_FIFO_WRITE_PTR: u32 = 0xcc00_3014;

/// The address of the 16-bit register `index` of the command processor.
pub open spec fn cp_register(index: u32) -> int {
    CP_BASE + 2 * index
}

/// The address of the 32-bit register `index` of the processor interface.
pub open spec fn pi_register(index: u32) -> int {
    PI_BASE + 4 * index
}

/// The named registers sit at the indices of the hardware's register tables:
/// the ring's start, end and write pointer at 3, 4 and 5 of the processor
/// interface, the control register at 1 of the command processor.
pub proof fn lemma_register_map()
    ensures
        CP_CONTROL == cp_register(0x01),
        CP_FIFO_BASE_LO == cp_register(0x10),
        CP_FIFO_BASE_HI == cp_register(0x11),
        CP_FIFO_TOP_LO == cp_register(0x12),
        CP_FIFO_TOP_HI == cp_register(0x13),
        CP_FIFO_PTR_A_LO == cp_register(0x1a),
        CP_FIFO_PTR_A_HI == cp_register(0x1b),
        CP_FIFO_PTR_B_LO == cp_register(0x1c),
        CP_FIFO_PTR_B_HI == cp_register(0x1d),
        PI_FIFO_START == pi_register(3),
        PI_FIFO_END == pi_register(4),
        PI_FIFO_WRITE_PTR == pi_register(5),
{
}

} // verus!
