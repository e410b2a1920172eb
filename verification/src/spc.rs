use vstd::prelude::*;

verus! {

/// Number of bytes in the address space.
pub const MEMORY_SIZE: usize = 65536;

/// The byte every cell of a fresh memory image holds.
pub const FILL_BYTE: u8 = 0xFF;

/// Display options, fixed for a whole run.
#[derive(Debug, Clone, Copy, PartialEq, Eq)]
pub struct Config {
    pub show_addr: bool,
    pub show_hex: bool,
    pub resolve_rel: bool,
}

impl Default for Config {
    /// Every display option is on.
    fn default() -> (c: Config)
        ensures
            c == (Config { show_addr: true, show_hex: true, resolve_rel: true }),
    {
        Config { show_addr: true, show_hex: true, resolve_rel: true }
    }
}

/// The address `offset` bytes after `addr`, wrapping at the end of the
/// address space.
pub open spec fn wrap_addr(addr: int, offset: int) -> int {
    (addr + offset) % 0x10000
}

/// The little-endian word whose low byte is at `addr` and whose high byte is
/// at the next address, wrapping at the end of the address space.
pub open spec fn word_at(mem: Seq<u8>, addr: u16) -> int {
    mem[addr as int] as int + 256 * (mem[wrap_addr(addr as int, 1)] as int)
}

/// Two memory images agree on the `len` bytes from `pc` on, the addresses
/// wrapping.
pub open spec fn same_bytes(first: Seq<u8>, second: Seq<u8>, pc: u16, len: int) -> bool {
    forall|i: int|
        0 <= i < len ==> first[#[trigger] wrap_addr(pc as int, i)] == second[wrap_addr(
            pc as int,
            i,
        )]
}

/// What a memory image holds after `data` was laid over `mem` from
/// `load_addr` on: bytes that would fall past the last address are dropped.
pub open spec fn overlay(mem: Seq<u8>, data: Seq<u8>, load_addr: int) -> Seq<u8> {
    Seq::new(
        mem.len(),
        |i: int|
            if load_addr <= i < load_addr + data.len() {
                data[i - load_addr]
            } else {
                mem[i]
            },
    )
}

/// The machine's state: the 64 KiB memory image, the scan's program counter
/// and stop address, and the display options.
#[derive(Debug)]
pub struct Spc {
    pub mem: [u8; 65536],
    pub pc: u16,
    pub stop: u16,
    pub config: Config,
}

impl Spc {
    /// A machine whose memory holds `FILL_BYTE` everywhere.
    pub fn new(config: Config, start_pc: u16, stop_addr: u16) -> (spc: Spc)
        ensures
            spc.mem@ == Seq::new(MEMORY_SIZE as nat, |i: int| FILL_BYTE),
            spc.pc == start_pc,
            spc.stop == stop_addr,
            spc.config == config,
    {
        let mem: [u8; 65536] = [0xFF; 65536];
        assert(mem@ =~= Seq::new(MEMORY_SIZE as nat, |i: int| FILL_BYTE));
        Spc { mem, pc: start_pc, stop: stop_addr, config }
    }

    /// Lays `data` over the memory image from `load_addr` on. The part of
    /// `data` that would reach past address `0xFFFF` is dropped, not wrapped.
    pub fn load_rom(&mut self, data: &[u8], load_addr: u16)
        ensures
            final(self).mem@ == overlay(old(self).mem@, data@, load_addr as int),
            final(self).pc == old(self).pc,
            final(self).stop == old(self).stop,
            final(self).config == old(self).config,
    {
        let start: usize = load_addr as usize;
        let room: usize = MEMORY_SIZE - start;
        let count: usize = if data.len() < room { data.len() } else { room };
        let mut i: usize = 0;
        while i < count
            invariant
                start == load_addr as usize,
                count <= data@.len(),
                start + count <= MEMORY_SIZE,
                i <= count,
                self.pc == old(self).pc,
                self.stop == old(self).stop,
                self.config == old(self).config,
                forall|k: int|
                    0 <= k < MEMORY_SIZE ==> #[trigger] self.mem@[k] == if start <= k < start + i {
                        data@[k - start]
                    } else {
                        old(self).mem@[k]
                    },
            decreases count - i,
        {
            self.mem[start + i] = data[i];
            i = i + 1;
        }
        assert(self.mem@ =~= overlay(old(self).mem@, data@, load_addr as int));
    }

    /// The byte at `addr`.
    pub fn read_byte(&self, addr: u16) -> (b: u8)
        ensures
            b == self.mem@[addr as int],
    {
        self.mem[addr as usize]
    }

    /// The little-endian word at `addr`; its high byte comes from address 0
    /// when `addr` is `0xFFFF`.
    pub fn read_word(&self, addr: u16) -> (w: u16)
        ensures
            w == word_at(self.mem@, addr),
    {
        let lo: u8 = self.read_byte(addr);
        let hi: u8 = self.read_byte(addr.wrapping_add(1));
        (hi as u16) * 256 + (lo as u16)
    }
}

} // verus!
