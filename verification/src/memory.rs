//! The memory bus: a 64 KiB backing array with address-decoded routing to the
//! cartridge (ROM/MBC latches/external RAM) and the timer registers.

use vstd::prelude::*;
use crate::arith::{hi8, lo8, pair16, wadd16};
use crate::cartridge::{spec_cart_read, spec_cart_write, CartAbs, Cartridge};
use crate::timer::{spec_timer_read, spec_timer_write, Timer};

verus! {

/// Abstract bus state: the backing array, the optional cartridge, the timer.
pub ghost struct BusAbs {
    pub data: Seq<u8>,
    pub cart: Option<CartAbs>,
    pub timer: Timer,
}

/// Bus well-formedness: full backing array, timer accumulator in range, and
/// MBC1 latches inside their windows.
pub open spec fn spec_bus_wf(b: BusAbs) -> bool {
    &&& b.data.len() == 0x10000
    &&& b.timer.wf()
    &&& match b.cart {
        Some(c) => 0 <= c.rom_bank <= 0x7F && 0 <= c.ram_bank <= 0x03 && c.banking_mode <= 0x01,
        None => true,
    }
}

/// Read decode.  Cartridge ranges fall back to the backing array when no
/// cartridge is present; 0xFF04..=0xFF07 route to the timer.
pub open spec fn spec_bus_read(b: BusAbs, address: u16) -> u8 {
    if address < 0x8000 {
        match b.cart {
            Some(c) => spec_cart_read(c, address),
            None => b.data[address as int],
        }
    } else if address < 0xA000 {
        b.data[address as int]
    } else if address < 0xC000 {
        match b.cart {
            Some(c) => spec_cart_read(c, address),
            None => b.data[address as int],
        }
    } else if 0xFF04 <= address <= 0xFF07 {
        spec_timer_read(b.timer, address)
    } else {
        b.data[address as int]
    }
}

/// Write decode, mirroring the read routing.
pub open spec fn spec_bus_write(b: BusAbs, address: u16, value: u8) -> BusAbs {
    if address < 0x8000 {
        match b.cart {
            Some(c) => BusAbs { cart: Some(spec_cart_write(c, address, value)), ..b },
            None => BusAbs { data: b.data.update(address as int, value), ..b },
        }
    } else if address < 0xA000 {
        BusAbs { data: b.data.update(address as int, value), ..b }
    } else if address < 0xC000 {
        match b.cart {
            Some(c) => BusAbs { cart: Some(spec_cart_write(c, address, value)), ..b },
            None => BusAbs { data: b.data.update(address as int, value), ..b },
        }
    } else if 0xFF04 <= address <= 0xFF07 {
        BusAbs { timer: spec_timer_write(b.timer, address, value), ..b }
    } else {
        BusAbs { data: b.data.update(address as int, value), ..b }
    }
}

/// Little-endian 16-bit read; the high byte comes from the next address,
/// wrapping within the 16-bit space.
pub open spec fn spec_bus_read16(b: BusAbs, address: u16) -> u16 {
    pair16(spec_bus_read(b, wadd16(address, 1)), spec_bus_read(b, address))
}

/// Little-endian 16-bit write: low byte first, high byte at the next
/// (wrapping) address.
pub open spec fn spec_bus_write16(b: BusAbs, address: u16, value: u16) -> BusAbs {
    spec_bus_write(spec_bus_write(b, address, lo8(value)), wadd16(address, 1), hi8(value))
}

/// The memory bus.
pub struct Memory {
    pub data: Vec<u8>,
    pub cartridge: Option<Cartridge>,
    pub timer: Timer,
}

impl View for Memory {
    type V = BusAbs;

    open spec fn view(&self) -> BusAbs {
        BusAbs {
            data: self.data@,
            cart: match self.cartridge {
                Some(c) => Some(c@),
                None => None,
            },
            timer: self.timer,
        }
    }
}

impl Memory {
    pub open spec fn wf(self) -> bool {
        spec_bus_wf(self@)
    }

    /// A fresh bus: zeroed backing array, no cartridge, reset timer.
    pub fn new() -> (m: Memory)
        ensures
            m.wf(),
            m@.data == Seq::new(0x10000, |i: int| 0u8),
            m@.cart is None,
            m@.timer == (Timer { div_counter: 0, tima: 0, tma: 0, tac: 0, tima_counter: 0 }),
    {
        Memory { data: crate::cartridge::zero_vec(0x10000), cartridge: None, timer: Timer::new() }
    }

    /// Insert a cartridge; all cartridge-range traffic routes to it from now on.
    pub fn load_cartridge(&mut self, cartridge: Cartridge)
        requires
            old(self).wf(),
            cartridge.wf(),
        ensures
            final(self).wf(),
            final(self)@ == (BusAbs { cart: Some(cartridge@), ..old(self)@ }),
    {
        self.cartridge = Some(cartridge);
    }

    /// Read one byte through the address decoder.
    pub fn read_byte(&self, address: u16) -> (value: u8)
        requires
            self.wf(),
        ensures
            value == spec_bus_read(self@, address),
    {
        if address < 0x8000 {
            match &self.cartridge {
                Some(cart) => cart.read_byte(address),
                None => self.data[address as usize],
            }
        } else if address < 0xA000 {
            self.data[address as usize]
        } else if address < 0xC000 {
            match &self.cartridge {
                Some(cart) => cart.read_byte(address),
                None => self.data[address as usize],
            }
        } else if 0xFF04 <= address && address <= 0xFF07 {
            self.timer.read_register(address)
        } else {
            self.data[address as usize]
        }
    }

    /// Write one byte through the address decoder.
    pub fn write_byte(&mut self, address: u16, value: u8)
        requires
            old(self).wf(),
        ensures
            final(self).wf(),
            final(self)@ == spec_bus_write(old(self)@, address, value),
    {
        if address < 0x8000 {
            match &mut self.cartridge {
                Some(cart) => cart.write_byte(address, value),
                None => self.data.set(address as usize, value),
            }
        } else if address < 0xA000 {
            self.data.set(address as usize, value);
        } else if address < 0xC000 {
            match &mut self.cartridge {
                Some(cart) => cart.write_byte(address, value),
                None => self.data.set(address as usize, value),
            }
        } else if 0xFF04 <= address && address <= 0xFF07 {
            self.timer.write_register(address, value);
        } else {
            self.data.set(address as usize, value);
        }
    }

    /// Little-endian 16-bit read with wrapping high-byte address.
    pub fn read_word(&self, address: u16) -> (value: u16)
        requires
            self.wf(),
        ensures
            value == spec_bus_read16(self@, address),
    {
        let low: u16 = self.read_byte(address) as u16;
        let high: u16 = self.read_byte(address.wrapping_add(1)) as u16;
        high * 256 + low
    }

    /// Little-endian 16-bit write with wrapping high-byte address.
    pub fn write_word(&mut self, address: u16, value: u16)
        requires
            old(self).wf(),
        ensures
            final(self).wf(),
            final(self)@ == spec_bus_write16(old(self)@, address, value),
    {
        self.write_byte(address, (value % 256) as u8);
        self.write_byte(address.wrapping_add(1), (value / 256) as u8);
    }
}

impl Default for Memory {
    fn default() -> (m: Memory)
        ensures
            m.wf(),
            m@.data == Seq::new(0x10000, |i: int| 0u8),
            m@.cart is None,
            m@.timer == (Timer { div_counter: 0, tima: 0, tma: 0, tac: 0, tima_counter: 0 }),
    {
        Memory::new()
    }
}

/// An address whose cell lives directly in the backing array for both reads
/// and writes: VRAM, and everything from 0xC000 up except the timer window;
/// with no cartridge present, the cartridge ranges fall back there too.
pub open spec fn spec_plain_backed(b: BusAbs, address: u16) -> bool {
    ||| 0x8000 <= address < 0xA000
    ||| (0xC000 <= address && !(0xFF04 <= address <= 0xFF07))
    ||| (b.cart is None && (address < 0x8000 || 0xA000 <= address < 0xC000))
}

/// Round trip through the plain-backed regions: a write is read back intact.
pub proof fn lemma_write_read_roundtrip(b: BusAbs, address: u16, value: u8)
    requires
        spec_bus_wf(b),
        spec_plain_backed(b, address),
    ensures
        spec_bus_read(spec_bus_write(b, address, value), address) == value,
{
}

/// Any bus write leaves the bus well formed: the MBC1 latch updates stay
/// inside their windows.
pub proof fn lemma_write_preserves_wf(b: BusAbs, address: u16, value: u8)
    requires
        spec_bus_wf(b),
    ensures
        spec_bus_wf(spec_bus_write(b, address, value)),
{
}

/// A write to one address never changes what a distinct plain-backed address
/// reads, and leaves that address plain-backed.
pub proof fn lemma_plain_frame(b: BusAbs, target: u16, address: u16, value: u8)
    requires
        spec_bus_wf(b),
        spec_plain_backed(b, target),
        target != address,
    ensures
        spec_bus_read(spec_bus_write(b, address, value), target) == spec_bus_read(b, target),
        spec_plain_backed(spec_bus_write(b, address, value), target),
{
}

/// Round trip through the timer registers: TIMA, TMA and TAC read back as
/// written; DIV (0xFF04) always reads 0 immediately after a write.
pub proof fn lemma_timer_register_roundtrip(b: BusAbs, address: u16, value: u8)
    requires
        spec_bus_wf(b),
        0xFF04 <= address <= 0xFF07,
    ensures
        address != 0xFF04 ==> spec_bus_read(spec_bus_write(b, address, value), address) == value,
        address == 0xFF04 ==> spec_bus_read(spec_bus_write(b, address, value), address) == 0,
{
}

/// Round trip through enabled, in-range external cartridge RAM.
pub proof fn lemma_cart_ram_roundtrip(b: BusAbs, address: u16, value: u8)
    requires
        spec_bus_wf(b),
        0xA000 <= address < 0xC000,
        b.cart is Some,
        ({
            let c = b.cart->Some_0;
            &&& c.kind == crate::cartridge::CartridgeType::Mbc1
                || c.kind == crate::cartridge::CartridgeType::Mbc1Ram
                || c.kind == crate::cartridge::CartridgeType::Mbc1RamBattery
            &&& c.ram_enabled
            &&& c.ram.len() > 0
            &&& c.ram_bank * 0x2000 + (address - 0xA000) < c.ram.len()
        }),
    ensures
        spec_bus_read(spec_bus_write(b, address, value), address) == value,
{
}

/// A write into the ROM address space never changes what the fixed bank 0
/// window reads: it only moves the MBC1 latches.
pub proof fn lemma_rom_window_stable(b: BusAbs, address: u16, target: u16, value: u8)
    requires
        spec_bus_wf(b),
        b.cart is Some,
        address < 0x8000,
        target < 0x4000,
    ensures
        spec_bus_read(spec_bus_write(b, address, value), target) == spec_bus_read(b, target),
{
}

} // verus!
