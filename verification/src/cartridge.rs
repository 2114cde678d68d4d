//! Cartridge model: header parsing from the raw ROM bytes, and the MBC1
//! bank-switching state machine that routes reads and latch writes.

use vstd::prelude::*;

verus! {

/// Cartridge kind decoded from header byte 0x0147.
#[derive(Debug, Clone, Copy, PartialEq)]
pub enum CartridgeType {
    RomOnly,
    Mbc1,
    Mbc1Ram,
    Mbc1RamBattery,
    Unknown(u8),
}

/// Kind selected by header byte 0x0147.
pub open spec fn spec_cart_type(value: u8) -> CartridgeType {
    if value == 0x00 {
        CartridgeType::RomOnly
    } else if value == 0x01 {
        CartridgeType::Mbc1
    } else if value == 0x02 {
        CartridgeType::Mbc1Ram
    } else {
        if value == 0x03 {
            CartridgeType::Mbc1RamBattery
        } else {
            CartridgeType::Unknown(value)
        }
    }
}

impl core::convert::From<u8> for CartridgeType {
    fn from(value: u8) -> (kind: CartridgeType)
        ensures
            kind == spec_cart_type(value),
    {
        if value == 0x00 {
            CartridgeType::RomOnly
        } else if value == 0x01 {
            CartridgeType::Mbc1
        } else if value == 0x02 {
            CartridgeType::Mbc1Ram
        } else if value == 0x03 {
            CartridgeType::Mbc1RamBattery
        } else {
            CartridgeType::Unknown(value)
        }
    }
}

impl vstd::std_specs::convert::FromSpecImpl<u8> for CartridgeType {
    open spec fn obeys_from_spec() -> bool {
        true
    }

    open spec fn from_spec(value: u8) -> CartridgeType {
        spec_cart_type(value)
    }
}

/// Total ROM size in bytes for a valid size code (0x00..=0x08 at 0x0148):
/// `2 << code` banks of 16 KiB each.
pub open spec fn spec_rom_size(code: u8) -> usize {
    if code == 0 {
        32768
    } else if code == 1 {
        65536
    } else if code == 2 {
        131072
    } else if code == 3 {
        262144
    } else if code == 4 {
        524288
    } else if code == 5 {
        1048576
    } else if code == 6 {
        2097152
    } else if code == 7 {
        4194304
    } else {
        8388608
    }
}

/// Total RAM size in bytes for a valid size code (0x00..=0x05 at 0x0149).
pub open spec fn spec_ram_size(code: u8) -> usize {
    if code == 0 {
        0
    } else if code == 1 {
        2048
    } else if code == 2 {
        8192
    } else if code == 3 {
        32768
    } else if code == 4 {
        131072
    } else {
        65536
    }
}

/// A header parses exactly when the file covers the header area and both size
/// codes are within their defined ranges.
pub open spec fn spec_header_valid(rom: Seq<u8>) -> bool {
    &&& rom.len() >= 0x0150
    &&& rom[0x0148] <= 0x08
    &&& rom[0x0149] <= 0x05
}

/// A header byte shown as a character: ASCII bytes stand for themselves, the
/// rest read as the replacement character, as a lossy UTF-8 view gives.
pub open spec fn spec_byte_char(b: u8) -> char {
    if b < 128 {
        b as char
    } else {
        '\u{FFFD}'
    }
}

/// Length of the title once trailing NUL bytes are trimmed: the largest
/// `j <= n` such that the title byte before position `j` is not NUL.
pub open spec fn spec_title_end(rom: Seq<u8>, n: int) -> int
    decreases n,
{
    if n <= 0 {
        0
    } else if rom[0x0134 + n - 1] == 0 {
        spec_title_end(rom, n - 1)
    } else {
        n
    }
}

/// The cartridge title: the 16 bytes at 0x0134, trailing NULs trimmed.
pub open spec fn spec_title(rom: Seq<u8>) -> Seq<char> {
    Seq::new(spec_title_end(rom, 16) as nat, |i: int| spec_byte_char(rom[0x0134 + i]))
}

/// Header metadata decoded from the fixed header area of the ROM image.
#[derive(Debug)]
pub struct CartridgeHeader {
    pub title: String,
    pub cartridge_type: CartridgeType,
    pub rom_size: usize,
    pub ram_size: usize,
}

/// Relies on String::push: appends exactly the given character.
#[verifier::external_body]
fn push_char(s: &mut String, c: char)
    ensures
        final(s)@ == old(s)@.push(c),
{
    s.push(c);
}

impl CartridgeHeader {
    /// Decode the header fields from a raw ROM image.  Fails exactly when the
    /// image is shorter than the header area or a size code is undefined.
    pub fn from_rom(rom: &[u8]) -> (result: Result<CartridgeHeader, String>)
        ensures
            result is Ok <==> spec_header_valid(rom@),
            result is Ok ==> ({
                let h = result->Ok_0;
                &&& h.title@ == spec_title(rom@)
                &&& h.cartridge_type == spec_cart_type(rom@[0x0147])
                &&& h.rom_size == spec_rom_size(rom@[0x0148])
                &&& h.ram_size == spec_ram_size(rom@[0x0149])
            }),
            result is Err ==> result->Err_0@ == (if rom@.len() < 0x0150 {
                "ROM too small to contain valid header"@
            } else if rom@[0x0148] > 0x08 {
                "Invalid ROM size"@
            } else {
                "Invalid RAM size"@
            }),
    {
        if rom.len() < 0x0150 {
            return Err("ROM too small to contain valid header".to_owned());
        }

        let rom_code: u8 = rom[0x0148];
        if rom_code > 0x08 {
            return Err("Invalid ROM size".to_owned());
        }
        let rom_size: usize = if rom_code == 0 {
            32768
        } else if rom_code == 1 {
            65536
        } else if rom_code == 2 {
            131072
        } else if rom_code == 3 {
            262144
        } else if rom_code == 4 {
            524288
        } else if rom_code == 5 {
            1048576
        } else if rom_code == 6 {
            2097152
        } else if rom_code == 7 {
            4194304
        } else {
            8388608
        };

        let ram_code: u8 = rom[0x0149];
        if ram_code > 0x05 {
            return Err("Invalid RAM size".to_owned());
        }
        let ram_size: usize = if ram_code == 0 {
            0
        } else if ram_code == 1 {
            2048
        } else if ram_code == 2 {
            8192
        } else if ram_code == 3 {
            32768
        } else if ram_code == 4 {
            131072
        } else {
            65536
        };

        let mut end: usize = 16;
        while end > 0 && rom[0x0134 + end - 1] == 0
            invariant
                end <= 16,
                rom@.len() >= 0x0150,
                spec_title_end(rom@, 16) == spec_title_end(rom@, end as int),
            decreases end,
        {
            end = end - 1;
        }
        assert(spec_title_end(rom@, end as int) == end);

        let mut title = String::new();
        let mut i: usize = 0;
        while i < end
            invariant
                end <= 16,
                rom@.len() >= 0x0150,
                i <= end,
                title@ == Seq::new(i as nat, |j: int| spec_byte_char(rom@[0x0134 + j])),
            decreases end - i,
        {
            let b: u8 = rom[0x0134 + i];
            let c: char = if b < 128 {
                b as char
            } else {
                '\u{FFFD}'
            };
            assert(c == spec_byte_char(rom@[0x0134 + i as int]));
            push_char(&mut title, c);
            i = i + 1;
            assert(title@ =~= Seq::new(i as nat, |j: int| spec_byte_char(rom@[0x0134 + j])));
        }
        assert(title@ =~= spec_title(rom@));

        Ok(CartridgeHeader {
            title,
            cartridge_type: CartridgeType::from(rom[0x0147]),
            rom_size,
            ram_size,
        })
    }
}

/// Abstract cartridge state: the ROM and RAM contents, the decoded kind, and
/// the four MBC1 latches.
pub ghost struct CartAbs {
    pub rom: Seq<u8>,
    pub ram: Seq<u8>,
    pub kind: CartridgeType,
    pub rom_bank: int,
    pub ram_bank: int,
    pub ram_enabled: bool,
    pub banking_mode: u8,
}

/// Read routing: bank 0 below 0x4000, the switchable bank below 0x8000, gated
/// external RAM in 0xA000..=0xBFFF; anything out of range reads 0xFF.
pub open spec fn spec_cart_read(c: CartAbs, address: u16) -> u8 {
    if address < 0x4000 {
        if address < c.rom.len() {
            c.rom[address as int]
        } else {
            0xFF
        }
    } else if address < 0x8000 {
        let offset = c.rom_bank * 0x4000 + (address - 0x4000);
        if offset < c.rom.len() {
            c.rom[offset]
        } else {
            0xFF
        }
    } else if 0xA000 <= address < 0xC000 {
        if c.ram_enabled && c.ram.len() > 0 {
            let offset = c.ram_bank * 0x2000 + (address - 0xA000);
            if offset < c.ram.len() {
                c.ram[offset]
            } else {
                0xFF
            }
        } else {
            0xFF
        }
    } else {
        0xFF
    }
}

/// MBC1 latch and RAM writes.  ROM contents never change; writes into the ROM
/// address space set the latches as the four control windows define.
pub open spec fn spec_mbc1_write(c: CartAbs, address: u16, value: u8) -> CartAbs {
    if address < 0x2000 {
        CartAbs { ram_enabled: value % 16 == 0x0A, ..c }
    } else if address < 0x4000 {
        let low5 = value % 32;
        let low5 = if low5 == 0 {
            1
        } else {
            low5 as int
        };
        CartAbs { rom_bank: c.rom_bank / 32 * 32 + low5, ..c }
    } else if address < 0x6000 {
        if c.banking_mode == 0 {
            CartAbs { rom_bank: c.rom_bank % 32 + (value % 4) * 32, ..c }
        } else {
            CartAbs { ram_bank: (value % 4) as int, ..c }
        }
    } else if address < 0x8000 {
        CartAbs { banking_mode: value % 2, ..c }
    } else if 0xA000 <= address < 0xC000 {
        if c.ram_enabled && c.ram.len() > 0 {
            let offset = c.ram_bank * 0x2000 + (address - 0xA000);
            if offset < c.ram.len() {
                CartAbs { ram: c.ram.update(offset, value), ..c }
            } else {
                c
            }
        } else {
            c
        }
    } else {
        c
    }
}

/// Write routing: only MBC1-family cartridges react to writes.
pub open spec fn spec_cart_write(c: CartAbs, address: u16, value: u8) -> CartAbs {
    match c.kind {
        CartridgeType::Mbc1 => spec_mbc1_write(c, address, value),
        CartridgeType::Mbc1Ram => spec_mbc1_write(c, address, value),
        CartridgeType::Mbc1RamBattery => spec_mbc1_write(c, address, value),
        _ => c,
    }
}

/// A loaded cartridge: the raw ROM image, the external RAM, the decoded
/// header, and the MBC1 latches.
pub struct Cartridge {
    pub rom: Vec<u8>,
    pub ram: Vec<u8>,
    pub header: CartridgeHeader,
    pub rom_bank: usize,
    pub ram_bank: usize,
    pub ram_enabled: bool,
    pub banking_mode: u8,
}

impl View for Cartridge {
    type V = CartAbs;

    open spec fn view(&self) -> CartAbs {
        CartAbs {
            rom: self.rom@,
            ram: self.ram@,
            kind: self.header.cartridge_type,
            rom_bank: self.rom_bank as int,
            ram_bank: self.ram_bank as int,
            ram_enabled: self.ram_enabled,
            banking_mode: self.banking_mode,
        }
    }
}

/// Build a vector of `n` zero bytes.
pub fn zero_vec(n: usize) -> (v: Vec<u8>)
    ensures
        v@ == Seq::new(n as nat, |i: int| 0u8),
{
    let mut v: Vec<u8> = Vec::new();
    let mut i: usize = 0;
    while i < n
        invariant
            i <= n,
            v@ == Seq::new(i as nat, |j: int| 0u8),
        decreases n - i,
    {
        v.push(0);
        i = i + 1;
        assert(v@ =~= Seq::new(i as nat, |j: int| 0u8));
    }
    v
}

impl Cartridge {
    /// The MBC1 latches stay inside their windows: a 7-bit ROM bank, a 2-bit
    /// RAM bank, a 1-bit mode.
    pub open spec fn wf(self) -> bool {
        &&& self.rom_bank <= 0x7F
        &&& self.ram_bank <= 0x03
        &&& self.banking_mode <= 0x01
    }

    /// Assemble a cartridge from a raw ROM image: parse the header, allocate
    /// the external RAM it announces, and reset the MBC1 latches.
    pub fn from_bytes(rom: Vec<u8>) -> (result: Result<Cartridge, String>)
        ensures
            result is Ok <==> spec_header_valid(rom@),
            result is Ok ==> ({
                let c = result->Ok_0;
                &&& c.wf()
                &&& c@.rom == rom@
                &&& c@.ram == Seq::new(spec_ram_size(rom@[0x0149]) as nat, |i: int| 0u8)
                &&& c@.kind == spec_cart_type(rom@[0x0147])
                &&& c@.rom_bank == 1
                &&& c@.ram_bank == 0
                &&& c@.ram_enabled == false
                &&& c@.banking_mode == 0
                &&& c.header.title@ == spec_title(rom@)
                &&& c.header.rom_size == spec_rom_size(rom@[0x0148])
                &&& c.header.ram_size == spec_ram_size(rom@[0x0149])
            }),
    {
        let header = match CartridgeHeader::from_rom(rom.as_slice()) {
            Ok(h) => h,
            Err(e) => {
                return Err(e);
            },
        };
        let ram = zero_vec(header.ram_size);
        Ok(Cartridge {
            rom,
            ram,
            header,
            rom_bank: 1,
            ram_bank: 0,
            ram_enabled: false,
            banking_mode: 0,
        })
    }

    /// Read one byte through the bank router.
    pub fn read_byte(&self, address: u16) -> (value: u8)
        requires
            self.wf(),
        ensures
            value == spec_cart_read(self@, address),
    {
        if address < 0x4000 {
            if (address as usize) < self.rom.len() {
                self.rom[address as usize]
            } else {
                0xFF
            }
        } else if address < 0x8000 {
            let offset: usize = self.rom_bank * 0x4000 + (address as usize - 0x4000);
            if offset < self.rom.len() {
                self.rom[offset]
            } else {
                0xFF
            }
        } else if 0xA000 <= address && address < 0xC000 {
            if self.ram_enabled && self.ram.len() > 0 {
                let offset: usize = self.ram_bank * 0x2000 + (address as usize - 0xA000);
                if offset < self.ram.len() {
                    self.ram[offset]
                } else {
                    0xFF
                }
            } else {
                0xFF
            }
        } else {
            0xFF
        }
    }

    /// Write one byte: MBC1-family cartridges route it to the latches or the
    /// external RAM; other kinds drop it.
    pub fn write_byte(&mut self, address: u16, value: u8)
        requires
            old(self).wf(),
        ensures
            final(self).wf(),
            final(self)@ == spec_cart_write(old(self)@, address, value),
            final(self).header == old(self).header,
    {
        match self.header.cartridge_type {
            CartridgeType::Mbc1 => self.write_mbc1(address, value),
            CartridgeType::Mbc1Ram => self.write_mbc1(address, value),
            CartridgeType::Mbc1RamBattery => self.write_mbc1(address, value),
            _ => {},
        }
    }

    /// MBC1 control: RAM enable, ROM bank low bits, ROM bank high bits or RAM
    /// bank, banking mode, and gated external-RAM writes.
    pub fn write_mbc1(&mut self, address: u16, value: u8)
        requires
            old(self).wf(),
        ensures
            final(self).wf(),
            final(self)@ == spec_mbc1_write(old(self)@, address, value),
            final(self).header == old(self).header,
    {
        if address < 0x2000 {
            self.ram_enabled = value % 16 == 0x0A;
        } else if address < 0x4000 {
            let low5: u8 = value % 32;
            let low5: u8 = if low5 == 0 {
                1
            } else {
                low5
            };
            self.rom_bank = self.rom_bank / 32 * 32 + low5 as usize;
        } else if address < 0x6000 {
            if self.banking_mode == 0 {
                self.rom_bank = self.rom_bank % 32 + (value % 4) as usize * 32;
            } else {
                self.ram_bank = (value % 4) as usize;
            }
        } else if address < 0x8000 {
            self.banking_mode = value % 2;
        } else if 0xA000 <= address && address < 0xC000 {
            if self.ram_enabled && self.ram.len() > 0 {
                let offset: usize = self.ram_bank * 0x2000 + (address as usize - 0xA000);
                if offset < self.ram.len() {
                    self.ram.set(offset, value);
                }
            }
        }
    }

    /// The decoded header.
    pub fn header(&self) -> (h: &CartridgeHeader)
        ensures
            h == &self.header,
    {
        &self.header
    }
}

} // verus!
