use vstd::prelude::*;
use crate::memory_gb::{byte_or_open_bus, Address, Byte, MemoryRegion, read_from_buffer_extended, write_to_buffer_extended};

verus! {

pub const ROM_BANK_WIDTH: usize = 0x4000;

pub const RAM_BANK_WIDTH: usize = 0x2000;

pub const MAPPER_TYPE_LOCATION: usize = 0x0147;

pub const RAM_SIZE_LOCATION: usize = 0x0149;

#[derive(Clone, Copy, PartialEq, Eq, Structural, Debug)]
pub enum MapperKind {
    NoMbc,
    Mbc1,
    Mbc3,
    Mbc5,
}

/// Why a cartridge image was refused.
#[derive(Clone, Copy, PartialEq, Eq, Structural, Debug)]
pub enum CartError {
    /// The image ends before its header does.
    Truncated,
    /// The RAM size code names no known size.
    ImpossibleRamSize(u8),
    /// The mapper type byte names no supported mapper.
    UnsupportedMapper(u8),
}

/// The mathematical state of a cartridge: its images and mapper registers.
pub struct CartState {
    pub kind: MapperKind,
    pub rom: Seq<u8>,
    pub ram: Seq<u8>,
    pub rom_bank: u16,
    pub ram_bank: u8,
    pub ram_enabled: bool,
    pub advanced: bool,
}

/// The mapper that a header's type byte selects.
pub open spec fn spec_mapper_kind(code: u8) -> Option<MapperKind> {
    if code == 0 {
        Some(MapperKind::NoMbc)
    } else if 1 <= code <= 3 {
        Some(MapperKind::Mbc1)
    } else if 0x0F <= code <= 0x13 {
        Some(MapperKind::Mbc3)
    } else if 0x19 <= code <= 0x1B {
        Some(MapperKind::Mbc5)
    } else {
        None
    }
}

/// The number of 8 KiB RAM banks that a header's RAM size code announces.
pub open spec fn spec_ram_banks(code: u8) -> Option<nat> {
    if code <= 1 {
        Some(0)
    } else if code == 2 {
        Some(1)
    } else if code == 3 {
        Some(4)
    } else if code == 4 {
        Some(16)
    } else if code == 5 {
        Some(8)
    } else {
        None
    }
}

pub open spec fn is_rtc_select(ram_bank: u8) -> bool {
    8 <= ram_bank <= 12
}

impl CartState {
    /// The ROM bank that 4000..7FFF shows (a zero register reads as bank 1,
    /// except on MBC5).
    pub open spec fn effective_rom_bank(self) -> int {
        if self.kind == MapperKind::Mbc5 || self.rom_bank != 0 {
            self.rom_bank as int
        } else {
            1
        }
    }

    pub open spec fn read(self, address: Address) -> u8 {
        let a = address as int;
        if a < 0x4000 {
            if self.kind == MapperKind::Mbc1 && self.advanced {
                byte_or_open_bus(self.rom, self.ram_bank * 0x80000 + a)
            } else {
                byte_or_open_bus(self.rom, a)
            }
        } else if a < 0x8000 {
            let upper = if self.kind == MapperKind::Mbc1 {
                self.ram_bank * 0x80000
            } else {
                0
            };
            byte_or_open_bus(self.rom, upper + self.effective_rom_bank() * 0x4000 + (a - 0x4000))
        } else if 0xA000 <= a < 0xC000 {
            if self.kind == MapperKind::NoMbc || !self.ram_enabled || (self.kind
                == MapperKind::Mbc3 && is_rtc_select(self.ram_bank)) {
                0xFF
            } else {
                byte_or_open_bus(self.ram, self.ram_offset(address))
            }
        } else {
            0xFF
        }
    }

    /// Where in the RAM image an address of A000..BFFF lands.
    pub open spec fn ram_offset(self, address: Address) -> int {
        let bank = if self.kind == MapperKind::Mbc1 && !self.advanced {
            0
        } else {
            self.ram_bank as int
        };
        (address as int - 0xA000) + bank * 0x2000
    }

    pub open spec fn write(self, address: Address, value: u8) -> CartState {
        let a = address as int;
        match self.kind {
            MapperKind::NoMbc => self,
            MapperKind::Mbc1 => if a < 0x2000 {
                CartState { ram_enabled: value % 16 == 0x0A, ..self }
            } else if a < 0x4000 {
                CartState { rom_bank: (value % 32) as u16, ..self }
            } else if a < 0x6000 {
                CartState { ram_bank: value % 4, ..self }
            } else if a < 0x8000 {
                CartState { advanced: value % 2 == 1, ..self }
            } else {
                self.ram_store(address, value)
            },
            MapperKind::Mbc3 => if a < 0x2000 {
                if value == 0x0A {
                    CartState { ram_enabled: true, ..self }
                } else if value == 0 {
                    CartState { ram_enabled: false, ..self }
                } else {
                    self
                }
            } else if a < 0x4000 {
                CartState { rom_bank: (value % 128) as u16, ..self }
            } else if a < 0x6000 {
                CartState { ram_bank: value, ..self }
            } else if a < 0x8000 {
                self
            } else if is_rtc_select(self.ram_bank) {
                self
            } else {
                self.ram_store(address, value)
            },
            MapperKind::Mbc5 => if a < 0x2000 {
                CartState { ram_enabled: value % 16 == 0x0A, ..self }
            } else if a < 0x3000 {
                CartState { rom_bank: ((self.rom_bank / 256) * 256 + value) as u16, ..self }
            } else if a < 0x4000 {
                CartState { rom_bank: ((value % 2) * 256 + self.rom_bank % 256) as u16, ..self }
            } else if a < 0x6000 {
                CartState { ram_bank: value % 16, ..self }
            } else if a < 0x8000 {
                self
            } else {
                self.ram_store(address, value)
            },
        }
    }

    /// A write to the RAM window: stored where RAM is enabled and present.
    pub open spec fn ram_store(self, address: Address, value: u8) -> CartState {
        let i = self.ram_offset(address);
        if 0xA000 <= address < 0xC000 && self.ram_enabled && 0 <= i < self.ram.len() {
            CartState { ram: self.ram.update(i, value), ..self }
        } else {
            self
        }
    }
}

struct NoMBC {
    data: Vec<Byte>,
}

#[derive(Clone, Copy, PartialEq, Eq, Structural)]
enum BankingModeMBC1 {
    Simple,
    Advanced,
}

struct MBC1 {
    data: Vec<Byte>,
    active_rom_bank: u8,
    ram_enabled: bool,
    active_ram_bank: u8,
    ram_banks: Vec<Byte>,
    banking_mode: BankingModeMBC1,
}

struct MBC3 {
    data: Vec<Byte>,
    active_rom_bank: u8,
    ram_enabled: bool,
    active_ram_bank: u8,
    ram_banks: Vec<Byte>,
}

struct MBC5 {
    data: Vec<Byte>,
    active_rom_bank: u16,
    ram_enabled: bool,
    active_ram_bank: u8,
    ram_banks: Vec<Byte>,
}

enum Mapper {
    NoMBC(NoMBC),
    MBC1(MBC1),
    MBC3(MBC3),
    MBC5(MBC5),
}

/// A cartridge: its ROM and RAM images behind one of the supported mappers.
pub struct Cart {
    data: Mapper,
}

fn image_byte(image: &Vec<u8>, index: usize) -> (r: u8)
    ensures
        r == byte_or_open_bus(image@, index as int),
{
    if index < image.len() {
        read_from_buffer_extended(image, index)
    } else {
        0xFF
    }
}

fn store_image_byte(image: &mut Vec<u8>, value: u8, index: usize)
    ensures
        final(image)@ == if index < old(image)@.len() {
            old(image)@.update(index as int, value)
        } else {
            old(image)@
        },
{
    if index < image.len() {
        write_to_buffer_extended(image, value, index);
    }
}

/// `count` bytes of 0xFF: the content of freshly powered cartridge RAM.
fn blank_ram(count: usize) -> (r: Vec<u8>)
    ensures
        r@ == Seq::new(count as nat, |_i: int| 0xFFu8),
{
    let mut ram: Vec<u8> = Vec::new();
    let mut i: usize = 0;
    while i < count
        invariant
            i <= count,
            ram@ == Seq::new(i as nat, |_i: int| 0xFFu8),
        decreases count - i,
    {
        ram.push(0xFF);
        i = i + 1;
    }
    ram
}

impl View for Cart {
    type V = CartState;

    closed spec fn view(&self) -> CartState {
        match self.data {
            Mapper::NoMBC(m) => CartState {
                kind: MapperKind::NoMbc,
                rom: m.data@,
                ram: Seq::empty(),
                rom_bank: 1,
                ram_bank: 0,
                ram_enabled: false,
                advanced: false,
            },
            Mapper::MBC1(m) => CartState {
                kind: MapperKind::Mbc1,
                rom: m.data@,
                ram: m.ram_banks@,
                rom_bank: m.active_rom_bank as u16,
                ram_bank: m.active_ram_bank,
                ram_enabled: m.ram_enabled,
                advanced: m.banking_mode == BankingModeMBC1::Advanced,
            },
            Mapper::MBC3(m) => CartState {
                kind: MapperKind::Mbc3,
                rom: m.data@,
                ram: m.ram_banks@,
                rom_bank: m.active_rom_bank as u16,
                ram_bank: m.active_ram_bank,
                ram_enabled: m.ram_enabled,
                advanced: false,
            },
            Mapper::MBC5(m) => CartState {
                kind: MapperKind::Mbc5,
                rom: m.data@,
                ram: m.ram_banks@,
                rom_bank: m.active_rom_bank,
                ram_bank: m.active_ram_bank,
                ram_enabled: m.ram_enabled,
                advanced: false,
            },
        }
    }
}

impl Cart {
    /// The mapper registers stay within their widths.
    pub closed spec fn wf(&self) -> bool {
        match self.data {
            Mapper::NoMBC(_) => true,
            Mapper::MBC1(m) => m.active_rom_bank < 32 && m.active_ram_bank < 4,
            Mapper::MBC3(m) => m.active_rom_bank < 128,
            Mapper::MBC5(m) => m.active_rom_bank < 512 && m.active_ram_bank < 16,
        }
    }

    /// Builds a cartridge from a ROM image, choosing the mapper from header byte
    /// 0x0147 and sizing blank (0xFF) RAM from the code at 0x0149.
    pub fn from_rom(contents: Vec<u8>) -> (r: Result<Cart, CartError>)
        ensures
            contents@.len() <= RAM_SIZE_LOCATION ==> r == Err::<Cart, CartError>(
                CartError::Truncated,
            ),
            contents@.len() > RAM_SIZE_LOCATION ==> {
                let ram_code = contents@[RAM_SIZE_LOCATION as int];
                let kind_code = contents@[MAPPER_TYPE_LOCATION as int];
                match r {
                    Err(e) => (spec_ram_banks(ram_code) is None && e
                        == CartError::ImpossibleRamSize(ram_code)) || (spec_ram_banks(
                        ram_code,
                    ) is Some && spec_mapper_kind(kind_code) is None && e
                        == CartError::UnsupportedMapper(kind_code)),
                    Ok(c) => spec_ram_banks(ram_code) is Some && spec_mapper_kind(kind_code)
                        == Some(c@.kind) && c.wf() && c@.rom == contents@ && c@.rom_bank == 1
                        && c@.ram_bank == 0 && !c@.ram_enabled && !c@.advanced && (c@.kind
                        != MapperKind::NoMbc ==> c@.ram == Seq::new(
                        spec_ram_banks(ram_code)->0 * 0x2000,
                        |_i: int| 0xFFu8,
                    )),
                }
            },
    {
        if contents.len() <= RAM_SIZE_LOCATION {
            return Err(CartError::Truncated);
        }
        let ram_code = contents[RAM_SIZE_LOCATION];
        let kind_code = contents[MAPPER_TYPE_LOCATION];
        let bank_count: usize = if ram_code <= 1 {
            0
        } else if ram_code == 2 {
            1
        } else if ram_code == 3 {
            4
        } else if ram_code == 4 {
            16
        } else if ram_code == 5 {
            8
        } else {
            return Err(CartError::ImpossibleRamSize(ram_code));
        };
        if kind_code == 0 {
            Ok(Cart { data: Mapper::NoMBC(NoMBC { data: contents }) })
        } else if 1 <= kind_code && kind_code <= 3 {
            let ram_banks = blank_ram(bank_count * RAM_BANK_WIDTH);
            Ok(
                Cart {
                    data: Mapper::MBC1(
                        MBC1 {
                            data: contents,
                            active_rom_bank: 1,
                            ram_enabled: false,
                            active_ram_bank: 0,
                            ram_banks,
                            banking_mode: BankingModeMBC1::Simple,
                        },
                    ),
                },
            )
        } else if 0x0F <= kind_code && kind_code <= 0x13 {
            let ram_banks = blank_ram(bank_count * RAM_BANK_WIDTH);
            Ok(
                Cart {
                    data: Mapper::MBC3(
                        MBC3 {
                            data: contents,
                            active_rom_bank: 1,
                            ram_enabled: false,
                            active_ram_bank: 0,
                            ram_banks,
                        },
                    ),
                },
            )
        } else if 0x19 <= kind_code && kind_code <= 0x1B {
            let ram_banks = blank_ram(bank_count * RAM_BANK_WIDTH);
            Ok(
                Cart {
                    data: Mapper::MBC5(
                        MBC5 {
                            data: contents,
                            active_rom_bank: 1,
                            ram_enabled: false,
                            active_ram_bank: 0,
                            ram_banks,
                        },
                    ),
                },
            )
        } else {
            Err(CartError::UnsupportedMapper(kind_code))
        }
    }

    /// The cartridge RAM image, for a saver to persist.
    pub fn ram_image(&self) -> (r: Vec<u8>)
        ensures
            r@ == self@.ram,
    {
        match &self.data {
            Mapper::NoMBC(_) => Vec::new(),
            Mapper::MBC1(m) => m.ram_banks.clone(),
            Mapper::MBC3(m) => m.ram_banks.clone(),
            Mapper::MBC5(m) => m.ram_banks.clone(),
        }
    }

    pub fn kind(&self) -> (r: MapperKind)
        ensures
            r == self@.kind,
    {
        match &self.data {
            Mapper::NoMBC(_) => MapperKind::NoMbc,
            Mapper::MBC1(_) => MapperKind::Mbc1,
            Mapper::MBC3(_) => MapperKind::Mbc3,
            Mapper::MBC5(_) => MapperKind::Mbc5,
        }
    }
}

impl MemoryRegion for Cart {
    open spec fn covers(&self, address: Address) -> bool {
        self.wf()
    }

    open spec fn peek(&self, address: Address) -> Byte {
        self@.read(address)
    }

    open spec fn poked(&self, value: Byte, address: Address, next: &Self) -> bool {
        next.wf() && next@ == self@.write(address, value)
    }

    fn read(&self, address: Address) -> (r: Byte) {
        let a = address as usize;
        if a >= 0x8000 && !(0xA000 <= a && a < 0xC000) {
            return 0xFF;
        }
        match &self.data {
            Mapper::NoMBC(m) => {
                if a < 0x8000 {
                    image_byte(&m.data, a)
                } else {
                    0xFF
                }
            },
            Mapper::MBC1(m) => {
                let upper = (m.active_ram_bank as usize) * 0x80000;
                if a < 0x4000 {
                    if m.banking_mode == BankingModeMBC1::Advanced {
                        image_byte(&m.data, upper + a)
                    } else {
                        image_byte(&m.data, a)
                    }
                } else if a < 0x8000 {
                    let bank: usize = if m.active_rom_bank == 0 {
                        1
                    } else {
                        m.active_rom_bank as usize
                    };
                    image_byte(&m.data, upper + bank * ROM_BANK_WIDTH + (a - 0x4000))
                } else if !m.ram_enabled {
                    0xFF
                } else {
                    let bank: usize = if m.banking_mode == BankingModeMBC1::Advanced {
                        m.active_ram_bank as usize
                    } else {
                        0
                    };
                    image_byte(&m.ram_banks, (a - 0xA000) + bank * RAM_BANK_WIDTH)
                }
            },
            Mapper::MBC3(m) => {
                if a < 0x4000 {
                    image_byte(&m.data, a)
                } else if a < 0x8000 {
                    let bank: usize = if m.active_rom_bank == 0 {
                        1
                    } else {
                        m.active_rom_bank as usize
                    };
                    image_byte(&m.data, bank * ROM_BANK_WIDTH + (a - 0x4000))
                } else if 8 <= m.active_ram_bank && m.active_ram_bank <= 12 {
                    0xFF
                } else if !m.ram_enabled {
                    0xFF
                } else {
                    image_byte(
                        &m.ram_banks,
                        (a - 0xA000) + (m.active_ram_bank as usize) * RAM_BANK_WIDTH,
                    )
                }
            },
            Mapper::MBC5(m) => {
                if a < 0x4000 {
                    image_byte(&m.data, a)
                } else if a < 0x8000 {
                    image_byte(
                        &m.data,
                        (m.active_rom_bank as usize) * ROM_BANK_WIDTH + (a - 0x4000),
                    )
                } else if !m.ram_enabled {
                    0xFF
                } else {
                    image_byte(
                        &m.ram_banks,
                        (a - 0xA000) + (m.active_ram_bank as usize) * RAM_BANK_WIDTH,
                    )
                }
            },
        }
    }

    fn write(&mut self, value: Byte, address: Address) {
        let a = address as usize;
        match &mut self.data {
            Mapper::NoMBC(_) => {},
            Mapper::MBC1(m) => {
                if a < 0x2000 {
                    m.ram_enabled = value % 16 == 0x0A;
                } else if a < 0x4000 {
                    m.active_rom_bank = value % 32;
                } else if a < 0x6000 {
                    m.active_ram_bank = value % 4;
                } else if a < 0x8000 {
                    m.banking_mode =
                    if value % 2 == 1 {
                        BankingModeMBC1::Advanced
                    } else {
                        BankingModeMBC1::Simple
                    };
                } else if 0xA000 <= a && a < 0xC000 && m.ram_enabled {
                    let bank: usize = if m.banking_mode == BankingModeMBC1::Advanced {
                        m.active_ram_bank as usize
                    } else {
                        0
                    };
                    store_image_byte(&mut m.ram_banks, value, (a - 0xA000) + bank * RAM_BANK_WIDTH);
                }
            },
            Mapper::MBC3(m) => {
                if a < 0x2000 {
                    if value == 0x0A {
                        m.ram_enabled = true;
                    } else if value == 0 {
                        m.ram_enabled = false;
                    }
                } else if a < 0x4000 {
                    m.active_rom_bank = value % 128;
                } else if a < 0x6000 {
                    m.active_ram_bank = value;
                } else if a < 0x8000 {
                } else if 8 <= m.active_ram_bank && m.active_ram_bank <= 12 {
                } else if 0xA000 <= a && a < 0xC000 && m.ram_enabled {
                    store_image_byte(
                        &mut m.ram_banks,
                        value,
                        (a - 0xA000) + (m.active_ram_bank as usize) * RAM_BANK_WIDTH,
                    );
                }
            },
            Mapper::MBC5(m) => {
                if a < 0x2000 {
                    m.ram_enabled = value % 16 == 0x0A;
                } else if a < 0x3000 {
                    m.active_rom_bank = (m.active_rom_bank / 256) * 256 + value as u16;
                } else if a < 0x4000 {
                    m.active_rom_bank = ((value % 2) as u16) * 256 + m.active_rom_bank % 256;
                } else if a < 0x6000 {
                    m.active_ram_bank = value % 16;
                } else if a < 0x8000 {
                } else if 0xA000 <= a && a < 0xC000 && m.ram_enabled {
                    store_image_byte(
                        &mut m.ram_banks,
                        value,
                        (a - 0xA000) + (m.active_ram_bank as usize) * RAM_BANK_WIDTH,
                    );
                }
            },
        }
    }
}

} // verus!
