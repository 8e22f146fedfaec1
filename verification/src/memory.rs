pub mod io;
pub mod rom;

use vstd::prelude::*;

use crate::display::color::Color;
use crate::display::gr::spec_gr_pixel;
use crate::display::hgr::spec_hires_pixel;
use crate::display::text::spec_text_pixel;
use crate::display::text::spritesheet::{SpriteSheet, SHEET_LEN};
use crate::display::{gr, hgr, text};
use io::{spec_io_new, spec_io_read_post, spec_io_read_val, spec_io_write_post, spec_zeros, Io, IoV};
use rom::{spec_rom_read, Rom, RomV};

verus! {

/// Ghost image of the whole address space.
pub ghost struct MemV {
    /// $0000..$c000
    pub main_ram: Seq<u8>,
    /// $c000..$d000
    pub io: IoV,
    /// $d000..=$ffff
    pub rom: RomV,
    /// Language card RAM: $d000..=$ffff
    pub lc_ram: Seq<u8>,
    /// Language card RAM, bank 2: $d000..$e000
    pub lc_bank_2: Seq<u8>,
    /// The glyph table the text renderer draws with.
    pub sprites: Seq<bool>,
}

impl MemV {
    pub open spec fn wf(self) -> bool {
        &&& self.main_ram.len() == 0xc000
        &&& self.io.wf()
        &&& self.rom.wf()
        &&& self.lc_ram.len() == 0x3000
        &&& self.lc_bank_2.len() == 0x1000
        &&& self.sprites.len() == SHEET_LEN
    }

    /// Whether language-card RAM is currently read in place of ROM at the
    /// given address.
    pub open spec fn lc_read_active(self, addr: u16) -> bool {
        self.io.switches.lcram
    }

    /// Whether the language-card bank-2 window covers the address.
    pub open spec fn lc_bank_2_covers(self, addr: u16) -> bool {
        self.io.switches.bnk2 && addr < 0xe000
    }
}

/// The byte a read of the address space returns.
pub open spec fn spec_read_val(m: MemV, addr: u16) -> u8 {
    if addr < 0xc000 {
        m.main_ram[addr as int]
    } else if addr <= 0xcfff {
        spec_io_read_val(m.io, addr)
    } else if m.lc_read_active(addr) {
        if m.lc_bank_2_covers(addr) {
            m.lc_bank_2[addr - 0xd000]
        } else {
            m.lc_ram[addr - 0xd000]
        }
    } else {
        spec_rom_read(m.rom, addr)
    }
}

/// The address space after a read: only a read of the I/O page can change
/// anything.
pub open spec fn spec_read_post(m: MemV, addr: u16) -> MemV {
    if 0xc000 <= addr <= 0xcfff {
        MemV { io: spec_io_read_post(m.io, addr), ..m }
    } else {
        m
    }
}

/// The address space after a write. RAM writes land; I/O-page writes have
/// their side effects; ROM writes are discarded unless language-card RAM
/// is write enabled.
pub open spec fn spec_write(m: MemV, addr: u16, value: u8) -> MemV {
    if addr < 0xc000 {
        MemV { main_ram: m.main_ram.update(addr as int, value), ..m }
    } else if addr <= 0xcfff {
        MemV { io: spec_io_write_post(m.io, addr), ..m }
    } else if !m.io.switches.write_protect {
        if m.lc_bank_2_covers(addr) {
            MemV { lc_bank_2: m.lc_bank_2.update(addr - 0xd000, value), ..m }
        } else {
            MemV { lc_ram: m.lc_ram.update(addr - 0xd000, value), ..m }
        }
    } else {
        m
    }
}

/// A cold address space with `program` copied into main RAM at
/// `load_addr`.
pub open spec fn spec_mem_new(program: Seq<u8>, load_addr: u16) -> MemV {
    MemV {
        main_ram: Seq::new(
            0xc000,
            |i: int|
                if load_addr <= i < load_addr + program.len() {
                    program[i - load_addr]
                } else {
                    0u8
                },
        ),
        io: spec_io_new(),
        rom: RomV { applesoft: spec_zeros(0x2800), f8: spec_zeros(0x800) },
        lc_ram: spec_zeros(0x3000),
        lc_bank_2: spec_zeros(0x1000),
        sprites: Seq::new(SHEET_LEN as nat, |i: int| false),
    }
}

/// Everything in the memory address space: RAM, the I/O page, ROM, and
/// the language card.
pub struct AddressSpace {
    /// $0000..$c000
    pub main_ram: Vec<u8>,
    /// $c000..$d000
    pub io: Io,
    /// $d000..=$ffff
    pub rom: Rom,
    /// Language card RAM: $d000..=$ffff
    pub lc_ram: Vec<u8>,
    /// Language card RAM, bank 2: $d000..$e000
    pub lc_bank_2: Vec<u8>,
    /// The glyph table the text renderer draws with.
    pub sprites: SpriteSheet,
}

impl View for AddressSpace {
    type V = MemV;

    open spec fn view(&self) -> MemV {
        MemV {
            main_ram: self.main_ram@,
            io: self.io@,
            rom: self.rom@,
            lc_ram: self.lc_ram@,
            lc_bank_2: self.lc_bank_2@,
            sprites: self.sprites@,
        }
    }
}

impl AddressSpace {
    /// A cold machine with `program` loaded into main RAM at `load_addr`.
    /// ROM banks and the glyph table start zeroed; `load_roms` and
    /// `set_sprites` fill them.
    pub fn new(program: &[u8], load_addr: u16) -> (r: AddressSpace)
        requires
            load_addr + program@.len() <= 0xc000,
        ensures
            r@ == spec_mem_new(program@, load_addr),
            r@.wf(),
    {
        let mut main_ram = io::zero_bytes(0xc000);
        let mut i: usize = 0;
        while i < program.len()
            invariant
                i <= program@.len(),
                load_addr + program@.len() <= 0xc000,
                main_ram@.len() == 0xc000,
                forall|j: int|
                    0 <= j < 0xc000 ==> main_ram@[j] == if load_addr <= j < load_addr + i {
                        program@[j - load_addr]
                    } else {
                        0u8
                    },
            decreases program@.len() - i,
        {
            let b = *vstd::slice::slice_index_get(program, i);
            main_ram.set(load_addr as usize + i, b);
            i = i + 1;
        }
        let r = AddressSpace {
            main_ram,
            io: Io::new(),
            rom: Rom::new(),
            lc_ram: io::zero_bytes(0x3000),
            lc_bank_2: io::zero_bytes(0x1000),
            sprites: SpriteSheet::blank(),
        };
        proof {
            assert(r@.main_ram =~= spec_mem_new(program@, load_addr).main_ram);
            assert(r@.rom =~= spec_mem_new(program@, load_addr).rom);
        }
        r
    }

    /// Install the five embedded ROM images: BASIC ROM, monitor ROM, and
    /// the three peripheral windows of the I/O page.
    pub fn load_roms(&mut self, applesoft: &[u8], f8: &[u8], c100: &[u8], self_test: &[u8], c800: &[u8])
        requires
            applesoft@.len() == 0x2800,
            f8@.len() == 0x800,
            c100@.len() == 0x300,
            self_test@.len() == 0x400,
            c800@.len() == 0x7ff,
        ensures
            final(self)@ == (MemV {
                rom: RomV { applesoft: applesoft@, f8: f8@ },
                io: IoV {
                    c100_rom: c100@,
                    self_test_rom: self_test@,
                    c800_rom: c800@,
                    ..old(self)@.io
                },
                ..old(self)@
            }),
            old(self)@.wf() ==> final(self)@.wf(),
    {
        self.rom.load(applesoft, f8);
        self.io.load_roms(c100, self_test, c800);
    }

    /// Install the glyph table the text renderer draws with.
    pub fn set_sprites(&mut self, sprites: SpriteSheet)
        requires
            sprites.wf(),
        ensures
            final(self)@ == (MemV { sprites: sprites@, ..old(self)@ }),
            old(self)@.wf() ==> final(self)@.wf(),
    {
        self.sprites = sprites;
    }

    /// Write the warm-start vector at $03F2..$03F4 (start address low,
    /// high, and the high byte xor $A5), so the ROM reset routine will
    /// transfer control to `start_addr`. Returns the monitor RESET entry
    /// point, where execution should begin.
    pub fn set_softev(&mut self, start_addr: u16) -> (pc: u16)
        requires
            old(self)@.wf(),
            old(self)@.main_ram[0x3f2] == 0,
            old(self)@.main_ram[0x3f3] == 0,
            old(self)@.main_ram[0x3f4] == 0,
        ensures
            pc == 0xfa62,
            final(self)@ == (MemV {
                main_ram: old(self)@.main_ram.update(0x3f2, (start_addr % 256) as u8).update(
                    0x3f3,
                    (start_addr / 256) as u8,
                ).update(0x3f4, (0xa5 ^ (start_addr / 256)) as u8),
                ..old(self)@
            }),
            final(self)@.wf(),
    {
        let lo = (start_addr % 256) as u8;
        let hi = (start_addr / 256) as u8;
        self.main_ram.set(0x3f2, lo);
        self.main_ram.set(0x3f3, hi);
        // magic number to indicate "warm start"
        self.main_ram.set(0x3f4, 0xa5 ^ hi);
        proof {
            assert(0xa5 ^ (start_addr / 256) as u8 == (0xa5 ^ (start_addr / 256)) as u8)
                by (bit_vector);
        }
        0xfa62
    }

    /// One read of the address space, with any I/O side effects.
    pub fn read(&mut self, addr: u16) -> (r: u8)
        requires
            old(self)@.wf(),
        ensures
            r == spec_read_val(old(self)@, addr),
            final(self)@ == spec_read_post(old(self)@, addr),
            final(self)@.wf(),
    {
        if addr < 0xc000 {
            self.main_ram[addr as usize]
        } else if addr <= 0xcfff {
            self.io.read(addr)
        } else if self.io.switches.lcram {
            if self.io.switches.bnk2 && addr < 0xe000 {
                self.lc_bank_2[(addr - 0xd000) as usize]
            } else {
                self.lc_ram[(addr - 0xd000) as usize]
            }
        } else {
            self.rom.read(addr)
        }
    }

    /// One write to the address space.
    pub fn write(&mut self, addr: u16, value: u8)
        requires
            old(self)@.wf(),
        ensures
            final(self)@ == spec_write(old(self)@, addr, value),
            final(self)@.wf(),
    {
        if addr < 0xc000 {
            self.main_ram.set(addr as usize, value);
        } else if addr <= 0xcfff {
            self.io.write(addr, value);
        } else if !self.io.switches.write_protect {
            if self.io.switches.bnk2 && addr < 0xe000 {
                self.lc_bank_2.set((addr - 0xd000) as usize, value);
            } else {
                self.lc_ram.set((addr - 0xd000) as usize, value);
            }
        }
    }

    /// Latch a key press on the keyboard.
    pub fn key_down(&mut self, ascii_code: u8)
        requires
            old(self)@.wf(),
            ascii_code < 0x80,
        ensures
            final(self)@ == (MemV {
                io: IoV {
                    most_recent_key: ascii_code,
                    strobe_bit: true,
                    any_key_down: true,
                    ..old(self)@.io
                },
                ..old(self)@
            }),
            final(self)@.wf(),
    {
        self.io.key_down(ascii_code);
    }

    /// Note that no key is held down any more.
    pub fn all_keys_up(&mut self)
        requires
            old(self)@.wf(),
        ensures
            final(self)@ == (MemV {
                io: IoV { any_key_down: false, ..old(self)@.io },
                ..old(self)@
            }),
            final(self)@.wf(),
    {
        self.io.all_keys_up();
    }
}

/// Writing then reading any RAM address below the I/O and ROM ranges
/// gives back the written byte, and the read changes nothing.
pub proof fn lemma_ram_write_read(m: MemV, addr: u16, value: u8)
    requires
        m.wf(),
        addr < 0xc000,
    ensures
        spec_read_val(spec_write(m, addr, value), addr) == value,
        spec_read_post(spec_write(m, addr, value), addr) == spec_write(m, addr, value),
{
}


/// The 1 KiB text page the switches select: page 2 at $0800 when PAGE2
/// is set, else page 1 at $0400.
pub open spec fn spec_text_page(m: MemV) -> Seq<u8> {
    if m.io.switches.page2 {
        m.main_ram.subrange(0x800, 0xc00)
    } else {
        m.main_ram.subrange(0x400, 0x800)
    }
}

/// The 8 KiB HIRES page the switches select: page 2 at $4000 when PAGE2
/// is set, else page 1 at $2000.
pub open spec fn spec_hires_page(m: MemV) -> Seq<u8> {
    if m.io.switches.page2 {
        m.main_ram.subrange(0x4000, 0x6000)
    } else {
        m.main_ram.subrange(0x2000, 0x4000)
    }
}

/// The color of the dot at `(y, x)` of the frame the machine currently
/// shows: a pure function of RAM, the soft switches and the glyph
/// table. TEXT shows the text page; otherwise HIRES or LORES renders
/// the selected page, and MIXED overlays the bottom 32 scan lines with
/// text.
pub open spec fn spec_display_pixel(m: MemV, y: int, x: int) -> Color {
    if m.io.switches.text {
        spec_text_pixel(spec_text_page(m), m.sprites, y, x)
    } else if m.io.switches.mixed && y >= 160 {
        spec_text_pixel(spec_text_page(m), m.sprites, y, x)
    } else if m.io.switches.hires {
        spec_hires_pixel(spec_hires_page(m), y, x)
    } else {
        spec_gr_pixel(spec_text_page(m), y, x)
    }
}

impl AddressSpace {
    /// Derive the 192x280 frame the machine currently shows. Pure: the
    /// result depends only on RAM, the soft switches and the glyph
    /// table.
    pub fn display(&self) -> (out: Vec<Vec<Color>>)
        requires
            self@.wf(),
        ensures
            out@.len() == 192,
            forall|y: int| 0 <= y < 192 ==> #[trigger] out@[y]@.len() == 280,
            forall|y: int, x: int|
                0 <= y < 192 && 0 <= x < 280 ==> #[trigger] out@[y]@[x] == spec_display_pixel(
                    self@,
                    y,
                    x,
                ),
    {
        let text_page = if self.io.switches.page2 {
            vstd::slice::slice_subrange(self.main_ram.as_slice(), 0x800, 0xc00)
        } else {
            vstd::slice::slice_subrange(self.main_ram.as_slice(), 0x400, 0x800)
        };

        if self.io.switches.text {
            return text::dots(text_page, &self.sprites);
        }

        let mut out = if self.io.switches.hires {
            let page = if self.io.switches.page2 {
                vstd::slice::slice_subrange(self.main_ram.as_slice(), 0x4000, 0x6000)
            } else {
                vstd::slice::slice_subrange(self.main_ram.as_slice(), 0x2000, 0x4000)
            };
            hgr::dots_color(page)
        } else {
            gr::dots(text_page)
        };

        if self.io.switches.mixed {
            let text_dots = text::dots(text_page, &self.sprites);
            let mut y: usize = 160;
            while y < 192
                invariant
                    160 <= y <= 192,
                    self@.wf(),
                    !self@.io.switches.text,
                    self@.io.switches.mixed,
                    text_dots@.len() == 192,
                    forall|yy: int| 0 <= yy < 192 ==> #[trigger] text_dots@[yy]@.len() == 280,
                    forall|yy: int, x: int|
                        0 <= yy < 192 && 0 <= x < 280 ==> #[trigger] text_dots@[yy]@[x]
                            == spec_text_pixel(spec_text_page(self@), self@.sprites, yy, x),
                    out@.len() == 192,
                    forall|yy: int| 0 <= yy < 192 ==> #[trigger] out@[yy]@.len() == 280,
                    forall|yy: int, x: int|
                        0 <= yy < y && 0 <= x < 280 ==> #[trigger] out@[yy]@[x]
                            == spec_display_pixel(self@, yy, x),
                    forall|yy: int, x: int|
                        y <= yy < 192 && 0 <= x < 280 && !(self@.io.switches.mixed && yy >= 160)
                            ==> #[trigger] out@[yy]@[x] == spec_display_pixel(self@, yy, x),
                    forall|yy: int, x: int|
                        y <= yy < 192 && 0 <= x < 280 && self@.io.switches.hires ==> #[trigger] out@[yy]@[x]
                            == crate::display::hgr::spec_hires_pixel(spec_hires_page(self@), yy, x),
                    forall|yy: int, x: int|
                        y <= yy < 192 && 0 <= x < 280 && !self@.io.switches.hires ==> #[trigger] out@[yy]@[x]
                            == crate::display::gr::spec_gr_pixel(spec_text_page(self@), yy, x),
                decreases 192 - y,
            {
                let mut row: Vec<Color> = Vec::new();
                let mut x: usize = 0;
                while x < 280
                    invariant
                        x <= 280,
                        160 <= y < 192,
                        text_dots@.len() == 192,
                        forall|yy: int| 0 <= yy < 192 ==> #[trigger] text_dots@[yy]@.len() == 280,
                        forall|yy: int, xx: int|
                            0 <= yy < 192 && 0 <= xx < 280 ==> #[trigger] text_dots@[yy]@[xx]
                                == spec_text_pixel(spec_text_page(self@), self@.sprites, yy, xx),
                        row@.len() == x,
                        forall|xx: int|
                            0 <= xx < x ==> #[trigger] row@[xx] == spec_text_pixel(
                                spec_text_page(self@),
                                self@.sprites,
                                y as int,
                                xx,
                            ),
                    decreases 280 - x,
                {
                    row.push(text_dots[y][x]);
                    x = x + 1;
                }
                out.set(y, row);
                y = y + 1;
            }
        }
        out
    }
}


/// Why a memory image cannot be loaded.
#[derive(Clone, Copy, Debug, PartialEq, Eq, Structural)]
pub enum LoadError {
    /// The input ends inside a block header.
    TruncatedHeader,
    /// The input ends inside a block's contents.
    TruncatedBlock,
    /// A block reaches past the end of main RAM.
    BlockOutOfRange,
    /// Two blocks cover one address.
    Overlap,
    /// The reset-vector block is not of the expected shape.
    BadResetVector,
    /// No reset-vector block names a start address.
    NoStartAddr,
    /// A block wrote over the warm-start vector at $03F2..$03F4.
    SoftevInUse,
}

/// Main RAM with one block of the image copied in at its offset.
pub open spec fn spec_blit(ram: Seq<u8>, img: Seq<u8>, idx: int, offset: int, length: int) -> Seq<
    u8,
> {
    Seq::new(
        ram.len(),
        |k: int|
            if offset <= k < offset + length {
                img[idx + (k - offset)]
            } else {
                ram[k]
            },
    )
}

/// The coverage map with one block's addresses marked written.
pub open spec fn spec_mark(written: Seq<bool>, offset: int, length: int) -> Seq<bool> {
    Seq::new(
        written.len(),
        |k: int|
            if offset <= k < offset + length {
                true
            } else {
                written[k]
            },
    )
}

/// Parse the memory-image block format from `idx` on: each block is a
/// little-endian 16-bit offset, a 16-bit length, and that many bytes.
/// The block at offset $FFFA of length 6 names the start address in
/// its middle two bytes; other blocks land in main RAM and may not
/// overlap.
pub open spec fn spec_parse_image(
    img: Seq<u8>,
    idx: int,
    ram: Seq<u8>,
    written: Seq<bool>,
    start: Option<u16>,
) -> Result<(Seq<u8>, u16), LoadError>
    decreases img.len() - idx,
{
    if idx >= img.len() {
        match start {
            Some(sa) => Ok((ram, sa)),
            None => Err(LoadError::NoStartAddr),
        }
    } else if idx + 4 > img.len() {
        Err(LoadError::TruncatedHeader)
    } else {
        let offset = img[idx] + img[idx + 1] * 256;
        let length = img[idx + 2] + img[idx + 3] * 256;
        if idx + 4 + length > img.len() {
            Err(LoadError::TruncatedBlock)
        } else if offset == 0xfffa && length == 6 {
            if img[idx + 4] == 0 && img[idx + 5] == 0 && img[idx + 8] == 0 && img[idx + 9] == 0 {
                spec_parse_image(
                    img,
                    idx + 10,
                    ram,
                    written,
                    Some((img[idx + 6] + img[idx + 7] * 256) as u16),
                )
            } else {
                Err(LoadError::BadResetVector)
            }
        } else if offset + length > 0xc000 {
            Err(LoadError::BlockOutOfRange)
        } else if exists|k: int| offset <= k < offset + length && written[k] {
            Err(LoadError::Overlap)
        } else {
            spec_parse_image(
                img,
                idx + 4 + length,
                spec_blit(ram, img, idx + 4, offset, length),
                spec_mark(written, offset, length),
                start,
            )
        }
    }
}

/// No address written yet.
pub open spec fn spec_unwritten() -> Seq<bool> {
    Seq::new(0xc000, |k: int| false)
}

/// What loading the image gives: the parsed RAM with the stack-page
/// bounds at $0000..$0002 forced to $00, $C0, and the start address.
pub open spec fn spec_image_result(img: Seq<u8>) -> Result<(Seq<u8>, u16), LoadError> {
    match spec_parse_image(img, 0, io::spec_zeros(0xc000), spec_unwritten(), None) {
        Ok((ram, sa)) => Ok((ram.update(0, 0u8).update(1, 0xc0u8), sa)),
        Err(e) => Err(e),
    }
}

impl AddressSpace {
    /// Load an llvm-mos memory image: a sequence of blocks, each a
    /// 16-bit offset, a 16-bit length, and that many bytes. Returns the
    /// machine and the start address the reset-vector block names.
    pub fn from_memory_image(image: &[u8]) -> (r: Result<(AddressSpace, u16), LoadError>)
        ensures
            match r {
                Ok(pair) => {
                    &&& spec_image_result(image@) matches Ok(p) && p.0 == pair.0@.main_ram && p.1
                        == pair.1
                    &&& pair.0@ == (MemV { main_ram: pair.0@.main_ram, ..spec_mem_new(
                        Seq::empty(),
                        0,
                    ) })
                    &&& pair.0@.wf()
                },
                Err(e) => spec_image_result(image@) == Err::<(Seq<u8>, u16), LoadError>(e),
            },
    {
        let mut ram = io::zero_bytes(0xc000);
        let mut written: Vec<bool> = zero_flags(0xc000);
        proof {
            assert(written@ =~= spec_unwritten());
        }
        let mut start: Option<u16> = None;
        let mut idx: usize = 0;
        let n = image.len();

        while idx < n
            invariant
                idx <= n,
                n == image@.len(),
                ram@.len() == 0xc000,
                written@.len() == 0xc000,
                spec_parse_image(image@, 0, io::spec_zeros(0xc000), spec_unwritten(), None)
                    == spec_parse_image(image@, idx as int, ram@, written@, start),
            decreases n - idx,
        {
            if n - idx < 4 {
                return Err(LoadError::TruncatedHeader);
            }
            let offset: usize = *vstd::slice::slice_index_get(image, idx) as usize
                + *vstd::slice::slice_index_get(image, idx + 1) as usize * 256;
            let length: usize = *vstd::slice::slice_index_get(image, idx + 2) as usize
                + *vstd::slice::slice_index_get(image, idx + 3) as usize * 256;
            if length > n || idx + 4 > n - length {
                return Err(LoadError::TruncatedBlock);
            }
            if offset == 0xfffa && length == 6 {
                // The reset-vector block: its middle two bytes are the
                // start address.
                let b0 = *vstd::slice::slice_index_get(image, idx + 4);
                let b1 = *vstd::slice::slice_index_get(image, idx + 5);
                let lo = *vstd::slice::slice_index_get(image, idx + 6);
                let hi = *vstd::slice::slice_index_get(image, idx + 7);
                let b4 = *vstd::slice::slice_index_get(image, idx + 8);
                let b5 = *vstd::slice::slice_index_get(image, idx + 9);
                if b0 == 0 && b1 == 0 && b4 == 0 && b5 == 0 {
                    start = Some(lo as u16 + hi as u16 * 256);
                    idx = idx + 10;
                } else {
                    return Err(LoadError::BadResetVector);
                }
            } else {
                if offset > 0xc000 || length > 0xc000 - offset {
                    return Err(LoadError::BlockOutOfRange);
                }
                let ghost ram0 = ram@;
                let ghost written0 = written@;
                let ghost spec0 = spec_parse_image(
                    image@,
                    0,
                    io::spec_zeros(0xc000),
                    spec_unwritten(),
                    None,
                );
                // Refuse a block that covers an address another block
                // already wrote.
                let mut k: usize = 0;
                while k < length
                    invariant
                        k <= length,
                        offset + length <= 0xc000,
                        idx + 4 + length <= n,
                        n == image@.len(),
                        written@ == written0,
                        written0.len() == 0xc000,
                        ram@ == ram0,
                        ram0.len() == 0xc000,
                        offset == image@[idx as int] + image@[idx + 1] * 256,
                        length == image@[idx + 2] + image@[idx + 3] * 256,
                        !(offset == 0xfffa && length == 6),
                        spec0 == spec_parse_image(
                            image@,
                            0,
                            io::spec_zeros(0xc000),
                            spec_unwritten(),
                            None,
                        ),
                        spec0 == spec_parse_image(image@, idx as int, ram0, written0, start),
                        forall|j: int| offset <= j < offset + k ==> !(#[trigger] written0[j]),
                    decreases length - k,
                {
                    if written[offset + k] {
                        proof {
                            assert(spec_parse_image(image@, idx as int, ram0, written0, start)
                                == Err::<(Seq<u8>, u16), LoadError>(LoadError::Overlap));
                        }
                        return Err(LoadError::Overlap);
                    }
                    k = k + 1;
                }
                // Copy the block in.
                let mut k: usize = 0;
                while k < length
                    invariant
                        k <= length,
                        offset + length <= 0xc000,
                        idx + 4 + length <= n,
                        n == image@.len(),
                        written@ == written0,
                        written0.len() == 0xc000,
                        ram@.len() == 0xc000,
                        ram0.len() == 0xc000,
                        forall|j: int|
                            0 <= j < 0xc000 ==> #[trigger] ram@[j] == if offset <= j < offset + k {
                                image@[idx + 4 + (j - offset)]
                            } else {
                                ram0[j]
                            },
                    decreases length - k,
                {
                    let b = *vstd::slice::slice_index_get(image, idx + 4 + k);
                    ram.set(offset + k, b);
                    k = k + 1;
                }
                // Mark the block as written.
                let mut k2: usize = 0;
                while k2 < length
                    invariant
                        k2 <= length,
                        offset + length <= 0xc000,
                        written@.len() == 0xc000,
                        written0.len() == 0xc000,
                        forall|j: int|
                            0 <= j < 0xc000 ==> #[trigger] written@[j] == if offset <= j < offset
                                + k2 {
                                true
                            } else {
                                written0[j]
                            },
                    decreases length - k2,
                {
                    written.set(offset + k2, true);
                    k2 = k2 + 1;
                }
                proof {
                    assert(!(exists|k: int|
                        offset <= k < offset + length && written0[k]));
                    assert(ram@ =~= spec_blit(ram0, image@, idx + 4, offset as int, length as int));
                    assert(written@ =~= spec_mark(written0, offset as int, length as int));
                }
                idx = idx + 4 + length;
            }
        }

        let sa = match start {
            Some(sa) => sa,
            None => {
                return Err(LoadError::NoStartAddr);
            },
        };
        let ghost parsed_ram = ram@;
        // The loader leaves the stack-page bounds at $0000..$0002 as the
        // ROM routines expect: RAM below, I/O and ROM above $C000.
        ram.set(0, 0x00);
        ram.set(1, 0xc0);
        proof {
            assert(spec_image_result(image@) == Ok::<(Seq<u8>, u16), LoadError>(
                (parsed_ram.update(0, 0u8).update(1, 0xc0u8), sa),
            ));
            assert(ram@ == parsed_ram.update(0, 0u8).update(1, 0xc0u8));
        }
        let r = AddressSpace {
            main_ram: ram,
            io: Io::new(),
            rom: Rom::new(),
            lc_ram: io::zero_bytes(0x3000),
            lc_bank_2: io::zero_bytes(0x1000),
            sprites: SpriteSheet::blank(),
        };
        proof {
            assert(r@ == (MemV { main_ram: r@.main_ram, ..spec_mem_new(Seq::empty(), 0) })) by {
                assert(spec_mem_new(Seq::empty(), 0).io == r@.io);
                assert(spec_mem_new(Seq::empty(), 0).rom == r@.rom);
                assert(spec_mem_new(Seq::empty(), 0).lc_ram == r@.lc_ram);
                assert(spec_mem_new(Seq::empty(), 0).lc_bank_2 == r@.lc_bank_2);
                assert(spec_mem_new(Seq::empty(), 0).sprites =~= r@.sprites);
            }
        }
        Ok((r, sa))
    }
}

/// A vector of `n` cleared flags.
fn zero_flags(n: usize) -> (r: Vec<bool>)
    ensures
        r@ == Seq::new(n as nat, |i: int| false),
{
    let mut r: Vec<bool> = Vec::new();
    let mut i: usize = 0;
    while i < n
        invariant
            i <= n,
            r@ =~= Seq::new(i as nat, |j: int| false),
        decreases n - i,
    {
        r.push(false);
        proof {
            assert(r@ =~= Seq::new((i + 1) as nat, |j: int| false));
        }
        i = i + 1;
    }
    r
}

} // verus!
