//! The cartridge that stands in while none is loaded.
//!
//! The image is the smallest one that a loader takes: two banks, a header
//! at the end of the first bank, and a program that loops at its entry
//! point, so that running it changes nothing.

use vstd::prelude::*;

verus! {

/// Size of the region that one bank of the cartridge is mapped to.
pub const BANK_LEN: usize = 0x8000;

/// Bus address at which the first bank is mapped.
pub const BANK_BASE: u16 = 0x8000;

/// Length of the header.
pub const HEADER_LEN: usize = 32;

/// Length of the title at the start of the header.
pub const TITLE_LEN: usize = 21;

/// Offset of the header in the image.
pub const HEADER_OFFSET: usize = 0x8000 - 64;

/// Offset in the image of the reset vector, low byte first.
pub const RESET_VECTOR_OFFSET: usize = 0x7ffc;

/// Length of the blank image.
pub const BLANK_ROM_LEN: usize = 0x8000 * 2;

/// Size byte of the header for an image of `BLANK_ROM_LEN` bytes: the image
/// holds `0x400 << 6` bytes.
pub const ROM_SIZE_CODE: u8 = 6;

/// The program: `lda #0`, then `beq` to itself.
pub open spec fn blank_rom_code() -> Seq<u8> {
    seq![0xA9u8, 0x00, 0xF0, 0xFE]
}

/// The title: `BLANK`, filled up with spaces.
pub open spec fn blank_rom_title() -> Seq<u8> {
    seq![0x42u8, 0x4C, 0x41, 0x4E, 0x4B] + Seq::new((TITLE_LEN - 5) as nat, |i: int| 0x20u8)
}

/// The header: title, mapping mode, chipset, size of the image, size of the
/// cartridge memory, vendor (two bytes), version, then a checksum and its
/// complement that do not hold of the image.
pub open spec fn blank_rom_header() -> Seq<u8> {
    blank_rom_title() + seq![0u8, 0, ROM_SIZE_CODE, 0, 0, 0, 0, 0x55, 0x55, 0xAA, 0xAA]
}

/// The byte at offset `i` of the blank image.
pub open spec fn blank_rom_byte(i: int) -> u8 {
    if i == RESET_VECTOR_OFFSET {
        (BANK_BASE % 256) as u8
    } else if i == RESET_VECTOR_OFFSET + 1 {
        (BANK_BASE / 256) as u8
    } else if 0 <= i < blank_rom_code().len() {
        blank_rom_code()[i]
    } else if HEADER_OFFSET <= i < HEADER_OFFSET + HEADER_LEN {
        blank_rom_header()[i - HEADER_OFFSET]
    } else {
        0
    }
}

/// The blank image.
pub open spec fn blank_rom_image() -> Seq<u8> {
    Seq::new(BLANK_ROM_LEN as nat, |i: int| blank_rom_byte(i))
}

/// The bus address that the reset vector of `image` holds.
pub open spec fn reset_vector(image: Seq<u8>) -> int {
    image[RESET_VECTOR_OFFSET as int] + 256 * image[RESET_VECTOR_OFFSET + 1]
}

/// Appends zeros to `image` until it is `len` bytes long.
fn pad_to(image: &mut Vec<u8>, len: usize)
    requires
        old(image)@.len() <= len,
    ensures
        final(image)@.len() == len,
        forall|i: int| 0 <= i < old(image)@.len() ==> final(image)@[i] == old(image)@[i],
        forall|i: int| old(image)@.len() <= i < len ==> final(image)@[i] == 0,
{
    while image.len() < len
        invariant
            old(image)@.len() <= image@.len() <= len,
            forall|i: int| 0 <= i < old(image)@.len() ==> image@[i] == old(image)@[i],
            forall|i: int| old(image)@.len() <= i < image@.len() ==> image@[i] == 0,
        decreases len - image@.len(),
    {
        image.push(0);
    }
}

/// Builds the header of the blank image.
pub fn build_blank_rom_header() -> (header: Vec<u8>)
    ensures
        header@ == blank_rom_header(),
        header@.len() == HEADER_LEN,
{
    let mut header: Vec<u8> = Vec::with_capacity(HEADER_LEN);
    header.push(0x42);
    header.push(0x4C);
    header.push(0x41);
    header.push(0x4E);
    header.push(0x4B);
    while header.len() < TITLE_LEN
        invariant
            5 <= header@.len() <= TITLE_LEN,
            forall|i: int| 0 <= i < header@.len() ==> header@[i] == blank_rom_title()[i],
        decreases TITLE_LEN - header@.len(),
    {
        header.push(0x20);
    }
    header.push(0);
    header.push(0);
    header.push(ROM_SIZE_CODE);
    header.push(0);
    header.push(0);
    header.push(0);
    header.push(0);
    header.push(0x55);
    header.push(0x55);
    header.push(0xAA);
    header.push(0xAA);
    assert(header@ =~= blank_rom_header());
    header
}

/// Builds the blank image.
pub fn load_blank_rom() -> (rom: Vec<u8>)
    ensures
        rom@ == blank_rom_image(),
        rom@.len() == 2 * BANK_LEN,
        blank_rom_header().len() == HEADER_LEN,
        rom@.subrange(HEADER_OFFSET as int, HEADER_OFFSET + HEADER_LEN) == blank_rom_header(),
        blank_rom_code().len() < HEADER_OFFSET,
        rom@.subrange(0, blank_rom_code().len() as int) == blank_rom_code(),
        reset_vector(rom@) == BANK_BASE,
{
    let header = build_blank_rom_header();
    let mut rom: Vec<u8> = Vec::new();
    rom.push(0xA9);
    rom.push(0x00);
    rom.push(0xF0);
    rom.push(0xFE);
    pad_to(&mut rom, HEADER_OFFSET);
    let mut i: usize = 0;
    while i < HEADER_LEN
        invariant
            i <= HEADER_LEN,
            header@ == blank_rom_header(),
            header@.len() == HEADER_LEN,
            rom@.len() == HEADER_OFFSET + i,
            forall|k: int| 0 <= k < rom@.len() && k < RESET_VECTOR_OFFSET ==> rom@[k] == blank_rom_byte(k),
        decreases HEADER_LEN - i,
    {
        rom.push(header[i]);
        i += 1;
    }
    pad_to(&mut rom, BLANK_ROM_LEN);
    rom[RESET_VECTOR_OFFSET] = 0x00;
    rom[RESET_VECTOR_OFFSET + 1] = 0x80;
    assert(rom@ =~= blank_rom_image());
    assert(rom@.subrange(HEADER_OFFSET as int, HEADER_OFFSET + HEADER_LEN) =~= blank_rom_header());
    assert(rom@.subrange(0, blank_rom_code().len() as int) =~= blank_rom_code());
    rom
}

} // verus!
