//! Display records derived from the state of the video unit.

use vstd::prelude::*;
use crate::registers::{RegisterSnapshot, obj_size_of};

verus! {

/// Number of entries in the object table.
pub const OAM_ENTRIES: usize = 128;

/// Number of colours in colour memory.
pub const CGRAM_ENTRIES: usize = 256;

/// Number of the first colour that objects can use.
pub const OBJ_COLOR_BASE: u8 = 128;

/// Number of colours in one object palette.
pub const OBJ_PALETTE_LEN: u8 = 16;

/// Number of object palettes.
pub const OBJ_PALETTES: u8 = 8;

/// Number of priority levels of an object.
pub const OBJ_PRIORITIES: u8 = 4;

/// Word address of the tile an object starts with.
///
/// The low three bits of `obsel` select the base table, the next two bits
/// the distance of the second table from the first.  The address is kept to
/// the 15 bits that video memory has.
pub open spec fn tile_word_addr(obsel: u8, tile: u8, name_table: bool) -> u16 {
    let name_base: u16 = ((obsel as u16) & 0b111) << 13;
    let name_select: u16 = ((obsel as u16) >> 3) & 0b11;
    let second: u16 = if name_table {
        ((name_select + 1) as u16) << 12
    } else {
        0
    };
    (name_base | ((tile as u16) << 4) | second) & 0x7fff
}

/// Byte address of the tile an object starts with.
pub open spec fn tile_byte_addr(obsel: u8, tile: u8, name_table: bool) -> u16 {
    tile_word_addr(obsel, tile, name_table) << 1
}

/// Index of the first colour of object palette `palette`.
pub open spec fn palette_start(palette: u8) -> int {
    OBJ_COLOR_BASE + palette * OBJ_PALETTE_LEN
}

/// Computes `tile_byte_addr`.
pub fn tile_addr(obsel: u8, tile: u8, name_table: bool) -> (addr: u16)
    ensures
        addr == tile_byte_addr(obsel, tile, name_table),
{
    let name_base: u16 = (obsel as u16 & 0b111) << 13;
    let name_select: u16 = (obsel as u16 >> 3) & 0b11;
    assert(name_select <= 3) by (bit_vector)
        requires
            name_select == ((obsel as u16) >> 3) & 0b11,
    ;
    let second: u16 = if name_table {
        (name_select + 1) << 12
    } else {
        0
    };
    let word: u16 = (name_base | ((tile as u16) << 4) | second) & 0x7fff;
    word << 1
}

/// One entry of the object table, as the video unit holds it.
#[derive(Clone, Copy, Debug, PartialEq, Eq)]
pub struct ObjectRecord {
    tile: u8,
    name_table: bool,
    x: i16,
    y: u8,
    size_toggle: bool,
    priority: u8,
    palette: u8,
    hflip: bool,
    vflip: bool,
}

impl ObjectRecord {
    #[verifier::type_invariant]
    spec fn wf(self) -> bool {
        self.priority < OBJ_PRIORITIES && self.palette < OBJ_PALETTES
    }

    /// Number of the first tile.
    pub closed spec fn tile(self) -> u8 {
        self.tile
    }

    /// Whether the tile lies in the second tile table.
    pub closed spec fn name_table(self) -> bool {
        self.name_table
    }

    /// Horizontal position; negative for an object that hangs over the left
    /// edge.
    pub closed spec fn x(self) -> i16 {
        self.x
    }

    /// Vertical position.
    pub closed spec fn y(self) -> u8 {
        self.y
    }

    /// Whether the object has the large one of the two current sizes.
    pub closed spec fn size_toggle(self) -> bool {
        self.size_toggle
    }

    /// Priority against the backgrounds, below `OBJ_PRIORITIES`.
    pub closed spec fn priority(self) -> u8 {
        self.priority
    }

    /// Number of the palette, below `OBJ_PALETTES`.
    pub closed spec fn palette(self) -> u8 {
        self.palette
    }

    /// Whether the object is mirrored left to right.
    pub closed spec fn hflip(self) -> bool {
        self.hflip
    }

    /// Whether the object is mirrored top to bottom.
    pub closed spec fn vflip(self) -> bool {
        self.vflip
    }

    /// Number of the first tile.
    pub fn get_tile(&self) -> (tile: u8)
        ensures
            tile == self.tile(),
    {
        self.tile
    }

    /// Whether the tile lies in the second tile table.
    pub fn get_name_table(&self) -> (name_table: bool)
        ensures
            name_table == self.name_table(),
    {
        self.name_table
    }

    /// Horizontal position.
    pub fn get_x(&self) -> (x: i16)
        ensures
            x == self.x(),
    {
        self.x
    }

    /// Vertical position.
    pub fn get_y(&self) -> (y: u8)
        ensures
            y == self.y(),
    {
        self.y
    }

    /// Whether the object has the large one of the two current sizes.
    pub fn get_size_toggle(&self) -> (size_toggle: bool)
        ensures
            size_toggle == self.size_toggle(),
    {
        self.size_toggle
    }

    /// Priority against the backgrounds.
    pub fn get_priority(&self) -> (priority: u8)
        ensures
            priority == self.priority(),
            priority < OBJ_PRIORITIES,
    {
        proof {
            use_type_invariant(self);
        }
        self.priority
    }

    /// Number of the palette.
    pub fn get_palette(&self) -> (palette: u8)
        ensures
            palette == self.palette(),
            palette < OBJ_PALETTES,
    {
        proof {
            use_type_invariant(self);
        }
        self.palette
    }

    /// Whether the object is mirrored left to right.
    pub fn get_hflip(&self) -> (hflip: bool)
        ensures
            hflip == self.hflip(),
    {
        self.hflip
    }

    /// Whether the object is mirrored top to bottom.
    pub fn get_vflip(&self) -> (vflip: bool)
        ensures
            vflip == self.vflip(),
    {
        self.vflip
    }

    /// The record with the given fields, where priority and palette are in
    /// range.
    pub fn new(
        tile: u8,
        name_table: bool,
        x: i16,
        y: u8,
        size_toggle: bool,
        priority: u8,
        palette: u8,
        hflip: bool,
        vflip: bool,
    ) -> (record: Option<ObjectRecord>)
        ensures
            record is Some <==> priority < OBJ_PRIORITIES && palette < OBJ_PALETTES,
            record matches Some(r) ==> {
                &&& r.tile() == tile
                &&& r.name_table() == name_table
                &&& r.x() == x
                &&& r.y() == y
                &&& r.size_toggle() == size_toggle
                &&& r.priority() == priority
                &&& r.palette() == palette
                &&& r.hflip() == hflip
                &&& r.vflip() == vflip
            },
    {
        if priority < OBJ_PRIORITIES && palette < OBJ_PALETTES {
            Some(ObjectRecord { tile, name_table, x, y, size_toggle, priority, palette, hflip, vflip })
        } else {
            None
        }
    }
}

/// What the inspector shows of one object.
#[derive(Clone, Copy, Debug, PartialEq, Eq)]
pub struct Sprite {
    /// Byte address in video memory of the first tile.
    pub tile_addr: u16,
    /// Horizontal position.
    pub x: i16,
    /// Vertical position.
    pub y: u8,
    /// Priority against the backgrounds.
    pub priority: u8,
    /// Index of the first colour that the object can use.
    pub color_start: u8,
    /// Whether the object is mirrored left to right.
    pub hflip: bool,
    /// Whether the object is mirrored top to bottom.
    pub vflip: bool,
    /// Width and height in pixels.
    pub size: (u8, u8),
}

/// The display record of `record` under the registers `ppu`.
pub open spec fn sprite_of(ppu: RegisterSnapshot, record: ObjectRecord) -> Sprite {
    Sprite {
        tile_addr: tile_byte_addr(ppu.obsel, record.tile(), record.name_table()),
        x: record.x(),
        y: record.y(),
        priority: record.priority(),
        color_start: palette_start(record.palette()) as u8,
        hflip: record.hflip(),
        vflip: record.vflip(),
        size: obj_size_of(ppu.obsel, record.size_toggle()),
    }
}

/// One colour of colour memory: the raw 15-bit word, and the colour as the
/// screen shows it.
#[derive(Clone, Copy, Debug, PartialEq, Eq, Structural)]
pub struct CgramColor {
    /// The word as colour memory holds it.
    pub raw: u16,
    /// Red, of 255.
    pub r: u8,
    /// Green, of 255.
    pub g: u8,
    /// Blue, of 255.
    pub b: u8,
}

/// What the inspector shows after a frame.
#[derive(Clone, Debug, PartialEq, Eq)]
pub struct ModelData {
    /// The decoded object table.
    pub sprites: Vec<Sprite>,
    /// The video registers.
    pub ppu: RegisterSnapshot,
    /// Colour memory.
    pub cgram: Vec<CgramColor>,
    /// The frame, three bytes to a pixel, row by row.
    pub frame: Vec<u8>,
    /// A few lines on the cartridge and on where the beam stands.
    pub info: String,
}

/// `ModelData` with its lists and its text as sequences.
pub struct ModelDataView {
    pub sprites: Seq<Sprite>,
    pub ppu: RegisterSnapshot,
    pub cgram: Seq<CgramColor>,
    pub frame: Seq<u8>,
    pub info: Seq<char>,
}

impl View for ModelData {
    type V = ModelDataView;

    open spec fn view(&self) -> ModelDataView {
        ModelDataView {
            sprites: self.sprites@,
            ppu: self.ppu,
            cgram: self.cgram@,
            frame: self.frame@,
            info: self.info@,
        }
    }
}

impl Sprite {
    /// Decodes one object-table record under the registers `ppu`.
    pub fn new(ppu: &RegisterSnapshot, sprite: &ObjectRecord) -> (decoded: Sprite)
        ensures
            decoded == sprite_of(*ppu, *sprite),
            decoded.color_start == palette_start(sprite.palette()),
    {
        proof {
            use_type_invariant(sprite);
        }
        Sprite {
            tile_addr: tile_addr(ppu.obsel, sprite.tile, sprite.name_table),
            x: sprite.x,
            y: sprite.y,
            priority: sprite.priority,
            color_start: OBJ_COLOR_BASE + sprite.palette * OBJ_PALETTE_LEN,
            hflip: sprite.hflip,
            vflip: sprite.vflip,
            size: ppu.obj_size(sprite.size_toggle),
        }
    }
}

} // verus!
