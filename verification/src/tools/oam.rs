//! The object table, one line for each object.

use vstd::prelude::*;
use crate::data::{ModelData, Sprite};
use crate::text::{decimal, hex4, push_decimal, push_hex4};

verus! {

/// One line of the object list.
#[derive(Clone, Debug, PartialEq, Eq)]
pub struct OamRow {
    /// Number of the object.
    pub id: u8,
    /// Horizontal position.
    pub x: i32,
    /// Vertical position.
    pub y: u8,
    /// Width and height in pixels, with an `x` between them.
    pub size: String,
    /// Byte address of the first tile: `0x` and four hexadecimal digits.
    pub tile_addr: String,
    /// Priority against the backgrounds.
    pub priority: u8,
    /// Index of the first colour.
    pub color_start: u8,
    /// Mirrored left to right.
    pub hflip: bool,
    /// Mirrored top to bottom.
    pub vflip: bool,
}

/// `OamRow` with its texts as sequences of characters.
pub struct OamRowView {
    pub id: u8,
    pub x: i32,
    pub y: u8,
    pub size: Seq<char>,
    pub tile_addr: Seq<char>,
    pub priority: u8,
    pub color_start: u8,
    pub hflip: bool,
    pub vflip: bool,
}

impl View for OamRow {
    type V = OamRowView;

    open spec fn view(&self) -> OamRowView {
        OamRowView {
            id: self.id,
            x: self.x,
            y: self.y,
            size: self.size@,
            tile_addr: self.tile_addr@,
            priority: self.priority,
            color_start: self.color_start,
            hflip: self.hflip,
            vflip: self.vflip,
        }
    }
}

impl DeepView for OamRow {
    type V = OamRowView;

    open spec fn deep_view(&self) -> OamRowView {
        self@
    }
}

/// The line for the object with number `id`.  The number is shown in eight
/// bits.
pub open spec fn oam_row(id: int, sprite: Sprite) -> OamRowView {
    OamRowView {
        id: (id % 256) as u8,
        x: sprite.x as i32,
        y: sprite.y,
        size: decimal(sprite.size.0 as nat) + seq!['x'] + decimal(sprite.size.1 as nat),
        tile_addr: seq!['0', 'x'] + hex4(sprite.tile_addr),
        priority: sprite.priority,
        color_start: sprite.color_start,
        hflip: sprite.hflip,
        vflip: sprite.vflip,
    }
}

/// The list after `sprites` were shown in a list that held `before`: one
/// line for each object, and behind them the lines that the list held for
/// objects with higher numbers.
pub open spec fn oam_rows(before: Seq<OamRowView>, sprites: Seq<Sprite>) -> Seq<OamRowView> {
    Seq::new(
        if before.len() > sprites.len() {
            before.len()
        } else {
            sprites.len()
        },
        |i: int|
            if i < sprites.len() {
                oam_row(i, sprites[i])
            } else {
                before[i]
            },
    )
}

/// Writes the line for the object with number `id`.
pub fn make_oam_row(id: usize, sprite: &Sprite) -> (row: OamRow)
    ensures
        row@ == oam_row(id as int, *sprite),
{
    proof {
        reveal_strlit("x");
        reveal_strlit("0x");
    }
    let mut size = String::new();
    push_decimal(&mut size, sprite.size.0 as u16);
    size.append("x");
    push_decimal(&mut size, sprite.size.1 as u16);
    let mut tile_addr = String::new();
    tile_addr.append("0x");
    push_hex4(&mut tile_addr, sprite.tile_addr);
    let row = OamRow {
        id: (id % 256) as u8,
        x: sprite.x as i32,
        y: sprite.y,
        size,
        tile_addr,
        priority: sprite.priority,
        color_start: sprite.color_start,
        hflip: sprite.hflip,
        vflip: sprite.vflip,
    };
    assert(row@.size =~= oam_row(id as int, *sprite).size);
    assert(row@.tile_addr =~= oam_row(id as int, *sprite).tile_addr);
    row
}

/// The object tab.
#[derive(Clone, Debug, PartialEq, Eq)]
pub struct Oam {
    /// The list of objects.
    pub oam: Vec<OamRow>,
}

impl Oam {
    /// The tab with an empty list.
    pub fn new() -> (tab: Oam)
        ensures
            tab.oam@.len() == 0,
    {
        Oam { oam: Vec::new() }
    }

    /// Name of the tab.
    pub fn get_name(&self) -> (name: &'static str)
        ensures
            name@ == "OAM"@,
    {
        "OAM"
    }

    /// Shows the objects in `data`.  The list is not emptied first: lines
    /// are added where it is too short, then the line of each object is
    /// written over.
    pub fn update_model_data(&mut self, data: &ModelData)
        ensures
            final(self).oam.deep_view() == oam_rows(old(self).oam.deep_view(), data.sprites@),
    {
        let ghost before = self.oam.deep_view();
        let mut id: usize = 0;
        while id < data.sprites.len()
            invariant
                id <= data.sprites@.len(),
                before == old(self).oam.deep_view(),
                self.oam@.len() == (if before.len() > id {
                    before.len()
                } else {
                    id as nat
                }),
                forall|k: int| 0 <= k < id ==> self.oam@[k]@ == oam_row(k, data.sprites@[k]),
                forall|k: int| id <= k < self.oam@.len() ==> self.oam@[k]@ == before[k],
            decreases data.sprites@.len() - id,
        {
            let row = make_oam_row(id, &data.sprites[id]);
            if id < self.oam.len() {
                self.oam[id] = row;
            } else {
                self.oam.push(row);
            }
            id += 1;
        }
        assert(self.oam.deep_view() =~= oam_rows(before, data.sprites@));
    }
}

} // verus!
