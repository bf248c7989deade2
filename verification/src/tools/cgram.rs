//! Colour memory, one line for each colour.

use vstd::prelude::*;
use crate::data::{CgramColor, ModelData};
use crate::text::{hex4, push_hex4};

verus! {

/// One line of the colour list.
#[derive(Clone, Debug, PartialEq, Eq)]
pub struct CgramRow {
    /// Number of the colour.
    pub id: u8,
    /// The one pixel that shows the colour: red, green, blue.
    pub color: [u8; 3],
    /// The raw word: `0x` and four hexadecimal digits.
    pub raw: String,
    /// Red, of 255.
    pub r: u8,
    /// Green, of 255.
    pub g: u8,
    /// Blue, of 255.
    pub b: u8,
}

/// `CgramRow` with its text and its pixel as sequences.
pub struct CgramRowView {
    pub id: u8,
    pub color: Seq<u8>,
    pub raw: Seq<char>,
    pub r: u8,
    pub g: u8,
    pub b: u8,
}

impl View for CgramRow {
    type V = CgramRowView;

    open spec fn view(&self) -> CgramRowView {
        CgramRowView {
            id: self.id,
            color: self.color@,
            raw: self.raw@,
            r: self.r,
            g: self.g,
            b: self.b,
        }
    }
}

impl DeepView for CgramRow {
    type V = CgramRowView;

    open spec fn deep_view(&self) -> CgramRowView {
        self@
    }
}

/// The line for the colour with number `id`.  The number is shown in eight
/// bits.
pub open spec fn cgram_row(id: int, color: CgramColor) -> CgramRowView {
    CgramRowView {
        id: (id % 256) as u8,
        color: seq![color.r, color.g, color.b],
        raw: seq!['0', 'x'] + hex4(color.raw),
        r: color.r,
        g: color.g,
        b: color.b,
    }
}

/// The list after `colors` were shown in a list that held `before`: one
/// line for each colour, and behind them the lines that the list held for
/// colours with higher numbers.
pub open spec fn cgram_rows(before: Seq<CgramRowView>, colors: Seq<CgramColor>) -> Seq<
    CgramRowView,
> {
    Seq::new(
        if before.len() > colors.len() {
            before.len()
        } else {
            colors.len()
        },
        |i: int|
            if i < colors.len() {
                cgram_row(i, colors[i])
            } else {
                before[i]
            },
    )
}

/// Writes the line for the colour with number `id`.
pub fn make_cgram_row(id: usize, color: &CgramColor) -> (row: CgramRow)
    ensures
        row@ == cgram_row(id as int, *color),
{
    proof {
        reveal_strlit("0x");
    }
    let mut raw = String::new();
    raw.append("0x");
    push_hex4(&mut raw, color.raw);
    let row = CgramRow {
        id: (id % 256) as u8,
        color: [color.r, color.g, color.b],
        raw,
        r: color.r,
        g: color.g,
        b: color.b,
    };
    assert(row@.raw =~= cgram_row(id as int, *color).raw);
    assert(row@.color =~= cgram_row(id as int, *color).color);
    row
}

/// The colour tab.
#[derive(Clone, Debug, PartialEq, Eq)]
pub struct Cgram {
    /// The list of colours.
    pub cgram: Vec<CgramRow>,
}

impl Cgram {
    /// The tab with an empty list.
    pub fn new() -> (tab: Cgram)
        ensures
            tab.cgram@.len() == 0,
    {
        Cgram { cgram: Vec::new() }
    }

    /// Name of the tab.
    pub fn get_name(&self) -> (name: &'static str)
        ensures
            name@ == "CGRAM"@,
    {
        "CGRAM"
    }

    /// Shows the colours in `data`.  The list is not emptied first: lines
    /// are added where it is too short, then the line of each colour is
    /// written over.
    pub fn update_model_data(&mut self, data: &ModelData)
        ensures
            final(self).cgram.deep_view() == cgram_rows(old(self).cgram.deep_view(), data.cgram@),
    {
        let ghost before = self.cgram.deep_view();
        let mut id: usize = 0;
        while id < data.cgram.len()
            invariant
                id <= data.cgram@.len(),
                before == old(self).cgram.deep_view(),
                self.cgram@.len() == (if before.len() > id {
                    before.len()
                } else {
                    id as nat
                }),
                forall|k: int| 0 <= k < id ==> self.cgram@[k]@ == cgram_row(k, data.cgram@[k]),
                forall|k: int| id <= k < self.cgram@.len() ==> self.cgram@[k]@ == before[k],
            decreases data.cgram@.len() - id,
        {
            let row = make_cgram_row(id, &data.cgram[id]);
            if id < self.cgram.len() {
                self.cgram[id] = row;
            } else {
                self.cgram.push(row);
            }
            id += 1;
        }
        assert(self.cgram.deep_view() =~= cgram_rows(before, data.cgram@));
    }
}

} // verus!
