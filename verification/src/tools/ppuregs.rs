//! The video registers, broken down to the single setting.

use vstd::prelude::*;
use crate::data::ModelData;
use crate::registers::{RegisterSnapshot, REGISTER_COUNT, register_addr, register_name};
use crate::text::{hex2, hex4, hex2_text, hex4_text};

verus! {

/// Number of backgrounds.
pub const BACKGROUNDS: usize = 4;

/// Number of layers that a screen is made of: the backgrounds and the
/// objects.
pub const LAYERS: usize = 5;

/// Number of layers that colour math can apply to: the layers of a screen
/// and the backdrop.
pub const MATH_LAYERS: usize = 6;

/// Whether bit `i` of `raw` is set.
pub open spec fn bit_set(raw: u8, i: int) -> bool {
    raw & (1u8 << (i as u8)) != 0
}

/// Entry of the tile-size list that is shown for background `bg`, counted
/// from 1: the second entry where `bgmode` has a bit in common with `0x80`
/// shifted left by `bg` within eight bits, else the first.
pub open spec fn bg_tile_size_entry(bgmode: u8, bg: int) -> u8 {
    if bgmode & (0x80u8 << (bg as u8)) == 0 {
        0
    } else {
        1
    }
}

/// One line of the list of raw register values.
#[derive(Clone, Debug, PartialEq, Eq)]
pub struct RegisterRow {
    /// Bus address: `$` and four hexadecimal digits.
    pub addr: String,
    /// Name of the register.
    pub name: String,
    /// Raw value: `$` and two hexadecimal digits.
    pub value: String,
}

/// `RegisterRow` with its texts as sequences of characters.
pub struct RegisterRowView {
    pub addr: Seq<char>,
    pub name: Seq<char>,
    pub value: Seq<char>,
}

impl View for RegisterRow {
    type V = RegisterRowView;

    open spec fn view(&self) -> RegisterRowView {
        RegisterRowView { addr: self.addr@, name: self.name@, value: self.value@ }
    }
}

impl DeepView for RegisterRow {
    type V = RegisterRowView;

    open spec fn deep_view(&self) -> RegisterRowView {
        self@
    }
}

/// The line for the register at position `i` of `ppu`.
pub open spec fn register_row(ppu: RegisterSnapshot, i: int) -> RegisterRowView {
    RegisterRowView {
        addr: seq!['$'] + hex4(register_addr(i)),
        name: register_name(i),
        value: seq!['$'] + hex2(ppu.values()[i]),
    }
}

/// The list of raw register values of `ppu`, one line for each register.
pub open spec fn register_rows(ppu: RegisterSnapshot) -> Seq<RegisterRowView> {
    Seq::new(REGISTER_COUNT as nat, |i: int| register_row(ppu, i))
}

/// The list after `ppu` was shown in a list that held `before`: one line
/// for each register, and behind them the lines that the list held beyond
/// the registers.
pub open spec fn register_list(before: Seq<RegisterRowView>, ppu: RegisterSnapshot) -> Seq<
    RegisterRowView,
> {
    Seq::new(
        if before.len() > REGISTER_COUNT {
            before.len()
        } else {
            REGISTER_COUNT as nat
        },
        |i: int|
            if i < REGISTER_COUNT {
                register_row(ppu, i)
            } else {
                before[i]
            },
    )
}

/// The low `N` bits of `raw`, the lowest first.
pub fn low_bits<const N: usize>(raw: u8) -> (bits: [bool; N])
    requires
        N <= 8,
    ensures
        forall|i: int| 0 <= i < N ==> bits[i] == bit_set(raw, i),
{
    let mut bits = [false; N];
    let mut i: usize = 0;
    while i < N
        invariant
            i <= N <= 8,
            forall|k: int| 0 <= k < i ==> bits[k] == bit_set(raw, k),
        decreases N - i,
    {
        bits[i] = raw & (1u8 << (i as u8)) != 0;
        i += 1;
    }
    bits
}

/// Writes the line for the register at position `i` of `ppu`.
pub fn make_register_row(ppu: &RegisterSnapshot, i: usize) -> (row: RegisterRow)
    requires
        i < REGISTER_COUNT,
    ensures
        row@ == register_row(*ppu, i as int),
{
    proof {
        reveal_strlit("$");
    }
    let row = RegisterRow {
        addr: hex4_text("$", RegisterSnapshot::addr(i)),
        name: String::from_str(RegisterSnapshot::name(i)),
        value: hex2_text("$", ppu.value(i)),
    };
    assert(row@.addr =~= register_row(*ppu, i as int).addr);
    assert(row@.value =~= register_row(*ppu, i as int).value);
    row
}

/// Shows the registers `ppu` in the list `rows`.  The list is not emptied
/// first: lines are added where it is too short, then the line of each
/// register is written over.
pub fn write_register_rows(rows: &mut Vec<RegisterRow>, ppu: &RegisterSnapshot)
    ensures
        final(rows).deep_view() == register_list(old(rows).deep_view(), *ppu),
{
    let ghost before = rows.deep_view();
    let mut i: usize = 0;
    while i < REGISTER_COUNT
        invariant
            i <= REGISTER_COUNT,
            before == old(rows).deep_view(),
            rows@.len() == (if before.len() > i {
                before.len()
            } else {
                i as nat
            }),
            forall|k: int| 0 <= k < i ==> rows@[k]@ == register_row(*ppu, k),
            forall|k: int| i <= k < rows@.len() ==> rows@[k]@ == before[k],
        decreases REGISTER_COUNT - i,
    {
        let row = make_register_row(ppu, i);
        if i < rows.len() {
            rows[i] = row;
        } else {
            rows.push(row);
        }
        i += 1;
    }
    assert(rows.deep_view() =~= register_list(before, *ppu));
}

/// State of every control on the register tab.
#[derive(Clone, Debug, PartialEq, Eq)]
pub struct PpuRegs {
    /// The list of raw register values.
    pub regs: Vec<RegisterRow>,
    /// Forced blank.
    pub fblank: bool,
    /// Screen brightness, up to 15.
    pub brightness: u8,
    /// Entry of the list of object sizes.
    pub objsize: u8,
    /// Entry of the list of background modes.
    pub bgmode: u8,
    /// Entry of the list of tile sizes, for each background.
    pub bg_tilesizes: [u8; 4],
    /// Entry of the list of mosaic sizes.
    pub mosaicsize: u8,
    /// Mosaic switched on, for each background.
    pub mosaicbgs: [bool; 4],
    /// Layers on the main screen.
    pub tm: [bool; 5],
    /// Layers on the sub screen.
    pub ts: [bool; 5],
    /// Layers that the windows mask on the main screen.
    pub tmw: [bool; 5],
    /// Layers that the windows mask on the sub screen.
    pub tsw: [bool; 5],
    /// Entry of the list that says where colours are clipped to black.
    pub cgw_clip: u8,
    /// Entry of the list that says where colour math is prevented.
    pub cgw_prevent: u8,
    /// Colour math takes the sub screen, not the fixed colour.
    pub cgw_subscreen: bool,
    /// Direct colour mode.
    pub cgw_direct_color: bool,
    /// Entry of the list of colour math operations: add, subtract.
    pub math_add_sub: u8,
    /// The result of colour math is halved.
    pub half_math: bool,
    /// Layers that colour math applies to.
    pub color_math: [bool; 6],
}

impl PpuRegs {
    /// Whether the controls show the registers `ppu`.
    pub open spec fn shows(&self, ppu: RegisterSnapshot) -> bool {
        &&& self.regs.deep_view().len() >= REGISTER_COUNT
        &&& self.regs.deep_view().take(REGISTER_COUNT as int) == register_rows(ppu)
        &&& self.fblank == (ppu.inidisp & 0x80 != 0)
        &&& self.brightness == ppu.inidisp & 0x0f
        &&& self.objsize == (ppu.obsel & 0b11100000) >> 5
        &&& self.bgmode == ppu.bgmode & 0b111
        &&& forall|i: int|
            0 <= i < BACKGROUNDS ==> self.bg_tilesizes[i] == bg_tile_size_entry(ppu.bgmode, i + 1)
        &&& self.mosaicsize == (ppu.mosaic & 0xf0) >> 4
        &&& forall|i: int| 0 <= i < BACKGROUNDS ==> self.mosaicbgs[i] == bit_set(ppu.mosaic, i)
        &&& forall|i: int| 0 <= i < LAYERS ==> self.tm[i] == bit_set(ppu.tm, i)
        &&& forall|i: int| 0 <= i < LAYERS ==> self.ts[i] == bit_set(ppu.ts, i)
        &&& forall|i: int| 0 <= i < LAYERS ==> self.tmw[i] == bit_set(ppu.tmw, i)
        &&& forall|i: int| 0 <= i < LAYERS ==> self.tsw[i] == bit_set(ppu.tsw, i)
        &&& self.cgw_clip == ppu.cgwsel >> 6
        &&& self.cgw_prevent == (ppu.cgwsel >> 4) & 0b11
        &&& self.cgw_subscreen == (ppu.cgwsel & 0x02 != 0)
        &&& self.cgw_direct_color == (ppu.cgwsel & 0x01 != 0)
        &&& self.math_add_sub == ppu.cgadsub >> 7
        &&& self.half_math == ((ppu.cgadsub >> 6) & 1 != 0)
        &&& forall|i: int| 0 <= i < MATH_LAYERS ==> self.color_math[i] == bit_set(ppu.cgadsub, i)
    }

    /// Whether the controls are as they are before any registers were
    /// shown: the list is empty, nothing is ticked, every list is at its
    /// first entry.
    pub open spec fn blank(&self) -> bool {
        &&& self.regs@.len() == 0
        &&& !self.fblank
        &&& self.brightness == 0
        &&& self.objsize == 0
        &&& self.bgmode == 0
        &&& forall|i: int| 0 <= i < BACKGROUNDS ==> self.bg_tilesizes[i] == 0
        &&& self.mosaicsize == 0
        &&& forall|i: int| 0 <= i < BACKGROUNDS ==> !self.mosaicbgs[i]
        &&& forall|i: int| 0 <= i < LAYERS ==> !self.tm[i]
        &&& forall|i: int| 0 <= i < LAYERS ==> !self.ts[i]
        &&& forall|i: int| 0 <= i < LAYERS ==> !self.tmw[i]
        &&& forall|i: int| 0 <= i < LAYERS ==> !self.tsw[i]
        &&& self.cgw_clip == 0
        &&& self.cgw_prevent == 0
        &&& !self.cgw_subscreen
        &&& !self.cgw_direct_color
        &&& self.math_add_sub == 0
        &&& !self.half_math
        &&& forall|i: int| 0 <= i < MATH_LAYERS ==> !self.color_math[i]
    }

    /// The controls before any registers were shown.
    pub fn new() -> (tab: PpuRegs)
        ensures
            tab.blank(),
    {
        PpuRegs {
            regs: Vec::new(),
            fblank: false,
            brightness: 0,
            objsize: 0,
            bgmode: 0,
            bg_tilesizes: [0; 4],
            mosaicsize: 0,
            mosaicbgs: [false; 4],
            tm: [false; 5],
            ts: [false; 5],
            tmw: [false; 5],
            tsw: [false; 5],
            cgw_clip: 0,
            cgw_prevent: 0,
            cgw_subscreen: false,
            cgw_direct_color: false,
            math_add_sub: 0,
            half_math: false,
            color_math: [false; 6],
        }
    }

    /// Name of the tab.
    pub fn get_name(&self) -> (name: &'static str)
        ensures
            name@ == "PPU Regs"@,
    {
        "PPU Regs"
    }

    /// Sets every control to what the registers in `data` say, and shows
    /// the registers in the list.  The list keeps the lines that it held
    /// beyond the registers.
    pub fn update_model_data(&mut self, data: &ModelData)
        ensures
            final(self).shows(data.ppu),
            final(self).regs.deep_view() == register_list(old(self).regs.deep_view(), data.ppu),
    {
        let inidisp = data.ppu.inidisp;
        self.fblank = inidisp & 0x80 != 0;
        self.brightness = inidisp & 0x0f;

        let obsel = data.ppu.obsel;
        self.objsize = (obsel & 0b11100000) >> 5;

        let bgmode = data.ppu.bgmode;
        self.bgmode = bgmode & 0b111;
        let mut bg_tilesizes = [0u8; 4];
        let mut bg: usize = 1;
        while bg < 5
            invariant
                1 <= bg <= 5,
                forall|i: int| 0 <= i < bg - 1 ==> bg_tilesizes[i] == bg_tile_size_entry(bgmode, i + 1),
            decreases 5 - bg,
        {
            bg_tilesizes[bg - 1] = if bgmode & (0x80u8 << (bg as u8)) == 0 { 0 } else { 1 };
            bg += 1;
        }
        self.bg_tilesizes = bg_tilesizes;

        let mosaic = data.ppu.mosaic;
        self.mosaicsize = (mosaic & 0xf0) >> 4;
        self.mosaicbgs = low_bits(mosaic);

        self.tm = low_bits(data.ppu.tm);
        self.ts = low_bits(data.ppu.ts);
        self.tmw = low_bits(data.ppu.tmw);
        self.tsw = low_bits(data.ppu.tsw);

        let cgwsel = data.ppu.cgwsel;
        self.cgw_clip = cgwsel >> 6;
        self.cgw_prevent = (cgwsel >> 4) & 0b11;
        self.cgw_subscreen = cgwsel & 0x02 != 0;
        self.cgw_direct_color = cgwsel & 0x01 != 0;

        let cgadsub = data.ppu.cgadsub;
        self.math_add_sub = cgadsub >> 7;
        self.half_math = (cgadsub >> 6) & 1 != 0;
        self.color_math = low_bits(cgadsub);

        write_register_rows(&mut self.regs, &data.ppu);
        assert(self.regs.deep_view().take(REGISTER_COUNT as int) =~= register_rows(data.ppu));
    }
}

/// Bounds on the fields of a register, as the controls rely on them.
proof fn lemma_field_bounds(raw: u8)
    by (bit_vector)
    ensures
        raw & 0x0f <= 15,
        (raw & 0b11100000) >> 5 <= 7,
        raw & 0b111 <= 7,
        (raw & 0xf0) >> 4 <= 15,
        raw >> 6 <= 3,
        (raw >> 4) & 0b11 <= 3,
        raw >> 7 <= 1,
        raw & (0x80u8 << 1u8) == 0,
        raw & (0x80u8 << 2u8) == 0,
        raw & (0x80u8 << 3u8) == 0,
        raw & (0x80u8 << 4u8) == 0,
{
}

/// Every entry that the controls show lies within its list: brightness up
/// to 15, eight object sizes, eight background modes, sixteen mosaic
/// sizes, four places each for clipping and preventing, two operations.
/// The tile size shown for each background is the first of its list.
pub proof fn lemma_entries_in_range(tab: PpuRegs, ppu: RegisterSnapshot)
    requires
        tab.shows(ppu),
    ensures
        tab.brightness <= 15,
        tab.objsize <= 7,
        tab.bgmode <= 7,
        tab.mosaicsize <= 15,
        tab.cgw_clip <= 3,
        tab.cgw_prevent <= 3,
        tab.math_add_sub <= 1,
        forall|i: int| 0 <= i < BACKGROUNDS ==> tab.bg_tilesizes[i] == 0,
{
    lemma_field_bounds(ppu.inidisp);
    lemma_field_bounds(ppu.obsel);
    lemma_field_bounds(ppu.bgmode);
    lemma_field_bounds(ppu.mosaic);
    lemma_field_bounds(ppu.cgwsel);
    lemma_field_bounds(ppu.cgadsub);
    assert forall|i: int| 0 <= i < BACKGROUNDS implies tab.bg_tilesizes[i] == 0 by {
        assert(tab.bg_tilesizes[i] == bg_tile_size_entry(ppu.bgmode, i + 1));
        assert(i == 0 || i == 1 || i == 2 || i == 3);
    }
}

} // verus!
