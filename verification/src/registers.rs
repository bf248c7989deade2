//! Raw values of the video unit's registers, as read after a frame.

use vstd::prelude::*;

verus! {

/// The video registers that the inspector shows, each with its raw value.
#[derive(Clone, Copy, Debug, PartialEq, Eq, Structural)]
pub struct RegisterSnapshot {
    /// `$2100`: forced blank and brightness.
    pub inidisp: u8,
    /// `$2101`: object size and object tile tables.
    pub obsel: u8,
    /// `$2105`: background mode and tile sizes.
    pub bgmode: u8,
    /// `$2106`: mosaic size and the backgrounds it applies to.
    pub mosaic: u8,
    /// `$211a`: mode 7 settings.
    pub m7sel: u8,
    /// `$2123`: window masks of backgrounds 1 and 2.
    pub w12sel: u8,
    /// `$2124`: window masks of backgrounds 3 and 4.
    pub w34sel: u8,
    /// `$2125`: window masks of objects and of colour math.
    pub wobjsel: u8,
    /// `$212a`: window logic of the backgrounds.
    pub wbglog: u8,
    /// `$212b`: window logic of objects and of colour math.
    pub wobjlog: u8,
    /// `$212c`: layers on the main screen.
    pub tm: u8,
    /// `$212d`: layers on the sub screen.
    pub ts: u8,
    /// `$212e`: layers the windows mask on the main screen.
    pub tmw: u8,
    /// `$212f`: layers the windows mask on the sub screen.
    pub tsw: u8,
    /// `$2130`: colour math control.
    pub cgwsel: u8,
    /// `$2131`: colour math operation and layers.
    pub cgadsub: u8,
    /// `$2133`: display settings.
    pub setini: u8,
}

/// Number of registers in a snapshot.
pub const REGISTER_COUNT: usize = 17;

/// Bus address of the register at position `i` of a snapshot.
pub open spec fn register_addr(i: int) -> u16 {
    if i == 0 {
        0x2100
    } else if i == 1 {
        0x2101
    } else if i == 2 {
        0x2105
    } else if i == 3 {
        0x2106
    } else if i == 4 {
        0x211a
    } else if i == 5 {
        0x2123
    } else if i == 6 {
        0x2124
    } else if i == 7 {
        0x2125
    } else if i == 8 {
        0x212a
    } else if i == 9 {
        0x212b
    } else if i == 10 {
        0x212c
    } else if i == 11 {
        0x212d
    } else if i == 12 {
        0x212e
    } else if i == 13 {
        0x212f
    } else if i == 14 {
        0x2130
    } else if i == 15 {
        0x2131
    } else {
        0x2133
    }
}

/// Name of the register at position `i` of a snapshot.
pub open spec fn register_name(i: int) -> Seq<char> {
    if i == 0 {
        "INIDISP"@
    } else if i == 1 {
        "OBSEL"@
    } else if i == 2 {
        "BGMODE"@
    } else if i == 3 {
        "MOSAIC"@
    } else if i == 4 {
        "M7SEL"@
    } else if i == 5 {
        "W12SEL"@
    } else if i == 6 {
        "W34SEL"@
    } else if i == 7 {
        "WOBJSEL"@
    } else if i == 8 {
        "WBGLOG"@
    } else if i == 9 {
        "WOBJLOG"@
    } else if i == 10 {
        "TM"@
    } else if i == 11 {
        "TS"@
    } else if i == 12 {
        "TMW"@
    } else if i == 13 {
        "TSW"@
    } else if i == 14 {
        "CGWSEL"@
    } else if i == 15 {
        "CGADSUB"@
    } else {
        "SETINI"@
    }
}

/// Position in a snapshot of the register at bus address `addr`, if the
/// snapshot holds it.
pub open spec fn register_index(addr: u16) -> Option<int> {
    if exists|i: int| 0 <= i < REGISTER_COUNT && register_addr(i) == addr {
        Some(choose|i: int| 0 <= i < REGISTER_COUNT && register_addr(i) == addr)
    } else {
        None
    }
}

/// The two object sizes, small and large, that size selection `sel` offers;
/// each is width and height in pixels.
pub open spec fn obj_size_pair(sel: int) -> ((u8, u8), (u8, u8)) {
    if sel == 0 {
        ((8, 8), (16, 16))
    } else if sel == 1 {
        ((8, 8), (32, 32))
    } else if sel == 2 {
        ((8, 8), (64, 64))
    } else if sel == 3 {
        ((16, 16), (32, 32))
    } else if sel == 4 {
        ((16, 16), (64, 64))
    } else if sel == 5 {
        ((32, 32), (64, 64))
    } else if sel == 6 {
        ((16, 32), (32, 64))
    } else {
        ((16, 32), (32, 32))
    }
}

/// Size selection held in the top three bits of `obsel`.
pub open spec fn obj_size_select(obsel: u8) -> int {
    obsel as int / 32
}

/// Pixel dimensions of an object under `obsel`: the large size where
/// `size_toggle` is set, the small one where it is not.
pub open spec fn obj_size_of(obsel: u8, size_toggle: bool) -> (u8, u8) {
    if size_toggle {
        obj_size_pair(obj_size_select(obsel)).1
    } else {
        obj_size_pair(obj_size_select(obsel)).0
    }
}

impl RegisterSnapshot {
    /// The raw values, in the order of `register_addr`.
    pub open spec fn values(&self) -> Seq<u8> {
        seq![
            self.inidisp,
            self.obsel,
            self.bgmode,
            self.mosaic,
            self.m7sel,
            self.w12sel,
            self.w34sel,
            self.wobjsel,
            self.wbglog,
            self.wobjlog,
            self.tm,
            self.ts,
            self.tmw,
            self.tsw,
            self.cgwsel,
            self.cgadsub,
            self.setini,
        ]
    }

    /// The snapshot as a mapping from bus address to raw value.
    pub open spec fn view(&self) -> Map<u16, u8> {
        Map::new(
            |addr: u16| register_index(addr) is Some,
            |addr: u16| self.values()[register_index(addr).unwrap()],
        )
    }

    /// Bus address of the register at position `i`.
    pub fn addr(i: usize) -> (addr: u16)
        requires
            i < REGISTER_COUNT,
        ensures
            addr == register_addr(i as int),
    {
        match i {
            0 => 0x2100,
            1 => 0x2101,
            2 => 0x2105,
            3 => 0x2106,
            4 => 0x211a,
            5 => 0x2123,
            6 => 0x2124,
            7 => 0x2125,
            8 => 0x212a,
            9 => 0x212b,
            10 => 0x212c,
            11 => 0x212d,
            12 => 0x212e,
            13 => 0x212f,
            14 => 0x2130,
            15 => 0x2131,
            _ => 0x2133,
        }
    }

    /// Name of the register at position `i`.
    pub fn name(i: usize) -> (name: &'static str)
        requires
            i < REGISTER_COUNT,
        ensures
            name@ == register_name(i as int),
    {
        match i {
            0 => "INIDISP",
            1 => "OBSEL",
            2 => "BGMODE",
            3 => "MOSAIC",
            4 => "M7SEL",
            5 => "W12SEL",
            6 => "W34SEL",
            7 => "WOBJSEL",
            8 => "WBGLOG",
            9 => "WOBJLOG",
            10 => "TM",
            11 => "TS",
            12 => "TMW",
            13 => "TSW",
            14 => "CGWSEL",
            15 => "CGADSUB",
            _ => "SETINI",
        }
    }

    /// Raw value of the register at position `i`.
    pub fn value(&self, i: usize) -> (raw: u8)
        requires
            i < REGISTER_COUNT,
        ensures
            raw == self.values()[i as int],
    {
        match i {
            0 => self.inidisp,
            1 => self.obsel,
            2 => self.bgmode,
            3 => self.mosaic,
            4 => self.m7sel,
            5 => self.w12sel,
            6 => self.w34sel,
            7 => self.wobjsel,
            8 => self.wbglog,
            9 => self.wobjlog,
            10 => self.tm,
            11 => self.ts,
            12 => self.tmw,
            13 => self.tsw,
            14 => self.cgwsel,
            15 => self.cgadsub,
            _ => self.setini,
        }
    }

    /// Raw value of the register at bus address `addr`, if the snapshot
    /// holds that register.
    pub fn get(&self, addr: u16) -> (raw: Option<u8>)
        ensures
            raw is Some <==> self@.dom().contains(addr),
            raw matches Some(v) ==> v == self@[addr],
    {
        let mut i: usize = 0;
        while i < REGISTER_COUNT
            invariant
                i <= REGISTER_COUNT,
                forall|k: int| 0 <= k < i ==> register_addr(k) != addr,
            decreases REGISTER_COUNT - i,
        {
            if Self::addr(i) == addr {
                proof {
                    let k = register_index(addr).unwrap();
                    assert(0 <= k < REGISTER_COUNT && register_addr(k) == addr);
                    assert(k == i);
                }
                return Some(self.value(i));
            }
            i += 1;
        }
        None
    }

    /// Pixel dimensions of an object with the given size toggle.
    pub fn obj_size(&self, size_toggle: bool) -> (size: (u8, u8))
        ensures
            size == obj_size_of(self.obsel, size_toggle),
    {
        let pair: ((u8, u8), (u8, u8)) = match self.obsel / 32 {
            0 => ((8, 8), (16, 16)),
            1 => ((8, 8), (32, 32)),
            2 => ((8, 8), (64, 64)),
            3 => ((16, 16), (32, 32)),
            4 => ((16, 16), (64, 64)),
            5 => ((32, 32), (64, 64)),
            6 => ((16, 32), (32, 64)),
            _ => ((16, 32), (32, 32)),
        };
        if size_toggle {
            pair.1
        } else {
            pair.0
        }
    }
}

} // verus!
